//! Names, metadata and indices of the brush settings, the brush inputs and
//! the brush states.
//!
//! Every setting and input has a short identifier (its `cname`) by which
//! brush files refer to it, a display name, a tooltip, and the range of its
//! values. Values in these tables are given in thousandths (see
//! [`VALUE_SCALE`]).
use vstd::prelude::*;

verus! {

/// Values in the metadata tables are integers in units of `1 / VALUE_SCALE`.
pub const VALUE_SCALE: i32 = 1000;

/// Number of brush settings.
pub const BRUSH_SETTINGS_COUNT: usize = 65;

/// Number of brush inputs.
pub const BRUSH_INPUTS_COUNT: usize = 18;

/// Number of brush states.
pub const BRUSH_STATES_COUNT: usize = 44;

/// Input channels available to the brush engine.
#[derive(Debug, Clone, Copy, PartialEq, Eq, Hash, Structural)]
pub enum BrushInput {
    Pressure,
    Speed1,
    Speed2,
    Random,
    Stroke,
    Direction,
    TiltDeclination,
    TiltAscension,
    Custom,
    DirectionAngle,
    AttackAngle,
    TiltDeclinationx,
    TiltDeclinationy,
    GridmapX,
    GridmapY,
    Viewzoom,
    BarrelRotation,
    BrushRadius,
}

/// Brush parameter settings.
#[derive(Debug, Clone, Copy, PartialEq, Eq, Hash, Structural)]
pub enum BrushSetting {
    Opaque,
    OpaqueMultiply,
    OpaqueLinearize,
    RadiusLogarithmic,
    Hardness,
    Softness,
    AntiAliasing,
    DabsPerBasicRadius,
    DabsPerActualRadius,
    DabsPerSecond,
    GridmapScale,
    GridmapScaleX,
    GridmapScaleY,
    RadiusByRandom,
    Speed1Slowness,
    Speed2Slowness,
    Speed1Gamma,
    Speed2Gamma,
    OffsetByRandom,
    OffsetY,
    OffsetX,
    OffsetAngle,
    OffsetAngleAsc,
    OffsetAngleView,
    OffsetAngle2,
    OffsetAngle2Asc,
    OffsetAngle2View,
    OffsetAngleAdj,
    OffsetMultiplier,
    OffsetBySpeed,
    OffsetBySpeedSlowness,
    SlowTracking,
    SlowTrackingPerDab,
    TrackingNoise,
    ColorH,
    ColorS,
    ColorV,
    RestoreColor,
    ChangeColorH,
    ChangeColorL,
    ChangeColorHslS,
    ChangeColorV,
    ChangeColorHsvS,
    Smudge,
    PaintMode,
    SmudgeTransparency,
    SmudgeLength,
    SmudgeRadiusLog,
    SmudgeLengthLog,
    SmudgeBucket,
    Eraser,
    StrokeThreshold,
    StrokeDurationLogarithmic,
    StrokeHoldtime,
    CustomInput,
    CustomInputSlowness,
    EllipticalDabRatio,
    EllipticalDabAngle,
    DirectionFilter,
    LockAlpha,
    Colorize,
    Posterize,
    PosterizeNum,
    SnapToPixel,
    PressureGainLog,
}

/// Brush state variables; new ones are only ever appended, so that indices stay stable.
#[derive(Debug, Clone, Copy, PartialEq, Eq, Hash, Structural)]
pub enum BrushState {
    X,
    Y,
    Pressure,
    PartialDabs,
    ActualRadius,
    SmudgeRa,
    SmudgeGa,
    SmudgeBa,
    SmudgeA,
    LastGetcolorR,
    LastGetcolorG,
    LastGetcolorB,
    LastGetcolorA,
    LastGetcolorRecentness,
    ActualX,
    ActualY,
    NormDxSlow,
    NormDySlow,
    NormSpeed1Slow,
    NormSpeed2Slow,
    Stroke,
    StrokeStarted,
    CustomInput,
    RngSeed,
    ActualEllipticalDabRatio,
    ActualEllipticalDabAngle,
    DirectionDx,
    DirectionDy,
    Declination,
    Ascension,
    Viewzoom,
    Viewrotation,
    DirectionAngleDx,
    DirectionAngleDy,
    AttackAngle,
    Declinationx,
    Declinationy,
    DabsPerBasicRadius,
    DabsPerActualRadius,
    DabsPerSecond,
    GridmapX,
    GridmapY,
    BarrelRotation,
    Flip,
}

/// Metadata of a brush input channel; numbers are in thousandths.
#[derive(Debug, Clone, Copy, PartialEq, Eq)]
pub struct BrushInputInfo {
    pub cname: &'static str,
    pub hard_min: Option<i32>,
    pub soft_min: i32,
    pub normal: i32,
    pub soft_max: i32,
    pub hard_max: Option<i32>,
    pub name: &'static str,
    pub tooltip: &'static str,
}

/// Metadata of a brush setting; numbers are in thousandths.
#[derive(Debug, Clone, Copy, PartialEq, Eq)]
pub struct BrushSettingInfo {
    pub cname: &'static str,
    pub name: &'static str,
    pub constant: bool,
    pub min: i32,
    pub default: i32,
    pub max: i32,
    pub tooltip: &'static str,
}

/// The two strings hold the same characters.
fn same_text(a: &str, b: &str) -> (same: bool)
    ensures
        same == (a@ == b@),
{
    let x = a.as_bytes();
    let y = b.as_bytes();
    proof {
        vstd::utf8::encode_utf8_decode_utf8(a@);
        vstd::utf8::encode_utf8_decode_utf8(b@);
    }
    if x.len() != y.len() {
        return false;
    }
    let mut i: usize = 0;
    while i < x.len()
        invariant
            x@ == vstd::utf8::encode_utf8(a@),
            y@ == vstd::utf8::encode_utf8(b@),
            x@.len() == y@.len(),
            i <= x@.len(),
            forall|k: int| 0 <= k < i ==> x@[k] == y@[k],
        decreases x@.len() - i,
    {
        if x[i] != y[i] {
            return false;
        }
        i = i + 1;
    }
    assert(x@ =~= y@);
    true
}

impl BrushSetting {
    /// The position of this value in the table of all BrushSetting values.
    pub open spec fn to_index(self) -> int {
        match self {
            BrushSetting::Opaque => 0,
            BrushSetting::OpaqueMultiply => 1,
            BrushSetting::OpaqueLinearize => 2,
            BrushSetting::RadiusLogarithmic => 3,
            BrushSetting::Hardness => 4,
            BrushSetting::Softness => 5,
            BrushSetting::AntiAliasing => 6,
            BrushSetting::DabsPerBasicRadius => 7,
            BrushSetting::DabsPerActualRadius => 8,
            BrushSetting::DabsPerSecond => 9,
            BrushSetting::GridmapScale => 10,
            BrushSetting::GridmapScaleX => 11,
            BrushSetting::GridmapScaleY => 12,
            BrushSetting::RadiusByRandom => 13,
            BrushSetting::Speed1Slowness => 14,
            BrushSetting::Speed2Slowness => 15,
            BrushSetting::Speed1Gamma => 16,
            BrushSetting::Speed2Gamma => 17,
            BrushSetting::OffsetByRandom => 18,
            BrushSetting::OffsetY => 19,
            BrushSetting::OffsetX => 20,
            BrushSetting::OffsetAngle => 21,
            BrushSetting::OffsetAngleAsc => 22,
            BrushSetting::OffsetAngleView => 23,
            BrushSetting::OffsetAngle2 => 24,
            BrushSetting::OffsetAngle2Asc => 25,
            BrushSetting::OffsetAngle2View => 26,
            BrushSetting::OffsetAngleAdj => 27,
            BrushSetting::OffsetMultiplier => 28,
            BrushSetting::OffsetBySpeed => 29,
            BrushSetting::OffsetBySpeedSlowness => 30,
            BrushSetting::SlowTracking => 31,
            BrushSetting::SlowTrackingPerDab => 32,
            BrushSetting::TrackingNoise => 33,
            BrushSetting::ColorH => 34,
            BrushSetting::ColorS => 35,
            BrushSetting::ColorV => 36,
            BrushSetting::RestoreColor => 37,
            BrushSetting::ChangeColorH => 38,
            BrushSetting::ChangeColorL => 39,
            BrushSetting::ChangeColorHslS => 40,
            BrushSetting::ChangeColorV => 41,
            BrushSetting::ChangeColorHsvS => 42,
            BrushSetting::Smudge => 43,
            BrushSetting::PaintMode => 44,
            BrushSetting::SmudgeTransparency => 45,
            BrushSetting::SmudgeLength => 46,
            BrushSetting::SmudgeRadiusLog => 47,
            BrushSetting::SmudgeLengthLog => 48,
            BrushSetting::SmudgeBucket => 49,
            BrushSetting::Eraser => 50,
            BrushSetting::StrokeThreshold => 51,
            BrushSetting::StrokeDurationLogarithmic => 52,
            BrushSetting::StrokeHoldtime => 53,
            BrushSetting::CustomInput => 54,
            BrushSetting::CustomInputSlowness => 55,
            BrushSetting::EllipticalDabRatio => 56,
            BrushSetting::EllipticalDabAngle => 57,
            BrushSetting::DirectionFilter => 58,
            BrushSetting::LockAlpha => 59,
            BrushSetting::Colorize => 60,
            BrushSetting::Posterize => 61,
            BrushSetting::PosterizeNum => 62,
            BrushSetting::SnapToPixel => 63,
            BrushSetting::PressureGainLog => 64,
        }
    }

    /// The value at position `i` of the table, if there is one.
    pub open spec fn of_index(i: int) -> Option<BrushSetting> {
        if i == 0 {
            Some(BrushSetting::Opaque)
        } else if i == 1 {
            Some(BrushSetting::OpaqueMultiply)
        } else if i == 2 {
            Some(BrushSetting::OpaqueLinearize)
        } else if i == 3 {
            Some(BrushSetting::RadiusLogarithmic)
        } else if i == 4 {
            Some(BrushSetting::Hardness)
        } else if i == 5 {
            Some(BrushSetting::Softness)
        } else if i == 6 {
            Some(BrushSetting::AntiAliasing)
        } else if i == 7 {
            Some(BrushSetting::DabsPerBasicRadius)
        } else if i == 8 {
            Some(BrushSetting::DabsPerActualRadius)
        } else if i == 9 {
            Some(BrushSetting::DabsPerSecond)
        } else if i == 10 {
            Some(BrushSetting::GridmapScale)
        } else if i == 11 {
            Some(BrushSetting::GridmapScaleX)
        } else if i == 12 {
            Some(BrushSetting::GridmapScaleY)
        } else if i == 13 {
            Some(BrushSetting::RadiusByRandom)
        } else if i == 14 {
            Some(BrushSetting::Speed1Slowness)
        } else if i == 15 {
            Some(BrushSetting::Speed2Slowness)
        } else if i == 16 {
            Some(BrushSetting::Speed1Gamma)
        } else if i == 17 {
            Some(BrushSetting::Speed2Gamma)
        } else if i == 18 {
            Some(BrushSetting::OffsetByRandom)
        } else if i == 19 {
            Some(BrushSetting::OffsetY)
        } else if i == 20 {
            Some(BrushSetting::OffsetX)
        } else if i == 21 {
            Some(BrushSetting::OffsetAngle)
        } else if i == 22 {
            Some(BrushSetting::OffsetAngleAsc)
        } else if i == 23 {
            Some(BrushSetting::OffsetAngleView)
        } else if i == 24 {
            Some(BrushSetting::OffsetAngle2)
        } else if i == 25 {
            Some(BrushSetting::OffsetAngle2Asc)
        } else if i == 26 {
            Some(BrushSetting::OffsetAngle2View)
        } else if i == 27 {
            Some(BrushSetting::OffsetAngleAdj)
        } else if i == 28 {
            Some(BrushSetting::OffsetMultiplier)
        } else if i == 29 {
            Some(BrushSetting::OffsetBySpeed)
        } else if i == 30 {
            Some(BrushSetting::OffsetBySpeedSlowness)
        } else if i == 31 {
            Some(BrushSetting::SlowTracking)
        } else if i == 32 {
            Some(BrushSetting::SlowTrackingPerDab)
        } else if i == 33 {
            Some(BrushSetting::TrackingNoise)
        } else if i == 34 {
            Some(BrushSetting::ColorH)
        } else if i == 35 {
            Some(BrushSetting::ColorS)
        } else if i == 36 {
            Some(BrushSetting::ColorV)
        } else if i == 37 {
            Some(BrushSetting::RestoreColor)
        } else if i == 38 {
            Some(BrushSetting::ChangeColorH)
        } else if i == 39 {
            Some(BrushSetting::ChangeColorL)
        } else if i == 40 {
            Some(BrushSetting::ChangeColorHslS)
        } else if i == 41 {
            Some(BrushSetting::ChangeColorV)
        } else if i == 42 {
            Some(BrushSetting::ChangeColorHsvS)
        } else if i == 43 {
            Some(BrushSetting::Smudge)
        } else if i == 44 {
            Some(BrushSetting::PaintMode)
        } else if i == 45 {
            Some(BrushSetting::SmudgeTransparency)
        } else if i == 46 {
            Some(BrushSetting::SmudgeLength)
        } else if i == 47 {
            Some(BrushSetting::SmudgeRadiusLog)
        } else if i == 48 {
            Some(BrushSetting::SmudgeLengthLog)
        } else if i == 49 {
            Some(BrushSetting::SmudgeBucket)
        } else if i == 50 {
            Some(BrushSetting::Eraser)
        } else if i == 51 {
            Some(BrushSetting::StrokeThreshold)
        } else if i == 52 {
            Some(BrushSetting::StrokeDurationLogarithmic)
        } else if i == 53 {
            Some(BrushSetting::StrokeHoldtime)
        } else if i == 54 {
            Some(BrushSetting::CustomInput)
        } else if i == 55 {
            Some(BrushSetting::CustomInputSlowness)
        } else if i == 56 {
            Some(BrushSetting::EllipticalDabRatio)
        } else if i == 57 {
            Some(BrushSetting::EllipticalDabAngle)
        } else if i == 58 {
            Some(BrushSetting::DirectionFilter)
        } else if i == 59 {
            Some(BrushSetting::LockAlpha)
        } else if i == 60 {
            Some(BrushSetting::Colorize)
        } else if i == 61 {
            Some(BrushSetting::Posterize)
        } else if i == 62 {
            Some(BrushSetting::PosterizeNum)
        } else if i == 63 {
            Some(BrushSetting::SnapToPixel)
        } else if i == 64 {
            Some(BrushSetting::PressureGainLog)
        } else {
            None
        }
    }

    /// The position of this value in the table of all values.
    pub fn index(self) -> (i: usize)
        ensures
            i == self.to_index(),
    {
        match self {
            BrushSetting::Opaque => 0,
            BrushSetting::OpaqueMultiply => 1,
            BrushSetting::OpaqueLinearize => 2,
            BrushSetting::RadiusLogarithmic => 3,
            BrushSetting::Hardness => 4,
            BrushSetting::Softness => 5,
            BrushSetting::AntiAliasing => 6,
            BrushSetting::DabsPerBasicRadius => 7,
            BrushSetting::DabsPerActualRadius => 8,
            BrushSetting::DabsPerSecond => 9,
            BrushSetting::GridmapScale => 10,
            BrushSetting::GridmapScaleX => 11,
            BrushSetting::GridmapScaleY => 12,
            BrushSetting::RadiusByRandom => 13,
            BrushSetting::Speed1Slowness => 14,
            BrushSetting::Speed2Slowness => 15,
            BrushSetting::Speed1Gamma => 16,
            BrushSetting::Speed2Gamma => 17,
            BrushSetting::OffsetByRandom => 18,
            BrushSetting::OffsetY => 19,
            BrushSetting::OffsetX => 20,
            BrushSetting::OffsetAngle => 21,
            BrushSetting::OffsetAngleAsc => 22,
            BrushSetting::OffsetAngleView => 23,
            BrushSetting::OffsetAngle2 => 24,
            BrushSetting::OffsetAngle2Asc => 25,
            BrushSetting::OffsetAngle2View => 26,
            BrushSetting::OffsetAngleAdj => 27,
            BrushSetting::OffsetMultiplier => 28,
            BrushSetting::OffsetBySpeed => 29,
            BrushSetting::OffsetBySpeedSlowness => 30,
            BrushSetting::SlowTracking => 31,
            BrushSetting::SlowTrackingPerDab => 32,
            BrushSetting::TrackingNoise => 33,
            BrushSetting::ColorH => 34,
            BrushSetting::ColorS => 35,
            BrushSetting::ColorV => 36,
            BrushSetting::RestoreColor => 37,
            BrushSetting::ChangeColorH => 38,
            BrushSetting::ChangeColorL => 39,
            BrushSetting::ChangeColorHslS => 40,
            BrushSetting::ChangeColorV => 41,
            BrushSetting::ChangeColorHsvS => 42,
            BrushSetting::Smudge => 43,
            BrushSetting::PaintMode => 44,
            BrushSetting::SmudgeTransparency => 45,
            BrushSetting::SmudgeLength => 46,
            BrushSetting::SmudgeRadiusLog => 47,
            BrushSetting::SmudgeLengthLog => 48,
            BrushSetting::SmudgeBucket => 49,
            BrushSetting::Eraser => 50,
            BrushSetting::StrokeThreshold => 51,
            BrushSetting::StrokeDurationLogarithmic => 52,
            BrushSetting::StrokeHoldtime => 53,
            BrushSetting::CustomInput => 54,
            BrushSetting::CustomInputSlowness => 55,
            BrushSetting::EllipticalDabRatio => 56,
            BrushSetting::EllipticalDabAngle => 57,
            BrushSetting::DirectionFilter => 58,
            BrushSetting::LockAlpha => 59,
            BrushSetting::Colorize => 60,
            BrushSetting::Posterize => 61,
            BrushSetting::PosterizeNum => 62,
            BrushSetting::SnapToPixel => 63,
            BrushSetting::PressureGainLog => 64,
        }
    }

    /// The value at position `i` of the table; `None` past its end.
    pub fn from_index(i: usize) -> (r: Option<BrushSetting>)
        ensures
            r == BrushSetting::of_index(i as int),
    {
        match i {
            0 => Some(BrushSetting::Opaque),
            1 => Some(BrushSetting::OpaqueMultiply),
            2 => Some(BrushSetting::OpaqueLinearize),
            3 => Some(BrushSetting::RadiusLogarithmic),
            4 => Some(BrushSetting::Hardness),
            5 => Some(BrushSetting::Softness),
            6 => Some(BrushSetting::AntiAliasing),
            7 => Some(BrushSetting::DabsPerBasicRadius),
            8 => Some(BrushSetting::DabsPerActualRadius),
            9 => Some(BrushSetting::DabsPerSecond),
            10 => Some(BrushSetting::GridmapScale),
            11 => Some(BrushSetting::GridmapScaleX),
            12 => Some(BrushSetting::GridmapScaleY),
            13 => Some(BrushSetting::RadiusByRandom),
            14 => Some(BrushSetting::Speed1Slowness),
            15 => Some(BrushSetting::Speed2Slowness),
            16 => Some(BrushSetting::Speed1Gamma),
            17 => Some(BrushSetting::Speed2Gamma),
            18 => Some(BrushSetting::OffsetByRandom),
            19 => Some(BrushSetting::OffsetY),
            20 => Some(BrushSetting::OffsetX),
            21 => Some(BrushSetting::OffsetAngle),
            22 => Some(BrushSetting::OffsetAngleAsc),
            23 => Some(BrushSetting::OffsetAngleView),
            24 => Some(BrushSetting::OffsetAngle2),
            25 => Some(BrushSetting::OffsetAngle2Asc),
            26 => Some(BrushSetting::OffsetAngle2View),
            27 => Some(BrushSetting::OffsetAngleAdj),
            28 => Some(BrushSetting::OffsetMultiplier),
            29 => Some(BrushSetting::OffsetBySpeed),
            30 => Some(BrushSetting::OffsetBySpeedSlowness),
            31 => Some(BrushSetting::SlowTracking),
            32 => Some(BrushSetting::SlowTrackingPerDab),
            33 => Some(BrushSetting::TrackingNoise),
            34 => Some(BrushSetting::ColorH),
            35 => Some(BrushSetting::ColorS),
            36 => Some(BrushSetting::ColorV),
            37 => Some(BrushSetting::RestoreColor),
            38 => Some(BrushSetting::ChangeColorH),
            39 => Some(BrushSetting::ChangeColorL),
            40 => Some(BrushSetting::ChangeColorHslS),
            41 => Some(BrushSetting::ChangeColorV),
            42 => Some(BrushSetting::ChangeColorHsvS),
            43 => Some(BrushSetting::Smudge),
            44 => Some(BrushSetting::PaintMode),
            45 => Some(BrushSetting::SmudgeTransparency),
            46 => Some(BrushSetting::SmudgeLength),
            47 => Some(BrushSetting::SmudgeRadiusLog),
            48 => Some(BrushSetting::SmudgeLengthLog),
            49 => Some(BrushSetting::SmudgeBucket),
            50 => Some(BrushSetting::Eraser),
            51 => Some(BrushSetting::StrokeThreshold),
            52 => Some(BrushSetting::StrokeDurationLogarithmic),
            53 => Some(BrushSetting::StrokeHoldtime),
            54 => Some(BrushSetting::CustomInput),
            55 => Some(BrushSetting::CustomInputSlowness),
            56 => Some(BrushSetting::EllipticalDabRatio),
            57 => Some(BrushSetting::EllipticalDabAngle),
            58 => Some(BrushSetting::DirectionFilter),
            59 => Some(BrushSetting::LockAlpha),
            60 => Some(BrushSetting::Colorize),
            61 => Some(BrushSetting::Posterize),
            62 => Some(BrushSetting::PosterizeNum),
            63 => Some(BrushSetting::SnapToPixel),
            64 => Some(BrushSetting::PressureGainLog),
            _ => None,
        }
    }

    /// Indices and values correspond one to one, and the table has exactly
    /// `65` entries.
    pub proof fn lemma_index_roundtrip(self)
        ensures
            0 <= self.to_index() < 65,
            BrushSetting::of_index(self.to_index()) == Some(self),
    {
    }

    /// Every index below the count names a value, whose index it is;
    /// no other index names one.
    pub proof fn lemma_of_index(i: int)
        ensures
            BrushSetting::of_index(i) is Some <==> 0 <= i < 65,
            BrushSetting::of_index(i) is Some ==> BrushSetting::of_index(i).unwrap().to_index() == i,
    {
    }

    /// The metadata of this setting.
    pub open spec fn info_of(self) -> BrushSettingInfo {
        match self {
            BrushSetting::Opaque => BrushSettingInfo {
                cname: "opaque",
                name: "Opacity",
                constant: false,
                min: 0i32,
                default: 1000i32,
                max: 2000i32,
                tooltip: "0 means the brush is transparent, 1 fully visible (also known as alpha or opacity)",
            },
            BrushSetting::OpaqueMultiply => BrushSettingInfo {
                cname: "opaque_multiply",
                name: "Opacity multiply",
                constant: false,
                min: 0i32,
                default: 0i32,
                max: 2000i32,
                tooltip: "Multiplied with the opacity; meant to be driven by pressure or another input",
            },
            BrushSetting::OpaqueLinearize => BrushSettingInfo {
                cname: "opaque_linearize",
                name: "Opacity linearize",
                constant: true,
                min: 0i32,
                default: 900i32,
                max: 2000i32,
                tooltip: "Corrects the nonlinearity of blending many dabs on top of each other",
            },
            BrushSetting::RadiusLogarithmic => BrushSettingInfo {
                cname: "radius_logarithmic",
                name: "Radius",
                constant: false,
                min: -2000i32,
                default: 2000i32,
                max: 6000i32,
                tooltip: "Basic brush radius (logarithmic): 0.7 means 2 pixels, 3.0 means 20 pixels",
            },
            BrushSetting::Hardness => BrushSettingInfo {
                cname: "hardness",
                name: "Hardness",
                constant: false,
                min: 0i32,
                default: 800i32,
                max: 1000i32,
                tooltip: "Hard brush-circle borders; 0 paints nothing at the border",
            },
            BrushSetting::Softness => BrushSettingInfo {
                cname: "softness",
                name: "Softness",
                constant: false,
                min: 0i32,
                default: 0i32,
                max: 1000i32,
                tooltip: "Reduces hardness toward the edge of the dab",
            },
            BrushSetting::AntiAliasing => BrushSettingInfo {
                cname: "anti_aliasing",
                name: "Pixel feather",
                constant: false,
                min: 0i32,
                default: 1000i32,
                max: 5000i32,
                tooltip: "Blurs the dab edge by this many pixels to reduce staircase artifacts",
            },
            BrushSetting::DabsPerBasicRadius => BrushSettingInfo {
                cname: "dabs_per_basic_radius",
                name: "Dabs per basic radius",
                constant: true,
                min: 0i32,
                default: 0i32,
                max: 6000i32,
                tooltip: "How many dabs to draw while the pointer moves a distance of one basic radius",
            },
            BrushSetting::DabsPerActualRadius => BrushSettingInfo {
                cname: "dabs_per_actual_radius",
                name: "Dabs per actual radius",
                constant: true,
                min: 0i32,
                default: 2000i32,
                max: 6000i32,
                tooltip: "How many dabs to draw while the pointer moves a distance of one actual radius",
            },
            BrushSetting::DabsPerSecond => BrushSettingInfo {
                cname: "dabs_per_second",
                name: "Dabs per second",
                constant: true,
                min: 0i32,
                default: 0i32,
                max: 80000i32,
                tooltip: "Dabs to draw each second, no matter how far the pointer moves",
            },
            BrushSetting::GridmapScale => BrushSettingInfo {
                cname: "gridmap_scale",
                name: "GridMap Scale",
                constant: false,
                min: -10000i32,
                default: 0i32,
                max: 10000i32,
                tooltip: "Changes the overall scale that the GridMap input works on (logarithmic)",
            },
            BrushSetting::GridmapScaleX => BrushSettingInfo {
                cname: "gridmap_scale_x",
                name: "GridMap Scale X",
                constant: false,
                min: 0i32,
                default: 1000i32,
                max: 10000i32,
                tooltip: "Changes the horizontal scale that the GridMap input works on",
            },
            BrushSetting::GridmapScaleY => BrushSettingInfo {
                cname: "gridmap_scale_y",
                name: "GridMap Scale Y",
                constant: false,
                min: 0i32,
                default: 1000i32,
                max: 10000i32,
                tooltip: "Changes the vertical scale that the GridMap input works on",
            },
            BrushSetting::RadiusByRandom => BrushSettingInfo {
                cname: "radius_by_random",
                name: "Radius by random",
                constant: false,
                min: 0i32,
                default: 0i32,
                max: 1500i32,
                tooltip: "Alters the radius randomly for each dab",
            },
            BrushSetting::Speed1Slowness => BrushSettingInfo {
                cname: "speed1_slowness",
                name: "Fine speed filter",
                constant: false,
                min: 0i32,
                default: 40i32,
                max: 200i32,
                tooltip: "How slowly the fine speed input follows the real speed",
            },
            BrushSetting::Speed2Slowness => BrushSettingInfo {
                cname: "speed2_slowness",
                name: "Gross speed filter",
                constant: false,
                min: 0i32,
                default: 800i32,
                max: 3000i32,
                tooltip: "How slowly the gross speed input follows the real speed",
            },
            BrushSetting::Speed1Gamma => BrushSettingInfo {
                cname: "speed1_gamma",
                name: "Fine speed gamma",
                constant: true,
                min: -8000i32,
                default: 4000i32,
                max: 8000i32,
                tooltip: "Changes the reaction of the fine speed input to extreme physical speeds",
            },
            BrushSetting::Speed2Gamma => BrushSettingInfo {
                cname: "speed2_gamma",
                name: "Gross speed gamma",
                constant: true,
                min: -8000i32,
                default: 4000i32,
                max: 8000i32,
                tooltip: "Changes the reaction of the gross speed input to extreme physical speeds",
            },
            BrushSetting::OffsetByRandom => BrushSettingInfo {
                cname: "offset_by_random",
                name: "Jitter",
                constant: false,
                min: 0i32,
                default: 0i32,
                max: 25000i32,
                tooltip: "Adds a random offset to the position where each dab is drawn",
            },
            BrushSetting::OffsetY => BrushSettingInfo {
                cname: "offset_y",
                name: "Offset Y",
                constant: false,
                min: -40000i32,
                default: 0i32,
                max: 40000i32,
                tooltip: "Moves the dabs up or down based on canvas coordinates",
            },
            BrushSetting::OffsetX => BrushSettingInfo {
                cname: "offset_x",
                name: "Offset X",
                constant: false,
                min: -40000i32,
                default: 0i32,
                max: 40000i32,
                tooltip: "Moves the dabs left or right based on canvas coordinates",
            },
            BrushSetting::OffsetAngle => BrushSettingInfo {
                cname: "offset_angle",
                name: "Angular Offset: Direction",
                constant: false,
                min: -40000i32,
                default: 0i32,
                max: 40000i32,
                tooltip: "Follows the stroke direction to offset the dabs to one side",
            },
            BrushSetting::OffsetAngleAsc => BrushSettingInfo {
                cname: "offset_angle_asc",
                name: "Angular Offset: Ascension",
                constant: false,
                min: -40000i32,
                default: 0i32,
                max: 40000i32,
                tooltip: "Follows the tilt direction to offset the dabs to one side",
            },
            BrushSetting::OffsetAngleView => BrushSettingInfo {
                cname: "offset_angle_view",
                name: "Angular Offset: View",
                constant: false,
                min: -40000i32,
                default: 0i32,
                max: 40000i32,
                tooltip: "Follows the view orientation to offset the dabs to one side",
            },
            BrushSetting::OffsetAngle2 => BrushSettingInfo {
                cname: "offset_angle_2",
                name: "Angular Offset Mirrored: Direction",
                constant: false,
                min: 0i32,
                default: 0i32,
                max: 40000i32,
                tooltip: "Follows the stroke direction, alternating sides on every dab",
            },
            BrushSetting::OffsetAngle2Asc => BrushSettingInfo {
                cname: "offset_angle_2_asc",
                name: "Angular Offset Mirrored: Ascension",
                constant: false,
                min: 0i32,
                default: 0i32,
                max: 40000i32,
                tooltip: "Follows the tilt direction, alternating sides on every dab",
            },
            BrushSetting::OffsetAngle2View => BrushSettingInfo {
                cname: "offset_angle_2_view",
                name: "Angular Offset Mirrored: View",
                constant: false,
                min: 0i32,
                default: 0i32,
                max: 40000i32,
                tooltip: "Follows the view orientation, alternating sides on every dab",
            },
            BrushSetting::OffsetAngleAdj => BrushSettingInfo {
                cname: "offset_angle_adj",
                name: "Angular Offsets Adjustment",
                constant: false,
                min: -180000i32,
                default: 0i32,
                max: 180000i32,
                tooltip: "Changes the angle of the angular offsets from their default of 90 degrees",
            },
            BrushSetting::OffsetMultiplier => BrushSettingInfo {
                cname: "offset_multiplier",
                name: "Offsets Multiplier",
                constant: false,
                min: -2000i32,
                default: 0i32,
                max: 3000i32,
                tooltip: "Logarithmic multiplier for the offset settings",
            },
            BrushSetting::OffsetBySpeed => BrushSettingInfo {
                cname: "offset_by_speed",
                name: "Offset by speed",
                constant: false,
                min: -3000i32,
                default: 0i32,
                max: 3000i32,
                tooltip: "Changes the position depending on pointer speed",
            },
            BrushSetting::OffsetBySpeedSlowness => BrushSettingInfo {
                cname: "offset_by_speed_slowness",
                name: "Offset by speed filter",
                constant: false,
                min: 0i32,
                default: 1000i32,
                max: 15000i32,
                tooltip: "How slowly the offset goes back to zero when the pointer stops",
            },
            BrushSetting::SlowTracking => BrushSettingInfo {
                cname: "slow_tracking",
                name: "Slow position tracking",
                constant: true,
                min: 0i32,
                default: 0i32,
                max: 10000i32,
                tooltip: "Slows down the pointer tracking speed; removes jitter in the pointer movement",
            },
            BrushSetting::SlowTrackingPerDab => BrushSettingInfo {
                cname: "slow_tracking_per_dab",
                name: "Slow tracking per dab",
                constant: false,
                min: 0i32,
                default: 0i32,
                max: 10000i32,
                tooltip: "Like slow position tracking, but counted in dabs rather than time",
            },
            BrushSetting::TrackingNoise => BrushSettingInfo {
                cname: "tracking_noise",
                name: "Tracking noise",
                constant: true,
                min: 0i32,
                default: 0i32,
                max: 12000i32,
                tooltip: "Adds randomness to the pointer position, giving a wiggly line",
            },
            BrushSetting::ColorH => BrushSettingInfo {
                cname: "color_h",
                name: "Color hue",
                constant: true,
                min: 0i32,
                default: 0i32,
                max: 1000i32,
                tooltip: "Color hue",
            },
            BrushSetting::ColorS => BrushSettingInfo {
                cname: "color_s",
                name: "Color saturation",
                constant: true,
                min: -500i32,
                default: 0i32,
                max: 1500i32,
                tooltip: "Color saturation",
            },
            BrushSetting::ColorV => BrushSettingInfo {
                cname: "color_v",
                name: "Color value",
                constant: true,
                min: -500i32,
                default: 0i32,
                max: 1500i32,
                tooltip: "Color value (brightness, intensity)",
            },
            BrushSetting::RestoreColor => BrushSettingInfo {
                cname: "restore_color",
                name: "Save color",
                constant: true,
                min: 0i32,
                default: 0i32,
                max: 1000i32,
                tooltip: "When selecting a brush, the color can be restored to the color the brush was saved with",
            },
            BrushSetting::ChangeColorH => BrushSettingInfo {
                cname: "change_color_h",
                name: "Change color hue",
                constant: false,
                min: -2000i32,
                default: 0i32,
                max: 2000i32,
                tooltip: "Changes the color hue",
            },
            BrushSetting::ChangeColorL => BrushSettingInfo {
                cname: "change_color_l",
                name: "Change color lightness (HSL)",
                constant: false,
                min: -2000i32,
                default: 0i32,
                max: 2000i32,
                tooltip: "Changes the color lightness using the HSL color model",
            },
            BrushSetting::ChangeColorHslS => BrushSettingInfo {
                cname: "change_color_hsl_s",
                name: "Change color satur. (HSL)",
                constant: false,
                min: -2000i32,
                default: 0i32,
                max: 2000i32,
                tooltip: "Changes the color saturation using the HSL color model",
            },
            BrushSetting::ChangeColorV => BrushSettingInfo {
                cname: "change_color_v",
                name: "Change color value (HSV)",
                constant: false,
                min: -2000i32,
                default: 0i32,
                max: 2000i32,
                tooltip: "Changes the color value using the HSV color model",
            },
            BrushSetting::ChangeColorHsvS => BrushSettingInfo {
                cname: "change_color_hsv_s",
                name: "Change color satur. (HSV)",
                constant: false,
                min: -2000i32,
                default: 0i32,
                max: 2000i32,
                tooltip: "Changes the color saturation using the HSV color model",
            },
            BrushSetting::Smudge => BrushSettingInfo {
                cname: "smudge",
                name: "Smudge",
                constant: false,
                min: 0i32,
                default: 0i32,
                max: 1000i32,
                tooltip: "Paints with the smudge color instead of the brush color",
            },
            BrushSetting::PaintMode => BrushSettingInfo {
                cname: "paint_mode",
                name: "Pigment",
                constant: false,
                min: 0i32,
                default: 0i32,
                max: 1000i32,
                tooltip: "Subtractive spectral color mixing mode",
            },
            BrushSetting::SmudgeTransparency => BrushSettingInfo {
                cname: "smudge_transparency",
                name: "Smudge transparency",
                constant: false,
                min: -1000i32,
                default: 0i32,
                max: 1000i32,
                tooltip: "Controls how much transparency is picked up and smudged",
            },
            BrushSetting::SmudgeLength => BrushSettingInfo {
                cname: "smudge_length",
                name: "Smudge length",
                constant: false,
                min: 0i32,
                default: 500i32,
                max: 1000i32,
                tooltip: "How fast the smudge color becomes the color you are painting on",
            },
            BrushSetting::SmudgeRadiusLog => BrushSettingInfo {
                cname: "smudge_radius_log",
                name: "Smudge radius",
                constant: false,
                min: -1600i32,
                default: 0i32,
                max: 1600i32,
                tooltip: "Modifies the radius of the circle where color is picked up for smudging",
            },
            BrushSetting::SmudgeLengthLog => BrushSettingInfo {
                cname: "smudge_length_log",
                name: "Smudge length multiplier",
                constant: false,
                min: 0i32,
                default: 0i32,
                max: 20000i32,
                tooltip: "Logarithmic multiplier for the smudge length value",
            },
            BrushSetting::SmudgeBucket => BrushSettingInfo {
                cname: "smudge_bucket",
                name: "Smudge bucket",
                constant: false,
                min: 0i32,
                default: 0i32,
                max: 255000i32,
                tooltip: "Which of the smudge buckets to use",
            },
            BrushSetting::Eraser => BrushSettingInfo {
                cname: "eraser",
                name: "Eraser",
                constant: false,
                min: 0i32,
                default: 0i32,
                max: 1000i32,
                tooltip: "How much this tool behaves like an eraser",
            },
            BrushSetting::StrokeThreshold => BrushSettingInfo {
                cname: "stroke_threshold",
                name: "Stroke threshold",
                constant: true,
                min: 0i32,
                default: 0i32,
                max: 500i32,
                tooltip: "How much pressure is needed to start a stroke",
            },
            BrushSetting::StrokeDurationLogarithmic => BrushSettingInfo {
                cname: "stroke_duration_logarithmic",
                name: "Stroke duration",
                constant: false,
                min: -1000i32,
                default: 4000i32,
                max: 7000i32,
                tooltip: "How far to move until the stroke input reaches 1.0 (logarithmic)",
            },
            BrushSetting::StrokeHoldtime => BrushSettingInfo {
                cname: "stroke_holdtime",
                name: "Stroke hold time",
                constant: false,
                min: 0i32,
                default: 0i32,
                max: 10000i32,
                tooltip: "How long the stroke input stays at 1.0",
            },
            BrushSetting::CustomInput => BrushSettingInfo {
                cname: "custom_input",
                name: "Custom input",
                constant: false,
                min: -5000i32,
                default: 0i32,
                max: 5000i32,
                tooltip: "Sets the custom input to this value",
            },
            BrushSetting::CustomInputSlowness => BrushSettingInfo {
                cname: "custom_input_slowness",
                name: "Custom input filter",
                constant: false,
                min: 0i32,
                default: 0i32,
                max: 10000i32,
                tooltip: "How slowly the custom input follows the desired value",
            },
            BrushSetting::EllipticalDabRatio => BrushSettingInfo {
                cname: "elliptical_dab_ratio",
                name: "Elliptical dab: ratio",
                constant: false,
                min: 1000i32,
                default: 1000i32,
                max: 10000i32,
                tooltip: "Aspect ratio of the dabs; 1.0 means a perfectly round dab",
            },
            BrushSetting::EllipticalDabAngle => BrushSettingInfo {
                cname: "elliptical_dab_angle",
                name: "Elliptical dab: angle",
                constant: false,
                min: 0i32,
                default: 90000i32,
                max: 180000i32,
                tooltip: "Angle by which elliptical dabs are tilted",
            },
            BrushSetting::DirectionFilter => BrushSettingInfo {
                cname: "direction_filter",
                name: "Direction filter",
                constant: false,
                min: 0i32,
                default: 2000i32,
                max: 10000i32,
                tooltip: "How slowly the direction input follows the stroke direction",
            },
            BrushSetting::LockAlpha => BrushSettingInfo {
                cname: "lock_alpha",
                name: "Lock alpha",
                constant: false,
                min: 0i32,
                default: 0i32,
                max: 1000i32,
                tooltip: "Does not modify the alpha channel of the layer",
            },
            BrushSetting::Colorize => BrushSettingInfo {
                cname: "colorize",
                name: "Colorize",
                constant: false,
                min: 0i32,
                default: 0i32,
                max: 1000i32,
                tooltip: "Colorizes the target layer with the brush color",
            },
            BrushSetting::Posterize => BrushSettingInfo {
                cname: "posterize",
                name: "Posterize",
                constant: false,
                min: 0i32,
                default: 0i32,
                max: 1000i32,
                tooltip: "Strength of posterization, reducing the number of colors",
            },
            BrushSetting::PosterizeNum => BrushSettingInfo {
                cname: "posterize_num",
                name: "Posterize levels",
                constant: false,
                min: 10i32,
                default: 50i32,
                max: 1280i32,
                tooltip: "Number of posterization levels, divided by 100",
            },
            BrushSetting::SnapToPixel => BrushSettingInfo {
                cname: "snap_to_pixel",
                name: "Snap to pixel",
                constant: false,
                min: 0i32,
                default: 0i32,
                max: 1000i32,
                tooltip: "Snaps the brush dab's center and its radius to pixels",
            },
            BrushSetting::PressureGainLog => BrushSettingInfo {
                cname: "pressure_gain_log",
                name: "Pressure gain",
                constant: true,
                min: -1800i32,
                default: 0i32,
                max: 1800i32,
                tooltip: "Changes how hard you have to press",
            },
        }
    }

    /// Returns the metadata of this setting.
    pub fn info(self) -> (info: BrushSettingInfo)
        ensures
            info == self.info_of(),
    {
        match self {
            BrushSetting::Opaque => BrushSettingInfo {
                cname: "opaque",
                name: "Opacity",
                constant: false,
                min: 0i32,
                default: 1000i32,
                max: 2000i32,
                tooltip: "0 means the brush is transparent, 1 fully visible (also known as alpha or opacity)",
            },
            BrushSetting::OpaqueMultiply => BrushSettingInfo {
                cname: "opaque_multiply",
                name: "Opacity multiply",
                constant: false,
                min: 0i32,
                default: 0i32,
                max: 2000i32,
                tooltip: "Multiplied with the opacity; meant to be driven by pressure or another input",
            },
            BrushSetting::OpaqueLinearize => BrushSettingInfo {
                cname: "opaque_linearize",
                name: "Opacity linearize",
                constant: true,
                min: 0i32,
                default: 900i32,
                max: 2000i32,
                tooltip: "Corrects the nonlinearity of blending many dabs on top of each other",
            },
            BrushSetting::RadiusLogarithmic => BrushSettingInfo {
                cname: "radius_logarithmic",
                name: "Radius",
                constant: false,
                min: -2000i32,
                default: 2000i32,
                max: 6000i32,
                tooltip: "Basic brush radius (logarithmic): 0.7 means 2 pixels, 3.0 means 20 pixels",
            },
            BrushSetting::Hardness => BrushSettingInfo {
                cname: "hardness",
                name: "Hardness",
                constant: false,
                min: 0i32,
                default: 800i32,
                max: 1000i32,
                tooltip: "Hard brush-circle borders; 0 paints nothing at the border",
            },
            BrushSetting::Softness => BrushSettingInfo {
                cname: "softness",
                name: "Softness",
                constant: false,
                min: 0i32,
                default: 0i32,
                max: 1000i32,
                tooltip: "Reduces hardness toward the edge of the dab",
            },
            BrushSetting::AntiAliasing => BrushSettingInfo {
                cname: "anti_aliasing",
                name: "Pixel feather",
                constant: false,
                min: 0i32,
                default: 1000i32,
                max: 5000i32,
                tooltip: "Blurs the dab edge by this many pixels to reduce staircase artifacts",
            },
            BrushSetting::DabsPerBasicRadius => BrushSettingInfo {
                cname: "dabs_per_basic_radius",
                name: "Dabs per basic radius",
                constant: true,
                min: 0i32,
                default: 0i32,
                max: 6000i32,
                tooltip: "How many dabs to draw while the pointer moves a distance of one basic radius",
            },
            BrushSetting::DabsPerActualRadius => BrushSettingInfo {
                cname: "dabs_per_actual_radius",
                name: "Dabs per actual radius",
                constant: true,
                min: 0i32,
                default: 2000i32,
                max: 6000i32,
                tooltip: "How many dabs to draw while the pointer moves a distance of one actual radius",
            },
            BrushSetting::DabsPerSecond => BrushSettingInfo {
                cname: "dabs_per_second",
                name: "Dabs per second",
                constant: true,
                min: 0i32,
                default: 0i32,
                max: 80000i32,
                tooltip: "Dabs to draw each second, no matter how far the pointer moves",
            },
            BrushSetting::GridmapScale => BrushSettingInfo {
                cname: "gridmap_scale",
                name: "GridMap Scale",
                constant: false,
                min: -10000i32,
                default: 0i32,
                max: 10000i32,
                tooltip: "Changes the overall scale that the GridMap input works on (logarithmic)",
            },
            BrushSetting::GridmapScaleX => BrushSettingInfo {
                cname: "gridmap_scale_x",
                name: "GridMap Scale X",
                constant: false,
                min: 0i32,
                default: 1000i32,
                max: 10000i32,
                tooltip: "Changes the horizontal scale that the GridMap input works on",
            },
            BrushSetting::GridmapScaleY => BrushSettingInfo {
                cname: "gridmap_scale_y",
                name: "GridMap Scale Y",
                constant: false,
                min: 0i32,
                default: 1000i32,
                max: 10000i32,
                tooltip: "Changes the vertical scale that the GridMap input works on",
            },
            BrushSetting::RadiusByRandom => BrushSettingInfo {
                cname: "radius_by_random",
                name: "Radius by random",
                constant: false,
                min: 0i32,
                default: 0i32,
                max: 1500i32,
                tooltip: "Alters the radius randomly for each dab",
            },
            BrushSetting::Speed1Slowness => BrushSettingInfo {
                cname: "speed1_slowness",
                name: "Fine speed filter",
                constant: false,
                min: 0i32,
                default: 40i32,
                max: 200i32,
                tooltip: "How slowly the fine speed input follows the real speed",
            },
            BrushSetting::Speed2Slowness => BrushSettingInfo {
                cname: "speed2_slowness",
                name: "Gross speed filter",
                constant: false,
                min: 0i32,
                default: 800i32,
                max: 3000i32,
                tooltip: "How slowly the gross speed input follows the real speed",
            },
            BrushSetting::Speed1Gamma => BrushSettingInfo {
                cname: "speed1_gamma",
                name: "Fine speed gamma",
                constant: true,
                min: -8000i32,
                default: 4000i32,
                max: 8000i32,
                tooltip: "Changes the reaction of the fine speed input to extreme physical speeds",
            },
            BrushSetting::Speed2Gamma => BrushSettingInfo {
                cname: "speed2_gamma",
                name: "Gross speed gamma",
                constant: true,
                min: -8000i32,
                default: 4000i32,
                max: 8000i32,
                tooltip: "Changes the reaction of the gross speed input to extreme physical speeds",
            },
            BrushSetting::OffsetByRandom => BrushSettingInfo {
                cname: "offset_by_random",
                name: "Jitter",
                constant: false,
                min: 0i32,
                default: 0i32,
                max: 25000i32,
                tooltip: "Adds a random offset to the position where each dab is drawn",
            },
            BrushSetting::OffsetY => BrushSettingInfo {
                cname: "offset_y",
                name: "Offset Y",
                constant: false,
                min: -40000i32,
                default: 0i32,
                max: 40000i32,
                tooltip: "Moves the dabs up or down based on canvas coordinates",
            },
            BrushSetting::OffsetX => BrushSettingInfo {
                cname: "offset_x",
                name: "Offset X",
                constant: false,
                min: -40000i32,
                default: 0i32,
                max: 40000i32,
                tooltip: "Moves the dabs left or right based on canvas coordinates",
            },
            BrushSetting::OffsetAngle => BrushSettingInfo {
                cname: "offset_angle",
                name: "Angular Offset: Direction",
                constant: false,
                min: -40000i32,
                default: 0i32,
                max: 40000i32,
                tooltip: "Follows the stroke direction to offset the dabs to one side",
            },
            BrushSetting::OffsetAngleAsc => BrushSettingInfo {
                cname: "offset_angle_asc",
                name: "Angular Offset: Ascension",
                constant: false,
                min: -40000i32,
                default: 0i32,
                max: 40000i32,
                tooltip: "Follows the tilt direction to offset the dabs to one side",
            },
            BrushSetting::OffsetAngleView => BrushSettingInfo {
                cname: "offset_angle_view",
                name: "Angular Offset: View",
                constant: false,
                min: -40000i32,
                default: 0i32,
                max: 40000i32,
                tooltip: "Follows the view orientation to offset the dabs to one side",
            },
            BrushSetting::OffsetAngle2 => BrushSettingInfo {
                cname: "offset_angle_2",
                name: "Angular Offset Mirrored: Direction",
                constant: false,
                min: 0i32,
                default: 0i32,
                max: 40000i32,
                tooltip: "Follows the stroke direction, alternating sides on every dab",
            },
            BrushSetting::OffsetAngle2Asc => BrushSettingInfo {
                cname: "offset_angle_2_asc",
                name: "Angular Offset Mirrored: Ascension",
                constant: false,
                min: 0i32,
                default: 0i32,
                max: 40000i32,
                tooltip: "Follows the tilt direction, alternating sides on every dab",
            },
            BrushSetting::OffsetAngle2View => BrushSettingInfo {
                cname: "offset_angle_2_view",
                name: "Angular Offset Mirrored: View",
                constant: false,
                min: 0i32,
                default: 0i32,
                max: 40000i32,
                tooltip: "Follows the view orientation, alternating sides on every dab",
            },
            BrushSetting::OffsetAngleAdj => BrushSettingInfo {
                cname: "offset_angle_adj",
                name: "Angular Offsets Adjustment",
                constant: false,
                min: -180000i32,
                default: 0i32,
                max: 180000i32,
                tooltip: "Changes the angle of the angular offsets from their default of 90 degrees",
            },
            BrushSetting::OffsetMultiplier => BrushSettingInfo {
                cname: "offset_multiplier",
                name: "Offsets Multiplier",
                constant: false,
                min: -2000i32,
                default: 0i32,
                max: 3000i32,
                tooltip: "Logarithmic multiplier for the offset settings",
            },
            BrushSetting::OffsetBySpeed => BrushSettingInfo {
                cname: "offset_by_speed",
                name: "Offset by speed",
                constant: false,
                min: -3000i32,
                default: 0i32,
                max: 3000i32,
                tooltip: "Changes the position depending on pointer speed",
            },
            BrushSetting::OffsetBySpeedSlowness => BrushSettingInfo {
                cname: "offset_by_speed_slowness",
                name: "Offset by speed filter",
                constant: false,
                min: 0i32,
                default: 1000i32,
                max: 15000i32,
                tooltip: "How slowly the offset goes back to zero when the pointer stops",
            },
            BrushSetting::SlowTracking => BrushSettingInfo {
                cname: "slow_tracking",
                name: "Slow position tracking",
                constant: true,
                min: 0i32,
                default: 0i32,
                max: 10000i32,
                tooltip: "Slows down the pointer tracking speed; removes jitter in the pointer movement",
            },
            BrushSetting::SlowTrackingPerDab => BrushSettingInfo {
                cname: "slow_tracking_per_dab",
                name: "Slow tracking per dab",
                constant: false,
                min: 0i32,
                default: 0i32,
                max: 10000i32,
                tooltip: "Like slow position tracking, but counted in dabs rather than time",
            },
            BrushSetting::TrackingNoise => BrushSettingInfo {
                cname: "tracking_noise",
                name: "Tracking noise",
                constant: true,
                min: 0i32,
                default: 0i32,
                max: 12000i32,
                tooltip: "Adds randomness to the pointer position, giving a wiggly line",
            },
            BrushSetting::ColorH => BrushSettingInfo {
                cname: "color_h",
                name: "Color hue",
                constant: true,
                min: 0i32,
                default: 0i32,
                max: 1000i32,
                tooltip: "Color hue",
            },
            BrushSetting::ColorS => BrushSettingInfo {
                cname: "color_s",
                name: "Color saturation",
                constant: true,
                min: -500i32,
                default: 0i32,
                max: 1500i32,
                tooltip: "Color saturation",
            },
            BrushSetting::ColorV => BrushSettingInfo {
                cname: "color_v",
                name: "Color value",
                constant: true,
                min: -500i32,
                default: 0i32,
                max: 1500i32,
                tooltip: "Color value (brightness, intensity)",
            },
            BrushSetting::RestoreColor => BrushSettingInfo {
                cname: "restore_color",
                name: "Save color",
                constant: true,
                min: 0i32,
                default: 0i32,
                max: 1000i32,
                tooltip: "When selecting a brush, the color can be restored to the color the brush was saved with",
            },
            BrushSetting::ChangeColorH => BrushSettingInfo {
                cname: "change_color_h",
                name: "Change color hue",
                constant: false,
                min: -2000i32,
                default: 0i32,
                max: 2000i32,
                tooltip: "Changes the color hue",
            },
            BrushSetting::ChangeColorL => BrushSettingInfo {
                cname: "change_color_l",
                name: "Change color lightness (HSL)",
                constant: false,
                min: -2000i32,
                default: 0i32,
                max: 2000i32,
                tooltip: "Changes the color lightness using the HSL color model",
            },
            BrushSetting::ChangeColorHslS => BrushSettingInfo {
                cname: "change_color_hsl_s",
                name: "Change color satur. (HSL)",
                constant: false,
                min: -2000i32,
                default: 0i32,
                max: 2000i32,
                tooltip: "Changes the color saturation using the HSL color model",
            },
            BrushSetting::ChangeColorV => BrushSettingInfo {
                cname: "change_color_v",
                name: "Change color value (HSV)",
                constant: false,
                min: -2000i32,
                default: 0i32,
                max: 2000i32,
                tooltip: "Changes the color value using the HSV color model",
            },
            BrushSetting::ChangeColorHsvS => BrushSettingInfo {
                cname: "change_color_hsv_s",
                name: "Change color satur. (HSV)",
                constant: false,
                min: -2000i32,
                default: 0i32,
                max: 2000i32,
                tooltip: "Changes the color saturation using the HSV color model",
            },
            BrushSetting::Smudge => BrushSettingInfo {
                cname: "smudge",
                name: "Smudge",
                constant: false,
                min: 0i32,
                default: 0i32,
                max: 1000i32,
                tooltip: "Paints with the smudge color instead of the brush color",
            },
            BrushSetting::PaintMode => BrushSettingInfo {
                cname: "paint_mode",
                name: "Pigment",
                constant: false,
                min: 0i32,
                default: 0i32,
                max: 1000i32,
                tooltip: "Subtractive spectral color mixing mode",
            },
            BrushSetting::SmudgeTransparency => BrushSettingInfo {
                cname: "smudge_transparency",
                name: "Smudge transparency",
                constant: false,
                min: -1000i32,
                default: 0i32,
                max: 1000i32,
                tooltip: "Controls how much transparency is picked up and smudged",
            },
            BrushSetting::SmudgeLength => BrushSettingInfo {
                cname: "smudge_length",
                name: "Smudge length",
                constant: false,
                min: 0i32,
                default: 500i32,
                max: 1000i32,
                tooltip: "How fast the smudge color becomes the color you are painting on",
            },
            BrushSetting::SmudgeRadiusLog => BrushSettingInfo {
                cname: "smudge_radius_log",
                name: "Smudge radius",
                constant: false,
                min: -1600i32,
                default: 0i32,
                max: 1600i32,
                tooltip: "Modifies the radius of the circle where color is picked up for smudging",
            },
            BrushSetting::SmudgeLengthLog => BrushSettingInfo {
                cname: "smudge_length_log",
                name: "Smudge length multiplier",
                constant: false,
                min: 0i32,
                default: 0i32,
                max: 20000i32,
                tooltip: "Logarithmic multiplier for the smudge length value",
            },
            BrushSetting::SmudgeBucket => BrushSettingInfo {
                cname: "smudge_bucket",
                name: "Smudge bucket",
                constant: false,
                min: 0i32,
                default: 0i32,
                max: 255000i32,
                tooltip: "Which of the smudge buckets to use",
            },
            BrushSetting::Eraser => BrushSettingInfo {
                cname: "eraser",
                name: "Eraser",
                constant: false,
                min: 0i32,
                default: 0i32,
                max: 1000i32,
                tooltip: "How much this tool behaves like an eraser",
            },
            BrushSetting::StrokeThreshold => BrushSettingInfo {
                cname: "stroke_threshold",
                name: "Stroke threshold",
                constant: true,
                min: 0i32,
                default: 0i32,
                max: 500i32,
                tooltip: "How much pressure is needed to start a stroke",
            },
            BrushSetting::StrokeDurationLogarithmic => BrushSettingInfo {
                cname: "stroke_duration_logarithmic",
                name: "Stroke duration",
                constant: false,
                min: -1000i32,
                default: 4000i32,
                max: 7000i32,
                tooltip: "How far to move until the stroke input reaches 1.0 (logarithmic)",
            },
            BrushSetting::StrokeHoldtime => BrushSettingInfo {
                cname: "stroke_holdtime",
                name: "Stroke hold time",
                constant: false,
                min: 0i32,
                default: 0i32,
                max: 10000i32,
                tooltip: "How long the stroke input stays at 1.0",
            },
            BrushSetting::CustomInput => BrushSettingInfo {
                cname: "custom_input",
                name: "Custom input",
                constant: false,
                min: -5000i32,
                default: 0i32,
                max: 5000i32,
                tooltip: "Sets the custom input to this value",
            },
            BrushSetting::CustomInputSlowness => BrushSettingInfo {
                cname: "custom_input_slowness",
                name: "Custom input filter",
                constant: false,
                min: 0i32,
                default: 0i32,
                max: 10000i32,
                tooltip: "How slowly the custom input follows the desired value",
            },
            BrushSetting::EllipticalDabRatio => BrushSettingInfo {
                cname: "elliptical_dab_ratio",
                name: "Elliptical dab: ratio",
                constant: false,
                min: 1000i32,
                default: 1000i32,
                max: 10000i32,
                tooltip: "Aspect ratio of the dabs; 1.0 means a perfectly round dab",
            },
            BrushSetting::EllipticalDabAngle => BrushSettingInfo {
                cname: "elliptical_dab_angle",
                name: "Elliptical dab: angle",
                constant: false,
                min: 0i32,
                default: 90000i32,
                max: 180000i32,
                tooltip: "Angle by which elliptical dabs are tilted",
            },
            BrushSetting::DirectionFilter => BrushSettingInfo {
                cname: "direction_filter",
                name: "Direction filter",
                constant: false,
                min: 0i32,
                default: 2000i32,
                max: 10000i32,
                tooltip: "How slowly the direction input follows the stroke direction",
            },
            BrushSetting::LockAlpha => BrushSettingInfo {
                cname: "lock_alpha",
                name: "Lock alpha",
                constant: false,
                min: 0i32,
                default: 0i32,
                max: 1000i32,
                tooltip: "Does not modify the alpha channel of the layer",
            },
            BrushSetting::Colorize => BrushSettingInfo {
                cname: "colorize",
                name: "Colorize",
                constant: false,
                min: 0i32,
                default: 0i32,
                max: 1000i32,
                tooltip: "Colorizes the target layer with the brush color",
            },
            BrushSetting::Posterize => BrushSettingInfo {
                cname: "posterize",
                name: "Posterize",
                constant: false,
                min: 0i32,
                default: 0i32,
                max: 1000i32,
                tooltip: "Strength of posterization, reducing the number of colors",
            },
            BrushSetting::PosterizeNum => BrushSettingInfo {
                cname: "posterize_num",
                name: "Posterize levels",
                constant: false,
                min: 10i32,
                default: 50i32,
                max: 1280i32,
                tooltip: "Number of posterization levels, divided by 100",
            },
            BrushSetting::SnapToPixel => BrushSettingInfo {
                cname: "snap_to_pixel",
                name: "Snap to pixel",
                constant: false,
                min: 0i32,
                default: 0i32,
                max: 1000i32,
                tooltip: "Snaps the brush dab's center and its radius to pixels",
            },
            BrushSetting::PressureGainLog => BrushSettingInfo {
                cname: "pressure_gain_log",
                name: "Pressure gain",
                constant: true,
                min: -1800i32,
                default: 0i32,
                max: 1800i32,
                tooltip: "Changes how hard you have to press",
            },
        }
    }

    /// No two settings share a `cname`.
    pub proof fn lemma_cname_injective(a: BrushSetting, b: BrushSetting)
        requires
            a.info_of().cname@ == b.info_of().cname@,
        ensures
            a == b,
    {
        reveal_strlit("opaque");
        assert("opaque"@.len() == 6);
        assert("opaque"@[0] == 'o');
        reveal_strlit("opaque_multiply");
        assert("opaque_multiply"@.len() == 15);
        assert("opaque_multiply"@[0] == 'o');
        assert("opaque_multiply"@[1] == 'p');
        reveal_strlit("opaque_linearize");
        assert("opaque_linearize"@.len() == 16);
        assert("opaque_linearize"@[0] == 'o');
        assert("opaque_linearize"@[1] == 'p');
        reveal_strlit("radius_logarithmic");
        assert("radius_logarithmic"@.len() == 18);
        assert("radius_logarithmic"@[0] == 'r');
        reveal_strlit("hardness");
        assert("hardness"@.len() == 8);
        assert("hardness"@[0] == 'h');
        reveal_strlit("softness");
        assert("softness"@.len() == 8);
        assert("softness"@[0] == 's');
        reveal_strlit("anti_aliasing");
        assert("anti_aliasing"@.len() == 13);
        assert("anti_aliasing"@[0] == 'a');
        reveal_strlit("dabs_per_basic_radius");
        assert("dabs_per_basic_radius"@.len() == 21);
        assert("dabs_per_basic_radius"@[0] == 'd');
        reveal_strlit("dabs_per_actual_radius");
        assert("dabs_per_actual_radius"@.len() == 22);
        reveal_strlit("dabs_per_second");
        assert("dabs_per_second"@.len() == 15);
        assert("dabs_per_second"@[0] == 'd');
        reveal_strlit("gridmap_scale");
        assert("gridmap_scale"@.len() == 13);
        assert("gridmap_scale"@[0] == 'g');
        reveal_strlit("gridmap_scale_x");
        assert("gridmap_scale_x"@.len() == 15);
        assert("gridmap_scale_x"@[0] == 'g');
        assert("gridmap_scale_x"@[14] == 'x');
        reveal_strlit("gridmap_scale_y");
        assert("gridmap_scale_y"@.len() == 15);
        assert("gridmap_scale_y"@[0] == 'g');
        assert("gridmap_scale_y"@[14] == 'y');
        reveal_strlit("radius_by_random");
        assert("radius_by_random"@.len() == 16);
        assert("radius_by_random"@[0] == 'r');
        reveal_strlit("speed1_slowness");
        assert("speed1_slowness"@.len() == 15);
        assert("speed1_slowness"@[0] == 's');
        assert("speed1_slowness"@[1] == 'p');
        assert("speed1_slowness"@[5] == '1');
        reveal_strlit("speed2_slowness");
        assert("speed2_slowness"@.len() == 15);
        assert("speed2_slowness"@[0] == 's');
        assert("speed2_slowness"@[1] == 'p');
        assert("speed2_slowness"@[5] == '2');
        reveal_strlit("speed1_gamma");
        assert("speed1_gamma"@.len() == 12);
        assert("speed1_gamma"@[0] == 's');
        assert("speed1_gamma"@[5] == '1');
        reveal_strlit("speed2_gamma");
        assert("speed2_gamma"@.len() == 12);
        assert("speed2_gamma"@[0] == 's');
        assert("speed2_gamma"@[5] == '2');
        reveal_strlit("offset_by_random");
        assert("offset_by_random"@.len() == 16);
        assert("offset_by_random"@[0] == 'o');
        assert("offset_by_random"@[1] == 'f');
        assert("offset_by_random"@[7] == 'b');
        reveal_strlit("offset_y");
        assert("offset_y"@.len() == 8);
        assert("offset_y"@[0] == 'o');
        assert("offset_y"@[7] == 'y');
        reveal_strlit("offset_x");
        assert("offset_x"@.len() == 8);
        assert("offset_x"@[0] == 'o');
        assert("offset_x"@[7] == 'x');
        reveal_strlit("offset_angle");
        assert("offset_angle"@.len() == 12);
        assert("offset_angle"@[0] == 'o');
        reveal_strlit("offset_angle_asc");
        assert("offset_angle_asc"@.len() == 16);
        assert("offset_angle_asc"@[0] == 'o');
        assert("offset_angle_asc"@[1] == 'f');
        assert("offset_angle_asc"@[7] == 'a');
        assert("offset_angle_asc"@[14] == 's');
        reveal_strlit("offset_angle_view");
        assert("offset_angle_view"@.len() == 17);
        assert("offset_angle_view"@[0] == 'o');
        assert("offset_angle_view"@[7] == 'a');
        reveal_strlit("offset_angle_2");
        assert("offset_angle_2"@.len() == 14);
        assert("offset_angle_2"@[0] == 'o');
        reveal_strlit("offset_angle_2_asc");
        assert("offset_angle_2_asc"@.len() == 18);
        assert("offset_angle_2_asc"@[0] == 'o');
        reveal_strlit("offset_angle_2_view");
        assert("offset_angle_2_view"@.len() == 19);
        assert("offset_angle_2_view"@[0] == 'o');
        reveal_strlit("offset_angle_adj");
        assert("offset_angle_adj"@.len() == 16);
        assert("offset_angle_adj"@[0] == 'o');
        assert("offset_angle_adj"@[1] == 'f');
        assert("offset_angle_adj"@[7] == 'a');
        assert("offset_angle_adj"@[14] == 'd');
        reveal_strlit("offset_multiplier");
        assert("offset_multiplier"@.len() == 17);
        assert("offset_multiplier"@[0] == 'o');
        assert("offset_multiplier"@[7] == 'm');
        reveal_strlit("offset_by_speed");
        assert("offset_by_speed"@.len() == 15);
        assert("offset_by_speed"@[0] == 'o');
        assert("offset_by_speed"@[1] == 'f');
        reveal_strlit("offset_by_speed_slowness");
        assert("offset_by_speed_slowness"@.len() == 24);
        reveal_strlit("slow_tracking");
        assert("slow_tracking"@.len() == 13);
        assert("slow_tracking"@[0] == 's');
        assert("slow_tracking"@[1] == 'l');
        reveal_strlit("slow_tracking_per_dab");
        assert("slow_tracking_per_dab"@.len() == 21);
        assert("slow_tracking_per_dab"@[0] == 's');
        reveal_strlit("tracking_noise");
        assert("tracking_noise"@.len() == 14);
        assert("tracking_noise"@[0] == 't');
        reveal_strlit("color_h");
        assert("color_h"@.len() == 7);
        assert("color_h"@[6] == 'h');
        reveal_strlit("color_s");
        assert("color_s"@.len() == 7);
        assert("color_s"@[6] == 's');
        reveal_strlit("color_v");
        assert("color_v"@.len() == 7);
        assert("color_v"@[6] == 'v');
        reveal_strlit("restore_color");
        assert("restore_color"@.len() == 13);
        assert("restore_color"@[0] == 'r');
        reveal_strlit("change_color_h");
        assert("change_color_h"@.len() == 14);
        assert("change_color_h"@[0] == 'c');
        assert("change_color_h"@[13] == 'h');
        reveal_strlit("change_color_l");
        assert("change_color_l"@.len() == 14);
        assert("change_color_l"@[0] == 'c');
        assert("change_color_l"@[13] == 'l');
        reveal_strlit("change_color_hsl_s");
        assert("change_color_hsl_s"@.len() == 18);
        assert("change_color_hsl_s"@[0] == 'c');
        assert("change_color_hsl_s"@[15] == 'l');
        reveal_strlit("change_color_v");
        assert("change_color_v"@.len() == 14);
        assert("change_color_v"@[0] == 'c');
        assert("change_color_v"@[13] == 'v');
        reveal_strlit("change_color_hsv_s");
        assert("change_color_hsv_s"@.len() == 18);
        assert("change_color_hsv_s"@[0] == 'c');
        assert("change_color_hsv_s"@[15] == 'v');
        reveal_strlit("smudge");
        assert("smudge"@.len() == 6);
        assert("smudge"@[0] == 's');
        reveal_strlit("paint_mode");
        assert("paint_mode"@.len() == 10);
        assert("paint_mode"@[0] == 'p');
        reveal_strlit("smudge_transparency");
        assert("smudge_transparency"@.len() == 19);
        assert("smudge_transparency"@[0] == 's');
        reveal_strlit("smudge_length");
        assert("smudge_length"@.len() == 13);
        assert("smudge_length"@[0] == 's');
        assert("smudge_length"@[1] == 'm');
        assert("smudge_length"@[7] == 'l');
        reveal_strlit("smudge_radius_log");
        assert("smudge_radius_log"@.len() == 17);
        assert("smudge_radius_log"@[0] == 's');
        assert("smudge_radius_log"@[7] == 'r');
        reveal_strlit("smudge_length_log");
        assert("smudge_length_log"@.len() == 17);
        assert("smudge_length_log"@[0] == 's');
        assert("smudge_length_log"@[7] == 'l');
        reveal_strlit("smudge_bucket");
        assert("smudge_bucket"@.len() == 13);
        assert("smudge_bucket"@[0] == 's');
        assert("smudge_bucket"@[1] == 'm');
        assert("smudge_bucket"@[7] == 'b');
        reveal_strlit("eraser");
        assert("eraser"@.len() == 6);
        assert("eraser"@[0] == 'e');
        reveal_strlit("stroke_threshold");
        assert("stroke_threshold"@.len() == 16);
        assert("stroke_threshold"@[0] == 's');
        reveal_strlit("stroke_duration_logarithmic");
        assert("stroke_duration_logarithmic"@.len() == 27);
        reveal_strlit("stroke_holdtime");
        assert("stroke_holdtime"@.len() == 15);
        assert("stroke_holdtime"@[0] == 's');
        assert("stroke_holdtime"@[1] == 't');
        reveal_strlit("custom_input");
        assert("custom_input"@.len() == 12);
        assert("custom_input"@[0] == 'c');
        reveal_strlit("custom_input_slowness");
        assert("custom_input_slowness"@.len() == 21);
        assert("custom_input_slowness"@[0] == 'c');
        reveal_strlit("elliptical_dab_ratio");
        assert("elliptical_dab_ratio"@.len() == 20);
        assert("elliptical_dab_ratio"@[15] == 'r');
        reveal_strlit("elliptical_dab_angle");
        assert("elliptical_dab_angle"@.len() == 20);
        assert("elliptical_dab_angle"@[15] == 'a');
        reveal_strlit("direction_filter");
        assert("direction_filter"@.len() == 16);
        assert("direction_filter"@[0] == 'd');
        reveal_strlit("lock_alpha");
        assert("lock_alpha"@.len() == 10);
        assert("lock_alpha"@[0] == 'l');
        reveal_strlit("colorize");
        assert("colorize"@.len() == 8);
        assert("colorize"@[0] == 'c');
        reveal_strlit("posterize");
        assert("posterize"@.len() == 9);
        reveal_strlit("posterize_num");
        assert("posterize_num"@.len() == 13);
        assert("posterize_num"@[0] == 'p');
        reveal_strlit("snap_to_pixel");
        assert("snap_to_pixel"@.len() == 13);
        assert("snap_to_pixel"@[0] == 's');
        assert("snap_to_pixel"@[1] == 'n');
        reveal_strlit("pressure_gain_log");
        assert("pressure_gain_log"@.len() == 17);
        assert("pressure_gain_log"@[0] == 'p');
    }

    /// Every setting's default lies within its range.
    pub proof fn lemma_default_in_range(self)
        ensures
            self.info_of().min <= self.info_of().default <= self.info_of().max,
    {
    }

    /// Looks up the setting whose `cname` is `cname`.
    pub fn from_cname(cname: &str) -> (found: Option<BrushSetting>)
        ensures
            forall|s: BrushSetting| found == Some(s) <==> s.info_of().cname@ == cname@,
    {
        let mut i: usize = 0;
        while i < BRUSH_SETTINGS_COUNT
            invariant
                i <= BRUSH_SETTINGS_COUNT,
                forall|s: BrushSetting| s.to_index() < i ==> #[trigger] s.info_of().cname@ != cname@,
            decreases BRUSH_SETTINGS_COUNT - i,
        {
            proof {
                BrushSetting::lemma_of_index(i as int);
            }
            let s = BrushSetting::from_index(i).unwrap();
            if same_text(s.info().cname, cname) {
                proof {
                    assert forall|t: BrushSetting| Some(s) == Some(t) <==> t.info_of().cname@
                        == cname@ by {
                        if t.info_of().cname@ == cname@ {
                            BrushSetting::lemma_cname_injective(s, t);
                        }
                    }
                }
                return Some(s);
            }
            i = i + 1;
        }
        proof {
            assert forall|s: BrushSetting| #[trigger] s.info_of().cname@ != cname@ by {
                s.lemma_index_roundtrip();
            }
        }
        None
    }
}

impl BrushInput {
    /// The position of this value in the table of all BrushInput values.
    pub open spec fn to_index(self) -> int {
        match self {
            BrushInput::Pressure => 0,
            BrushInput::Speed1 => 1,
            BrushInput::Speed2 => 2,
            BrushInput::Random => 3,
            BrushInput::Stroke => 4,
            BrushInput::Direction => 5,
            BrushInput::TiltDeclination => 6,
            BrushInput::TiltAscension => 7,
            BrushInput::Custom => 8,
            BrushInput::DirectionAngle => 9,
            BrushInput::AttackAngle => 10,
            BrushInput::TiltDeclinationx => 11,
            BrushInput::TiltDeclinationy => 12,
            BrushInput::GridmapX => 13,
            BrushInput::GridmapY => 14,
            BrushInput::Viewzoom => 15,
            BrushInput::BarrelRotation => 16,
            BrushInput::BrushRadius => 17,
        }
    }

    /// The value at position `i` of the table, if there is one.
    pub open spec fn of_index(i: int) -> Option<BrushInput> {
        if i == 0 {
            Some(BrushInput::Pressure)
        } else if i == 1 {
            Some(BrushInput::Speed1)
        } else if i == 2 {
            Some(BrushInput::Speed2)
        } else if i == 3 {
            Some(BrushInput::Random)
        } else if i == 4 {
            Some(BrushInput::Stroke)
        } else if i == 5 {
            Some(BrushInput::Direction)
        } else if i == 6 {
            Some(BrushInput::TiltDeclination)
        } else if i == 7 {
            Some(BrushInput::TiltAscension)
        } else if i == 8 {
            Some(BrushInput::Custom)
        } else if i == 9 {
            Some(BrushInput::DirectionAngle)
        } else if i == 10 {
            Some(BrushInput::AttackAngle)
        } else if i == 11 {
            Some(BrushInput::TiltDeclinationx)
        } else if i == 12 {
            Some(BrushInput::TiltDeclinationy)
        } else if i == 13 {
            Some(BrushInput::GridmapX)
        } else if i == 14 {
            Some(BrushInput::GridmapY)
        } else if i == 15 {
            Some(BrushInput::Viewzoom)
        } else if i == 16 {
            Some(BrushInput::BarrelRotation)
        } else if i == 17 {
            Some(BrushInput::BrushRadius)
        } else {
            None
        }
    }

    /// The position of this value in the table of all values.
    pub fn index(self) -> (i: usize)
        ensures
            i == self.to_index(),
    {
        match self {
            BrushInput::Pressure => 0,
            BrushInput::Speed1 => 1,
            BrushInput::Speed2 => 2,
            BrushInput::Random => 3,
            BrushInput::Stroke => 4,
            BrushInput::Direction => 5,
            BrushInput::TiltDeclination => 6,
            BrushInput::TiltAscension => 7,
            BrushInput::Custom => 8,
            BrushInput::DirectionAngle => 9,
            BrushInput::AttackAngle => 10,
            BrushInput::TiltDeclinationx => 11,
            BrushInput::TiltDeclinationy => 12,
            BrushInput::GridmapX => 13,
            BrushInput::GridmapY => 14,
            BrushInput::Viewzoom => 15,
            BrushInput::BarrelRotation => 16,
            BrushInput::BrushRadius => 17,
        }
    }

    /// The value at position `i` of the table; `None` past its end.
    pub fn from_index(i: usize) -> (r: Option<BrushInput>)
        ensures
            r == BrushInput::of_index(i as int),
    {
        match i {
            0 => Some(BrushInput::Pressure),
            1 => Some(BrushInput::Speed1),
            2 => Some(BrushInput::Speed2),
            3 => Some(BrushInput::Random),
            4 => Some(BrushInput::Stroke),
            5 => Some(BrushInput::Direction),
            6 => Some(BrushInput::TiltDeclination),
            7 => Some(BrushInput::TiltAscension),
            8 => Some(BrushInput::Custom),
            9 => Some(BrushInput::DirectionAngle),
            10 => Some(BrushInput::AttackAngle),
            11 => Some(BrushInput::TiltDeclinationx),
            12 => Some(BrushInput::TiltDeclinationy),
            13 => Some(BrushInput::GridmapX),
            14 => Some(BrushInput::GridmapY),
            15 => Some(BrushInput::Viewzoom),
            16 => Some(BrushInput::BarrelRotation),
            17 => Some(BrushInput::BrushRadius),
            _ => None,
        }
    }

    /// Indices and values correspond one to one, and the table has exactly
    /// `18` entries.
    pub proof fn lemma_index_roundtrip(self)
        ensures
            0 <= self.to_index() < 18,
            BrushInput::of_index(self.to_index()) == Some(self),
    {
    }

    /// Every index below the count names a value, whose index it is;
    /// no other index names one.
    pub proof fn lemma_of_index(i: int)
        ensures
            BrushInput::of_index(i) is Some <==> 0 <= i < 18,
            BrushInput::of_index(i) is Some ==> BrushInput::of_index(i).unwrap().to_index() == i,
    {
    }

    /// The metadata of this input.
    pub open spec fn info_of(self) -> BrushInputInfo {
        match self {
            BrushInput::Pressure => BrushInputInfo {
                cname: "pressure",
                hard_min: Some(0i32),
                soft_min: 0i32,
                normal: 400i32,
                soft_max: 1000i32,
                hard_max: None,
                name: "Pressure",
                tooltip: "The pressure reported by the tablet, between 0.0 and 1.0",
            },
            BrushInput::Speed1 => BrushInputInfo {
                cname: "speed1",
                hard_min: None,
                soft_min: 0i32,
                normal: 500i32,
                soft_max: 4000i32,
                hard_max: None,
                name: "Fine speed",
                tooltip: "How fast you currently move",
            },
            BrushInput::Speed2 => BrushInputInfo {
                cname: "speed2",
                hard_min: None,
                soft_min: 0i32,
                normal: 500i32,
                soft_max: 4000i32,
                hard_max: None,
                name: "Gross speed",
                tooltip: "Same as fine speed, but changes slower",
            },
            BrushInput::Random => BrushInputInfo {
                cname: "random",
                hard_min: Some(0i32),
                soft_min: 0i32,
                normal: 500i32,
                soft_max: 1000i32,
                hard_max: Some(1000i32),
                name: "Random",
                tooltip: "Fast random noise, changing at each evaluation",
            },
            BrushInput::Stroke => BrushInputInfo {
                cname: "stroke",
                hard_min: Some(0i32),
                soft_min: 0i32,
                normal: 500i32,
                soft_max: 1000i32,
                hard_max: Some(1000i32),
                name: "Stroke",
                tooltip: "Goes from zero to one while you paint a single stroke",
            },
            BrushInput::Direction => BrushInputInfo {
                cname: "direction",
                hard_min: Some(0i32),
                soft_min: 0i32,
                normal: 0i32,
                soft_max: 180000i32,
                hard_max: Some(180000i32),
                name: "Direction",
                tooltip: "The angle of the stroke, in degrees, from 0 to 180",
            },
            BrushInput::TiltDeclination => BrushInputInfo {
                cname: "tilt_declination",
                hard_min: Some(0i32),
                soft_min: 0i32,
                normal: 0i32,
                soft_max: 90000i32,
                hard_max: Some(90000i32),
                name: "Declination",
                tooltip: "Declination of stylus tilt; 0 when parallel to the tablet, 90 when perpendicular",
            },
            BrushInput::TiltAscension => BrushInputInfo {
                cname: "tilt_ascension",
                hard_min: Some(-180000i32),
                soft_min: -180000i32,
                normal: 0i32,
                soft_max: 180000i32,
                hard_max: Some(180000i32),
                name: "Ascension",
                tooltip: "Right ascension of stylus tilt, from -180 to 180",
            },
            BrushInput::Custom => BrushInputInfo {
                cname: "custom",
                hard_min: None,
                soft_min: -10000i32,
                normal: 0i32,
                soft_max: 10000i32,
                hard_max: None,
                name: "Custom",
                tooltip: "A user-defined input, see the custom input setting",
            },
            BrushInput::DirectionAngle => BrushInputInfo {
                cname: "direction_angle",
                hard_min: Some(0i32),
                soft_min: 0i32,
                normal: 0i32,
                soft_max: 360000i32,
                hard_max: Some(360000i32),
                name: "Direction 360",
                tooltip: "The angle of the stroke, from 0 to 360 degrees",
            },
            BrushInput::AttackAngle => BrushInputInfo {
                cname: "attack_angle",
                hard_min: Some(-180000i32),
                soft_min: -180000i32,
                normal: 0i32,
                soft_max: 180000i32,
                hard_max: Some(180000i32),
                name: "Attack Angle",
                tooltip: "The difference between the stylus tilt and the stroke direction",
            },
            BrushInput::TiltDeclinationx => BrushInputInfo {
                cname: "tilt_declinationx",
                hard_min: Some(-90000i32),
                soft_min: -90000i32,
                normal: 0i32,
                soft_max: 90000i32,
                hard_max: Some(90000i32),
                name: "Declination/Tilt X",
                tooltip: "Declination of stylus tilt on the X axis",
            },
            BrushInput::TiltDeclinationy => BrushInputInfo {
                cname: "tilt_declinationy",
                hard_min: Some(-90000i32),
                soft_min: -90000i32,
                normal: 0i32,
                soft_max: 90000i32,
                hard_max: Some(90000i32),
                name: "Declination/Tilt Y",
                tooltip: "Declination of stylus tilt on the Y axis",
            },
            BrushInput::GridmapX => BrushInputInfo {
                cname: "gridmap_x",
                hard_min: Some(0i32),
                soft_min: 0i32,
                normal: 0i32,
                soft_max: 256000i32,
                hard_max: None,
                name: "GridMap X",
                tooltip: "The X coordinate on a 256 pixel grid",
            },
            BrushInput::GridmapY => BrushInputInfo {
                cname: "gridmap_y",
                hard_min: Some(0i32),
                soft_min: 0i32,
                normal: 0i32,
                soft_max: 256000i32,
                hard_max: None,
                name: "GridMap Y",
                tooltip: "The Y coordinate on a 256 pixel grid",
            },
            BrushInput::Viewzoom => BrushInputInfo {
                cname: "viewzoom",
                hard_min: None,
                soft_min: -2770i32,
                normal: 0i32,
                soft_max: 4150i32,
                hard_max: None,
                name: "Zoom Level",
                tooltip: "The current zoom level of the canvas view (logarithmic)",
            },
            BrushInput::BarrelRotation => BrushInputInfo {
                cname: "barrel_rotation",
                hard_min: Some(0i32),
                soft_min: 0i32,
                normal: 0i32,
                soft_max: 360000i32,
                hard_max: Some(360000i32),
                name: "Barrel Rotation",
                tooltip: "Barrel rotation of the stylus, from 0 to 360 degrees",
            },
            BrushInput::BrushRadius => BrushInputInfo {
                cname: "brush_radius",
                hard_min: None,
                soft_min: -2000i32,
                normal: 0i32,
                soft_max: 6000i32,
                hard_max: None,
                name: "Base Brush Radius",
                tooltip: "The base brush radius (logarithmic)",
            },
        }
    }

    /// Returns the metadata of this input.
    pub fn info(self) -> (info: BrushInputInfo)
        ensures
            info == self.info_of(),
    {
        match self {
            BrushInput::Pressure => BrushInputInfo {
                cname: "pressure",
                hard_min: Some(0i32),
                soft_min: 0i32,
                normal: 400i32,
                soft_max: 1000i32,
                hard_max: None,
                name: "Pressure",
                tooltip: "The pressure reported by the tablet, between 0.0 and 1.0",
            },
            BrushInput::Speed1 => BrushInputInfo {
                cname: "speed1",
                hard_min: None,
                soft_min: 0i32,
                normal: 500i32,
                soft_max: 4000i32,
                hard_max: None,
                name: "Fine speed",
                tooltip: "How fast you currently move",
            },
            BrushInput::Speed2 => BrushInputInfo {
                cname: "speed2",
                hard_min: None,
                soft_min: 0i32,
                normal: 500i32,
                soft_max: 4000i32,
                hard_max: None,
                name: "Gross speed",
                tooltip: "Same as fine speed, but changes slower",
            },
            BrushInput::Random => BrushInputInfo {
                cname: "random",
                hard_min: Some(0i32),
                soft_min: 0i32,
                normal: 500i32,
                soft_max: 1000i32,
                hard_max: Some(1000i32),
                name: "Random",
                tooltip: "Fast random noise, changing at each evaluation",
            },
            BrushInput::Stroke => BrushInputInfo {
                cname: "stroke",
                hard_min: Some(0i32),
                soft_min: 0i32,
                normal: 500i32,
                soft_max: 1000i32,
                hard_max: Some(1000i32),
                name: "Stroke",
                tooltip: "Goes from zero to one while you paint a single stroke",
            },
            BrushInput::Direction => BrushInputInfo {
                cname: "direction",
                hard_min: Some(0i32),
                soft_min: 0i32,
                normal: 0i32,
                soft_max: 180000i32,
                hard_max: Some(180000i32),
                name: "Direction",
                tooltip: "The angle of the stroke, in degrees, from 0 to 180",
            },
            BrushInput::TiltDeclination => BrushInputInfo {
                cname: "tilt_declination",
                hard_min: Some(0i32),
                soft_min: 0i32,
                normal: 0i32,
                soft_max: 90000i32,
                hard_max: Some(90000i32),
                name: "Declination",
                tooltip: "Declination of stylus tilt; 0 when parallel to the tablet, 90 when perpendicular",
            },
            BrushInput::TiltAscension => BrushInputInfo {
                cname: "tilt_ascension",
                hard_min: Some(-180000i32),
                soft_min: -180000i32,
                normal: 0i32,
                soft_max: 180000i32,
                hard_max: Some(180000i32),
                name: "Ascension",
                tooltip: "Right ascension of stylus tilt, from -180 to 180",
            },
            BrushInput::Custom => BrushInputInfo {
                cname: "custom",
                hard_min: None,
                soft_min: -10000i32,
                normal: 0i32,
                soft_max: 10000i32,
                hard_max: None,
                name: "Custom",
                tooltip: "A user-defined input, see the custom input setting",
            },
            BrushInput::DirectionAngle => BrushInputInfo {
                cname: "direction_angle",
                hard_min: Some(0i32),
                soft_min: 0i32,
                normal: 0i32,
                soft_max: 360000i32,
                hard_max: Some(360000i32),
                name: "Direction 360",
                tooltip: "The angle of the stroke, from 0 to 360 degrees",
            },
            BrushInput::AttackAngle => BrushInputInfo {
                cname: "attack_angle",
                hard_min: Some(-180000i32),
                soft_min: -180000i32,
                normal: 0i32,
                soft_max: 180000i32,
                hard_max: Some(180000i32),
                name: "Attack Angle",
                tooltip: "The difference between the stylus tilt and the stroke direction",
            },
            BrushInput::TiltDeclinationx => BrushInputInfo {
                cname: "tilt_declinationx",
                hard_min: Some(-90000i32),
                soft_min: -90000i32,
                normal: 0i32,
                soft_max: 90000i32,
                hard_max: Some(90000i32),
                name: "Declination/Tilt X",
                tooltip: "Declination of stylus tilt on the X axis",
            },
            BrushInput::TiltDeclinationy => BrushInputInfo {
                cname: "tilt_declinationy",
                hard_min: Some(-90000i32),
                soft_min: -90000i32,
                normal: 0i32,
                soft_max: 90000i32,
                hard_max: Some(90000i32),
                name: "Declination/Tilt Y",
                tooltip: "Declination of stylus tilt on the Y axis",
            },
            BrushInput::GridmapX => BrushInputInfo {
                cname: "gridmap_x",
                hard_min: Some(0i32),
                soft_min: 0i32,
                normal: 0i32,
                soft_max: 256000i32,
                hard_max: None,
                name: "GridMap X",
                tooltip: "The X coordinate on a 256 pixel grid",
            },
            BrushInput::GridmapY => BrushInputInfo {
                cname: "gridmap_y",
                hard_min: Some(0i32),
                soft_min: 0i32,
                normal: 0i32,
                soft_max: 256000i32,
                hard_max: None,
                name: "GridMap Y",
                tooltip: "The Y coordinate on a 256 pixel grid",
            },
            BrushInput::Viewzoom => BrushInputInfo {
                cname: "viewzoom",
                hard_min: None,
                soft_min: -2770i32,
                normal: 0i32,
                soft_max: 4150i32,
                hard_max: None,
                name: "Zoom Level",
                tooltip: "The current zoom level of the canvas view (logarithmic)",
            },
            BrushInput::BarrelRotation => BrushInputInfo {
                cname: "barrel_rotation",
                hard_min: Some(0i32),
                soft_min: 0i32,
                normal: 0i32,
                soft_max: 360000i32,
                hard_max: Some(360000i32),
                name: "Barrel Rotation",
                tooltip: "Barrel rotation of the stylus, from 0 to 360 degrees",
            },
            BrushInput::BrushRadius => BrushInputInfo {
                cname: "brush_radius",
                hard_min: None,
                soft_min: -2000i32,
                normal: 0i32,
                soft_max: 6000i32,
                hard_max: None,
                name: "Base Brush Radius",
                tooltip: "The base brush radius (logarithmic)",
            },
        }
    }

    /// No two inputs share a `cname`.
    pub proof fn lemma_cname_injective(a: BrushInput, b: BrushInput)
        requires
            a.info_of().cname@ == b.info_of().cname@,
        ensures
            a == b,
    {
        reveal_strlit("pressure");
        assert("pressure"@.len() == 8);
        assert("pressure"@[0] == 'p');
        reveal_strlit("speed1");
        assert("speed1"@.len() == 6);
        assert("speed1"@[0] == 's');
        assert("speed1"@[1] == 'p');
        assert("speed1"@[5] == '1');
        reveal_strlit("speed2");
        assert("speed2"@.len() == 6);
        assert("speed2"@[0] == 's');
        assert("speed2"@[1] == 'p');
        assert("speed2"@[5] == '2');
        reveal_strlit("random");
        assert("random"@.len() == 6);
        assert("random"@[0] == 'r');
        reveal_strlit("stroke");
        assert("stroke"@.len() == 6);
        assert("stroke"@[0] == 's');
        assert("stroke"@[1] == 't');
        reveal_strlit("direction");
        assert("direction"@.len() == 9);
        assert("direction"@[0] == 'd');
        reveal_strlit("tilt_declination");
        assert("tilt_declination"@.len() == 16);
        reveal_strlit("tilt_ascension");
        assert("tilt_ascension"@.len() == 14);
        reveal_strlit("custom");
        assert("custom"@.len() == 6);
        assert("custom"@[0] == 'c');
        reveal_strlit("direction_angle");
        assert("direction_angle"@.len() == 15);
        assert("direction_angle"@[0] == 'd');
        reveal_strlit("attack_angle");
        assert("attack_angle"@.len() == 12);
        assert("attack_angle"@[0] == 'a');
        reveal_strlit("tilt_declinationx");
        assert("tilt_declinationx"@.len() == 17);
        assert("tilt_declinationx"@[16] == 'x');
        reveal_strlit("tilt_declinationy");
        assert("tilt_declinationy"@.len() == 17);
        assert("tilt_declinationy"@[16] == 'y');
        reveal_strlit("gridmap_x");
        assert("gridmap_x"@.len() == 9);
        assert("gridmap_x"@[0] == 'g');
        assert("gridmap_x"@[8] == 'x');
        reveal_strlit("gridmap_y");
        assert("gridmap_y"@.len() == 9);
        assert("gridmap_y"@[0] == 'g');
        assert("gridmap_y"@[8] == 'y');
        reveal_strlit("viewzoom");
        assert("viewzoom"@.len() == 8);
        assert("viewzoom"@[0] == 'v');
        reveal_strlit("barrel_rotation");
        assert("barrel_rotation"@.len() == 15);
        assert("barrel_rotation"@[0] == 'b');
        reveal_strlit("brush_radius");
        assert("brush_radius"@.len() == 12);
        assert("brush_radius"@[0] == 'b');
    }

    /// Every input's limits are ordered: hard minimum (where there is one), soft
    /// minimum, normal value, soft maximum, hard maximum (where there is one).
    pub proof fn lemma_limits_ordered(self)
        ensures
            self.info_of().soft_min <= self.info_of().normal <= self.info_of().soft_max,
            self.info_of().hard_min matches Some(h) ==> h <= self.info_of().soft_min,
            self.info_of().hard_max matches Some(h) ==> self.info_of().soft_max <= h,
    {
    }

    /// Looks up the input whose `cname` is `cname`.
    pub fn from_cname(cname: &str) -> (found: Option<BrushInput>)
        ensures
            forall|s: BrushInput| found == Some(s) <==> s.info_of().cname@ == cname@,
    {
        let mut i: usize = 0;
        while i < BRUSH_INPUTS_COUNT
            invariant
                i <= BRUSH_INPUTS_COUNT,
                forall|s: BrushInput| s.to_index() < i ==> #[trigger] s.info_of().cname@ != cname@,
            decreases BRUSH_INPUTS_COUNT - i,
        {
            proof {
                BrushInput::lemma_of_index(i as int);
            }
            let s = BrushInput::from_index(i).unwrap();
            if same_text(s.info().cname, cname) {
                proof {
                    assert forall|t: BrushInput| Some(s) == Some(t) <==> t.info_of().cname@
                        == cname@ by {
                        if t.info_of().cname@ == cname@ {
                            BrushInput::lemma_cname_injective(s, t);
                        }
                    }
                }
                return Some(s);
            }
            i = i + 1;
        }
        proof {
            assert forall|s: BrushInput| #[trigger] s.info_of().cname@ != cname@ by {
                s.lemma_index_roundtrip();
            }
        }
        None
    }
}

impl BrushState {
    /// The position of this value in the table of all BrushState values.
    pub open spec fn to_index(self) -> int {
        match self {
            BrushState::X => 0,
            BrushState::Y => 1,
            BrushState::Pressure => 2,
            BrushState::PartialDabs => 3,
            BrushState::ActualRadius => 4,
            BrushState::SmudgeRa => 5,
            BrushState::SmudgeGa => 6,
            BrushState::SmudgeBa => 7,
            BrushState::SmudgeA => 8,
            BrushState::LastGetcolorR => 9,
            BrushState::LastGetcolorG => 10,
            BrushState::LastGetcolorB => 11,
            BrushState::LastGetcolorA => 12,
            BrushState::LastGetcolorRecentness => 13,
            BrushState::ActualX => 14,
            BrushState::ActualY => 15,
            BrushState::NormDxSlow => 16,
            BrushState::NormDySlow => 17,
            BrushState::NormSpeed1Slow => 18,
            BrushState::NormSpeed2Slow => 19,
            BrushState::Stroke => 20,
            BrushState::StrokeStarted => 21,
            BrushState::CustomInput => 22,
            BrushState::RngSeed => 23,
            BrushState::ActualEllipticalDabRatio => 24,
            BrushState::ActualEllipticalDabAngle => 25,
            BrushState::DirectionDx => 26,
            BrushState::DirectionDy => 27,
            BrushState::Declination => 28,
            BrushState::Ascension => 29,
            BrushState::Viewzoom => 30,
            BrushState::Viewrotation => 31,
            BrushState::DirectionAngleDx => 32,
            BrushState::DirectionAngleDy => 33,
            BrushState::AttackAngle => 34,
            BrushState::Declinationx => 35,
            BrushState::Declinationy => 36,
            BrushState::DabsPerBasicRadius => 37,
            BrushState::DabsPerActualRadius => 38,
            BrushState::DabsPerSecond => 39,
            BrushState::GridmapX => 40,
            BrushState::GridmapY => 41,
            BrushState::BarrelRotation => 42,
            BrushState::Flip => 43,
        }
    }

    /// The value at position `i` of the table, if there is one.
    pub open spec fn of_index(i: int) -> Option<BrushState> {
        if i == 0 {
            Some(BrushState::X)
        } else if i == 1 {
            Some(BrushState::Y)
        } else if i == 2 {
            Some(BrushState::Pressure)
        } else if i == 3 {
            Some(BrushState::PartialDabs)
        } else if i == 4 {
            Some(BrushState::ActualRadius)
        } else if i == 5 {
            Some(BrushState::SmudgeRa)
        } else if i == 6 {
            Some(BrushState::SmudgeGa)
        } else if i == 7 {
            Some(BrushState::SmudgeBa)
        } else if i == 8 {
            Some(BrushState::SmudgeA)
        } else if i == 9 {
            Some(BrushState::LastGetcolorR)
        } else if i == 10 {
            Some(BrushState::LastGetcolorG)
        } else if i == 11 {
            Some(BrushState::LastGetcolorB)
        } else if i == 12 {
            Some(BrushState::LastGetcolorA)
        } else if i == 13 {
            Some(BrushState::LastGetcolorRecentness)
        } else if i == 14 {
            Some(BrushState::ActualX)
        } else if i == 15 {
            Some(BrushState::ActualY)
        } else if i == 16 {
            Some(BrushState::NormDxSlow)
        } else if i == 17 {
            Some(BrushState::NormDySlow)
        } else if i == 18 {
            Some(BrushState::NormSpeed1Slow)
        } else if i == 19 {
            Some(BrushState::NormSpeed2Slow)
        } else if i == 20 {
            Some(BrushState::Stroke)
        } else if i == 21 {
            Some(BrushState::StrokeStarted)
        } else if i == 22 {
            Some(BrushState::CustomInput)
        } else if i == 23 {
            Some(BrushState::RngSeed)
        } else if i == 24 {
            Some(BrushState::ActualEllipticalDabRatio)
        } else if i == 25 {
            Some(BrushState::ActualEllipticalDabAngle)
        } else if i == 26 {
            Some(BrushState::DirectionDx)
        } else if i == 27 {
            Some(BrushState::DirectionDy)
        } else if i == 28 {
            Some(BrushState::Declination)
        } else if i == 29 {
            Some(BrushState::Ascension)
        } else if i == 30 {
            Some(BrushState::Viewzoom)
        } else if i == 31 {
            Some(BrushState::Viewrotation)
        } else if i == 32 {
            Some(BrushState::DirectionAngleDx)
        } else if i == 33 {
            Some(BrushState::DirectionAngleDy)
        } else if i == 34 {
            Some(BrushState::AttackAngle)
        } else if i == 35 {
            Some(BrushState::Declinationx)
        } else if i == 36 {
            Some(BrushState::Declinationy)
        } else if i == 37 {
            Some(BrushState::DabsPerBasicRadius)
        } else if i == 38 {
            Some(BrushState::DabsPerActualRadius)
        } else if i == 39 {
            Some(BrushState::DabsPerSecond)
        } else if i == 40 {
            Some(BrushState::GridmapX)
        } else if i == 41 {
            Some(BrushState::GridmapY)
        } else if i == 42 {
            Some(BrushState::BarrelRotation)
        } else if i == 43 {
            Some(BrushState::Flip)
        } else {
            None
        }
    }

    /// The position of this value in the table of all values.
    pub fn index(self) -> (i: usize)
        ensures
            i == self.to_index(),
    {
        match self {
            BrushState::X => 0,
            BrushState::Y => 1,
            BrushState::Pressure => 2,
            BrushState::PartialDabs => 3,
            BrushState::ActualRadius => 4,
            BrushState::SmudgeRa => 5,
            BrushState::SmudgeGa => 6,
            BrushState::SmudgeBa => 7,
            BrushState::SmudgeA => 8,
            BrushState::LastGetcolorR => 9,
            BrushState::LastGetcolorG => 10,
            BrushState::LastGetcolorB => 11,
            BrushState::LastGetcolorA => 12,
            BrushState::LastGetcolorRecentness => 13,
            BrushState::ActualX => 14,
            BrushState::ActualY => 15,
            BrushState::NormDxSlow => 16,
            BrushState::NormDySlow => 17,
            BrushState::NormSpeed1Slow => 18,
            BrushState::NormSpeed2Slow => 19,
            BrushState::Stroke => 20,
            BrushState::StrokeStarted => 21,
            BrushState::CustomInput => 22,
            BrushState::RngSeed => 23,
            BrushState::ActualEllipticalDabRatio => 24,
            BrushState::ActualEllipticalDabAngle => 25,
            BrushState::DirectionDx => 26,
            BrushState::DirectionDy => 27,
            BrushState::Declination => 28,
            BrushState::Ascension => 29,
            BrushState::Viewzoom => 30,
            BrushState::Viewrotation => 31,
            BrushState::DirectionAngleDx => 32,
            BrushState::DirectionAngleDy => 33,
            BrushState::AttackAngle => 34,
            BrushState::Declinationx => 35,
            BrushState::Declinationy => 36,
            BrushState::DabsPerBasicRadius => 37,
            BrushState::DabsPerActualRadius => 38,
            BrushState::DabsPerSecond => 39,
            BrushState::GridmapX => 40,
            BrushState::GridmapY => 41,
            BrushState::BarrelRotation => 42,
            BrushState::Flip => 43,
        }
    }

    /// The value at position `i` of the table; `None` past its end.
    pub fn from_index(i: usize) -> (r: Option<BrushState>)
        ensures
            r == BrushState::of_index(i as int),
    {
        match i {
            0 => Some(BrushState::X),
            1 => Some(BrushState::Y),
            2 => Some(BrushState::Pressure),
            3 => Some(BrushState::PartialDabs),
            4 => Some(BrushState::ActualRadius),
            5 => Some(BrushState::SmudgeRa),
            6 => Some(BrushState::SmudgeGa),
            7 => Some(BrushState::SmudgeBa),
            8 => Some(BrushState::SmudgeA),
            9 => Some(BrushState::LastGetcolorR),
            10 => Some(BrushState::LastGetcolorG),
            11 => Some(BrushState::LastGetcolorB),
            12 => Some(BrushState::LastGetcolorA),
            13 => Some(BrushState::LastGetcolorRecentness),
            14 => Some(BrushState::ActualX),
            15 => Some(BrushState::ActualY),
            16 => Some(BrushState::NormDxSlow),
            17 => Some(BrushState::NormDySlow),
            18 => Some(BrushState::NormSpeed1Slow),
            19 => Some(BrushState::NormSpeed2Slow),
            20 => Some(BrushState::Stroke),
            21 => Some(BrushState::StrokeStarted),
            22 => Some(BrushState::CustomInput),
            23 => Some(BrushState::RngSeed),
            24 => Some(BrushState::ActualEllipticalDabRatio),
            25 => Some(BrushState::ActualEllipticalDabAngle),
            26 => Some(BrushState::DirectionDx),
            27 => Some(BrushState::DirectionDy),
            28 => Some(BrushState::Declination),
            29 => Some(BrushState::Ascension),
            30 => Some(BrushState::Viewzoom),
            31 => Some(BrushState::Viewrotation),
            32 => Some(BrushState::DirectionAngleDx),
            33 => Some(BrushState::DirectionAngleDy),
            34 => Some(BrushState::AttackAngle),
            35 => Some(BrushState::Declinationx),
            36 => Some(BrushState::Declinationy),
            37 => Some(BrushState::DabsPerBasicRadius),
            38 => Some(BrushState::DabsPerActualRadius),
            39 => Some(BrushState::DabsPerSecond),
            40 => Some(BrushState::GridmapX),
            41 => Some(BrushState::GridmapY),
            42 => Some(BrushState::BarrelRotation),
            43 => Some(BrushState::Flip),
            _ => None,
        }
    }

    /// Indices and values correspond one to one, and the table has exactly
    /// `44` entries.
    pub proof fn lemma_index_roundtrip(self)
        ensures
            0 <= self.to_index() < 44,
            BrushState::of_index(self.to_index()) == Some(self),
    {
    }

    /// Every index below the count names a value, whose index it is;
    /// no other index names one.
    pub proof fn lemma_of_index(i: int)
        ensures
            BrushState::of_index(i) is Some <==> 0 <= i < 44,
            BrushState::of_index(i) is Some ==> BrushState::of_index(i).unwrap().to_index() == i,
    {
    }
}

/// Every setting's `cname`, the name that brush files use for it, is its
/// variant's name written in snake case.
pub proof fn lemma_setting_cnames()
    ensures
        BrushSetting::Opaque.info_of().cname@ == "opaque"@,
        BrushSetting::OpaqueMultiply.info_of().cname@ == "opaque_multiply"@,
        BrushSetting::OpaqueLinearize.info_of().cname@ == "opaque_linearize"@,
        BrushSetting::RadiusLogarithmic.info_of().cname@ == "radius_logarithmic"@,
        BrushSetting::Hardness.info_of().cname@ == "hardness"@,
        BrushSetting::Softness.info_of().cname@ == "softness"@,
        BrushSetting::AntiAliasing.info_of().cname@ == "anti_aliasing"@,
        BrushSetting::DabsPerBasicRadius.info_of().cname@ == "dabs_per_basic_radius"@,
        BrushSetting::DabsPerActualRadius.info_of().cname@ == "dabs_per_actual_radius"@,
        BrushSetting::DabsPerSecond.info_of().cname@ == "dabs_per_second"@,
        BrushSetting::GridmapScale.info_of().cname@ == "gridmap_scale"@,
        BrushSetting::GridmapScaleX.info_of().cname@ == "gridmap_scale_x"@,
        BrushSetting::GridmapScaleY.info_of().cname@ == "gridmap_scale_y"@,
        BrushSetting::RadiusByRandom.info_of().cname@ == "radius_by_random"@,
        BrushSetting::Speed1Slowness.info_of().cname@ == "speed1_slowness"@,
        BrushSetting::Speed2Slowness.info_of().cname@ == "speed2_slowness"@,
        BrushSetting::Speed1Gamma.info_of().cname@ == "speed1_gamma"@,
        BrushSetting::Speed2Gamma.info_of().cname@ == "speed2_gamma"@,
        BrushSetting::OffsetByRandom.info_of().cname@ == "offset_by_random"@,
        BrushSetting::OffsetY.info_of().cname@ == "offset_y"@,
        BrushSetting::OffsetX.info_of().cname@ == "offset_x"@,
        BrushSetting::OffsetAngle.info_of().cname@ == "offset_angle"@,
        BrushSetting::OffsetAngleAsc.info_of().cname@ == "offset_angle_asc"@,
        BrushSetting::OffsetAngleView.info_of().cname@ == "offset_angle_view"@,
        BrushSetting::OffsetAngle2.info_of().cname@ == "offset_angle_2"@,
        BrushSetting::OffsetAngle2Asc.info_of().cname@ == "offset_angle_2_asc"@,
        BrushSetting::OffsetAngle2View.info_of().cname@ == "offset_angle_2_view"@,
        BrushSetting::OffsetAngleAdj.info_of().cname@ == "offset_angle_adj"@,
        BrushSetting::OffsetMultiplier.info_of().cname@ == "offset_multiplier"@,
        BrushSetting::OffsetBySpeed.info_of().cname@ == "offset_by_speed"@,
        BrushSetting::OffsetBySpeedSlowness.info_of().cname@ == "offset_by_speed_slowness"@,
        BrushSetting::SlowTracking.info_of().cname@ == "slow_tracking"@,
        BrushSetting::SlowTrackingPerDab.info_of().cname@ == "slow_tracking_per_dab"@,
        BrushSetting::TrackingNoise.info_of().cname@ == "tracking_noise"@,
        BrushSetting::ColorH.info_of().cname@ == "color_h"@,
        BrushSetting::ColorS.info_of().cname@ == "color_s"@,
        BrushSetting::ColorV.info_of().cname@ == "color_v"@,
        BrushSetting::RestoreColor.info_of().cname@ == "restore_color"@,
        BrushSetting::ChangeColorH.info_of().cname@ == "change_color_h"@,
        BrushSetting::ChangeColorL.info_of().cname@ == "change_color_l"@,
        BrushSetting::ChangeColorHslS.info_of().cname@ == "change_color_hsl_s"@,
        BrushSetting::ChangeColorV.info_of().cname@ == "change_color_v"@,
        BrushSetting::ChangeColorHsvS.info_of().cname@ == "change_color_hsv_s"@,
        BrushSetting::Smudge.info_of().cname@ == "smudge"@,
        BrushSetting::PaintMode.info_of().cname@ == "paint_mode"@,
        BrushSetting::SmudgeTransparency.info_of().cname@ == "smudge_transparency"@,
        BrushSetting::SmudgeLength.info_of().cname@ == "smudge_length"@,
        BrushSetting::SmudgeRadiusLog.info_of().cname@ == "smudge_radius_log"@,
        BrushSetting::SmudgeLengthLog.info_of().cname@ == "smudge_length_log"@,
        BrushSetting::SmudgeBucket.info_of().cname@ == "smudge_bucket"@,
        BrushSetting::Eraser.info_of().cname@ == "eraser"@,
        BrushSetting::StrokeThreshold.info_of().cname@ == "stroke_threshold"@,
        BrushSetting::StrokeDurationLogarithmic.info_of().cname@ == "stroke_duration_logarithmic"@,
        BrushSetting::StrokeHoldtime.info_of().cname@ == "stroke_holdtime"@,
        BrushSetting::CustomInput.info_of().cname@ == "custom_input"@,
        BrushSetting::CustomInputSlowness.info_of().cname@ == "custom_input_slowness"@,
        BrushSetting::EllipticalDabRatio.info_of().cname@ == "elliptical_dab_ratio"@,
        BrushSetting::EllipticalDabAngle.info_of().cname@ == "elliptical_dab_angle"@,
        BrushSetting::DirectionFilter.info_of().cname@ == "direction_filter"@,
        BrushSetting::LockAlpha.info_of().cname@ == "lock_alpha"@,
        BrushSetting::Colorize.info_of().cname@ == "colorize"@,
        BrushSetting::Posterize.info_of().cname@ == "posterize"@,
        BrushSetting::PosterizeNum.info_of().cname@ == "posterize_num"@,
        BrushSetting::SnapToPixel.info_of().cname@ == "snap_to_pixel"@,
        BrushSetting::PressureGainLog.info_of().cname@ == "pressure_gain_log"@,
{
}

/// Every input's `cname`, the name that brush files use for it, is its
/// variant's name written in snake case.
pub proof fn lemma_input_cnames()
    ensures
        BrushInput::Pressure.info_of().cname@ == "pressure"@,
        BrushInput::Speed1.info_of().cname@ == "speed1"@,
        BrushInput::Speed2.info_of().cname@ == "speed2"@,
        BrushInput::Random.info_of().cname@ == "random"@,
        BrushInput::Stroke.info_of().cname@ == "stroke"@,
        BrushInput::Direction.info_of().cname@ == "direction"@,
        BrushInput::TiltDeclination.info_of().cname@ == "tilt_declination"@,
        BrushInput::TiltAscension.info_of().cname@ == "tilt_ascension"@,
        BrushInput::Custom.info_of().cname@ == "custom"@,
        BrushInput::DirectionAngle.info_of().cname@ == "direction_angle"@,
        BrushInput::AttackAngle.info_of().cname@ == "attack_angle"@,
        BrushInput::TiltDeclinationx.info_of().cname@ == "tilt_declinationx"@,
        BrushInput::TiltDeclinationy.info_of().cname@ == "tilt_declinationy"@,
        BrushInput::GridmapX.info_of().cname@ == "gridmap_x"@,
        BrushInput::GridmapY.info_of().cname@ == "gridmap_y"@,
        BrushInput::Viewzoom.info_of().cname@ == "viewzoom"@,
        BrushInput::BarrelRotation.info_of().cname@ == "barrel_rotation"@,
        BrushInput::BrushRadius.info_of().cname@ == "brush_radius"@,
{
}

} // verus!
