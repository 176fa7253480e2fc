use mypaint_rs::brush_settings::{
    BrushInput, BrushSetting, BrushState, BRUSH_INPUTS_COUNT, BRUSH_SETTINGS_COUNT,
    BRUSH_STATES_COUNT, VALUE_SCALE,
};

/// A table value in the units the engine works with.
fn units(v: i32) -> f32 {
    v as f32 / VALUE_SCALE as f32
}

#[test]
fn test_setting_count() {
    assert_eq!(BRUSH_SETTINGS_COUNT, 65);
}

#[test]
fn test_input_count() {
    assert_eq!(BRUSH_INPUTS_COUNT, 18);
}

#[test]
fn test_state_count() {
    assert_eq!(BRUSH_STATES_COUNT, 44);
}

#[test]
fn test_setting_from_cname_found() {
    let s = BrushSetting::from_cname("opaque").unwrap();
    assert_eq!(s, BrushSetting::Opaque);
}

#[test]
fn test_setting_from_cname_not_found() {
    assert!(BrushSetting::from_cname("nonexistent").is_none());
}

#[test]
fn test_input_from_cname_found() {
    let i = BrushInput::from_cname("pressure").unwrap();
    assert_eq!(i, BrushInput::Pressure);
}

#[test]
fn test_input_from_cname_not_found() {
    assert!(BrushInput::from_cname("nonexistent").is_none());
}

#[test]
fn test_setting_info_values() {
    let info = BrushSetting::Opaque.info();
    assert_eq!(info.cname, "opaque");
    assert!((units(info.default) - 1.0).abs() < 1e-6);
    assert!((units(info.min) - 0.0).abs() < 1e-6);
    assert!((units(info.max) - 2.0).abs() < 1e-6);
    assert!(!info.constant);
}

#[test]
fn test_input_info_optional_hard_limits() {
    let info = BrushInput::Pressure.info();
    assert_eq!(info.hard_min.map(units), Some(0.0_f32));
    assert_eq!(info.hard_max.map(units), None);

    let info = BrushInput::Speed1.info();
    assert_eq!(info.hard_min.map(units), None);
    assert_eq!(info.hard_max.map(units), None);

    let info = BrushInput::Direction.info();
    assert_eq!(info.hard_min.map(units), Some(0.0_f32));
    assert_eq!(info.hard_max.map(units), Some(180.0_f32));
}

#[test]
fn test_all_settings_have_valid_ranges() {
    for i in 0..BRUSH_SETTINGS_COUNT {
        let info = BrushSetting::from_index(i).unwrap().info();
        assert!(
            info.min <= info.default && info.default <= info.max,
            "setting '{}': default {} not in [{}, {}]",
            info.cname,
            info.default,
            info.min,
            info.max
        );
    }
}

#[test]
fn test_all_inputs_have_valid_soft_ranges() {
    for i in 0..BRUSH_INPUTS_COUNT {
        let info = BrushInput::from_index(i).unwrap().info();
        assert!(
            info.soft_min <= info.soft_max,
            "input '{}': soft_min {} > soft_max {}",
            info.cname,
            info.soft_min,
            info.soft_max
        );
    }
}

#[test]
fn test_cname_roundtrip_all_settings() {
    for i in 0..BRUSH_SETTINGS_COUNT {
        let info = BrushSetting::from_index(i).unwrap().info();
        let found = BrushSetting::from_cname(info.cname).unwrap();
        assert_eq!(found.index(), i, "roundtrip failed for '{}'", info.cname);
    }
}

#[test]
fn test_cname_roundtrip_all_inputs() {
    for i in 0..BRUSH_INPUTS_COUNT {
        let info = BrushInput::from_index(i).unwrap().info();
        let found = BrushInput::from_cname(info.cname).unwrap();
        assert_eq!(found.index(), i, "roundtrip failed for '{}'", info.cname);
    }
}

#[test]
fn index_tables_end_at_their_counts() {
    assert!(BrushSetting::from_index(BRUSH_SETTINGS_COUNT).is_none());
    assert!(BrushInput::from_index(BRUSH_INPUTS_COUNT).is_none());
    assert!(BrushState::from_index(BRUSH_STATES_COUNT).is_none());
    for i in 0..BRUSH_STATES_COUNT {
        assert_eq!(BrushState::from_index(i).unwrap().index(), i);
    }
    assert_eq!(BrushState::Flip.index(), BRUSH_STATES_COUNT - 1);
    assert_eq!(BrushSetting::PressureGainLog.index(), BRUSH_SETTINGS_COUNT - 1);
}

#[test]
fn from_cname_is_exact() {
    assert!(BrushSetting::from_cname("opaqu").is_none());
    assert!(BrushSetting::from_cname("opaque ").is_none());
    assert_eq!(BrushSetting::from_cname("opaque_multiply"), Some(BrushSetting::OpaqueMultiply));
    assert_eq!(BrushInput::from_cname("tilt_declinationy"), Some(BrushInput::TiltDeclinationy));
    assert!(BrushInput::from_cname("").is_none());
}
