//! The header checks of a brush file: a MyPaint version 3 brush is a JSON
//! object with an integer `"version"` of 3 and an object `"settings"`.
//! Parsing the JSON text is serde_json's work; which brush files are accepted,
//! and with which error the others are refused, is decided here.
use vstd::prelude::*;

verus! {

/// serde_json's parse error, carried through to the caller.
#[verifier::external_type_specification]
#[verifier::external_body]
pub struct ExJsonError(serde_json::Error);

/// The text is one JSON value, as `serde_json::from_str` parses it.
pub uninterp spec fn json_parses(text: Seq<char>) -> bool;

/// The top-level `"version"` member of the parsed text as an `i64`, or `None`
/// when there is no such member or it is not an integer that fits.
pub uninterp spec fn json_version(text: Seq<char>) -> Option<i64>;

/// The top-level `"settings"` member of the parsed text is a JSON object.
pub uninterp spec fn json_settings_is_object(text: Seq<char>) -> bool;

/// What the header checks read of a parsed brush file.
pub struct BrushJsonHeader {
    /// The `"version"` member as an integer, if it is one.
    pub version: Option<i64>,
    /// The `"settings"` member is an object.
    pub settings_is_object: bool,
}

/// Why a brush file is refused.
#[derive(Debug)]
pub enum BrushJsonError {
    /// The text is not JSON.
    Parse(serde_json::Error),
    /// There is no integer `"version"`.
    MissingVersion,
    /// The version is not 3.
    UnsupportedVersion(i64),
    /// There is no `"settings"` object.
    MissingSettings,
}

/// Calls `serde_json::from_str` for a `serde_json::Value` and reads from the
/// parsed value, with `Value`'s indexing (which gives `null` for a missing
/// member or a value that is not an object), `as_i64` and `is_object`, the
/// top-level `"version"` and `"settings"` members. The contract claims that
/// the parse succeeds exactly when the text is JSON, and that what is read is
/// a function of the text alone; what those results are for a given text is
/// left to serde_json.
#[verifier::external_body]
fn read_brush_json_header(text: &str) -> (r: Result<BrushJsonHeader, serde_json::Error>)
    ensures
        r is Ok <==> json_parses(text@),
        r matches Ok(h) ==> h.version == json_version(text@) && h.settings_is_object
            == json_settings_is_object(text@),
{
    serde_json::from_str::<serde_json::Value>(text).map(|v| BrushJsonHeader {
        version: v["version"].as_i64(),
        settings_is_object: v["settings"].is_object(),
    })
}

/// Decides whether a parsed brush file's header is acceptable: the version
/// must be the integer 3 and the settings an object, checked in that order.
pub fn check_brush_header(header: &BrushJsonHeader) -> (r: Result<(), BrushJsonError>)
    ensures
        header.version is None ==> r matches Err(BrushJsonError::MissingVersion),
        (header.version is Some && header.version->0 != 3) ==> (r matches Err(
            BrushJsonError::UnsupportedVersion(w),
        ) && w == header.version->0),
        header.version == Some(3i64) && !header.settings_is_object ==> r matches Err(
            BrushJsonError::MissingSettings,
        ),
        header.version == Some(3i64) && header.settings_is_object ==> r is Ok,
{
    match header.version {
        None => Err(BrushJsonError::MissingVersion),
        Some(v) => {
            if v != 3 {
                Err(BrushJsonError::UnsupportedVersion(v))
            } else if !header.settings_is_object {
                Err(BrushJsonError::MissingSettings)
            } else {
                Ok(())
            }
        },
    }
}

/// Checks the header of a brush file in JSON text: it must parse, carry the
/// integer version 3, and hold a `"settings"` object.
pub fn check_brush_json(json_str: &str) -> (r: Result<(), BrushJsonError>)
    ensures
        r is Ok <==> json_parses(json_str@) && json_version(json_str@) == Some(3i64)
            && json_settings_is_object(json_str@),
        (r matches Err(BrushJsonError::Parse(_))) <==> !json_parses(json_str@),
        (r matches Err(BrushJsonError::MissingVersion)) <==> json_parses(json_str@) && json_version(
            json_str@,
        ) is None,
        r matches Err(BrushJsonError::UnsupportedVersion(v)) ==> (json_parses(json_str@)
            && json_version(json_str@) == Some(v) && v != 3),
        (json_parses(json_str@) && json_version(json_str@) is Some && json_version(json_str@)->0
            != 3) ==> (r matches Err(BrushJsonError::UnsupportedVersion(w)) && w == json_version(
            json_str@,
        )->0),
        (r matches Err(BrushJsonError::MissingSettings)) <==> json_parses(json_str@) && json_version(
            json_str@,
        ) == Some(3i64) && !json_settings_is_object(json_str@),
{
    match read_brush_json_header(json_str) {
        Err(e) => Err(BrushJsonError::Parse(e)),
        Ok(header) => check_brush_header(&header),
    }
}

} // verus!
