//! The `status` command's report on the config file: missing, not valid
//! JSON, or valid with some number of folders.

use vstd::prelude::*;
use crate::log::{decimal, push_decimal};

verus! {

/// What `serde_json` reads from `text` for the array under `key`: `None`
/// when `text` is not a JSON document, `Some(None)` when the document has
/// no array under `key` (not an object, no such key, or a value of another
/// kind), `Some(Some(n))` when that array has `n` entries.
pub uninterp spec fn json_array_len(text: Seq<char>, key: Seq<char>) -> Option<Option<nat>>;

/// `serde_json::from_str::<serde_json::Value>` on `text`, then
/// `Value::get(key)`, `Value::as_array` and the array's length. The
/// contract only names the result: it is a function of `text` and `key`.
#[verifier::external_body]
fn parse_array_len(text: &str, key: &str) -> (r: Option<Option<usize>>)
    ensures
        match r {
            None => json_array_len(text@, key@) is None,
            Some(None) => json_array_len(text@, key@) == Some(None::<nat>),
            Some(Some(n)) => json_array_len(text@, key@) == Some(Some(n as nat)),
        },
{
    match serde_json::from_str::<serde_json::Value>(text) {
        Ok(v) => Some(v.get(key).and_then(serde_json::Value::as_array).map(Vec::len)),
        Err(_) => None,
    }
}

/// What the status report says about the config file.
#[derive(Debug, Clone, Copy, PartialEq, Eq, Structural)]
pub enum ConfigStatus {
    Missing,
    Invalid,
    Valid { folders: usize },
}

/// The status of config text from what the JSON reader found under
/// `folders`: text that is not JSON is invalid; valid text without a
/// `folders` array counts as no folders.
pub fn folder_status(parsed: Option<Option<usize>>) -> (r: ConfigStatus)
    ensures
        match parsed {
            None => r == ConfigStatus::Invalid,
            Some(None) => r == ConfigStatus::Valid { folders: 0 },
            Some(Some(n)) => r == ConfigStatus::Valid { folders: n },
        },
{
    match parsed {
        None => ConfigStatus::Invalid,
        Some(None) => ConfigStatus::Valid { folders: 0 },
        Some(Some(n)) => ConfigStatus::Valid { folders: n },
    }
}

/// The status of a config file, given its text when it exists (`None` when
/// the file is missing; a file that cannot be read counts as invalid and
/// reads as `Some` of text that is not JSON).
pub fn config_status(contents: Option<&str>) -> (r: ConfigStatus)
    ensures
        match contents {
            None => r == ConfigStatus::Missing,
            Some(t) => match json_array_len(t@, "folders"@) {
                None => r == ConfigStatus::Invalid,
                Some(None) => r matches ConfigStatus::Valid { folders } && folders == 0,
                Some(Some(n)) => r matches ConfigStatus::Valid { folders } && folders == n,
            },
        },
{
    match contents {
        None => ConfigStatus::Missing,
        Some(t) => folder_status(parse_array_len(t, "folders")),
    }
}

/// The report line for the config file at `path`.
pub open spec fn status_line_spec(status: ConfigStatus, path: Seq<char>) -> Seq<char> {
    match status {
        ConfigStatus::Missing => "Config:         MISSING ("@ + path + ")"@,
        ConfigStatus::Invalid => "Config:         INVALID ("@ + path + ")"@,
        ConfigStatus::Valid { folders } => "Config:         OK \u{2014} "@ + decimal(folders as nat)
            + " folder(s) ("@ + path + ")"@,
    }
}

pub fn status_line(status: ConfigStatus, path: &str) -> (r: String)
    ensures
        r@ == status_line_spec(status, path@),
{
    let mut s = match status {
        ConfigStatus::Missing => String::from_str("Config:         MISSING ("),
        ConfigStatus::Invalid => String::from_str("Config:         INVALID ("),
        ConfigStatus::Valid { folders } => {
            let mut s = String::from_str("Config:         OK \u{2014} ");
            push_decimal(&mut s, folders as u64);
            s.append(" folder(s) (");
            s
        },
    };
    s.append(path);
    s.append(")");
    s
}

} // verus!
