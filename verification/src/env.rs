//! Settings that hk takes from environment variables.
//!
//! Each function takes the variable's value (`None` when it is unset or not
//! valid Unicode) and, where a default comes from the system, the system's
//! answer, and computes the setting from them.

use vstd::prelude::*;

use crate::level::{ascii_lower, parse_level_filter, parsed_level_filter, LevelFilter};
use crate::paths::{join_path, joined};
use crate::text::str_eq;

verus! {

/// What `str::to_lowercase` returns for a string: its lower-case equivalent
/// by the Unicode `Lowercase` property.
pub uninterp spec fn lowercased(s: Seq<char>) -> Seq<char>;

/// Every character of `s` is ASCII.
pub open spec fn all_ascii(s: Seq<char>) -> bool {
    forall|i: int| 0 <= i < s.len() ==> #[trigger] s[i] <= '\u{7f}'
}

/// `s` with each ASCII upper-case letter turned into its lower-case letter.
pub open spec fn ascii_lowered(s: Seq<char>) -> Seq<char> {
    s.map_values(|c: char| ascii_lower(c))
}

/// Calls `str::to_lowercase`. Claimed of it: the result depends on the
/// characters of `s` alone, as the name `lowercased` says, and an ASCII text
/// has its letters `A` to `Z` turned into `a` to `z` and nothing else
/// changed. The Unicode case mapping of other characters is not stated.
#[verifier::external_body]
fn to_lowercase(s: &str) -> (r: String)
    ensures
        r@ == lowercased(s@),
        all_ascii(s@) ==> r@ == ascii_lowered(s@),
{
    s.to_lowercase()
}

/// A variable's value taken as a path.
pub fn var_path(value: Option<String>) -> (r: Option<String>)
    ensures
        r == value,
{
    value
}

/// A variable's value taken as a level filter: `None` when it is unset or
/// names no filter.
pub fn var_log_level(value: Option<String>) -> (r: Option<LevelFilter>)
    ensures
        r == var_log_level_spec(value),
{
    match value {
        Some(v) => parse_level_filter(v.as_str()),
        None => None,
    }
}

/// A lower-cased value that counts as true: `true` or `1`.
pub open spec fn is_true_seq(lowered: Seq<char>) -> bool {
    lowered == "true"@ || lowered == "1"@
}

/// Whether an already lower-cased value counts as true (see [`is_true_seq`]).
pub fn is_true_text(lowered: &str) -> (r: bool)
    ensures
        r == is_true_seq(lowered@),
        r ==> (lowered@ == "true"@ || lowered@ == "1"@),
        (lowered@ == "true"@ || lowered@ == "1"@) ==> r,
{
    str_eq(lowered, "true") || str_eq(lowered, "1")
}

/// Exactly two lower-cased values count as true, `true` and `1`; every other
/// text (`false`, `0`, `yes`, the empty text, ...) counts as false. Since
/// `true` and `1` are the only true values, a true value is one of the two
/// texts and has one of their two lengths.
pub proof fn law_true_texts(lowered: Seq<char>)
    ensures
        is_true_seq(lowered) ==> (lowered == "true"@ || lowered == "1"@),
        (lowered == "true"@ || lowered == "1"@) ==> is_true_seq(lowered),
        is_true_seq(lowered) ==> (lowered.len() == 4 || lowered.len() == 1),
        is_true_seq(lowered) ==> (lowered[0] == 't' || lowered[0] == '1'),
{
    reveal_strlit("true");
    reveal_strlit("1");
}

/// The truth of a boolean variable: set, and `true` or `1` once lower-cased.
pub open spec fn spec_var_true(value: Option<String>) -> bool {
    match value {
        Some(v) => is_true_seq(lowercased(v@)),
        None => false,
    }
}

/// Whether a boolean variable is set to a true value (see [`spec_var_true`]).
/// For an ASCII value the case of its letters does not matter: `TRUE`,
/// `True` and `true` all count.
pub fn var_true(value: Option<String>) -> (r: bool)
    ensures
        r == spec_var_true(value),
        r ==> (value matches Some(v) && (lowercased(v@) == "true"@ || lowercased(v@) == "1"@)),
        (value matches Some(v) && all_ascii(v@)) ==> r == is_true_seq(ascii_lowered(value->0@)),
{
    match value {
        Some(v) => {
            let lower = to_lowercase(v.as_str());
            is_true_text(lower.as_str())
        },
        None => false,
    }
}

/// The view of an optional string, or the empty sequence.
pub open spec fn view_or_empty(o: Option<String>) -> Seq<char> {
    match o {
        Some(s) => s@,
        None => Seq::empty(),
    }
}

fn string_or_empty(o: Option<String>) -> (r: String)
    ensures
        r@ == view_or_empty(o),
{
    match o {
        Some(s) => s,
        None => String::new(),
    }
}

/// The state directory: `HK_STATE_DIR` when set, else `hk` under the
/// system's state directory, else `hk` under `.local/state` in the home
/// directory (an empty path when there is no home directory).
pub open spec fn spec_state_dir(
    env_value: Option<String>,
    system_state_dir: Option<String>,
    home: Option<String>,
) -> Seq<char> {
    match env_value {
        Some(v) => v@,
        None => {
            let base = match system_state_dir {
                Some(d) => d@,
                None => joined(joined(view_or_empty(home), ".local"@), "state"@),
            };
            joined(base, "hk"@)
        },
    }
}

/// The state directory (see [`spec_state_dir`]).
pub fn hk_state_dir(
    env_value: Option<String>,
    system_state_dir: Option<String>,
    home: Option<String>,
) -> (r: String)
    ensures
        r@ == spec_state_dir(env_value, system_state_dir, home),
{
    match env_value {
        Some(v) => v,
        None => {
            let base = match system_state_dir {
                Some(d) => d,
                None => {
                    let h = string_or_empty(home);
                    let local = join_path(h.as_str(), ".local");
                    join_path(local.as_str(), "state")
                },
            };
            join_path(base.as_str(), "hk")
        },
    }
}

/// The cache directory: `HK_CACHE_DIR` when set, else `hk` under the system's
/// cache directory, else `hk` under `.cache` in the home directory.
pub open spec fn spec_cache_dir(
    env_value: Option<String>,
    system_cache_dir: Option<String>,
    home: Option<String>,
) -> Seq<char> {
    match env_value {
        Some(v) => v@,
        None => {
            let base = match system_cache_dir {
                Some(d) => d@,
                None => joined(view_or_empty(home), ".cache"@),
            };
            joined(base, "hk"@)
        },
    }
}

/// The cache directory (see [`spec_cache_dir`]).
pub fn hk_cache_dir(
    env_value: Option<String>,
    system_cache_dir: Option<String>,
    home: Option<String>,
) -> (r: String)
    ensures
        r@ == spec_cache_dir(env_value, system_cache_dir, home),
{
    match env_value {
        Some(v) => v,
        None => {
            let base = match system_cache_dir {
                Some(d) => d,
                None => {
                    let h = string_or_empty(home);
                    join_path(h.as_str(), ".cache")
                },
            };
            join_path(base.as_str(), "hk")
        },
    }
}

/// The log file: `HK_LOG_FILE` when set, else `hk.log` in the state directory.
pub fn hk_log_file(env_value: Option<String>, state_dir: &str) -> (r: String)
    ensures
        r@ == match env_value {
            Some(v) => v@,
            None => joined(state_dir@, "hk.log"@),
        },
{
    match env_value {
        Some(v) => v,
        None => join_path(state_dir, "hk.log"),
    }
}

/// The terminal's log level: `HK_LOG` when it names a filter, else `Info`.
pub fn hk_log(env_value: Option<String>) -> (r: LevelFilter)
    ensures
        r == match var_log_level_spec(env_value) {
            Some(f) => f,
            None => LevelFilter::Info,
        },
{
    match var_log_level(env_value) {
        Some(f) => f,
        None => LevelFilter::Info,
    }
}

/// The log file's level: `HK_LOG_FILE_LEVEL` when it names a filter, else the
/// terminal's level.
pub fn hk_log_file_level(env_value: Option<String>, term_level: LevelFilter) -> (r: LevelFilter)
    ensures
        r == match var_log_level_spec(env_value) {
            Some(f) => f,
            None => term_level,
        },
{
    match var_log_level(env_value) {
        Some(f) => f,
        None => term_level,
    }
}

/// What [`var_log_level`] returns for a value.
pub open spec fn var_log_level_spec(value: Option<String>) -> Option<LevelFilter> {
    match value {
        Some(v) => parsed_level_filter(v@),
        None => None,
    }
}

} // verus!
