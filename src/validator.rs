//! Character rules for text fields of a profile.

use crate::text::{all_ascii, is_forbidden_path_char};
use vstd::prelude::*;

verus! {

/// Why a text field was rejected.
#[derive(Clone, Copy, Debug, PartialEq, Eq, Structural)]
pub enum PathRuleError {
    NonAscii,
    NonAsciiPath,
    InvalidCharInPath,
    PathContainsSpace,
}

/// The short code that names a rule.
pub open spec fn rule_code(e: PathRuleError) -> Seq<char> {
    match e {
        PathRuleError::NonAscii => "non_ascii"@,
        PathRuleError::NonAsciiPath => "non_ascii_path"@,
        PathRuleError::InvalidCharInPath => "invalid_char_in_path"@,
        PathRuleError::PathContainsSpace => "path_contains_space"@,
    }
}

impl PathRuleError {
    /// The short code that names the rule.
    pub fn code(&self) -> (r: &'static str)
        ensures
            r@ == rule_code(*self),
    {
        match self {
            PathRuleError::NonAscii => "non_ascii",
            PathRuleError::NonAsciiPath => "non_ascii_path",
            PathRuleError::InvalidCharInPath => "invalid_char_in_path",
            PathRuleError::PathContainsSpace => "path_contains_space",
        }
    }
}

/// A path that is ASCII, holds none of `< > : " | ? *` and no space.
pub open spec fn is_portable_path(s: Seq<char>) -> bool {
    &&& all_ascii(s)
    &&& forall|i: int| 0 <= i < s.len() ==> !is_forbidden_path_char(#[trigger] s[i])
    &&& forall|i: int| 0 <= i < s.len() ==> #[trigger] s[i] != ' '
}

/// The verdict on a path: which rule, checked in this order, it breaks first.
pub open spec fn path_verdict(s: Seq<char>) -> Result<(), PathRuleError> {
    if !all_ascii(s) {
        Err(PathRuleError::NonAsciiPath)
    } else if exists|i: int| 0 <= i < s.len() && is_forbidden_path_char(#[trigger] s[i]) {
        Err(PathRuleError::InvalidCharInPath)
    } else if exists|i: int| 0 <= i < s.len() && #[trigger] s[i] == ' ' {
        Err(PathRuleError::PathContainsSpace)
    } else {
        Ok(())
    }
}

fn scan_ascii(val: &str) -> (r: bool)
    ensures
        r == all_ascii(val@),
{
    let n = val.unicode_len();
    let mut i: usize = 0;
    while i < n
        invariant
            n == val@.len(),
            i <= n,
            forall|j: int| 0 <= j < i ==> (val@[j] as u32) < 128,
        decreases n - i,
    {
        let c = val.get_char(i);
        if (c as u32) >= 128 {
            return false;
        }
        i = i + 1;
    }
    true
}

/// Accepts exactly the ASCII texts.
pub fn validate_ascii(val: &str) -> (r: Result<(), PathRuleError>)
    ensures
        r is Ok <==> all_ascii(val@),
        r is Err ==> r == Err::<(), PathRuleError>(PathRuleError::NonAscii),
{
    if scan_ascii(val) {
        Ok(())
    } else {
        Err(PathRuleError::NonAscii)
    }
}

/// Checks a path against the portable-path rules: ASCII, none of
/// `< > : " | ? *`, no space.
pub fn validate_cross_platform_path(val: &str) -> (r: Result<(), PathRuleError>)
    ensures
        r == path_verdict(val@),
        r is Ok <==> is_portable_path(val@),
{
    if !scan_ascii(val) {
        return Err(PathRuleError::NonAsciiPath);
    }
    let n = val.unicode_len();
    let mut i: usize = 0;
    while i < n
        invariant
            n == val@.len(),
            i <= n,
            all_ascii(val@),
            forall|j: int| 0 <= j < i ==> !is_forbidden_path_char(#[trigger] val@[j]),
        decreases n - i,
    {
        let c = val.get_char(i);
        if c == '<' || c == '>' || c == ':' || c == '"' || c == '|' || c == '?' || c == '*' {
            assert(is_forbidden_path_char(val@[i as int]));
            return Err(PathRuleError::InvalidCharInPath);
        }
        i = i + 1;
    }
    let mut k: usize = 0;
    while k < n
        invariant
            n == val@.len(),
            k <= n,
            all_ascii(val@),
            forall|j: int| 0 <= j < n ==> !is_forbidden_path_char(#[trigger] val@[j]),
            forall|j: int| 0 <= j < k ==> #[trigger] val@[j] != ' ',
        decreases n - k,
    {
        if val.get_char(k) == ' ' {
            assert(val@[k as int] == ' ');
            return Err(PathRuleError::PathContainsSpace);
        }
        k = k + 1;
    }
    Ok(())
}

} // verus!
