//! The console observer interface: the kinds of status line an agent can
//! print, and the interpretation of the operator's safety answer.
//!
//! Printing itself is console work and lives outside the library; the library
//! owns the kinds and the decision of what an operator's line means.

use vstd::prelude::*;

verus! {

/// The kind of status line an agent prints; each kind is rendered in its own
/// color by the console.
#[derive(Clone, Copy, Debug, PartialEq, Eq, Structural)]
pub enum PrintCommand {
    AICall,
    UnitTest,
    Issue,
}

/// What `str::trim` returns: the text without leading and trailing
/// whitespace. A function of the characters alone.
pub uninterp spec fn trim_of(s: Seq<char>) -> Seq<char>;

/// What `str::to_lowercase` returns. A function of the characters alone.
pub uninterp spec fn lower_of(s: Seq<char>) -> Seq<char>;

/// Relies on str::trim: returns the slice without leading and trailing
/// whitespace; the result depends on the characters alone.
#[verifier::external_body]
fn trim_str(s: &str) -> (r: &str)
    ensures
        r@ == trim_of(s@),
{
    s.trim()
}

/// Relies on str::to_lowercase: returns the Unicode lowercase of the text;
/// the result depends on the characters alone.
#[verifier::external_body]
fn lowercase_str(s: &str) -> (r: String)
    ensures
        r@ == lower_of(s@),
{
    s.to_lowercase()
}

/// The meaning of a normalized (trimmed, lowercased) operator answer:
/// approval, refusal, or neither.
pub open spec fn confirmation_of(t: Seq<char>) -> Option<bool> {
    if t == "1"@ || t == "ok"@ || t == "y"@ {
        Some(true)
    } else if t == "2"@ || t == "no"@ || t == "n"@ {
        Some(false)
    } else {
        None
    }
}

/// Classify an already-normalized operator answer.
pub fn classify_confirmation(t: &str) -> (r: Option<bool>)
    ensures
        r == confirmation_of(t@),
{
    if crate::general::str_eq(t, "1") || crate::general::str_eq(t, "ok")
        || crate::general::str_eq(t, "y") {
        Some(true)
    } else if crate::general::str_eq(t, "2") || crate::general::str_eq(t, "no")
        || crate::general::str_eq(t, "n") {
        Some(false)
    } else {
        None
    }
}

/// Interpret one line of operator input to the safety gate: `Some(true)`
/// approves, `Some(false)` declines, `None` means the question is asked
/// again. Surrounding whitespace and letter case do not matter.
pub fn interpret_confirmation(line: &str) -> (r: Option<bool>)
    ensures
        r == confirmation_of(lower_of(trim_of(line@))),
{
    let trimmed = trim_str(line);
    let lowered = lowercase_str(trimmed);
    classify_confirmation(lowered.as_str())
}

} // verus!
