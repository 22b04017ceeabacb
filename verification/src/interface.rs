use vstd::prelude::*;

verus! {

/// Informational messages print below this verbosity level.
pub const INFO_LEVEL: u8 = 1;

/// Error messages print below this verbosity level.
pub const ERROR_LEVEL: u8 = 2;

/// Prompts print below this verbosity level.
pub const PROMPT_LEVEL: u8 = 3;

/// Whether output of the given level prints at verbosity `quiet`: each
/// step of `quiet` silences one further kind of output.
pub fn verbosity_allows(quiet: u8, level: u8) -> (r: bool)
    ensures
        r == (quiet < level),
{
    quiet < level
}

/// A provided value wins over a value read interactively.
pub fn provided_or(provided: Option<String>, read: String) -> (r: String)
    ensures
        match provided {
            Some(p) => r == p,
            None => r == read,
        },
{
    match provided {
        Some(p) => p,
        None => read,
    }
}

/// The tail a completion adds beyond the line already typed: the
/// completed text past the line's own length, or nothing when the
/// completion is no longer than the line.
pub fn hint_suffix(line: &str, replacement: &str) -> (r: Option<String>)
    ensures
        match r {
            Some(s) => replacement@.len() > line@.len() && s@ == replacement@.skip(
                line@.len() as int,
            ),
            None => replacement@.len() <= line@.len(),
        },
{
    let n = line.unicode_len();
    let m = replacement.unicode_len();
    if m > n {
        let tail = replacement.substring_char(n, m);
        proof {
            assert(tail@ =~= replacement@.skip(line@.len() as int));
        }
        Some(String::from_str(tail))
    } else {
        None
    }
}

} // verus!
