//! Reading the report of the contention benchmark.

use crate::platform::text_of;
use vstd::prelude::*;

verus! {

/// The error that the pattern library reports for a pattern that it cannot
/// compile.
#[verifier::external_type_specification]
#[verifier::external_body]
pub struct ExPatternError(regex::Error);

/// The text that the first capture group of `pattern` matched in the
/// leftmost match of `pattern` in `text`; nothing where there is no match
/// or the group took no part in it.
pub uninterp spec fn first_group(pattern: Seq<char>, text: Seq<char>) -> Option<Seq<char>>;

/// Whether the pattern library compiles `pattern` on a machine whose words
/// have `word_bits` bits: the pattern is well formed and the compiled
/// program stays within the default size limit. The limit is counted in
/// bytes, and how many bytes a compiled program takes goes by the width of
/// a machine word; that is why the width is an argument.
pub uninterp spec fn pattern_accepted(pattern: Seq<char>, word_bits: nat) -> bool;

/// Compiles `pattern` with `regex::Regex::new` and searches `text` with
/// `Regex::captures`. The call succeeds exactly if the pattern library
/// compiles the pattern, which the contract names `pattern_accepted`. The
/// result is then the text of the first capture group of the leftmost
/// match, which the contract names `first_group`; otherwise the error of
/// the pattern library is handed on.
#[verifier::external_body]
fn capture_first_group(pattern: &str, text: &str) -> (r: Result<Option<String>, regex::Error>)
    ensures
        r is Ok <==> pattern_accepted(pattern@, usize::BITS as nat),
        r matches Ok(found) ==> text_of(found) == first_group(pattern@, text@),
{
    let compiled = regex::Regex::new(pattern)?;
    Ok(compiled.captures(text).and_then(|found| found.get(1)).map(|group| group.as_str().to_string()))
}

/// The pattern was not accepted by the pattern library.
#[derive(Debug, Clone, Copy, PartialEq, Eq, Structural)]
pub struct PatternRejected;

/// The pattern of the line that reports the throughput: the number is the
/// first capture group.
pub open spec fn throughput_pattern() -> Seq<char> {
    "Throughput: ([\\d\\.]+) Mops/sec"@
}

/// The field of a capture, with the error of the pattern library replaced
/// by that of this library.
pub fn field_of(capture: Result<Option<String>, regex::Error>) -> (r: Result<
    Option<String>,
    PatternRejected,
>)
    ensures
        match capture {
            Ok(found) => r == Ok::<Option<String>, PatternRejected>(found),
            Err(_) => r == Err::<Option<String>, PatternRejected>(PatternRejected),
        },
{
    match capture {
        Ok(found) => Ok(found),
        Err(_) => Err(PatternRejected),
    }
}

/// The number, as text, of the first line of a benchmark report that states
/// a throughput; nothing where the report states none. The pattern library
/// has to compile the pattern of that line: the result is an error exactly
/// if it does not, whatever the report holds.
pub fn throughput_field(output: &str) -> (r: Result<Option<String>, PatternRejected>)
    ensures
        r is Ok <==> pattern_accepted(throughput_pattern(), usize::BITS as nat),
        r matches Ok(found) ==> text_of(found) == first_group(throughput_pattern(), output@),
{
    field_of(capture_first_group("Throughput: ([\\d\\.]+) Mops/sec", output))
}

} // verus!
