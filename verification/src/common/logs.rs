//! From the lines of a transaction's log to the events in them.
//!
//! The program writes an event as a line that starts with `Program data:`
//! and carries the event as base64 text.

use crate::common::outside::base64_decoded;
use crate::common::stream::{decode_outcome, parse_event, EventError, PumpFunEvent};
use vstd::prelude::*;
use vstd::string::StrSliceExecFns;

verus! {

/// The text that `str::replace` makes of `text` when it puts `to` in the
/// place of every match of `from`.
pub uninterp spec fn replaced(text: Seq<char>, from: Seq<char>, to: Seq<char>) -> Seq<char>;

/// The text that `str::trim` leaves of `text`: the text without the white
/// space at its two ends.
pub uninterp spec fn trimmed(text: Seq<char>) -> Seq<char>;

/// Whether `text` starts with `prefix`.
pub open spec fn is_prefix(prefix: Seq<char>, text: Seq<char>) -> bool {
    prefix.len() <= text.len() && text.subrange(0, prefix.len() as int) == prefix
}

/// The text that a log line carries as program data, if it carries any: for
/// a line that starts with `Program data:`, the line without every
/// `Program data: ` in it and without the white space at its ends.
pub open spec fn program_data_spec(log_line: Seq<char>) -> Option<Seq<char>> {
    if is_prefix("Program data:"@, log_line) {
        Some(trimmed(replaced(log_line, "Program data: "@, ""@)))
    } else {
        None
    }
}

/// The program data of the lines that carry some, in the order of the
/// lines.
pub open spec fn data_lines(logs: Seq<Seq<char>>) -> Seq<Seq<char>>
    decreases logs.len(),
{
    if logs.len() == 0 {
        Seq::empty()
    } else {
        let before = data_lines(logs.drop_last());
        match program_data_spec(logs.last()) {
            Some(data) => before.push(data),
            None => before,
        }
    }
}

/// Whether `r` is what parsing the text `data` gives, for an event of the
/// transaction `signature`.
pub open spec fn parse_outcome(
    r: Result<PumpFunEvent, EventError>,
    signature: Seq<char>,
    data: Seq<char>,
) -> bool {
    match base64_decoded(data) {
        Ok(bytes) => decode_outcome(r, signature, data, bytes),
        Err(e) => r matches Err(EventError::Base64(b)) && b == e,
    }
}

/// The texts of a list of lines.
pub open spec fn lines_view(logs: Seq<String>) -> Seq<Seq<char>> {
    Seq::new(logs.len(), |i: int| logs[i]@)
}

/// Whether `text` starts with `prefix`.
pub fn starts_with(text: &str, prefix: &str) -> (r: bool)
    ensures
        r == is_prefix(prefix@, text@),
{
    let length: usize = prefix.unicode_len();
    if text.unicode_len() < length {
        return false;
    }
    let mut i: usize = 0;
    while i < length
        invariant
            i <= length,
            length == prefix@.len(),
            length <= text@.len(),
            forall|j: int| 0 <= j < i ==> text@[j] == prefix@[j],
        decreases length - i,
    {
        if text.get_char(i) != prefix.get_char(i) {
            assert(text@.subrange(0, length as int)[i as int] != prefix@[i as int]);
            return false;
        }
        i += 1;
    }
    assert(text@.subrange(0, length as int) =~= prefix@);
    true
}

/// Calls `str::replace` with a text as the pattern.
///
/// Trusted: the result is the text that `replaced` names.
#[verifier::external_body]
fn replace(text: &str, from: &str, to: &str) -> (r: String)
    ensures
        r@ == replaced(text@, from@, to@),
{
    text.replace(from, to)
}

/// Calls `str::trim`.
///
/// Trusted: the result is the text that `trimmed` names.
#[verifier::external_body]
fn trim(text: &str) -> (r: String)
    ensures
        r@ == trimmed(text@),
{
    text.trim().to_string()
}

/// The text that a log line carries as program data, if it carries any.
pub fn program_data(log_line: &str) -> (r: Option<String>)
    ensures
        match r {
            Some(data) => program_data_spec(log_line@) == Some(data@),
            None => program_data_spec(log_line@) is None,
        },
{
    if starts_with(log_line, "Program data:") {
        let without_marker = replace(log_line, "Program data: ", "");
        Some(trim(without_marker.as_str()))
    } else {
        None
    }
}

/// Decodes every event that the log of the transaction `signature` holds.
///
/// There is one result for each line that carries program data, in the
/// order of the lines: the event, or why the line's data are none.
pub fn events_in_logs(signature: &str, logs: &Vec<String>) -> (r: Vec<
    Result<PumpFunEvent, EventError>,
>)
    ensures
        r.len() == data_lines(lines_view(logs@)).len(),
        forall|i: int|
            0 <= i < r.len() ==> parse_outcome(
                #[trigger] r@[i],
                signature@,
                data_lines(lines_view(logs@))[i],
            ),
{
    let mut results: Vec<Result<PumpFunEvent, EventError>> = Vec::new();
    let mut i: usize = 0;
    assert(lines_view(logs@).subrange(0, 0) =~= Seq::empty());
    while i < logs.len()
        invariant
            i <= logs.len(),
            results.len() == data_lines(lines_view(logs@).subrange(0, i as int)).len(),
            forall|k: int|
                0 <= k < results.len() ==> parse_outcome(
                    #[trigger] results@[k],
                    signature@,
                    data_lines(lines_view(logs@).subrange(0, i as int))[k],
                ),
        decreases logs.len() - i,
    {
        let ghost before: Seq<Seq<char>> = lines_view(logs@).subrange(0, i as int);
        let ghost after: Seq<Seq<char>> = lines_view(logs@).subrange(0, (i + 1) as int);
        assert(after.drop_last() =~= before);
        assert(after.last() == logs@[i as int]@);
        match program_data(logs[i].as_str()) {
            Some(data) => {
                let outcome = parse_event(signature, data.as_str());
                results.push(outcome);
                assert(data_lines(after) == data_lines(before).push(data@));
            },
            None => {
                assert(data_lines(after) == data_lines(before));
            },
        }
        i += 1;
    }
    assert(lines_view(logs@).subrange(0, logs.len() as int) =~= lines_view(logs@));
    results
}

} // verus!
