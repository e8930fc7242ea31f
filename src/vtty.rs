//! Decoding what a foreign virtual terminal reports about its input.
use vstd::prelude::*;

verus! {

/// The byte that a raw read result stands for; any value outside the byte
/// range is the terminal's "no data" signal.
pub open spec fn char_of(raw: i32) -> Option<u8> {
    if 0 <= raw <= 255 {
        Some(raw as u8)
    } else {
        None
    }
}

/// What a read gives, given the terminal's availability flag and the raw
/// value its read returned.
pub open spec fn read_of(avail: i32, raw: i32) -> Option<u8> {
    if avail != 0 {
        char_of(raw)
    } else {
        None
    }
}

/// Whether the availability flag of a terminal (a boolean as an integer) says
/// that input is waiting.
pub fn has_char(avail: i32) -> (r: bool)
    ensures
        r == (avail != 0),
{
    avail != 0
}

/// The byte that a raw read result stands for, or `None` for "no data".
pub fn decode_char(raw: i32) -> (r: Option<u8>)
    ensures
        r == char_of(raw),
{
    if 0 <= raw && raw <= 255 {
        Some(raw as u8)
    } else {
        None
    }
}

/// The byte read from a terminal: `None` where its flag says no input is
/// waiting, whatever the raw read value, else the decoded read value.
pub fn read_char(avail: i32, raw: i32) -> (r: Option<u8>)
    ensures
        r == read_of(avail, raw),
{
    if has_char(avail) {
        decode_char(raw)
    } else {
        None
    }
}

/// A terminal that reports no waiting input yields no byte from a read, only
/// the "no data" signal.
pub proof fn lemma_no_input_no_char(avail: i32, raw: i32)
    requires
        avail == 0,
    ensures
        read_of(avail, raw) is None,
{
}

} // verus!
