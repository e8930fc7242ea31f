//! OS error text and the diagnostic line reported for it.
use vstd::prelude::*;
use vstd::string::*;
use vstd::utf8::*;

use crate::cstr::{c_body, holds_c_text, view_c_string};

verus! {

/// The text given for an error code that the platform has no description for.
pub open spec fn null_text() -> Seq<char> {
    seq!['(', 'n', 'u', 'l', 'l', ')']
}

/// The diagnostic line for `text` under `context`: the text alone where the
/// context is empty, else the context, a colon, a space and the text.
pub open spec fn report_text(context: Seq<char>, text: Seq<char>) -> Seq<char> {
    if context.len() == 0 {
        text
    } else {
        context + seq![':', ' '] + text
    }
}

/// Text for an OS error code, given the description the platform returned for
/// it: that description read as text, or `(null)` where there was none.
pub fn error_text<'a>(desc: Option<&'a [u8]>) -> (r: &'a str)
    requires
        desc matches Some(b) ==> holds_c_text(b@),
    ensures
        desc is None ==> r@ == null_text() && r@.len() > 0,
        desc matches Some(b) ==> encode_utf8(r@) == c_body(b@) && r@ == decode_utf8(c_body(b@)),
{
    match desc {
        None => {
            proof {
                reveal_strlit("(null)");
            }
            "(null)"
        },
        Some(b) => view_c_string(b),
    }
}

/// The diagnostic line that reports `text` under `context`.
pub fn perror_line(context: &str, text: &str) -> (r: String)
    ensures
        r@ == report_text(context@, text@),
{
    proof {
        if context@.len() > 0 {
            assert(encode_utf8(context@) == encode_scalar(context@[0] as u32) + encode_utf8(
                context@.drop_first(),
            ));
            assert(encode_scalar(context@[0] as u32).len() > 0);
        }
    }
    if context.as_bytes().len() == 0 {
        String::from_str(text)
    } else {
        let mut out = String::from_str(context);
        proof {
            reveal_strlit(": ");
        }
        out.append(": ");
        out.append(text);
        out
    }
}

/// The diagnostic line for the error whose platform description is `desc`,
/// under `context`.
pub fn perror_message(context: &str, desc: Option<&[u8]>) -> (r: String)
    requires
        desc matches Some(b) ==> holds_c_text(b@),
    ensures
        desc is None ==> r@ == report_text(context@, null_text()),
        desc matches Some(b) ==> r@ == report_text(context@, decode_utf8(c_body(b@))),
{
    let text = error_text(desc);
    perror_line(context, text)
}

} // verus!
