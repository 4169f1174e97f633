use vstd::prelude::*;

verus! {

/// A character that may stand in a header value: a horizontal tab, or any
/// character from the space upward except DEL. Characters beyond ASCII are
/// encoded as bytes of 0x80 and above, which are all accepted.
pub open spec fn header_char_ok(c: char) -> bool {
    c == '\t' || (c as u32 >= 32 && c as u32 != 127)
}

/// Text that can be carried as a header value.
pub open spec fn header_text_ok(s: Seq<char>) -> bool {
    forall|i: int| 0 <= i < s.len() ==> header_char_ok(#[trigger] s[i])
}

/// Relies on http::HeaderValue::from_str: it accepts the text exactly when
/// every byte is a tab, or at least 32 and not 127.
#[verifier::external_body]
pub(crate) fn header_value_accepts(s: &str) -> (r: bool)
    ensures
        r == header_text_ok(s@),
{
    http::HeaderValue::from_str(s).is_ok()
}

} // verus!
