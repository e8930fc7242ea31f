//! NUL-terminated byte buffers: building one from text, and reading the text
//! back out of one handed over by the foreign side.
use vstd::prelude::*;
use vstd::string::*;
use vstd::utf8::*;

verus! {

/// No byte of `b` is zero.
pub open spec fn nul_free(b: Seq<u8>) -> bool {
    forall|j: int| 0 <= j < b.len() ==> #[trigger] b[j] != 0
}

/// `b[i]` is the first zero byte of `b`.
pub open spec fn first_nul_is(b: Seq<u8>, i: int) -> bool {
    &&& 0 <= i < b.len()
    &&& b[i] == 0
    &&& nul_free(b.subrange(0, i))
}

/// `b` is terminated: it has a first zero byte.
pub open spec fn is_terminated(b: Seq<u8>) -> bool {
    exists|i: int| first_nul_is(b, i)
}

/// The text bytes of a terminated buffer: those before its first zero byte.
pub open spec fn c_body(b: Seq<u8>) -> Seq<u8> {
    b.subrange(0, choose|i: int| first_nul_is(b, i))
}

/// `b` is terminated and the bytes before its terminator are UTF-8.
pub open spec fn holds_c_text(b: Seq<u8>) -> bool {
    is_terminated(b) && valid_utf8(c_body(b))
}

/// The buffer that a copy of `text` takes on the foreign heap: the UTF-8
/// bytes of `text` followed by one zero byte.
pub open spec fn c_string_of(text: Seq<char>) -> Seq<u8> {
    encode_utf8(text).push(0)
}

/// A buffer has at most one first zero byte.
pub proof fn lemma_first_nul_unique(b: Seq<u8>, i: int, j: int)
    requires
        first_nul_is(b, i),
        first_nul_is(b, j),
    ensures
        i == j,
{
    if i < j {
        assert(b.subrange(0, j)[i] == b[i]);
    } else if j < i {
        assert(b.subrange(0, i)[j] == b[j]);
    }
}

/// Where the first zero byte is known, the body is what stands before it.
pub proof fn lemma_c_body_at(b: Seq<u8>, i: int)
    requires
        first_nul_is(b, i),
    ensures
        is_terminated(b),
        c_body(b) == b.subrange(0, i),
{
    let k = choose|k: int| first_nul_is(b, k);
    lemma_first_nul_unique(b, i, k);
}

/// The encoding of a scalar other than U+0000 holds no zero byte.
proof fn lemma_scalar_nul_free(v: u32)
    requires
        is_scalar(v),
        v != 0,
    ensures
        nul_free(encode_scalar(v)),
{
    assert(v != 0 && v <= 0x7F ==> (v & 0x7F) as u8 != 0) by (bit_vector);
    assert(forall|x: u8| #[trigger] (0xC0u8 | x) != 0) by (bit_vector);
    assert(forall|x: u8| #[trigger] (0xE0u8 | x) != 0) by (bit_vector);
    assert(forall|x: u8| #[trigger] (0xF0u8 | x) != 0) by (bit_vector);
    assert(forall|x: u8| #[trigger] (0x80u8 | x) != 0) by (bit_vector);
}

/// The encoding of text without U+0000 holds no zero byte.
pub proof fn lemma_encode_nul_free(t: Seq<char>)
    requires
        !t.contains('\0'),
    ensures
        nul_free(encode_utf8(t)),
    decreases t.len(),
{
    if t.len() > 0 {
        let c = t[0];
        char_is_scalar(c);
        assert(c != '\0');
        char_u32_cast(c, c as u32);
        assert(c as u32 != 0);
        lemma_scalar_nul_free(c as u32);
        let rest = t.drop_first();
        assert forall|k: int| 0 <= k < rest.len() implies rest[k] != '\0' by {
            assert(rest[k] == t[k + 1]);
        }
        lemma_encode_nul_free(rest);
        let e = encode_utf8(t);
        let a = encode_scalar(c as u32);
        let z = encode_utf8(rest);
        assert(e == a + z);
        assert forall|j: int| 0 <= j < e.len() implies #[trigger] e[j] != 0 by {
            if j < a.len() {
                assert(e[j] == a[j]);
            } else {
                assert(e[j] == z[j - a.len()]);
            }
        }
    }
}

/// Copying text without U+0000 to the foreign heap and reading it back gives
/// the same text: the copy holds UTF-8 text ended by its one zero byte, and
/// the only text whose bytes stand before that zero is the original.
pub proof fn lemma_dup_view_round_trip(t: Seq<char>)
    requires
        !t.contains('\0'),
    ensures
        holds_c_text(c_string_of(t)),
        c_body(c_string_of(t)) == encode_utf8(t),
        forall|r: Seq<char>| encode_utf8(r) == c_body(c_string_of(t)) ==> r == t,
{
    let e = encode_utf8(t);
    let b = c_string_of(t);
    lemma_encode_nul_free(t);
    assert(b.subrange(0, e.len() as int) == e);
    lemma_c_body_at(b, e.len() as int);
    encode_utf8_valid_utf8(t);
    assert forall|r: Seq<char>| encode_utf8(r) == c_body(c_string_of(t)) implies r == t by {
        encode_utf8_decode_utf8(r);
        encode_utf8_decode_utf8(t);
    }
}

/// The bytes to place on the foreign heap for a copy of `s`: its UTF-8 bytes
/// and a terminating zero byte, `len + 1` bytes in all.
pub fn c_string_bytes(s: &str) -> (r: Vec<u8>)
    ensures
        r@ == c_string_of(s@),
        r@.len() == encode_utf8(s@).len() + 1,
        r@[r@.len() - 1] == 0,
{
    let bytes = s.as_bytes();
    let n = bytes.len();
    let mut out: Vec<u8> = Vec::new();
    let mut i: usize = 0;
    while i < n
        invariant
            n == bytes@.len(),
            bytes@ == encode_utf8(s@),
            i <= n,
            out@ == bytes@.subrange(0, i as int),
        decreases n - i,
    {
        out.push(bytes[i]);
        i = i + 1;
    }
    assert(out@ == bytes@);
    out.push(0);
    out
}

/// Finds the first zero byte of `b`.
pub fn first_nul(b: &[u8]) -> (r: Option<usize>)
    ensures
        r matches Some(i) ==> first_nul_is(b@, i as int),
        r is None ==> nul_free(b@),
        r is Some <==> is_terminated(b@),
{
    let mut i: usize = 0;
    while i < b.len()
        invariant
            i <= b@.len(),
            nul_free(b@.subrange(0, i as int)),
        decreases b@.len() - i,
    {
        if b[i] == 0 {
            assert(first_nul_is(b@, i as int));
            return Some(i);
        }
        assert(b@.subrange(0, i as int + 1) == b@.subrange(0, i as int).push(b@[i as int]));
        i = i + 1;
    }
    assert(b@.subrange(0, i as int) == b@);
    assert(!is_terminated(b@)) by {
        if is_terminated(b@) {
            let k = choose|k: int| first_nul_is(b@, k);
            assert(b@[k] == 0);
        }
    }
    None
}

/// Relies on std::str::from_utf8: it succeeds exactly on UTF-8 input, and the
/// text it returns is made of the bytes given.
#[verifier::external_body]
fn utf8_text(b: &[u8]) -> (r: Option<&str>)
    ensures
        r is Some <==> valid_utf8(b@),
        r matches Some(t) ==> encode_utf8(t@) == b@,
{
    std::str::from_utf8(b).ok()
}

/// Reads the text of a terminated, UTF-8 buffer handed over by the foreign
/// side, borrowing from it.
pub fn view_c_string(b: &[u8]) -> (r: &str)
    requires
        holds_c_text(b@),
    ensures
        encode_utf8(r@) == c_body(b@),
        r@ == decode_utf8(c_body(b@)),
{
    match try_view_c_string(b) {
        Some(t) => t,
        None => "",
    }
}

/// Reads the text of a buffer handed over by the foreign side, or `None` where
/// it has no zero byte or the bytes before it are not UTF-8.
pub fn try_view_c_string(b: &[u8]) -> (r: Option<&str>)
    ensures
        r is Some <==> holds_c_text(b@),
        r matches Some(t) ==> encode_utf8(t@) == c_body(b@) && t@ == decode_utf8(c_body(b@)),
{
    match first_nul(b) {
        None => None,
        Some(n) => {
            proof {
                lemma_c_body_at(b@, n as int);
            }
            let body = vstd::slice::slice_subrange(b, 0, n);
            let r = utf8_text(body);
            proof {
                if let Some(t) = r {
                    encode_utf8_decode_utf8(t@);
                }
            }
            r
        },
    }
}

/// Read-only access to the text of a NUL-terminated buffer of the foreign side.
pub trait PtrAsStr {
    /// The buffer holds a terminated UTF-8 text.
    spec fn holds_text(&self) -> bool;

    /// The bytes before the terminator.
    spec fn text_bytes(&self) -> Seq<u8>;

    fn as_str(&self) -> (r: &str)
        requires
            self.holds_text(),
        ensures
            encode_utf8(r@) == self.text_bytes(),
            r@ == decode_utf8(self.text_bytes()),
    ;
}

impl PtrAsStr for Vec<u8> {
    open spec fn holds_text(&self) -> bool {
        holds_c_text(self@)
    }

    open spec fn text_bytes(&self) -> Seq<u8> {
        c_body(self@)
    }

    fn as_str(&self) -> (r: &str) {
        view_c_string(self.as_slice())
    }
}

} // verus!
