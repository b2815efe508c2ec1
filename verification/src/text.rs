//! Text helpers: decoding of header bytes and trimming of trailing whitespace.
use vstd::prelude::*;
use vstd::string::*;

verus! {

/// What `String::from_utf8_lossy` makes of a byte sequence: its UTF-8
/// decoding, with each ill-formed part replaced by U+FFFD.
pub uninterp spec fn utf8_lossy(bytes: Seq<u8>) -> Seq<char>;

/// Bytes that are all below 0x80 are ASCII text.
pub open spec fn all_ascii(bytes: Seq<u8>) -> bool {
    forall|i: int| 0 <= i < bytes.len() ==> #[trigger] bytes[i] < 0x80
}

/// The characters that ASCII bytes stand for, one per byte.
pub open spec fn ascii_chars(bytes: Seq<u8>) -> Seq<char> {
    bytes.map_values(|b: u8| b as char)
}

/// Calls `String::from_utf8_lossy` and takes the result as an owned string.
/// Claimed: the result is `utf8_lossy` of the bytes, and ASCII input, being
/// valid UTF-8, comes out unchanged, one character per byte.
#[verifier::external_body]
pub(crate) fn decode_utf8_lossy(bytes: &[u8]) -> (s: String)
    ensures
        s@ == utf8_lossy(bytes@),
        all_ascii(bytes@) ==> s@ == ascii_chars(bytes@),
{
    String::from_utf8_lossy(bytes).into_owned()
}

/// Unicode White_Space, the set that `char::is_whitespace` tests.
pub open spec fn is_white_space(c: char) -> bool {
    let v = c as u32;
    ||| 0x09 <= v <= 0x0D
    ||| v == 0x20
    ||| v == 0x85
    ||| v == 0xA0
    ||| v == 0x1680
    ||| 0x2000 <= v <= 0x200A
    ||| v == 0x2028
    ||| v == 0x2029
    ||| v == 0x202F
    ||| v == 0x205F
    ||| v == 0x3000
}

/// `c` is White_Space, decided in executable code.
pub fn char_is_white_space(c: char) -> (b: bool)
    ensures
        b == is_white_space(c),
{
    let v = c as u32;
    (0x09 <= v && v <= 0x0D) || v == 0x20 || v == 0x85 || v == 0xA0 || v == 0x1680 || (0x2000
        <= v && v <= 0x200A) || v == 0x2028 || v == 0x2029 || v == 0x202F || v == 0x205F || v
        == 0x3000
}

/// The text with its trailing White_Space removed (what `str::trim_end` gives).
pub open spec fn trim_end_spec(s: Seq<char>) -> Seq<char>
    decreases s.len(),
{
    if s.len() > 0 && is_white_space(s.last()) {
        trim_end_spec(s.drop_last())
    } else {
        s
    }
}

/// Removing trailing White_Space keeps a prefix, and stops at a character
/// that is not White_Space.
pub proof fn lemma_trim_end_prefix(s: Seq<char>, n: int)
    requires
        0 <= n <= s.len(),
        forall|i: int| n <= i < s.len() ==> #[trigger] is_white_space(s[i]),
        n == 0 || !is_white_space(s[n - 1]),
    ensures
        trim_end_spec(s) == s.subrange(0, n),
    decreases s.len(),
{
    if s.len() == n {
        assert(s.subrange(0, n) =~= s);
    } else {
        assert(is_white_space(s[s.len() - 1]));
        let t = s.drop_last();
        assert forall|i: int| n <= i < t.len() implies #[trigger] is_white_space(t[i]) by {
            assert(t[i] == s[i]);
        }
        lemma_trim_end_prefix(t, n);
        assert(t.subrange(0, n) =~= s.subrange(0, n));
    }
}

/// A copy of `s` without its trailing White_Space.
pub fn trim_end_owned(s: &str) -> (r: String)
    ensures
        r@ == trim_end_spec(s@),
{
    let len = s.unicode_len();
    let mut n: usize = len;
    while n > 0
        invariant
            n <= len,
            len == s@.len(),
            forall|i: int| n <= i < len ==> #[trigger] is_white_space(s@[i]),
        ensures
            n == 0 || !is_white_space(s@[n - 1]),
        decreases n,
    {
        let c = s.get_char(n - 1);
        if !char_is_white_space(c) {
            break;
        }
        n = n - 1;
    }
    proof {
        lemma_trim_end_prefix(s@, n as int);
    }
    let t = s.substring_char(0, n);
    String::from_str(t)
}

} // verus!
