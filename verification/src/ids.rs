//! Random identifiers through the `nanoid` crate: the protocol name of a
//! hosting node, the token of a new instance and the default folder name.

use vstd::prelude::*;
use crate::text::ascii_bytes;

verus! {

/// A URL-safe character: `A-Z`, `a-z`, `0-9`, `_` or `-`.
pub open spec fn is_url_safe(c: char) -> bool {
    c == '_' || c == '-' || ('0' <= c <= '9') || ('a' <= c <= 'z') || ('A' <= c <= 'Z')
}

/// The byte of a URL-safe character.
pub open spec fn is_url_safe_byte(b: u8) -> bool {
    b == 95 || b == 45 || (48 <= b <= 57) || (97 <= b <= 122) || (65 <= b <= 90)
}

/// An ASCII letter or digit.
pub open spec fn is_alphanumeric(c: char) -> bool {
    ('0' <= c <= '9') || ('a' <= c <= 'z') || ('A' <= c <= 'Z')
}

/// `nanoid::alphabet::SAFE`: its 64 characters are URL-safe.
#[verifier::external_body]
fn safe_alphabet() -> (a: &'static [char])
    ensures
        a@.len() == 64,
        forall|i: int| 0 <= i < 64 ==> is_url_safe(#[trigger] a@[i]),
{
    &nanoid::alphabet::SAFE
}

/// `nanoid::format` with the default random source (`nanoid::rngs::default`),
/// as `nanoid!(size, alphabet)` calls it: `size` characters drawn at random
/// from `alphabet`. The result depends on chance, so the contract states only
/// its length and that each character is one of the alphabet's.
/// `format` panics on an alphabet longer than 255 characters and does not
/// return for an empty alphabet or a size of 0; it counts the result's length
/// in bytes, hence the ASCII alphabet; `8 * size` must not overflow.
#[verifier::external_body]
fn nanoid_format(alphabet: &[char], size: usize) -> (id: String)
    requires
        0 < alphabet@.len() <= 255,
        vstd::utf8::is_ascii_chars(alphabet@),
        0 < size <= usize::MAX / 8,
    ensures
        id@.len() == size,
        forall|i: int| 0 <= i < size ==> alphabet@.contains(#[trigger] id@[i]),
{
    nanoid::format(nanoid::rngs::default, alphabet, size)
}

proof fn lemma_url_safe_ascii(a: Seq<char>)
    requires
        forall|i: int| 0 <= i < a.len() ==> is_url_safe(#[trigger] a[i]),
    ensures
        vstd::utf8::is_ascii_chars(a),
{
    assert forall|i: int| 0 <= i < a.len() implies '\0' <= #[trigger] a[i] <= '\u{7f}' by {
        assert(is_url_safe(a[i]));
    }
}

/// A random URL-safe identifier of `size` characters, as `nanoid!(size)`.
fn safe_id(size: usize) -> (id: String)
    requires
        0 < size <= usize::MAX / 8,
    ensures
        id@.len() == size,
        forall|i: int| 0 <= i < size ==> is_url_safe(#[trigger] id@[i]),
{
    let alphabet = safe_alphabet();
    proof {
        lemma_url_safe_ascii(alphabet@);
    }
    let id = nanoid_format(alphabet, size);
    assert forall|i: int| 0 <= i < size implies is_url_safe(#[trigger] id@[i]) by {
        assert(alphabet@.contains(id@[i]));
    }
    id
}

/// The protocol name of a hosting node: 32 random URL-safe characters, as
/// bytes.
pub fn new_alpn() -> (alpn: Vec<u8>)
    ensures
        alpn@.len() == 32,
        forall|i: int| 0 <= i < 32 ==> is_url_safe_byte(#[trigger] alpn@[i]),
{
    let id = safe_id(32);
    proof {
        lemma_url_safe_ascii(id@);
        crate::text::lemma_encode_ascii(id@);
    }
    let alpn = id.as_str().as_bytes_vec();
    assert forall|i: int| 0 <= i < 32 implies is_url_safe_byte(#[trigger] alpn@[i]) by {
        assert(alpn@[i] == ascii_bytes(id@)[i]);
        let c = id@[i];
        assert(is_url_safe(c));
        assert('_' as u8 == 95u8);
        assert('-' as u8 == 45u8);
        assert('0' as u32 == 48);
        assert('9' as u32 == 57);
        assert('a' as u32 == 97);
        assert('z' as u32 == 122);
        assert('A' as u32 == 65);
        assert('Z' as u32 == 90);
    }
    alpn
}

/// The token of a new instance: 48 random URL-safe characters.
pub fn new_token() -> (token: String)
    ensures
        token@.len() == 48,
        forall|i: int| 0 <= i < 48 ==> is_url_safe(#[trigger] token@[i]),
{
    safe_id(48)
}

/// The default folder name of a new instance: 10 random ASCII letters or
/// digits.
pub fn default_folder_name() -> (name: String)
    ensures
        name@.len() == 10,
        forall|i: int| 0 <= i < 10 ==> is_alphanumeric(#[trigger] name@[i]),
{
    let alphabet: Vec<char> = vec![
        '1', '2', '3', '4', '5', '6', '7', '8', '9', '0', 'q', 'w', 'e', 'r', 't', 'y', 'u', 'i',
        'o', 'p', 'a', 's', 'd', 'f', 'g', 'h', 'j', 'k', 'l', 'z', 'x', 'c', 'v', 'b', 'n', 'm',
        'Q', 'W', 'E', 'R', 'T', 'Y', 'U', 'I', 'O', 'P', 'A', 'S', 'D', 'F', 'G', 'H', 'J', 'K',
        'L', 'Z', 'X', 'C', 'V', 'B', 'N', 'M',
    ];
    assert(alphabet@.len() == 62);
    assert forall|i: int| 0 <= i < 62 implies is_alphanumeric(#[trigger] alphabet@[i]) by {}
    assert forall|i: int| 0 <= i < 62 implies '\0' <= #[trigger] alphabet@[i] <= '\u{7f}' by {
        assert(is_alphanumeric(alphabet@[i]));
    }
    let name = nanoid_format(alphabet.as_slice(), 10);
    assert forall|i: int| 0 <= i < 10 implies is_alphanumeric(#[trigger] name@[i]) by {
        assert(alphabet@.contains(name@[i]));
    }
    name
}

} // verus!
