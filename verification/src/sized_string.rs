//! A sized, stack allocated string type.
//!
//! This is useful when a string must live on the stack and still be sized,
//! for instance in shared memory, where the characters themselves must be
//! stored and not a pointer to them.

use vstd::prelude::*;
use vstd::string::StringSliceAdditionalSpecFns;
use vstd::utf8::*;

verus! {

/// A sized, stack allocated string type: `N` bytes that are read as UTF-8.
#[derive(Copy, Clone, Debug, PartialEq, Eq, Hash)]
pub struct SizedString<const N: usize>([u8; N]);

impl<const N: usize> View for SizedString<N> {
    type V = Seq<u8>;

    closed spec fn view(&self) -> Seq<u8> {
        self.0@
    }
}

/// Decodes a byte slice with `core::str::from_utf8`. As its documentation
/// says, the call succeeds exactly on well-formed UTF-8, and the string
/// slice it hands back is a view of the very bytes it was given.
#[verifier::external_body]
fn decode(bytes: &[u8]) -> (text: Option<&str>)
    ensures
        text is Some <==> valid_utf8(bytes@),
        text matches Some(t) ==> t.spec_bytes() == bytes@,
{
    core::str::from_utf8(bytes).ok()
}

impl<const N: usize> SizedString<N> {
    /// Construct a new [`SizedString`] from a byte array.
    #[must_use]
    pub fn new(bytes: [u8; N]) -> (string: Self)
        ensures
            string@ == bytes@,
    {
        Self(bytes)
    }

    /// The number of bytes, which is `N`.
    #[must_use]
    pub fn len(&self) -> (length: usize)
        ensures
            length == N,
            length == self@.len(),
    {
        broadcast use vstd::array::array_len_matches_n;

        N
    }

    /// Whether the string holds no byte.
    #[must_use]
    pub fn is_empty(&self) -> (empty: bool)
        ensures
            empty == (self@.len() == 0),
    {
        broadcast use vstd::array::array_len_matches_n;

        N == 0
    }

    /// The bytes of the string.
    #[must_use]
    pub fn as_bytes(&self) -> (bytes: &[u8])
        ensures
            bytes@ == self@,
    {
        self.0.as_slice()
    }

    /// Get the string as a [`str`], where its bytes are well-formed UTF-8.
    #[must_use]
    pub fn to_str(&self) -> (text: Option<&str>)
        ensures
            text is Some <==> valid_utf8(self@),
            text matches Some(t) ==> t@ == decode_utf8(self@),
    {
        let text = decode(self.0.as_slice());
        proof {
            if let Some(t) = text {
                encode_utf8_decode_utf8(t@);
            }
        }
        text
    }

    /// Get the string as a [`str`]. The bytes must be well-formed UTF-8.
    #[must_use]
    pub fn as_str(&self) -> (text: &str)
        requires
            valid_utf8(self@),
        ensures
            text@ == decode_utf8(self@),
    {
        match self.to_str() {
            Some(text) => text,
            None => vstd::pervasive::unreached(),
        }
    }
}

/// The low eight bits of a character's code point.
pub open spec fn low_byte(c: char) -> u8 {
    (c as u32 % 256) as u8
}

/// The bytes that a string literal is stored as: one byte per character,
/// each the low eight bits of the character's code point.
pub open spec fn stored_bytes(text: Seq<char>) -> Seq<u8> {
    text.map_values(|c: char| low_byte(c))
}

/// The bytes to build a [`SizedString`] of a literal from: as many as the
/// literal has characters.
pub fn literal_bytes(text: &str) -> (bytes: Vec<u8>)
    ensures
        bytes@ == stored_bytes(text@),
{
    let mut bytes: Vec<u8> = Vec::new();
    for c in it: text.chars()
        invariant
            it.seq() == text@,
            bytes@ == stored_bytes(text@.take(it.index() as int)),
    {
        let ghost before = bytes@;
        bytes.push((c as u32 % 256) as u8);
        proof {
            let i = it.index() as int;
            assert(text@.take(i + 1) =~= text@.take(i).push(text@[i]));
            assert(bytes@ =~= stored_bytes(text@.take(i + 1)));
        }
    }
    proof {
        assert(text@.take(text@.len() as int) =~= text@);
    }
    bytes
}

/// A literal of ASCII characters is stored as well-formed UTF-8 and reads
/// back as itself.
pub proof fn lemma_ascii_literal_reads_back(text: Seq<char>)
    requires
        is_ascii_chars(text),
    ensures
        valid_utf8(stored_bytes(text)),
        decode_utf8(stored_bytes(text)) == text,
{
    is_ascii_chars_encode_utf8(text);
    assert forall|i: int| 0 <= i < text.len() implies stored_bytes(text)[i] == encode_utf8(
        text,
    )[i] by {
        let c = text[i];
        assert(c as u32 <= 0x7f);
        assert(low_byte(c) == c as u8);
    }
    assert(stored_bytes(text) =~= encode_utf8(text));
    encode_utf8_valid_utf8(text);
    encode_utf8_decode_utf8(text);
}

} // verus!
