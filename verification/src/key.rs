//! The shared secret key and the per-request proof value derived from it.

use vstd::prelude::*;
use vstd::utf8::encode_utf8;

use crate::encoding::{dec_digits, u128_to_decimal};
use crate::hashing::{hex_chars_of, hex_encode, sha512, sha512_of};

verus! {

/// Whether every byte is printable ASCII (space through tilde).
pub open spec fn all_printable(b: Seq<u8>) -> bool {
    forall|i: int| 0 <= i < b.len() ==> 32 <= #[trigger] b[i] < 127
}

/// The key policy: exactly 32 bytes, printable ASCII only, and neither the
/// first nor the last byte is a space.
pub open spec fn key_bytes_valid(b: Seq<u8>) -> bool {
    &&& b.len() == 32
    &&& all_printable(b)
    &&& b[0] != 32
    &&& b[31] != 32
}

/// The secret that proves possession of the key for one nonce: the SHA-512
/// digest of the nonce's decimal digits followed by the key bytes, rendered
/// as lowercase hex.
pub open spec fn secret_chars(nonce: nat, key_bytes: Seq<u8>) -> Seq<char> {
    hex_chars_of(sha512_of(dec_digits(nonce) + key_bytes))
}

/// The same secret as it appears on the wire, as UTF-8 (here: ASCII) bytes.
pub open spec fn secret_wire_bytes(nonce: nat, key_bytes: Seq<u8>) -> Seq<u8> {
    encode_utf8(secret_chars(nonce, key_bytes))
}

/// Rejections of a candidate key string.
#[derive(Debug, Copy, Clone, PartialEq, Eq, Structural)]
pub enum KeyError {
    /// The key is not exactly 32 bytes long; carries the offered length.
    WrongSize(usize),
    /// The key holds a byte outside the printable ASCII range.
    InvalidCharacters,
    /// The key begins or ends with a space.
    FlankingSpace,
}

/// A key for a server: an arbitrary 32-byte printable-ASCII string agreed
/// out of band with the client.
///
/// Keys can only be constructed through [`Key::new`], which enforces the
/// policy, so every `Key` value satisfies [`key_bytes_valid`].
#[derive(Clone, PartialEq, Eq, Hash)]
pub struct Key {
    text: String,
}

impl View for Key {
    type V = Seq<char>;

    closed spec fn view(&self) -> Seq<char> {
        self.text@
    }
}

impl Key {
    /// The key as the byte sequence that is hashed.
    pub open spec fn bytes(&self) -> Seq<u8> {
        encode_utf8(self@)
    }

    /// Creates a new `Key` from a string, enforcing the key policy.
    pub fn new(s: String) -> (r: Result<Key, KeyError>)
        ensures
            encode_utf8(s@).len() != 32 ==> (r matches Err(KeyError::WrongSize(n)) && n
                == encode_utf8(s@).len()),
            encode_utf8(s@).len() == 32 && !all_printable(encode_utf8(s@)) ==> r == Err::<
                Key,
                KeyError,
            >(KeyError::InvalidCharacters),
            encode_utf8(s@).len() == 32 && all_printable(encode_utf8(s@)) && (encode_utf8(s@)[0]
                == 32 || encode_utf8(s@)[31] == 32) ==> r == Err::<Key, KeyError>(
                KeyError::FlankingSpace,
            ),
            key_bytes_valid(encode_utf8(s@)) ==> (r matches Ok(k) && k@ == s@),
    {
        let bytes: &[u8] = s.as_str().as_bytes();
        if bytes.len() != 32 {
            return Err(KeyError::WrongSize(bytes.len()));
        }
        let mut i: usize = 0;
        while i < 32
            invariant
                bytes@ == encode_utf8(s@),
                bytes@.len() == 32,
                0 <= i <= 32,
                forall|j: int| 0 <= j < i ==> 32 <= #[trigger] bytes@[j] < 127,
            decreases 32 - i,
        {
            let b = bytes[i];
            if b < 32 || b >= 127 {
                return Err(KeyError::InvalidCharacters);
            }
            i += 1;
        }
        if bytes[0] == 32 || bytes[31] == 32 {
            return Err(KeyError::FlankingSpace);
        }
        Ok(Key { text: s })
    }

    /// Generates the secret for this key and a nonce, as a lowercase hex
    /// string.
    ///
    /// The secret binds the key to one nonce: the client sends it with the
    /// request, and the server recomputes it from the nonce it received and
    /// its own key. A match proves the client holds the key.
    pub fn generate_secret(&self, nonce: u128) -> (r: String)
        ensures
            r@ == secret_chars(nonce as nat, self.bytes()),
    {
        let mut msg = u128_to_decimal(nonce);
        msg.extend_from_slice(self.text.as_str().as_bytes());
        assert(msg@ == dec_digits(nonce as nat) + self.bytes());
        let digest = sha512(msg.as_slice());
        hex_encode(digest.as_slice())
    }
}

} // verus!
