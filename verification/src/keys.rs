//! Fixed-length symmetric key material and its combination primitive.

use vstd::prelude::*;
use vstd::slice::slice_to_vec;

verus! {

/// Number of bytes in a 128-bit key.
pub const AES_128_KEY_LEN: usize = 16;
/// Number of bytes in a 256-bit key.
pub const AES_256_KEY_LEN: usize = 32;

/// Reasons a key-material operation fails. Key-material failures always
/// surface to the caller; they are never recovered silently.
#[derive(Debug, Clone, PartialEq, Eq, Structural)]
pub enum KeyError {
    /// The supplied byte string has a length other than the two allowed sizes.
    InvalidLength { actual: usize },
    /// The two operands of `xor` differ in length.
    LengthMismatch { left: usize, right: usize },
}

/// A symmetric key: exactly [`AES_128_KEY_LEN`] or [`AES_256_KEY_LEN`] bytes,
/// validated at construction and immutable afterwards.
#[derive(Debug, Clone)]
pub struct SymmKey {
    bytes: Vec<u8>,
}

/// A vector holding keys.
pub type KeySet = Vec<SymmKey>;

impl View for SymmKey {
    type V = Seq<u8>;

    closed spec fn view(&self) -> Seq<u8> {
        self.bytes@
    }
}

impl SymmKey {
    /// The construction-time invariant: the key has one of the two allowed lengths.
    pub open spec fn wf(&self) -> bool {
        self@.len() == AES_128_KEY_LEN || self@.len() == AES_256_KEY_LEN
    }

    /// Builds a key from raw bytes; fails, reporting the observed length,
    /// unless that length is one of the two allowed sizes.
    pub fn from_bytes(v: &[u8]) -> (r: Result<SymmKey, KeyError>)
        ensures
            r is Ok <==> (v@.len() == AES_128_KEY_LEN || v@.len() == AES_256_KEY_LEN),
            r matches Ok(k) ==> k@ == v@ && k.wf(),
            r matches Err(e) ==> e == (KeyError::InvalidLength { actual: v@.len() as usize }),
    {
        let n = v.len();
        if n == AES_128_KEY_LEN || n == AES_256_KEY_LEN {
            Ok(SymmKey { bytes: slice_to_vec(v) })
        } else {
            Err(KeyError::InvalidLength { actual: n })
        }
    }

    /// Read-only view of the key bytes.
    pub fn bytes(&self) -> (r: &[u8])
        ensures
            r@ == self@,
    {
        self.bytes.as_slice()
    }

    /// Position-wise exclusive-or of two keys of identical length; fails on a
    /// length mismatch and never mutates either operand.
    pub fn xor(&self, other: &SymmKey) -> (r: Result<SymmKey, KeyError>)
        ensures
            r is Ok <==> self@.len() == other@.len(),
            r matches Ok(k) ==> k@.len() == self@.len() && forall|i: int|
                0 <= i < k@.len() ==> k@[i] == (self@[i] ^ other@[i]),
            r matches Err(e) ==> e == (KeyError::LengthMismatch {
                left: self@.len() as usize,
                right: other@.len() as usize,
            }),
    {
        if self.bytes.len() != other.bytes.len() {
            return Err(KeyError::LengthMismatch {
                left: self.bytes.len(),
                right: other.bytes.len(),
            });
        }
        let n = self.bytes.len();
        let mut outbuf: Vec<u8> = Vec::new();
        let mut i: usize = 0;
        while i < n
            invariant
                i <= n,
                n == self@.len(),
                n == other@.len(),
                outbuf@.len() == i,
                forall|j: int| 0 <= j < i ==> outbuf@[j] == (self@[j] ^ other@[j]),
            decreases n - i,
        {
            outbuf.push(self.bytes[i] ^ other.bytes[i]);
            i += 1;
        }
        Ok(SymmKey { bytes: outbuf })
    }
}

} // verus!
