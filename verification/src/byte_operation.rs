//! Length-strict bitwise operations over byte sequences.
//!
//! The operations behave identically over the owned, growable byte sequence
//! ([`ByteVec`]) and the borrowed view (`[u8]`). The in-place operations are
//! all-or-nothing: the length check happens before any element is written, so
//! a failed call leaves the receiver exactly as it was.

use vstd::prelude::*;

use crate::cresult::{CError, CResult};

verus! {

/// An owned byte sequence.
pub type ByteVec = Vec<u8>;

/// The error class raised when the two operands of a bitwise operation do not
/// have the same length.
pub open spec fn is_length_mismatch(e: CError) -> bool {
    &&& e.code == 1001
    &&& e.message@ == "the two byte sequences of a byte operation must have the same length"@
    &&& e.other_info is None
}

/// The error constant for a length mismatch between two byte sequences.
pub fn vec_length_should_be_same() -> (r: CError)
    ensures
        is_length_mismatch(r),
{
    CError::new(1001, "the two byte sequences of a byte operation must have the same length")
}

/// Element-wise operations over two byte sequences of equal length.
///
/// `and`, `or` and `xor` update the receiver in place and fail with the
/// length-mismatch error, leaving the receiver unchanged, when the operand
/// lengths differ. `equals` is structural: false on differing lengths, never
/// an error.
pub trait ByteOperation: View<V = Seq<u8>> {
    /// In-place element-wise bitwise AND with `bv`.
    fn and(&mut self, bv: &Self) -> (r: CResult<()>)
        ensures
            old(self)@.len() == bv@.len() ==> {
                &&& r is Ok
                &&& final(self)@.len() == old(self)@.len()
                &&& forall|i: int|
                    0 <= i < old(self)@.len() ==> final(self)@[i] == (old(self)@[i] & bv@[i])
            },
            old(self)@.len() != bv@.len() ==> {
                &&& final(self)@ == old(self)@
                &&& r matches Err(e) && is_length_mismatch(e)
            },
    ;

    /// In-place element-wise bitwise OR with `bv`.
    fn or(&mut self, bv: &Self) -> (r: CResult<()>)
        ensures
            old(self)@.len() == bv@.len() ==> {
                &&& r is Ok
                &&& final(self)@.len() == old(self)@.len()
                &&& forall|i: int|
                    0 <= i < old(self)@.len() ==> final(self)@[i] == (old(self)@[i] | bv@[i])
            },
            old(self)@.len() != bv@.len() ==> {
                &&& final(self)@ == old(self)@
                &&& r matches Err(e) && is_length_mismatch(e)
            },
    ;

    /// In-place element-wise bitwise XOR with `bv`.
    fn xor(&mut self, bv: &Self) -> (r: CResult<()>)
        ensures
            old(self)@.len() == bv@.len() ==> {
                &&& r is Ok
                &&& final(self)@.len() == old(self)@.len()
                &&& forall|i: int|
                    0 <= i < old(self)@.len() ==> final(self)@[i] == (old(self)@[i] ^ bv@[i])
            },
            old(self)@.len() != bv@.len() ==> {
                &&& final(self)@ == old(self)@
                &&& r matches Err(e) && is_length_mismatch(e)
            },
    ;

    /// Structural equality: true exactly when the lengths match and every
    /// element matches.
    fn equals(&self, b: &Self) -> (r: bool)
        ensures
            r == (self@ == b@),
    ;
}

impl ByteOperation for ByteVec {
    fn and(&mut self, bv: &ByteVec) -> (r: CResult<()>) {
        if self.len() != bv.len() {
            return vec_length_should_be_same().to_cresult();
        }
        let length = self.len();
        let mut i: usize = 0;
        while i < length
            invariant
                i <= length,
                length == old(self)@.len(),
                self@.len() == length,
                bv@.len() == length,
                forall|j: int| 0 <= j < i ==> self@[j] == (old(self)@[j] & bv@[j]),
                forall|j: int| i <= j < length ==> self@[j] == old(self)@[j],
            decreases length - i,
        {
            self[i] = self[i] & bv[i];
            i = i + 1;
        }
        Ok(())
    }

    fn or(&mut self, bv: &ByteVec) -> (r: CResult<()>) {
        if self.len() != bv.len() {
            return vec_length_should_be_same().to_cresult();
        }
        let length = self.len();
        let mut i: usize = 0;
        while i < length
            invariant
                i <= length,
                length == old(self)@.len(),
                self@.len() == length,
                bv@.len() == length,
                forall|j: int| 0 <= j < i ==> self@[j] == (old(self)@[j] | bv@[j]),
                forall|j: int| i <= j < length ==> self@[j] == old(self)@[j],
            decreases length - i,
        {
            self[i] = self[i] | bv[i];
            i = i + 1;
        }
        Ok(())
    }

    fn xor(&mut self, bv: &ByteVec) -> (r: CResult<()>) {
        if self.len() != bv.len() {
            return vec_length_should_be_same().to_cresult();
        }
        let length = self.len();
        let mut i: usize = 0;
        while i < length
            invariant
                i <= length,
                length == old(self)@.len(),
                self@.len() == length,
                bv@.len() == length,
                forall|j: int| 0 <= j < i ==> self@[j] == (old(self)@[j] ^ bv@[j]),
                forall|j: int| i <= j < length ==> self@[j] == old(self)@[j],
            decreases length - i,
        {
            self[i] = self[i] ^ bv[i];
            i = i + 1;
        }
        Ok(())
    }

    fn equals(&self, b: &ByteVec) -> (r: bool) {
        if self.len() != b.len() {
            return false;
        }
        let length = self.len();
        let mut i: usize = 0;
        while i < length
            invariant
                i <= length,
                self@.len() == length,
                b@.len() == length,
                forall|j: int| 0 <= j < i ==> self@[j] == b@[j],
            decreases length - i,
        {
            if self[i] != b[i] {
                return false;
            }
            i = i + 1;
        }
        proof {
            assert(self@ =~= b@);
        }
        true
    }
}

impl ByteOperation for [u8] {
    fn and(&mut self, bv: &[u8]) -> (r: CResult<()>) {
        if self.len() != bv.len() {
            return vec_length_should_be_same().to_cresult();
        }
        let length = self.len();
        let mut i: usize = 0;
        while i < length
            invariant
                i <= length,
                length == old(self)@.len(),
                self@.len() == length,
                bv@.len() == length,
                forall|j: int| 0 <= j < i ==> self@[j] == (old(self)@[j] & bv@[j]),
                forall|j: int| i <= j < length ==> self@[j] == old(self)@[j],
            decreases length - i,
        {
            self[i] = self[i] & bv[i];
            i = i + 1;
        }
        Ok(())
    }

    fn or(&mut self, bv: &[u8]) -> (r: CResult<()>) {
        if self.len() != bv.len() {
            return vec_length_should_be_same().to_cresult();
        }
        let length = self.len();
        let mut i: usize = 0;
        while i < length
            invariant
                i <= length,
                length == old(self)@.len(),
                self@.len() == length,
                bv@.len() == length,
                forall|j: int| 0 <= j < i ==> self@[j] == (old(self)@[j] | bv@[j]),
                forall|j: int| i <= j < length ==> self@[j] == old(self)@[j],
            decreases length - i,
        {
            self[i] = self[i] | bv[i];
            i = i + 1;
        }
        Ok(())
    }

    fn xor(&mut self, bv: &[u8]) -> (r: CResult<()>) {
        if self.len() != bv.len() {
            return vec_length_should_be_same().to_cresult();
        }
        let length = self.len();
        let mut i: usize = 0;
        while i < length
            invariant
                i <= length,
                length == old(self)@.len(),
                self@.len() == length,
                bv@.len() == length,
                forall|j: int| 0 <= j < i ==> self@[j] == (old(self)@[j] ^ bv@[j]),
                forall|j: int| i <= j < length ==> self@[j] == old(self)@[j],
            decreases length - i,
        {
            self[i] = self[i] ^ bv[i];
            i = i + 1;
        }
        Ok(())
    }

    fn equals(&self, b: &[u8]) -> (r: bool) {
        if self.len() != b.len() {
            return false;
        }
        let length = self.len();
        let mut i: usize = 0;
        while i < length
            invariant
                i <= length,
                self@.len() == length,
                b@.len() == length,
                forall|j: int| 0 <= j < i ==> self@[j] == b@[j],
            decreases length - i,
        {
            if self[i] != b[i] {
                return false;
            }
            i = i + 1;
        }
        proof {
            assert(self@ =~= b@);
        }
        true
    }
}

/// Relies on `rand::rng` and `rand::RngExt::fill` to overwrite the buffer with
/// uniformly random bytes; only the length is promised of the outcome.
#[verifier::external_body]
fn fill_random_bytes(buf: &mut Vec<u8>)
    ensures
        final(buf)@.len() == old(buf)@.len(),
{
    rand::RngExt::fill(&mut rand::rng(), buf.as_mut_slice());
}

/// Produce a byte sequence of the requested length filled with random bytes.
pub fn rand_byte_vec(len: usize) -> (r: ByteVec)
    ensures
        r@.len() == len,
{
    let mut arr: ByteVec = ByteVec::new();
    arr.resize(len, 0u8);
    fill_random_bytes(&mut arr);
    arr
}

} // verus!
