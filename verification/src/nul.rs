//! Validation of caller-supplied device and property names.
//!
//! A name is handed to the kernel as a C-style string, so a byte string that
//! contains an embedded NUL byte is unrepresentable. [`NulError`] records such
//! a failure: the rejected bytes together with the position of their first NUL
//! byte.

use vstd::prelude::*;

use crate::decimal::decimal_rep;
use crate::decimal::decimal_string;

verus! {

/// `p` is the position of the first NUL byte of `s`.
pub open spec fn first_nul_at(s: Seq<u8>, p: int) -> bool {
    &&& 0 <= p < s.len()
    &&& s[p] == 0
    &&& forall|i: int| 0 <= i < p ==> s[i] != 0
}

/// The rendered text of a [`NulError`] whose first NUL byte sits at
/// position `p`.
pub open spec fn nul_text(p: nat) -> Seq<char> {
    "nul byte found in provided data at position: "@ + decimal_rep(p)
}

/// An embedded-NUL failure: a caller-supplied name contained a NUL byte and
/// cannot be encoded as a C-style string. Carries the rejected bytes
/// unchanged, together with the position of their first NUL byte.
#[derive(Debug)]
pub struct NulError {
    bytes: Vec<u8>,
    position: usize,
}

impl NulError {
    /// The rejected bytes.
    pub closed spec fn bytes_seq(self) -> Seq<u8> {
        self.bytes@
    }

    /// The recorded position of the first NUL byte.
    pub closed spec fn pos(self) -> int {
        self.position as int
    }

    /// The recorded position really is the first NUL byte of the bytes held.
    pub open spec fn wf(self) -> bool {
        first_nul_at(self.bytes_seq(), self.pos())
    }

    /// The rendered text of this failure.
    pub open spec fn text(self) -> Seq<char> {
        nul_text(self.pos() as nat)
    }

    /// Checks a caller-supplied name for an embedded NUL byte. Returns the
    /// bytes unchanged when they hold none, and otherwise the failure
    /// recording the position of the first NUL byte.
    pub fn check(bytes: Vec<u8>) -> (r: Result<Vec<u8>, NulError>)
        ensures
            match r {
                Ok(v) => v@ == bytes@ && forall|i: int| 0 <= i < bytes@.len() ==> bytes@[i] != 0,
                Err(e) => e.wf() && e.bytes_seq() == bytes@,
            },
    {
        let mut i: usize = 0;
        while i < bytes.len()
            invariant
                i <= bytes@.len(),
                forall|j: int| 0 <= j < i ==> bytes@[j] != 0,
            decreases bytes@.len() - i,
        {
            if bytes[i] == 0 {
                return Err(NulError { bytes, position: i });
            }
            i = i + 1;
        }
        Ok(bytes)
    }

    /// The position of the first NUL byte in the rejected name.
    pub fn nul_position(&self) -> (p: usize)
        ensures
            p == self.pos(),
    {
        self.position
    }

    /// Consumes the failure and returns the rejected bytes.
    pub fn into_vec(self) -> (v: Vec<u8>)
        ensures
            v@ == self.bytes_seq(),
    {
        self.bytes
    }

    /// The human-readable rendering of this failure: it reports the position
    /// of the offending NUL byte.
    pub fn message(&self) -> (r: String)
        ensures
            r@ == self.text(),
    {
        let mut s = String::from_str("nul byte found in provided data at position: ");
        let digits = decimal_string(self.position);
        s.append(digits.as_str());
        s
    }
}

} // verus!
