//! Strings as the host passes them.
use vstd::prelude::*;
use vstd::slice::slice_subrange;

verus! {

/// Whether `bytes` is a C string with its terminator: it ends with a NUL and
/// holds no other.
pub open spec fn is_nul_terminated(bytes: Seq<u8>) -> bool {
    &&& bytes.len() > 0
    &&& bytes[bytes.len() - 1] == 0
    &&& forall|i: int| 0 <= i < bytes.len() - 1 ==> bytes[i] != 0
}

/// A string of the host: bytes in the host's own encoding, closed by the only
/// NUL among them. Its view is the text, without the NUL.
#[derive(Clone, Copy, Debug)]
pub struct NulTerminated<'a> {
    bytes: &'a [u8],
}

impl<'a> NulTerminated<'a> {
    #[verifier::type_invariant]
    spec fn well_formed(self) -> bool {
        is_nul_terminated(self.bytes@)
    }

    /// The text: the bytes before the NUL.
    pub closed spec fn view(&self) -> Seq<u8> {
        self.bytes@.drop_last()
    }

    /// Takes `bytes` as a string if it ends with its only NUL.
    pub fn from_bytes_with_nul(bytes: &'a [u8]) -> (text: Option<Self>)
        ensures
            text is Some <==> is_nul_terminated(bytes@),
            text is Some ==> text->0@ == bytes@.drop_last(),
    {
        let len = bytes.len();
        if len == 0 {
            return None;
        }
        let mut i: usize = 0;
        while i < len - 1
            invariant
                len == bytes@.len(),
                0 <= i <= len - 1,
                forall|j: int| 0 <= j < i ==> bytes@[j] != 0,
            decreases len - i,
        {
            if bytes[i] == 0 {
                return None;
            }
            i += 1;
        }
        if bytes[len - 1] != 0 {
            return None;
        }
        Some(NulTerminated { bytes })
    }

    /// The text, without the NUL. No byte of it is a NUL.
    pub fn to_bytes(&self) -> (bytes: &'a [u8])
        ensures
            bytes@ == self@,
            forall|i: int| 0 <= i < bytes@.len() ==> bytes@[i] != 0,
    {
        proof {
            use_type_invariant(self);
        }
        slice_subrange(self.bytes, 0, self.bytes.len() - 1)
    }

    /// The text and the NUL that closes it.
    pub fn to_bytes_with_nul(&self) -> (bytes: &'a [u8])
        ensures
            bytes@ == self@.push(0),
            is_nul_terminated(bytes@),
    {
        proof {
            use_type_invariant(self);
            assert(self.bytes@.drop_last().push(0) =~= self.bytes@);
        }
        self.bytes
    }
}

} // verus!
