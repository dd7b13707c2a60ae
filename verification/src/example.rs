//! A small mutator: it reverses the input.
use vstd::prelude::*;
use crate::mutator::CustomMutator;
use crate::mutator::FuzzResult;

verus! {

/// A mutator without a state, which reverses the input where it lies. It
/// needs nothing of the host, so its `Host` is the unit type.
#[derive(Debug, PartialEq, Eq, Structural)]
pub struct ExampleMutator;

/// Reverses `buffer` where it lies.
pub fn reverse_in_place(buffer: &mut [u8])
    ensures
        final(buffer)@ == old(buffer)@.reverse(),
{
    let len = buffer.len();
    let mut i: usize = 0;
    while i < len / 2
        invariant
            len == buffer@.len(),
            buffer@.len() == old(buffer)@.len(),
            0 <= i <= len / 2,
            forall|j: int| 0 <= j < i ==> buffer@[j] == old(buffer)@[len - 1 - j],
            forall|j: int| len - i <= j < len ==> buffer@[j] == old(buffer)@[len - 1 - j],
            forall|j: int| i <= j < len - i ==> buffer@[j] == old(buffer)@[j],
        decreases len / 2 - i,
    {
        let front = buffer[i];
        let back = buffer[len - 1 - i];
        buffer[i] = back;
        buffer[len - 1 - i] = front;
        i += 1;
    }
    assert(buffer@ =~= old(buffer)@.reverse());
}

#[allow(unused_variables)]
impl CustomMutator for ExampleMutator {
    type Host = ();

    /// The mutator, whatever the seed.
    fn init(afl: &'static (), seed: u32) -> (mutator: Self)
        ensures
            mutator == ExampleMutator,
    {
        ExampleMutator
    }

    /// Reverses the input in `buffer` and leaves the mutated input there.
    fn fuzz(&mut self, buffer: &mut [u8], add_buff: Option<&[u8]>, max_size: usize) -> (result:
        FuzzResult<'_>)
        ensures
            result is InPlace,
            final(buffer)@ == old(buffer)@.reverse(),
            *final(self) == *old(self),
    {
        reverse_in_place(buffer);
        FuzzResult::InPlace
    }
}

} // verus!
