//! What a mutator is: the operations that the host may ask of it.
use vstd::prelude::*;
use crate::text::NulTerminated;

verus! {

/// How one call of [`CustomMutator::fuzz`] ended.
#[derive(Debug)]
pub enum FuzzResult<'l> {
    /// The buffer that was passed in now holds the mutated input. It keeps
    /// its length: a mutation in place to another length is not supported.
    InPlace,
    /// The mutated input is in this buffer, which the mutator keeps.
    NewBuffer(&'l [u8]),
    /// The mutator failed. The host is told so by a null buffer of length 0
    /// and fails fast.
    Fail,
}

/// A custom mutator. `init` and `fuzz` are its own; for the other operations
/// it may keep what is provided here, each of which leaves the mutator as it
/// was.
#[allow(unused_variables)]
pub trait CustomMutator: Sized {
    /// The state of the host, which lives as long as the process. The library
    /// lends it to `init` and never looks into it.
    type Host: 'static;

    /// Makes the mutator of one session from the host's state and a seed.
    fn init(afl: &'static Self::Host, seed: u32) -> Self;

    /// Mutates the input in `buffer`, with `add_buff` as a second input to
    /// draw from where the host supplies one, to at most `max_size` bytes.
    fn fuzz(&mut self, buffer: &mut [u8], add_buff: Option<&[u8]>, max_size: usize) -> FuzzResult<'_>;

    /// How often the host is to call `fuzz` on the input in `buffer`. Once,
    /// unless the mutator says otherwise.
    fn fuzz_count(&mut self, buffer: &[u8]) -> (count: u32)
        default_ensures
            count == 1,
            *final(self) == *old(self),
    {
        1
    }

    /// Tells the mutator of a new entry of the queue, and of the entry that
    /// it was derived from where there is one.
    fn queue_new_entry(
        &mut self,
        filename_new_queue: NulTerminated<'_>,
        filename_orig_queue: Option<NulTerminated<'_>>,
    )
        default_ensures
            *final(self) == *old(self),
    {
    }

    /// Whether the entry of the queue in `filename` is to be fuzzed. Every
    /// entry is, unless the mutator says otherwise.
    fn queue_get(&mut self, filename: NulTerminated<'_>) -> (accept: bool)
        default_ensures
            accept,
            *final(self) == *old(self),
    {
        true
    }

    /// A description of the last mutation in at most `max_description`
    /// bytes. None, unless the mutator gives one.
    fn describe(&mut self, max_description: usize) -> (description: Option<NulTerminated<'_>>)
        default_ensures
            description is None,
            *final(self) == *old(self),
    {
        None
    }

    /// A report on the last mutation for the host's introspection. None,
    /// unless the mutator gives one.
    fn introspection(&mut self) -> (report: Option<NulTerminated<'_>>)
        default_ensures
            report is None,
            *final(self) == *old(self),
    {
        None
    }
}

} // verus!
