//! Mutators whose operations can fail, and what becomes of a failure.
use vstd::prelude::*;
use crate::mutator::FuzzResult;
use crate::text::NulTerminated;

verus! {

/// A custom mutator whose operations can fail: it has the operations of a
/// [`CustomMutator`](crate::mutator::CustomMutator), each of which returns a
/// `Result`, and one handler for the errors of them all.
///
/// The host has no place for an error. So when an operation fails, the
/// handler is called with the error and is expected not to return: it logs
/// what it likes and ends the process.
#[allow(unused_variables)]
pub trait FallibleCustomMutator: Sized {
    /// The state of the host, which lives as long as the process.
    type Host: 'static;

    /// The error of every operation.
    type TErr;

    /// Handles the error of an operation. It is expected not to return.
    fn handle_err(err: Self::TErr);

    /// Makes the mutator of one session from the host's state and a seed.
    fn init(afl: &'static Self::Host, seed: u32) -> Result<Self, Self::TErr>;

    /// How often the host is to call `fuzz` on the input in `buffer`. Once,
    /// unless the mutator says otherwise.
    fn fuzz_count(&mut self, buffer: &[u8]) -> (count: Result<u32, Self::TErr>)
        default_ensures
            count == Ok::<u32, Self::TErr>(1),
            *final(self) == *old(self),
    {
        Ok(1)
    }

    /// Mutates the input in `buffer`, with `add_buff` as a second input to
    /// draw from where the host supplies one, to at most `max_size` bytes.
    fn fuzz(&mut self, buffer: &mut [u8], add_buff: Option<&[u8]>, max_size: usize) -> Result<
        FuzzResult<'_>,
        Self::TErr,
    >;

    /// Tells the mutator of a new entry of the queue, and of the entry that
    /// it was derived from where there is one.
    fn queue_new_entry(
        &mut self,
        filename_new_queue: NulTerminated<'_>,
        filename_orig_queue: Option<NulTerminated<'_>>,
    ) -> (done: Result<(), Self::TErr>)
        default_ensures
            done is Ok,
            *final(self) == *old(self),
    {
        Ok(())
    }

    /// Whether the entry of the queue in `filename` is to be fuzzed. Every
    /// entry is, unless the mutator says otherwise.
    fn queue_get(&mut self, filename: NulTerminated<'_>) -> (accept: Result<bool, Self::TErr>)
        default_ensures
            accept == Ok::<bool, Self::TErr>(true),
            *final(self) == *old(self),
    {
        Ok(true)
    }

    /// A description of the last mutation in at most `max_description`
    /// bytes. None, unless the mutator gives one.
    fn describe(&mut self, max_description: usize) -> (description: Result<
        Option<NulTerminated<'_>>,
        Self::TErr,
    >)
        default_ensures
            description is Ok,
            description->Ok_0 is None,
            *final(self) == *old(self),
    {
        Ok(None)
    }

    /// A report on the last mutation for the host's introspection. None,
    /// unless the mutator gives one.
    fn introspection(&mut self) -> (report: Result<Option<NulTerminated<'_>>, Self::TErr>)
        default_ensures
            report is Ok,
            report->Ok_0 is None,
            *final(self) == *old(self),
    {
        Ok(None)
    }
}

/// What the caller aborts with where the handler of an error returned.
pub const HANDLER_RETURNED: &'static str = "Error handler did not panic";

/// How an operation of a fallible mutator ended for the host.
#[derive(Debug)]
pub enum Adapted<T> {
    /// The operation succeeded, and this is its value.
    Forward(T),
    /// The operation failed, the handler was called with the error, and it
    /// returned. Nothing can be handed to the host: the caller must abort.
    HandlerReturned,
}

/// Whether `adapted` is what becomes of `outcome`, the outcome of an operation
/// of `M`: a value is forwarded as it is, and after an error the handler of
/// `M` has been called with that error and has returned.
pub open spec fn settled<M: FallibleCustomMutator, T>(
    outcome: Result<T, M::TErr>,
    adapted: Adapted<T>,
) -> bool {
    match outcome {
        Ok(value) => adapted == Adapted::Forward(value),
        Err(err) => adapted is HandlerReturned && call_ensures(M::handle_err, (err,), ()),
    }
}

/// Settles the outcome of an operation of `M`: forwards a value as it is, and
/// hands an error to the handler of `M`, once.
pub fn settle<M: FallibleCustomMutator, T>(outcome: Result<T, M::TErr>) -> (adapted: Adapted<T>)
    ensures
        settled::<M, T>(outcome, adapted),
{
    match outcome {
        Ok(value) => Adapted::Forward(value),
        Err(err) => {
            M::handle_err(err);
            Adapted::HandlerReturned
        },
    }
}

/// `M::init` for the host.
pub fn init<M: FallibleCustomMutator>(afl: &'static M::Host, seed: u32) -> (adapted: Adapted<M>)
    ensures
        exists|outcome: Result<M, M::TErr>|
            {
                &&& #[trigger] call_ensures(M::init, (afl, seed), outcome)
                &&& settled::<M, M>(outcome, adapted)
            },
{
    settle::<M, M>(M::init(afl, seed))
}

/// `M::fuzz_count` for the host.
pub fn fuzz_count<M: FallibleCustomMutator>(mutator: &mut M, buffer: &[u8]) -> (adapted: Adapted<u32>)
    ensures
        exists|receiver: &mut M, outcome: Result<u32, M::TErr>|
            {
                &&& *receiver == *old(mutator)
                &&& *final(receiver) == *final(mutator)
                &&& #[trigger] call_ensures(M::fuzz_count, (receiver, buffer), outcome)
                &&& settled::<M, u32>(outcome, adapted)
            },
{
    settle::<M, u32>(mutator.fuzz_count(buffer))
}

/// Where the mutator keeps the `fuzz_count` that is provided, the host is
/// given 1 for every input, and the mutator is left as it was.
pub proof fn lemma_fuzz_count_default<M: FallibleCustomMutator>(
    mutator: &mut M,
    buffer: &[u8],
    adapted: Adapted<u32>,
)
    requires
        forall|receiver: &mut M, bytes: &[u8], outcome: Result<u32, M::TErr>|
            #[trigger] call_ensures(M::fuzz_count, (receiver, bytes), outcome) ==> {
                &&& outcome == Ok::<u32, M::TErr>(1)
                &&& *final(receiver) == *receiver
            },
        call_ensures(fuzz_count::<M>, (mutator, buffer), adapted),
    ensures
        adapted == Adapted::Forward(1u32),
        *final(mutator) == *old(mutator),
{
}

/// `M::fuzz` for the host.
pub fn fuzz<'r, M: FallibleCustomMutator>(
    mutator: &'r mut M,
    buffer: &mut [u8],
    add_buff: Option<&[u8]>,
    max_size: usize,
) -> (adapted: Adapted<FuzzResult<'r>>)
    ensures
        exists|receiver: &mut M, bytes: &mut [u8], outcome: Result<FuzzResult<'r>, M::TErr>|
            {
                &&& *receiver == *old(mutator)
                &&& *final(receiver) == *final(mutator)
                &&& bytes@ == old(buffer)@
                &&& final(bytes)@ == final(buffer)@
                &&& #[trigger] call_ensures(M::fuzz, (receiver, bytes, add_buff, max_size), outcome)
                &&& settled::<M, FuzzResult<'r>>(outcome, adapted)
            },
{
    settle::<M, FuzzResult<'r>>(mutator.fuzz(buffer, add_buff, max_size))
}

/// `M::queue_new_entry` for the host.
pub fn queue_new_entry<M: FallibleCustomMutator>(
    mutator: &mut M,
    filename_new_queue: NulTerminated<'_>,
    filename_orig_queue: Option<NulTerminated<'_>>,
) -> (adapted: Adapted<()>)
    ensures
        exists|receiver: &mut M, outcome: Result<(), M::TErr>|
            {
                &&& *receiver == *old(mutator)
                &&& *final(receiver) == *final(mutator)
                &&& #[trigger] call_ensures(
                    M::queue_new_entry,
                    (receiver, filename_new_queue, filename_orig_queue),
                    outcome,
                )
                &&& settled::<M, ()>(outcome, adapted)
            },
{
    settle::<M, ()>(mutator.queue_new_entry(filename_new_queue, filename_orig_queue))
}

/// `M::queue_get` for the host.
pub fn queue_get<M: FallibleCustomMutator>(mutator: &mut M, filename: NulTerminated<'_>) -> (adapted:
    Adapted<bool>)
    ensures
        exists|receiver: &mut M, outcome: Result<bool, M::TErr>|
            {
                &&& *receiver == *old(mutator)
                &&& *final(receiver) == *final(mutator)
                &&& #[trigger] call_ensures(M::queue_get, (receiver, filename), outcome)
                &&& settled::<M, bool>(outcome, adapted)
            },
{
    settle::<M, bool>(mutator.queue_get(filename))
}

/// Where the mutator keeps the `queue_get` that is provided, the host is told
/// that every entry of the queue is accepted, and the mutator is left as it
/// was.
pub proof fn lemma_queue_get_default<M: FallibleCustomMutator>(
    mutator: &mut M,
    filename: NulTerminated<'_>,
    adapted: Adapted<bool>,
)
    requires
        forall|receiver: &mut M, name: NulTerminated<'_>, outcome: Result<bool, M::TErr>|
            #[trigger] call_ensures(M::queue_get, (receiver, name), outcome) ==> {
                &&& outcome == Ok::<bool, M::TErr>(true)
                &&& *final(receiver) == *receiver
            },
        call_ensures(queue_get::<M>, (mutator, filename), adapted),
    ensures
        adapted == Adapted::Forward(true),
        *final(mutator) == *old(mutator),
{
}

/// `M::describe` for the host.
pub fn describe<'r, M: FallibleCustomMutator>(mutator: &'r mut M, max_description: usize) -> (adapted:
    Adapted<Option<NulTerminated<'r>>>)
    ensures
        exists|receiver: &mut M, outcome: Result<Option<NulTerminated<'r>>, M::TErr>|
            {
                &&& *receiver == *old(mutator)
                &&& *final(receiver) == *final(mutator)
                &&& #[trigger] call_ensures(M::describe, (receiver, max_description), outcome)
                &&& settled::<M, Option<NulTerminated<'r>>>(outcome, adapted)
            },
{
    settle::<M, Option<NulTerminated<'r>>>(mutator.describe(max_description))
}

/// `M::introspection` for the host.
pub fn introspection<'r, M: FallibleCustomMutator>(mutator: &'r mut M) -> (adapted: Adapted<
    Option<NulTerminated<'r>>,
>)
    ensures
        exists|receiver: &mut M, outcome: Result<Option<NulTerminated<'r>>, M::TErr>|
            {
                &&& *receiver == *old(mutator)
                &&& *final(receiver) == *final(mutator)
                &&& #[trigger] call_ensures(M::introspection, (receiver,), outcome)
                &&& settled::<M, Option<NulTerminated<'r>>>(outcome, adapted)
            },
{
    settle::<M, Option<NulTerminated<'r>>>(mutator.introspection())
}

} // verus!
