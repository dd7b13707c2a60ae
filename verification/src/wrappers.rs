//! The bridge between the host's entry points and a [`CustomMutator`]: one
//! function for each entry point.
//!
//! A session begins with [`afl_custom_init_`], which gives the host its
//! handle: the context, owned. For every other call the host lends the handle
//! back, and the entry point works on the context behind it for the length of
//! that call. [`afl_custom_deinit_`] takes the handle back for good.
//!
//! An entry point that calls an operation of the mutator calls it once, on the
//! mutator as the context holds it, with the arguments of the host. Its
//! contract says so with `call_ensures`: the mutator before the call is the one
//! in the context before, the mutator after the call is the one in the context
//! after, and what the host is given is what the operation returned, encoded.
use vstd::prelude::*;
use crate::mutator::CustomMutator;
use crate::mutator::FuzzResult;
use crate::text::NulTerminated;

verus! {

/// What the host holds between its calls: the mutator of one session.
pub struct FFIContext<M: CustomMutator> {
    /// The mutator, as the last call left it.
    pub mutator: M,
}

impl<M: CustomMutator> FFIContext<M> {
    /// The context behind a handle, for the length of one call: what the
    /// call finds in it is what the handle holds, and what the call leaves in
    /// it is what the handle holds from then on. The handle must not be null.
    pub fn from(handle: Option<&mut Self>) -> (context: &mut Self)
        requires
            handle is Some,
        ensures
            *context == *old(handle->0),
            *final(context) == *final(handle->0),
    {
        handle.unwrap()
    }

    /// A new context, with the mutator that `M::init` makes of the host's
    /// state and the seed.
    pub fn new(afl: &'static M::Host, seed: u32) -> (context: Box<Self>)
        ensures
            call_ensures(M::init, (afl, seed), context.mutator),
    {
        Box::new(FFIContext { mutator: M::init(afl, seed) })
    }
}

/// Two calls through one handle: where the second call is handed the context
/// as the first call left it, the view that the second call gets shows the
/// context as the view of the first call left it. So the mutator of a session
/// goes from call to call as the last call left it.
pub proof fn lemma_state_continuity<M: CustomMutator>(
    first: Option<&mut FFIContext<M>>,
    first_view: &mut FFIContext<M>,
    second: Option<&mut FFIContext<M>>,
    second_view: &mut FFIContext<M>,
)
    requires
        first is Some,
        second is Some,
        call_ensures(FFIContext::<M>::from, (first,), first_view),
        call_ensures(FFIContext::<M>::from, (second,), second_view),
        *(second->0) == *final(first->0),
    ensures
        *old(second_view) == *final(first_view),
        *final(second_view) == *final(second->0),
{
}

/// What an entry point writes where the host asks for the address of the
/// mutated input.
#[derive(Debug)]
pub enum OutPointer<'l> {
    /// The null pointer.
    Null,
    /// The address of the buffer that the host passed in.
    Primary,
    /// The address of a buffer that the mutator keeps, and the bytes in it.
    Replacement(&'l [u8]),
}

/// The address that the host is given for the mutated input.
pub open spec fn encoded_pointer<'l>(result: FuzzResult<'l>) -> OutPointer<'l> {
    match result {
        FuzzResult::InPlace => OutPointer::Primary,
        FuzzResult::NewBuffer(replacement) => OutPointer::Replacement(replacement),
        FuzzResult::Fail => OutPointer::Null,
    }
}

/// The length that the host is given for the mutated input, where the buffer
/// that it passed in holds `buf_len` bytes.
pub open spec fn encoded_len(result: FuzzResult<'_>, buf_len: nat) -> nat {
    match result {
        FuzzResult::InPlace => buf_len,
        FuzzResult::NewBuffer(replacement) => replacement@.len(),
        FuzzResult::Fail => 0,
    }
}

/// Encodes the result of a mutation for the host: the address of the mutated
/// input and its length.
pub fn encode_fuzz_result<'l>(result: FuzzResult<'l>, buf_len: usize) -> (encoded: (OutPointer<'l>, usize))
    ensures
        encoded.0 == encoded_pointer(result),
        encoded.1 == encoded_len(result, buf_len as nat),
{
    match result {
        FuzzResult::InPlace => (OutPointer::Primary, buf_len),
        FuzzResult::NewBuffer(replacement) => (OutPointer::Replacement(replacement), replacement.len()),
        FuzzResult::Fail => (OutPointer::Null, 0),
    }
}

/// A mutation in place is answered with the address of the buffer that the
/// host passed in, and with the length of that buffer.
pub proof fn lemma_in_place_is_primary(result: FuzzResult<'_>, buf_len: nat)
    requires
        result is InPlace,
    ensures
        encoded_pointer(result) == OutPointer::Primary,
        encoded_len(result, buf_len) == buf_len,
{
}

/// A mutation that failed is answered with the null pointer and the length 0.
pub proof fn lemma_failure_is_null(result: FuzzResult<'_>, buf_len: nat)
    requires
        result is Fail,
    ensures
        encoded_pointer(result) == OutPointer::Null,
        encoded_len(result, buf_len) == 0,
{
}

/// The entry point `afl_custom_fuzz`: has the mutator of the session mutate
/// the input in `buf`, writes the address of the mutated input to `out_buf`
/// and returns its length.
///
/// The handle, `buf` and `out_buf` must not be null. A null `add_buf` means
/// that the host supplies no second input.
///
/// `M::fuzz` is called once, with `buf`, `add_buf` and `max_size` as they
/// are. After a mutation in place the host is given the address of `buf` and
/// the length that `buf` has; after a mutation into a buffer of the mutator,
/// the address and the length of that buffer, which the mutator keeps until
/// the next call; after a failure, null and 0.
pub fn afl_custom_fuzz_<'a, M: CustomMutator>(
    data: Option<&'a mut FFIContext<M>>,
    buf: Option<&mut [u8]>,
    out_buf: Option<&mut OutPointer<'a>>,
    add_buf: Option<&[u8]>,
    max_size: usize,
) -> (len: usize)
    requires
        data is Some,
        buf is Some,
        out_buf is Some,
    ensures
        exists|mutator: &mut M, buffer: &mut [u8], result: FuzzResult<'a>|
            {
                &&& *mutator == old(data->0).mutator
                &&& *final(mutator) == final(data->0).mutator
                &&& buffer@ == old(buf->0)@
                &&& final(buffer)@ == final(buf->0)@
                &&& #[trigger] call_ensures(M::fuzz, (mutator, buffer, add_buf, max_size), result)
                &&& *final(out_buf->0) == encoded_pointer(result)
                &&& len == encoded_len(result, final(buf->0)@.len())
            },
{
    let context = FFIContext::<M>::from(data);
    let buff_slice = buf.unwrap();
    let slot = out_buf.unwrap();
    let result = context.mutator.fuzz(buff_slice, add_buf, max_size);
    let (pointer, len) = encode_fuzz_result(result, buff_slice.len());
    *slot = pointer;
    len
}

/// The entry point `afl_custom_init`: makes the mutator of a session and
/// returns the context that holds it, which is the session's handle.
///
/// The host's state must not be null. It is handed to `M::init` with the
/// seed, and the context holds the mutator that `M::init` returned.
pub fn afl_custom_init_<M: CustomMutator>(afl: Option<&'static M::Host>, seed: u32) -> (handle: Box<
    FFIContext<M>,
>)
    requires
        afl is Some,
    ensures
        call_ensures(M::init, (afl->0, seed), handle.mutator),
{
    FFIContext::<M>::new(afl.unwrap(), seed)
}

/// The entry point `afl_custom_fuzz_count`: returns the count that the mutator
/// of the session reports for the input in `buf`, as it is.
///
/// The handle and `buf` must not be null.
pub fn afl_custom_fuzz_count_<M: CustomMutator>(
    data: Option<&mut FFIContext<M>>,
    buf: Option<&[u8]>,
) -> (count: u32)
    requires
        data is Some,
        buf is Some,
    ensures
        exists|mutator: &mut M|
            {
                &&& *mutator == old(data->0).mutator
                &&& *final(mutator) == final(data->0).mutator
                &&& #[trigger] call_ensures(M::fuzz_count, (mutator, buf->0), count)
            },
{
    let context = FFIContext::<M>::from(data);
    let buf_slice = buf.unwrap();
    context.mutator.fuzz_count(buf_slice)
}

/// Where the mutator keeps the `fuzz_count` that is provided, so that each
/// call of it returns 1 and leaves the mutator as it was, the entry point
/// returns 1 for every input and leaves the context as it was: the count is
/// the same however often the host asks.
pub proof fn lemma_fuzz_count_default<M: CustomMutator>(
    data: Option<&mut FFIContext<M>>,
    buf: Option<&[u8]>,
    count: u32,
)
    requires
        data is Some,
        buf is Some,
        forall|mutator: &mut M, buffer: &[u8], reported: u32|
            #[trigger] call_ensures(M::fuzz_count, (mutator, buffer), reported) ==> {
                &&& reported == 1
                &&& *final(mutator) == *mutator
            },
        call_ensures(afl_custom_fuzz_count_::<M>, (data, buf), count),
    ensures
        count == 1,
        *final(data->0) == *(data->0),
{
}

/// The entry point `afl_custom_queue_new_entry`: tells the mutator of the
/// session of a new entry of the queue.
///
/// The handle and `filename_new_queue` must not be null. A null
/// `filename_orig_queue` means that the entry was derived from no other.
pub fn afl_custom_queue_new_entry_<M: CustomMutator>(
    data: Option<&mut FFIContext<M>>,
    filename_new_queue: Option<NulTerminated<'_>>,
    filename_orig_queue: Option<NulTerminated<'_>>,
)
    requires
        data is Some,
        filename_new_queue is Some,
    ensures
        exists|mutator: &mut M|
            {
                &&& *mutator == old(data->0).mutator
                &&& *final(mutator) == final(data->0).mutator
                &&& #[trigger] call_ensures(
                    M::queue_new_entry,
                    (mutator, filename_new_queue->0, filename_orig_queue),
                    (),
                )
            },
{
    let context = FFIContext::<M>::from(data);
    let filename_new_queue = filename_new_queue.unwrap();
    context.mutator.queue_new_entry(filename_new_queue, filename_orig_queue);
}

/// Where the mutator keeps the `queue_new_entry` that is provided, which does
/// nothing, the entry point leaves the context as it was.
pub proof fn lemma_queue_new_entry_default<M: CustomMutator>(
    data: Option<&mut FFIContext<M>>,
    filename_new_queue: Option<NulTerminated<'_>>,
    filename_orig_queue: Option<NulTerminated<'_>>,
)
    requires
        data is Some,
        filename_new_queue is Some,
        forall|mutator: &mut M, new: NulTerminated<'_>, orig: Option<NulTerminated<'_>>|
            #[trigger] call_ensures(M::queue_new_entry, (mutator, new, orig), ()) ==> {
                &&& *final(mutator) == *mutator
            },
        call_ensures(
            afl_custom_queue_new_entry_::<M>,
            (data, filename_new_queue, filename_orig_queue),
            (),
        ),
    ensures
        *final(data->0) == *(data->0),
{
}

/// The entry point `afl_custom_deinit`: ends the session. The context is
/// taken from the host and dropped, and the mutator with it. No other entry
/// point takes the context for its own, so none can drop it.
///
/// The handle must not be null.
pub fn afl_custom_deinit_<M: CustomMutator>(data: Option<Box<FFIContext<M>>>)
    requires
        data is Some,
{
    let _context = data.unwrap();
}

/// The entry point `afl_custom_introspection`: returns the report of the
/// mutator of the session, or null where it gives none.
///
/// The handle must not be null.
pub fn afl_custom_introspection_<'a, M: CustomMutator>(data: Option<&'a mut FFIContext<M>>) -> (report:
    Option<NulTerminated<'a>>)
    requires
        data is Some,
    ensures
        exists|mutator: &mut M|
            {
                &&& *mutator == old(data->0).mutator
                &&& *final(mutator) == final(data->0).mutator
                &&& #[trigger] call_ensures(M::introspection, (mutator,), report)
            },
{
    let context = FFIContext::<M>::from(data);
    context.mutator.introspection()
}

/// Where the mutator keeps the `introspection` that is provided, which gives
/// no report, the entry point returns null and leaves the context as it was.
pub proof fn lemma_introspection_default<'a, M: CustomMutator>(
    data: Option<&'a mut FFIContext<M>>,
    report: Option<NulTerminated<'a>>,
)
    requires
        data is Some,
        forall|mutator: &mut M, given: Option<NulTerminated<'a>>|
            #[trigger] call_ensures(M::introspection, (mutator,), given) ==> {
                &&& given is None
                &&& *final(mutator) == *mutator
            },
        call_ensures(afl_custom_introspection_::<M>, (data,), report),
    ensures
        report is None,
        *final(data->0) == *(data->0),
{
}

/// The entry point `afl_custom_describe`: returns the description that the
/// mutator of the session gives in at most `max_description_len` bytes, or
/// null where it gives none.
///
/// The handle must not be null.
pub fn afl_custom_describe_<'a, M: CustomMutator>(
    data: Option<&'a mut FFIContext<M>>,
    max_description_len: usize,
) -> (description: Option<NulTerminated<'a>>)
    requires
        data is Some,
    ensures
        exists|mutator: &mut M|
            {
                &&& *mutator == old(data->0).mutator
                &&& *final(mutator) == final(data->0).mutator
                &&& #[trigger] call_ensures(M::describe, (mutator, max_description_len), description)
            },
{
    let context = FFIContext::<M>::from(data);
    context.mutator.describe(max_description_len)
}

/// Where the mutator keeps the `describe` that is provided, which gives no
/// description, the entry point returns null and leaves the context as it was.
pub proof fn lemma_describe_default<'a, M: CustomMutator>(
    data: Option<&'a mut FFIContext<M>>,
    max_description_len: usize,
    description: Option<NulTerminated<'a>>,
)
    requires
        data is Some,
        forall|mutator: &mut M, max_description: usize, given: Option<NulTerminated<'a>>|
            #[trigger] call_ensures(M::describe, (mutator, max_description), given) ==> {
                &&& given is None
                &&& *final(mutator) == *mutator
            },
        call_ensures(afl_custom_describe_::<M>, (data, max_description_len), description),
    ensures
        description is None,
        *final(data->0) == *(data->0),
{
}

/// The byte that stands for a `bool` on the host's side.
pub open spec fn bool_as_byte(b: bool) -> u8 {
    if b {
        1
    } else {
        0
    }
}

/// The entry point `afl_custom_queue_get`: returns 1 where the mutator of the
/// session accepts the entry of the queue in `filename`, and 0 where it does
/// not.
///
/// The handle and `filename` must not be null.
pub fn afl_custom_queue_get_<M: CustomMutator>(
    data: Option<&mut FFIContext<M>>,
    filename: Option<NulTerminated<'_>>,
) -> (accept: u8)
    requires
        data is Some,
        filename is Some,
    ensures
        exists|mutator: &mut M, accepted: bool|
            {
                &&& *mutator == old(data->0).mutator
                &&& *final(mutator) == final(data->0).mutator
                &&& #[trigger] call_ensures(M::queue_get, (mutator, filename->0), accepted)
                &&& accept == bool_as_byte(accepted)
            },
{
    let context = FFIContext::<M>::from(data);
    let filename = filename.unwrap();
    if context.mutator.queue_get(filename) {
        1
    } else {
        0
    }
}

/// Where the mutator keeps the `queue_get` that is provided, so that each call
/// of it accepts and leaves the mutator as it was, the entry point returns 1
/// for every entry of the queue and leaves the context as it was.
pub proof fn lemma_queue_get_default<M: CustomMutator>(
    data: Option<&mut FFIContext<M>>,
    filename: Option<NulTerminated<'_>>,
    accept: u8,
)
    requires
        data is Some,
        filename is Some,
        forall|mutator: &mut M, name: NulTerminated<'_>, accepted: bool|
            #[trigger] call_ensures(M::queue_get, (mutator, name), accepted) ==> {
                &&& accepted
                &&& *final(mutator) == *mutator
            },
        call_ensures(afl_custom_queue_get_::<M>, (data, filename), accept),
    ensures
        accept == 1,
        *final(data->0) == *(data->0),
{
}

} // verus!
