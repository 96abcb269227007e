//! The functions that a guest calls: its side of the protocol over which it
//! learns what it was asked, calls into the host, and hands back its result.
//!
//! Each takes the guest's memory as a slice and the pointers and lengths as the
//! guest gave them. Where a region does not lie within the memory, the function
//! touches nothing and reports the violation.

use crate::environment::{EnvironmentState, EnvironmentView, HostCallView, InvocationView};
use crate::error::{display_text, out_of_bounds, out_of_bounds_view, CustomError, ErrorView};
use crate::memory::{
    bytes_at, in_bounds, read_region, read_string, region_in_bounds, string_at, with_region,
    write_region, written_at,
};
use vstd::prelude::*;
use vstd::utf8::encode_utf8;

verus! {

/// The eight numbers that a guest passes to `host_call`: pointer and length of
/// the binding, of the namespace, of the operation and of the payload.
#[derive(Clone, Copy, Debug)]
pub struct HostCallParams {
    pub bd_ptr: i32,
    pub bd_len: i32,
    pub ns_ptr: i32,
    pub ns_len: i32,
    pub op_ptr: i32,
    pub op_len: i32,
    pub ptr: i32,
    pub len: i32,
}

/// What a guest asks of the host in one call.
#[derive(Debug)]
pub struct HostCallRequest {
    pub binding: String,
    pub namespace: String,
    pub operation: String,
    pub payload: Vec<u8>,
}

/// What a [`HostCallRequest`] holds.
pub struct HostCallRequestView {
    pub binding: Seq<char>,
    pub namespace: Seq<char>,
    pub operation: Seq<char>,
    pub payload: Seq<u8>,
}

impl View for HostCallRequest {
    type V = HostCallRequestView;

    open spec fn view(&self) -> HostCallRequestView {
        HostCallRequestView {
            binding: self.binding@,
            namespace: self.namespace@,
            operation: self.operation@,
            payload: self.payload@,
        }
    }
}

/// The request that `params` name in `memory`. The payload is read first, then
/// binding, namespace and operation, and the first region that cannot be read
/// decides the error.
pub open spec fn request_at(memory: Seq<u8>, params: HostCallParams) -> Result<
    HostCallRequestView,
    ErrorView,
> {
    match bytes_at(memory, params.ptr as int, params.len as int) {
        Err(e) => Err(e),
        Ok(payload) => match string_at(memory, params.bd_ptr as int, params.bd_len as int) {
            Err(e) => Err(e),
            Ok(binding) => match string_at(memory, params.ns_ptr as int, params.ns_len as int) {
                Err(e) => Err(e),
                Ok(namespace) => match string_at(
                    memory,
                    params.op_ptr as int,
                    params.op_len as int,
                ) {
                    Err(e) => Err(e),
                    Ok(operation) => Ok(
                        HostCallRequestView { binding, namespace, operation, payload },
                    ),
                },
            },
        },
    }
}

/// Reads the request that `params` name out of the guest's memory.
pub fn read_request(memory: &[u8], params: &HostCallParams) -> (r: Result<
    HostCallRequest,
    CustomError,
>)
    ensures
        match r {
            Ok(request) => request_at(memory@, *params) == Ok::<HostCallRequestView, ErrorView>(
                request@,
            ),
            Err(e) => request_at(memory@, *params) == Err::<HostCallRequestView, ErrorView>(e@),
        },
{
    let payload = read_region(memory, params.ptr, params.len)?;
    let binding = read_string(memory, params.bd_ptr, params.bd_len)?;
    let namespace = read_string(memory, params.ns_ptr, params.ns_len)?;
    let operation = read_string(memory, params.op_ptr, params.op_len)?;
    Ok(HostCallRequest { binding, namespace, operation, payload })
}

/// How a handler answered, as sequences.
pub open spec fn outcome_view(outcome: Result<Vec<u8>, String>) -> Result<Seq<u8>, Seq<char>> {
    match outcome {
        Ok(bytes) => Ok(bytes@),
        Err(text) => Err(text@),
    }
}

/// How a call stands once it has ended, given how its handler answered.
pub open spec fn completed(outcome: Result<Seq<u8>, Seq<char>>) -> HostCallView {
    match outcome {
        Ok(bytes) => HostCallView::CompletedOk(bytes),
        Err(text) => HostCallView::CompletedErr(text),
    }
}

/// The state of an instance whose call was read and waits for its handler.
pub open spec fn after_staging<H>(state: EnvironmentView<H>) -> EnvironmentView<H> {
    EnvironmentView { host_call: HostCallView::RequestStaged, ..state }
}

/// The state of an instance whose call has ended with `outcome`. Nothing of
/// what an earlier call left is kept.
pub open spec fn after_host_call<H>(
    state: EnvironmentView<H>,
    outcome: Result<Seq<u8>, Seq<char>>,
) -> EnvironmentView<H> {
    EnvironmentView { host_call: completed(outcome), ..state }
}

/// What `host_call` returns to the guest, given how the handler answered: 1
/// for success and 0 for failure.
pub open spec fn return_code(outcome: Result<Seq<u8>, Seq<char>>) -> i32 {
    match outcome {
        Ok(_) => 1,
        Err(_) => 0,
    }
}

/// The first half of `host_call`: reads the request and stages it. Where the
/// request cannot be read, the call has failed with the text of that error,
/// and there is nothing to dispatch.
pub fn begin_host_call<H>(
    state: &mut EnvironmentState<H>,
    memory: &[u8],
    params: &HostCallParams,
) -> (dispatch: Option<HostCallRequest>)
    ensures
        match request_at(memory@, *params) {
            Ok(request) => {
                &&& dispatch matches Some(read)
                &&& read@ == request
                &&& final(state)@ == after_staging(old(state)@)
            },
            Err(e) => {
                &&& dispatch is None
                &&& final(state)@ == after_host_call(
                    old(state)@,
                    Err::<Seq<u8>, Seq<char>>(display_text(e)),
                )
            },
        },
{
    match read_request(memory, params) {
        Ok(request) => {
            state.stage_host_call();
            Some(request)
        },
        Err(e) => {
            state.set_host_error(e.to_string());
            None
        },
    }
}

/// The second half of `host_call`: records how the handler answered, bytes on
/// success and the text of its error on failure, and gives the code that the
/// guest gets.
pub fn complete_host_call<H>(
    state: &mut EnvironmentState<H>,
    outcome: Result<Vec<u8>, String>,
) -> (code: i32)
    ensures
        final(state)@ == after_host_call(old(state)@, outcome_view(outcome)),
        code == return_code(outcome_view(outcome)),
{
    match outcome {
        Ok(bytes) => {
            state.set_host_response(bytes);
            1
        },
        Err(text) => {
            state.set_host_error(text);
            0
        },
    }
}

/// A whole call into the host with a handler that answers at once: reads the
/// request, hands it to `handler` with the identity of the instance and the
/// handle to the resource table, and records the answer. Returns 1 where the
/// handler succeeded and 0 where it failed or the request could not be read.
pub fn host_call<H, F>(
    state: &mut EnvironmentState<H>,
    memory: &[u8],
    params: &HostCallParams,
    handler: F,
) -> (code: i32) where F: FnOnce(u64, &HostCallRequest, &H) -> Result<Vec<u8>, String>
    requires
        forall|request: &HostCallRequest|
            call_requires(handler, (old(state)@.id, request, &old(state)@.resource_table)),
    ensures
        match request_at(memory@, *params) {
            Ok(request) => exists|read: &HostCallRequest, outcome: Result<Vec<u8>, String>|
                {
                    &&& read@ == request
                    &&& call_ensures(
                        handler,
                        (old(state)@.id, read, &old(state)@.resource_table),
                        outcome,
                    )
                    &&& final(state)@ == after_host_call(old(state)@, outcome_view(outcome))
                    &&& code == return_code(outcome_view(outcome))
                },
            Err(e) => {
                &&& code == 0
                &&& final(state)@ == after_host_call(
                    old(state)@,
                    Err::<Seq<u8>, Seq<char>>(display_text(e)),
                )
            },
        },
{
    match begin_host_call(state, memory, params) {
        Some(request) => {
            let outcome = handler(state.id(), &request, state.resource_table());
            let ghost answered = outcome;
            let code = complete_host_call(state, outcome);
            proof {
                assert(call_ensures(
                    handler,
                    (old(state)@.id, &request, &old(state)@.resource_table),
                    answered,
                ));
                assert(state@ == after_host_call(old(state)@, outcome_view(answered)));
            }
            code
        },
        None => 0,
    }
}

/// The number that reports a length of `len` bytes to the guest: `len`
/// itself where it fits, and its low 32 bits read as a signed number where it
/// does not.
pub open spec fn length_code(len: nat) -> i32 {
    (len as usize) as i32
}

/// A length that fits is reported as it is.
pub proof fn lemma_length_code_of_small(len: nat)
    requires
        len <= i32::MAX,
    ensures
        length_code(len) == len,
{
}

/// The length of the response of the last call, 0 if there is none.
pub fn host_response_len<H>(state: &EnvironmentState<H>) -> (len: i32)
    ensures
        len == match state@.host_call.response() {
            Some(bytes) => length_code(bytes.len()),
            None => 0,
        },
{
    match state.get_host_response() {
        Some(bytes) => #[verifier::truncate] (bytes.len() as i32),
        None => 0,
    }
}

/// The length in bytes of the error text of the last call, 0 if there is none.
pub fn host_error_len<H>(state: &EnvironmentState<H>) -> (len: i32)
    ensures
        len == match state@.host_call.error() {
            Some(text) => length_code(encode_utf8(text).len()),
            None => 0,
        },
{
    match state.get_host_error() {
        Some(text) => #[verifier::truncate] (text.as_str().len() as i32),
        None => 0,
    }
}

/// The guest's memory after the response or error of the last call was copied
/// to `ptr`: unchanged where there is nothing to copy.
pub open spec fn copied_out(memory: Seq<u8>, slot: Option<Seq<u8>>, ptr: int) -> Result<
    Seq<u8>,
    ErrorView,
> {
    match slot {
        None => Ok(memory),
        Some(bytes) => written_at(memory, ptr, bytes),
    }
}

/// Copies the response of the last call into the guest's memory at `ptr`.
/// Nothing is copied where the last call left no response.
pub fn host_response<H>(state: &EnvironmentState<H>, memory: &mut [u8], ptr: i32) -> (r: Result<
    (),
    CustomError,
>)
    ensures
        match r {
            Ok(_) => copied_out(old(memory)@, state@.host_call.response(), ptr as int) == Ok::<
                Seq<u8>,
                ErrorView,
            >(final(memory)@),
            Err(e) => {
                &&& copied_out(old(memory)@, state@.host_call.response(), ptr as int) == Err::<
                    Seq<u8>,
                    ErrorView,
                >(e@)
                &&& final(memory)@ == old(memory)@
            },
        },
{
    match state.get_host_response() {
        Some(bytes) => write_region(memory, ptr, bytes.as_slice()),
        None => Ok(()),
    }
}

/// The bytes of the error text of the last call, if it failed.
pub open spec fn error_bytes(call: HostCallView) -> Option<Seq<u8>> {
    match call.error() {
        Some(text) => Some(encode_utf8(text)),
        None => None,
    }
}

/// Copies the error text of the last call into the guest's memory at `ptr`.
/// Nothing is copied where the last call left no error.
pub fn host_error<H>(state: &EnvironmentState<H>, memory: &mut [u8], ptr: i32) -> (r: Result<
    (),
    CustomError,
>)
    ensures
        match r {
            Ok(_) => copied_out(old(memory)@, error_bytes(state@.host_call), ptr as int) == Ok::<
                Seq<u8>,
                ErrorView,
            >(final(memory)@),
            Err(e) => {
                &&& copied_out(old(memory)@, error_bytes(state@.host_call), ptr as int) == Err::<
                    Seq<u8>,
                    ErrorView,
                >(e@)
                &&& final(memory)@ == old(memory)@
            },
        },
{
    match state.get_host_error() {
        Some(text) => write_region(memory, ptr, text.as_str().as_bytes()),
        None => Ok(()),
    }
}

/// The guest's memory after the waiting request was copied into it: the
/// message to `ptr` and then the name of the operation to `op_ptr`. Both
/// regions must lie within the memory.
pub open spec fn request_copied(
    memory: Seq<u8>,
    pending: Option<InvocationView>,
    op_ptr: int,
    ptr: int,
) -> Result<Seq<u8>, ErrorView> {
    match pending {
        None => Ok(memory),
        Some(invocation) => {
            let operation = encode_utf8(invocation.operation);
            if in_bounds(memory.len(), ptr, invocation.msg.len() as int) && in_bounds(
                memory.len(),
                op_ptr,
                operation.len() as int,
            ) {
                Ok(with_region(with_region(memory, ptr, invocation.msg), op_ptr, operation))
            } else {
                Err(out_of_bounds_view())
            }
        },
    }
}

/// Copies the request that waits for the guest into its memory: the message to
/// `ptr` and the name of the operation to `op_ptr`. Nothing is copied where no
/// request waits, nor where one of the two regions is out of bounds.
pub fn guest_request<H>(
    state: &EnvironmentState<H>,
    memory: &mut [u8],
    op_ptr: i32,
    ptr: i32,
) -> (r: Result<(), CustomError>)
    ensures
        match r {
            Ok(_) => request_copied(old(memory)@, state@.guest_request, op_ptr as int, ptr as int)
                == Ok::<Seq<u8>, ErrorView>(final(memory)@),
            Err(e) => {
                &&& request_copied(old(memory)@, state@.guest_request, op_ptr as int, ptr as int)
                    == Err::<Seq<u8>, ErrorView>(e@)
                &&& final(memory)@ == old(memory)@
            },
        },
{
    match state.get_guest_request() {
        Some(invocation) => {
            let operation = invocation.operation.as_str().as_bytes();
            if !region_in_bounds(memory, ptr, invocation.msg.len()) || !region_in_bounds(
                memory,
                op_ptr,
                operation.len(),
            ) {
                return Err(out_of_bounds());
            }
            match write_region(memory, ptr, invocation.msg.as_slice()) {
                Ok(_) => write_region(memory, op_ptr, operation),
                Err(e) => Err(e),
            }
        },
        None => Ok(()),
    }
}

/// Reads the text that the guest wants logged. The caller hands it to the log.
pub fn console_log(memory: &[u8], ptr: i32, len: i32) -> (r: Result<String, CustomError>)
    ensures
        match r {
            Ok(text) => string_at(memory@, ptr as int, len as int) == Ok::<Seq<char>, ErrorView>(
                text@,
            ),
            Err(e) => string_at(memory@, ptr as int, len as int) == Err::<Seq<char>, ErrorView>(e@),
        },
{
    read_string(memory, ptr, len)
}

/// Records the `len` bytes at `ptr` as the guest's final result.
pub fn guest_response<H>(
    state: &mut EnvironmentState<H>,
    memory: &[u8],
    ptr: i32,
    len: i32,
) -> (r: Result<(), CustomError>)
    ensures
        match bytes_at(memory@, ptr as int, len as int) {
            Ok(bytes) => {
                &&& r is Ok
                &&& final(state)@ == (EnvironmentView {
                    guest_response: Some(bytes),
                    ..old(state)@
                })
            },
            Err(e) => {
                &&& r matches Err(found)
                &&& found@ == e
                &&& final(state)@ == old(state)@
            },
        },
{
    match read_region(memory, ptr, len) {
        Ok(bytes) => {
            state.set_guest_response(bytes);
            Ok(())
        },
        Err(e) => Err(e),
    }
}

/// Records the string in the `len` bytes at `ptr` as the guest's final error.
pub fn guest_error<H>(
    state: &mut EnvironmentState<H>,
    memory: &[u8],
    ptr: i32,
    len: i32,
) -> (r: Result<(), CustomError>)
    ensures
        match string_at(memory@, ptr as int, len as int) {
            Ok(text) => {
                &&& r is Ok
                &&& final(state)@ == (EnvironmentView { guest_error: Some(text), ..old(state)@ })
            },
            Err(e) => {
                &&& r matches Err(found)
                &&& found@ == e
                &&& final(state)@ == old(state)@
            },
        },
{
    match read_string(memory, ptr, len) {
        Ok(text) => {
            state.set_guest_error(text);
            Ok(())
        },
        Err(e) => Err(e),
    }
}

/// A call overwrites what the call before it left: the state after two calls
/// is the state after the second alone.
pub proof fn lemma_second_call_overwrites<H>(
    state: EnvironmentView<H>,
    first: Result<Seq<u8>, Seq<char>>,
    second: Result<Seq<u8>, Seq<char>>,
)
    ensures
        after_host_call(after_host_call(state, first), second) == after_host_call(state, second),
        after_host_call(after_staging(after_host_call(state, first)), second) == after_host_call(
            state,
            second,
        ),
        after_host_call(state, second).host_call.response() == match second {
            Ok(bytes) => Some(bytes),
            Err(_) => None,
        },
        after_host_call(state, second).host_call.error() == match second {
            Ok(_) => None,
            Err(text) => Some(text),
        },
{
}

} // verus!
