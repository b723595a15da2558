//! Calls into other programs through the host's single `call_program`
//! import.
use vstd::prelude::*;
use crate::memory::{
    decoded, decoded_id, host_ptr, id_bytes, lemma_id_round_trip, lemma_round_trip,
    EncodingError, StagingArea, ID_WIDTH, MAX_STAGING,
};
use crate::program::Program;
use vstd::string::StringSliceAdditionalSpecFns;

verus! {

/// The five values handed to the host for one call: the staged caller id,
/// the staged target id, the unit budget, the staged function name and the
/// staged argument bytes.
#[derive(Clone, Copy, Debug, PartialEq, Eq, Structural)]
pub struct CallRequest {
    pub caller: i64,
    pub target: i64,
    pub max_units: i64,
    pub function: i64,
    pub args: i64,
}

/// A service in the place of the host's `call_program` import: it runs the
/// target program's function under the given budget and returns its raw
/// result, reading the pointers of a request out of `memory`. Each call is
/// logged, so that what a caller handed over and got back can be stated.
pub trait HostBridge {
    /// Every invocation so far, with the value it returned, oldest first.
    spec fn invocations(&self) -> Seq<(CallRequest, i64)>;

    /// Runs the call that `request` describes and returns its raw result.
    fn call_program(&mut self, memory: &StagingArea, request: CallRequest) -> (r: i64)
        ensures
            final(self).invocations() == old(self).invocations().push((request, r)),
    ;
}

/// The bytes a call stages, in order: caller id, target id, function name,
/// arguments.
pub open spec fn staged_call(caller: i64, target: i64, name: Seq<u8>, args: Seq<u8>) -> Seq<u8> {
    id_bytes(caller) + id_bytes(target) + name + args
}

/// The request for a call whose values are staged from offset `base` on.
pub open spec fn call_request(
    base: int,
    caller: i64,
    target: i64,
    max_units: i64,
    name_len: int,
    args_len: int,
) -> CallRequest {
    CallRequest {
        caller: host_ptr(base, ID_WIDTH as int) as i64,
        target: host_ptr(base + ID_WIDTH, ID_WIDTH as int) as i64,
        max_units,
        function: host_ptr(base + 2 * ID_WIDTH, name_len) as i64,
        args: host_ptr(base + 2 * ID_WIDTH + name_len, args_len) as i64,
    }
}

/// The host recovers every value of a staged call exactly: each pointer of
/// the request reads back, from the memory it was staged in, as the value it
/// was made for, and the budget is the one given.
pub proof fn lemma_request_decodes(
    mem: Seq<u8>,
    caller: i64,
    target: i64,
    max_units: i64,
    name: Seq<u8>,
    args: Seq<u8>,
)
    requires
        mem.len() + staged_call(caller, target, name, args).len() <= MAX_STAGING,
    ensures
        ({
            let m = mem + staged_call(caller, target, name, args);
            let req = call_request(
                mem.len() as int,
                caller,
                target,
                max_units,
                name.len() as int,
                args.len() as int,
            );
            &&& decoded_id(m, req.caller) == Some(caller)
            &&& decoded_id(m, req.target) == Some(target)
            &&& decoded(m, req.function) == Some(name)
            &&& decoded(m, req.args) == Some(args)
            &&& req.max_units == max_units
        }),
{
    let m = mem + staged_call(caller, target, name, args);
    let m1 = mem + id_bytes(caller);
    let m2 = m1 + id_bytes(target);
    let m3 = m2 + name;
    assert(m =~= mem + id_bytes(caller) + (id_bytes(target) + name + args));
    lemma_id_round_trip(mem, caller, id_bytes(target) + name + args);
    assert(m =~= m1 + id_bytes(target) + (name + args));
    lemma_id_round_trip(m1, target, name + args);
    assert(m =~= m2 + name + args);
    lemma_round_trip(m2, name, args);
    assert(m =~= m3 + args + Seq::<u8>::empty());
    lemma_round_trip(m3, args, Seq::<u8>::empty());
}

/// Stages the values of a call to `function_name` of program `target` on
/// behalf of `caller` in `memory`, and returns the request that hands them
/// to the host with the budget `max_units` as given. If they do not all fit,
/// the error comes back and nothing stays staged.
pub fn prepare_call(
    memory: &mut StagingArea,
    caller: &Program,
    target: &Program,
    max_units: i64,
    function_name: &str,
    args: &[u8],
) -> (r: Result<CallRequest, EncodingError>)
    requires
        old(memory).wf(),
    ensures
        final(memory).wf(),
        final(memory).spec_capacity() == old(memory).spec_capacity(),
        ({
            let staged = staged_call(caller@, target@, function_name.spec_bytes(), args@);
            let base = old(memory)@.len();
            if base + staged.len() <= old(memory).spec_capacity() {
                &&& r == Ok::<CallRequest, EncodingError>(
                    call_request(
                        base as int,
                        caller@,
                        target@,
                        max_units,
                        function_name.spec_bytes().len() as int,
                        args@.len() as int,
                    ),
                )
                &&& final(memory)@ == old(memory)@ + staged
            } else {
                &&& r == Err::<CallRequest, EncodingError>(EncodingError::StagingExhausted)
                &&& final(memory)@ == old(memory)@
            }
        }),
{
    let ghost m0 = memory@;
    let base = memory.len();
    let caller_ptr = match memory.encode_id(caller.id()) {
        Ok(p) => p,
        Err(e) => {
            return Err(e);
        },
    };
    let target_ptr = match memory.encode_id(target.id()) {
        Ok(p) => p,
        Err(e) => {
            memory.truncate(base);
            assert(memory@ =~= m0);
            return Err(e);
        },
    };
    let name = function_name.as_bytes();
    let function_ptr = match memory.encode(name) {
        Ok(p) => p,
        Err(e) => {
            memory.truncate(base);
            assert(memory@ =~= m0);
            return Err(e);
        },
    };
    let args_ptr = match memory.encode(args) {
        Ok(p) => p,
        Err(e) => {
            memory.truncate(base);
            assert(memory@ =~= m0);
            return Err(e);
        },
    };
    assert(memory@ =~= m0 + staged_call(caller@, target@, name@, args@));
    Ok(CallRequest {
        caller: caller_ptr,
        target: target_ptr,
        max_units,
        function: function_ptr,
        args: args_ptr,
    })
}

/// Calls `function_name` of program `target` on behalf of `caller`, with
/// at most `max_units` units of work and the argument bytes `args`.
///
/// The four values are staged in `memory` and the host is invoked once with
/// their pointers and the budget as given; its raw result comes back as
/// `Ok`. If they do not all fit, the error comes back, nothing stays staged
/// and the host is not invoked.
pub fn call<B: HostBridge>(
    bridge: &mut B,
    memory: &mut StagingArea,
    caller: &Program,
    target: &Program,
    max_units: i64,
    function_name: &str,
    args: &[u8],
) -> (r: Result<i64, EncodingError>)
    requires
        old(memory).wf(),
    ensures
        final(memory).wf(),
        final(memory).spec_capacity() == old(memory).spec_capacity(),
        ({
            let staged = staged_call(caller@, target@, function_name.spec_bytes(), args@);
            let base = old(memory)@.len();
            if base + staged.len() <= old(memory).spec_capacity() {
                &&& r is Ok
                &&& final(memory)@ == old(memory)@ + staged
                &&& final(bridge).invocations() == old(bridge).invocations().push(
                    (
                        call_request(
                            base as int,
                            caller@,
                            target@,
                            max_units,
                            function_name.spec_bytes().len() as int,
                            args@.len() as int,
                        ),
                        r->Ok_0,
                    ),
                )
            } else {
                &&& r == Err::<i64, EncodingError>(EncodingError::StagingExhausted)
                &&& final(memory)@ == old(memory)@
                &&& *final(bridge) == *old(bridge)
            }
        }),
{
    match prepare_call(memory, caller, target, max_units, function_name, args) {
        Ok(request) => Ok(bridge.call_program(memory, request)),
        Err(e) => Err(e),
    }
}

} // verus!
