//! Calls from the plugin to the host: the choice of the trampoline for a call
//! of a host function, and the handles that name memory shared with the host.

use crate::shim::{name_of_trampoline, trampoline_name, MAX_HOST_PARAMS};
use vstd::prelude::*;

verus! {

/// A range of bytes in the module's memory that the host has allocated.
#[derive(Clone, Copy, Debug, PartialEq, Eq, Structural)]
pub struct MemoryHandle {
    pub offset: u64,
    pub length: u64,
}

/// How urgent a message to the host's log is.
#[derive(Clone, Copy, Debug, PartialEq, Eq, Structural)]
pub enum LogLevel {
    Error,
    Debug,
    Warn,
    Info,
}

/// A trampoline of the shim: the one that forwards `params` operands and
/// returns a value or not.
#[derive(Clone, Copy, Debug, PartialEq, Eq, Structural)]
pub struct Trampoline {
    pub params: usize,
    pub has_result: bool,
}

/// A call of a host function, ready to be made: the trampoline to call, the
/// table slot of the host function, and the operands.
#[derive(Clone, Debug, PartialEq, Eq)]
pub struct HostCall {
    pub trampoline: Trampoline,
    pub index: u32,
    pub operands: Vec<u64>,
}

/// Why a host function cannot be called.
#[derive(Clone, Copy, Debug, PartialEq, Eq, Structural)]
pub enum HostCallError {
    /// There are more arguments than any trampoline forwards.
    TooManyArguments { count: usize },
    /// The argument at this position is no unsigned integer of 64 bits.
    NotAnInteger { position: usize },
}

/// The position of the first argument that is no integer, if there is one.
pub open spec fn first_non_integer(args: Seq<Option<u64>>) -> Option<int>
    decreases args.len(),
{
    if args.len() == 0 {
        None
    } else {
        match first_non_integer(args.drop_last()) {
            Some(position) => Some(position),
            None => if args.last() is None {
                Some(args.len() - 1)
            } else {
                None
            },
        }
    }
}

/// The error with which a call of a host function is refused, if it is:
/// more arguments than `MAX_HOST_PARAMS`, else the first argument that is no
/// integer.
pub open spec fn host_call_error(args: Seq<Option<u64>>) -> Option<HostCallError> {
    if args.len() > MAX_HOST_PARAMS {
        Some(HostCallError::TooManyArguments { count: args.len() as usize })
    } else {
        match first_non_integer(args) {
            Some(position) => Some(HostCallError::NotAnInteger { position: position as usize }),
            None => None,
        }
    }
}

/// The operands of a call whose arguments are all integers.
pub open spec fn operands_of(args: Seq<Option<u64>>) -> Seq<u64> {
    args.map_values(|a: Option<u64>| a.unwrap())
}

/// The words with which a call with too many arguments is refused.
pub open spec fn too_many_arguments_text() -> Seq<char> {
    "Host functions with more than 5 parameters are not supported"@
}

impl MemoryHandle {
    /// A handle for `length` bytes at `offset`.
    pub fn new(offset: u64, length: u64) -> (r: Self)
        ensures
            r == (MemoryHandle { offset, length }),
    {
        MemoryHandle { offset, length }
    }

    /// The handle for what the host found at an offset: none where no live
    /// allocation begins there.
    pub fn found(block: Option<(u64, u64)>) -> (r: Option<MemoryHandle>)
        ensures
            r == match block {
                Some((offset, length)) => Some(MemoryHandle { offset, length }),
                None => None,
            },
    {
        match block {
            Some((offset, length)) => Some(MemoryHandle { offset, length }),
            None => None,
        }
    }
}

impl Trampoline {
    /// The name under which the shim exports the trampoline.
    pub fn name(&self) -> (r: String)
        requires
            self.params <= MAX_HOST_PARAMS,
        ensures
            r@ == trampoline_name(
                self.params as int,
                if self.has_result {
                    1int
                } else {
                    0int
                },
            ),
    {
        name_of_trampoline(self.params, self.has_result)
    }
}

impl HostCallError {
    /// The words of the error for the plugin.
    pub fn message(&self) -> (r: String)
        ensures
            self is TooManyArguments ==> r@ == too_many_arguments_text(),
            self is NotAnInteger ==> r@ == "Host function arguments must be unsigned integers"@,
    {
        match self {
            HostCallError::TooManyArguments { .. } => String::from_str(
                "Host functions with more than 5 parameters are not supported",
            ),
            HostCallError::NotAnInteger { .. } => String::from_str(
                "Host function arguments must be unsigned integers",
            ),
        }
    }
}

/// Prepares the call of the host function in table slot `index`. Each
/// argument is the integer that the plugin passed, or nothing where it passed
/// something else. The call goes through the trampoline for as many operands
/// as there are arguments.
pub fn plan_host_call(index: u32, args: &Vec<Option<u64>>, has_result: bool) -> (r: Result<
    HostCall,
    HostCallError,
>)
    ensures
        match r {
            Ok(call) => {
                &&& host_call_error(args@) is None
                &&& call.trampoline == (Trampoline { params: args.len(), has_result })
                &&& call.trampoline.params <= MAX_HOST_PARAMS
                &&& call.index == index
                &&& call.operands@ == operands_of(args@)
            },
            Err(e) => host_call_error(args@) == Some(e),
        },
{
    if args.len() > MAX_HOST_PARAMS {
        return Err(HostCallError::TooManyArguments { count: args.len() });
    }
    let mut operands: Vec<u64> = Vec::new();
    let mut i: usize = 0;
    assert(args@.take(0) =~= Seq::<Option<u64>>::empty());
    while i < args.len()
        invariant
            i <= args.len() <= MAX_HOST_PARAMS,
            first_non_integer(args@.take(i as int)) is None,
            operands@ == operands_of(args@.take(i as int)),
        decreases args.len() - i,
    {
        assert(args@.take(i + 1).drop_last() =~= args@.take(i as int));
        match args[i] {
            Some(value) => {
                operands.push(value);
                assert(operands@ =~= operands_of(args@.take(i + 1)));
            },
            None => {
                proof {
                    lemma_first_non_integer_of_prefix(args@, i + 1);
                }
                return Err(HostCallError::NotAnInteger { position: i });
            },
        }
        i += 1;
    }
    assert(args@.take(args.len() as int) =~= args@);
    Ok(HostCall { trampoline: Trampoline { params: args.len(), has_result }, index, operands })
}

/// Prepares the call of a host function that returns a value.
pub fn invoke_host_func(index: u32, args: &Vec<Option<u64>>) -> (r: Result<HostCall, HostCallError>)
    ensures
        match r {
            Ok(call) => {
                &&& host_call_error(args@) is None
                &&& call.trampoline == (Trampoline { params: args.len(), has_result: true })
                &&& call.trampoline.params <= MAX_HOST_PARAMS
                &&& call.index == index
                &&& call.operands@ == operands_of(args@)
            },
            Err(e) => host_call_error(args@) == Some(e),
        },
{
    plan_host_call(index, args, true)
}

/// Prepares the call of a host function that returns nothing.
pub fn invoke_host_func0(index: u32, args: &Vec<Option<u64>>) -> (r: Result<
    HostCall,
    HostCallError,
>)
    ensures
        match r {
            Ok(call) => {
                &&& host_call_error(args@) is None
                &&& call.trampoline == (Trampoline { params: args.len(), has_result: false })
                &&& call.trampoline.params <= MAX_HOST_PARAMS
                &&& call.index == index
                &&& call.operands@ == operands_of(args@)
            },
            Err(e) => host_call_error(args@) == Some(e),
        },
{
    plan_host_call(index, args, false)
}

/// The first argument that is no integer among the first `count` is the
/// first one among all.
proof fn lemma_first_non_integer_of_prefix(args: Seq<Option<u64>>, count: int)
    requires
        0 <= count <= args.len(),
        first_non_integer(args.take(count)) is Some,
    ensures
        first_non_integer(args) == first_non_integer(args.take(count)),
    decreases args.len() - count,
{
    if count == args.len() {
        assert(args.take(count) =~= args);
    } else {
        assert(args.take(count + 1).drop_last() =~= args.take(count));
        lemma_first_non_integer_of_prefix(args, count + 1);
    }
}

} // verus!
