//! The calling convention on the interpreter's side: the stack of argument
//! frames that the shim's exported functions fill, and what a dispatched call
//! hands to the plugin and back to the host.

use vstd::prelude::*;

verus! {

/// An argument of a call, widened to 64 bits.
#[derive(Clone, Copy, Debug, PartialEq, Eq, Structural)]
pub enum Arg {
    /// An integer.
    Int(i64),
    /// A floating-point number, as the bits of its 64-bit form.
    Float(u64),
}

/// A value handed to the plugin's entry point.
#[derive(Clone, Copy, Debug, PartialEq, Eq, Structural)]
pub enum CallValue {
    /// The number of the export that is called.
    Index(u32),
    /// Whether the export is a shared entry.
    Flag(bool),
    /// An integer argument.
    Int(i64),
    /// A floating-point argument, as the bits of its 64-bit form.
    Float(u64),
}

/// What a bridge function does to the stack of frames.
pub enum Op {
    /// Opens a frame.
    Begin,
    /// Appends an argument to the open frame.
    Push(Arg),
    /// Closes the open frame and calls with it.
    Dispatch,
}

/// Which of the three dispatch functions is called.
#[derive(Clone, Copy, Debug, PartialEq, Eq, Structural)]
pub enum DispatchKind {
    /// The call returns nothing to the host.
    NoResult,
    /// The call returns an `Int32`.
    Int32,
    /// The call returns an `Int64`.
    Int64,
}

/// How the call of the plugin's entry point ended.
#[derive(Clone, Debug, PartialEq, Eq)]
pub enum CallOutcome {
    /// It returned an integer.
    Value(i64),
    /// It returned something that is no integer of 64 bits.
    NoValue,
    /// It raised an exception.
    Raised { message: String, traceback: Option<String> },
}

/// What goes back to the host after a call: the result, and the text to set
/// as the call's error, if it failed.
#[derive(Clone, Debug, PartialEq, Eq)]
pub struct Completion {
    pub result: i64,
    pub error: Option<String>,
}

/// The stack of argument frames, one frame for each call that is under way.
#[derive(Debug)]
pub struct CallArgumentStack {
    frames: Vec<Vec<Arg>>,
}

/// The stack with `arg` appended to its top frame.
pub open spec fn pushed(stack: Seq<Seq<Arg>>, arg: Arg) -> Seq<Seq<Arg>> {
    stack.drop_last().push(stack.last().push(arg))
}

/// The stack after one operation.
pub open spec fn step(stack: Seq<Seq<Arg>>, op: Op) -> Seq<Seq<Arg>> {
    match op {
        Op::Begin => stack.push(Seq::empty()),
        Op::Push(arg) => pushed(stack, arg),
        Op::Dispatch => stack.drop_last(),
    }
}

/// The stack after a sequence of operations.
pub open spec fn run(stack: Seq<Seq<Arg>>, ops: Seq<Op>) -> Seq<Seq<Arg>>
    decreases ops.len(),
{
    if ops.len() == 0 {
        stack
    } else {
        step(run(stack, ops.drop_last()), ops.last())
    }
}

/// The frames with which the dispatches of a sequence of operations call, in
/// the order of the dispatches.
pub open spec fn dispatched(stack: Seq<Seq<Arg>>, ops: Seq<Op>) -> Seq<Seq<Arg>>
    decreases ops.len(),
{
    if ops.len() == 0 {
        Seq::empty()
    } else {
        let before = dispatched(stack, ops.drop_last());
        match ops.last() {
            Op::Dispatch => before.push(run(stack, ops.drop_last()).last()),
            _ => before,
        }
    }
}

/// Whether a sequence of operations, begun on an empty stack, always finds
/// an open frame where it pushes or dispatches.
pub open spec fn well_nested(ops: Seq<Op>) -> bool
    decreases ops.len(),
{
    if ops.len() == 0 {
        true
    } else {
        well_nested(ops.drop_last()) && (ops.last() is Begin || run(
            Seq::empty(),
            ops.drop_last(),
        ).len() > 0)
    }
}

/// An argument as the plugin's entry point gets it.
pub open spec fn value_of(arg: Arg) -> CallValue {
    match arg {
        Arg::Int(value) => CallValue::Int(value),
        Arg::Float(bits) => CallValue::Float(bits),
    }
}

/// What the plugin's entry point is called with: the export's number, its
/// kind, and the arguments of the frame in order.
pub open spec fn call_arguments(index: u32, shared: bool, frame: Seq<Arg>) -> Seq<CallValue> {
    seq![CallValue::Index(index), CallValue::Flag(shared)] + frame.map_values(|a: Arg| value_of(a))
}

/// What a dispatch function returns to the host: nothing to speak of where
/// the call has no result; else -1 after an exception, the value where the
/// plugin returned an integer that the result type holds, and 0 where it
/// returned anything else.
pub open spec fn dispatch_result(kind: DispatchKind, outcome: CallOutcome) -> i64 {
    match kind {
        DispatchKind::NoResult => 0,
        DispatchKind::Int32 => match outcome {
            CallOutcome::Raised { .. } => -1i64,
            CallOutcome::Value(value) => if i32::MIN <= value <= i32::MAX {
                value
            } else {
                0
            },
            CallOutcome::NoValue => 0,
        },
        DispatchKind::Int64 => match outcome {
            CallOutcome::Raised { .. } => -1i64,
            CallOutcome::Value(value) => value,
            CallOutcome::NoValue => 0,
        },
    }
}

/// The text of an exception for the host: the message, and behind a line
/// break the traceback where there is one.
pub open spec fn error_text_of(message: Seq<char>, traceback: Option<Seq<char>>) -> Seq<char> {
    match traceback {
        Some(trace) => message + "\n"@ + trace,
        None => message,
    }
}

/// The text that is set as the call's error: that of the exception, if the
/// call raised one.
pub open spec fn dispatch_error(outcome: CallOutcome) -> Option<Seq<char>> {
    match outcome {
        CallOutcome::Raised { message, traceback } => Some(
            error_text_of(
                message@,
                match traceback {
                    Some(trace) => Some(trace@),
                    None => None,
                },
            ),
        ),
        _ => None,
    }
}

/// Builds the text of an exception for the host.
pub fn error_text(message: String, traceback: Option<String>) -> (r: String)
    ensures
        r@ == error_text_of(
            message@,
            match traceback {
                Some(trace) => Some(trace@),
                None => None,
            },
        ),
{
    match traceback {
        Some(trace) => {
            let mut text = message;
            text.append("\n");
            text.append(trace.as_str());
            text
        },
        None => message,
    }
}

/// Says what goes back to the host after the plugin's entry point was
/// called.
pub fn complete(kind: DispatchKind, outcome: CallOutcome) -> (r: Completion)
    ensures
        r.result == dispatch_result(kind, outcome),
        match r.error {
            Some(text) => dispatch_error(outcome) == Some(text@),
            None => dispatch_error(outcome) is None,
        },
{
    match outcome {
        CallOutcome::Raised { message, traceback } => {
            let result: i64 = match kind {
                DispatchKind::NoResult => 0,
                _ => -1,
            };
            Completion { result, error: Some(error_text(message, traceback)) }
        },
        CallOutcome::Value(value) => {
            let result: i64 = match kind {
                DispatchKind::NoResult => 0,
                DispatchKind::Int32 => if -0x8000_0000 <= value && value <= 0x7fff_ffff {
                    value
                } else {
                    0
                },
                DispatchKind::Int64 => value,
            };
            Completion { result, error: None }
        },
        CallOutcome::NoValue => Completion { result: 0, error: None },
    }
}

impl View for CallArgumentStack {
    type V = Seq<Seq<Arg>>;

    closed spec fn view(&self) -> Seq<Seq<Arg>> {
        self.frames@.map_values(|frame: Vec<Arg>| frame@)
    }
}

impl CallArgumentStack {
    /// A stack without frames: no call is under way.
    pub fn new() -> (r: CallArgumentStack)
        ensures
            r@ == Seq::<Seq<Arg>>::empty(),
    {
        let r = CallArgumentStack { frames: Vec::new() };
        assert(r@ =~= Seq::<Seq<Arg>>::empty());
        r
    }

    /// The number of calls that are under way.
    pub fn depth(&self) -> (r: usize)
        ensures
            r == self@.len(),
    {
        self.frames.len()
    }

    /// Opens the frame of a call.
    pub fn begin(&mut self)
        ensures
            final(self)@ == step(old(self)@, Op::Begin),
    {
        self.frames.push(Vec::new());
        assert(self@ =~= step(old(self)@, Op::Begin));
    }

    /// Appends an argument to the open frame.
    pub fn push(&mut self, arg: Arg)
        requires
            old(self)@.len() > 0,
        ensures
            final(self)@ == step(old(self)@, Op::Push(arg)),
    {
        let mut top = match self.frames.pop() {
            Some(top) => top,
            None => Vec::new(),
        };
        top.push(arg);
        self.frames.push(top);
        assert(self@ =~= step(old(self)@, Op::Push(arg)));
    }

    /// Appends an `Int32` argument, widened to 64 bits.
    pub fn push_i32(&mut self, arg: i32)
        requires
            old(self)@.len() > 0,
        ensures
            final(self)@ == step(old(self)@, Op::Push(Arg::Int(arg as i64))),
    {
        self.push(Arg::Int(arg as i64));
    }

    /// Appends an `Int64` argument.
    pub fn push_i64(&mut self, arg: i64)
        requires
            old(self)@.len() > 0,
        ensures
            final(self)@ == step(old(self)@, Op::Push(Arg::Int(arg))),
    {
        self.push(Arg::Int(arg));
    }

    /// Appends a floating-point argument, given as the bits of its 64-bit
    /// form.
    pub fn push_float(&mut self, bits: u64)
        requires
            old(self)@.len() > 0,
        ensures
            final(self)@ == step(old(self)@, Op::Push(Arg::Float(bits))),
    {
        self.push(Arg::Float(bits));
    }

    /// Closes the open frame and says what the plugin's entry point is called
    /// with.
    pub fn dispatch(&mut self, index: u32, shared: bool) -> (r: Vec<CallValue>)
        requires
            old(self)@.len() > 0,
        ensures
            final(self)@ == step(old(self)@, Op::Dispatch),
            r@ == call_arguments(index, shared, old(self)@.last()),
    {
        let frame = match self.frames.pop() {
            Some(frame) => frame,
            None => Vec::new(),
        };
        assert(self@ =~= step(old(self)@, Op::Dispatch));
        assert(frame@ == old(self)@.last());
        let mut values: Vec<CallValue> = Vec::new();
        values.push(CallValue::Index(index));
        values.push(CallValue::Flag(shared));
        let mut i: usize = 0;
        assert(values@ =~= call_arguments(index, shared, frame@.take(0)));
        while i < frame.len()
            invariant
                i <= frame.len(),
                values@ == call_arguments(index, shared, frame@.take(i as int)),
            decreases frame.len() - i,
        {
            let value = match frame[i] {
                Arg::Int(value) => CallValue::Int(value),
                Arg::Float(bits) => CallValue::Float(bits),
            };
            values.push(value);
            assert(values@ =~= call_arguments(index, shared, frame@.take(i + 1)));
            i += 1;
        }
        assert(frame@.take(frame.len() as int) =~= frame@);
        values
    }
}

/// A call within a call: where, on any stack, a frame is opened and given
/// `a`, then a second frame is opened and given `b`, the first dispatch calls
/// with `b` alone, the second with `a` alone, and the stack is left as it was
/// found.
pub proof fn lemma_nested_calls(stack: Seq<Seq<Arg>>, a: Arg, b: Arg)
    ensures
        ({
            let ops = seq![
                Op::Begin,
                Op::Push(a),
                Op::Begin,
                Op::Push(b),
                Op::Dispatch,
                Op::Dispatch,
            ];
            &&& dispatched(stack, ops) == seq![seq![b], seq![a]]
            &&& run(stack, ops) == stack
        }),
{
    let ops = seq![Op::Begin, Op::Push(a), Op::Begin, Op::Push(b), Op::Dispatch, Op::Dispatch];
    let o0 = ops.take(0);
    let o1 = ops.take(1);
    let o2 = ops.take(2);
    let o3 = ops.take(3);
    let o4 = ops.take(4);
    let o5 = ops.take(5);
    assert(o1.drop_last() =~= o0);
    assert(o2.drop_last() =~= o1);
    assert(o3.drop_last() =~= o2);
    assert(o4.drop_last() =~= o3);
    assert(o5.drop_last() =~= o4);
    assert(ops.drop_last() =~= o5);
    assert(run(stack, o0) == stack);
    assert(run(stack, o1) =~= stack.push(seq![]));
    assert(run(stack, o2) =~= stack.push(seq![a]));
    assert(run(stack, o3) =~= stack.push(seq![a]).push(seq![]));
    assert(run(stack, o4) =~= stack.push(seq![a]).push(seq![b]));
    assert(run(stack, o5) =~= stack.push(seq![a]));
    assert(run(stack, ops) =~= stack);
    assert(dispatched(stack, o0) =~= Seq::<Seq<Arg>>::empty());
    assert(dispatched(stack, o1) =~= Seq::<Seq<Arg>>::empty());
    assert(dispatched(stack, o2) =~= Seq::<Seq<Arg>>::empty());
    assert(dispatched(stack, o3) =~= Seq::<Seq<Arg>>::empty());
    assert(dispatched(stack, o4) =~= Seq::<Seq<Arg>>::empty());
    assert(dispatched(stack, o5) =~= seq![seq![b]]);
    assert(dispatched(stack, ops) =~= seq![seq![b], seq![a]]);
}

/// Calls never touch the frames of the calls around them: what a well-nested
/// sequence of operations does on a stack is what it does on the empty stack,
/// on top of the frames that were there, and its dispatches call with the
/// same frames.
pub proof fn lemma_calls_leave_outer_frames(stack: Seq<Seq<Arg>>, ops: Seq<Op>)
    requires
        well_nested(ops),
    ensures
        run(stack, ops) == stack + run(Seq::empty(), ops),
        dispatched(stack, ops) == dispatched(Seq::empty(), ops),
    decreases ops.len(),
{
    if ops.len() == 0 {
        assert(run(stack, ops) =~= stack + run(Seq::empty(), ops));
    } else {
        let before = ops.drop_last();
        lemma_calls_leave_outer_frames(stack, before);
        let inner = run(Seq::<Seq<Arg>>::empty(), before);
        assert(run(stack, before) == stack + inner);
        match ops.last() {
            Op::Begin => {
                assert((stack + inner).push(Seq::empty()) =~= stack + inner.push(Seq::empty()));
            },
            Op::Push(arg) => {
                assert((stack + inner).last() == inner.last());
                assert((stack + inner).drop_last() =~= stack + inner.drop_last());
                assert(pushed(stack + inner, arg) =~= stack + pushed(inner, arg));
            },
            Op::Dispatch => {
                assert((stack + inner).last() == inner.last());
                assert((stack + inner).drop_last() =~= stack + inner.drop_last());
            },
        }
    }
}

/// A call that opens a frame, appends its arguments and dispatches calls
/// with exactly these arguments, whatever frames lie below, and leaves the
/// stack as it found it.
pub proof fn lemma_call_round_trip(stack: Seq<Seq<Arg>>, args: Seq<Arg>)
    ensures
        run(stack, call_ops(args)) == stack,
        dispatched(stack, call_ops(args)) == seq![args],
{
    lemma_arguments_pushed(stack, args);
    let ops = call_ops(args);
    assert(ops.drop_last() =~= open_ops(args));
    assert(run(stack, ops) =~= stack);
    lemma_no_dispatch(stack, args);
    assert(dispatched(stack, ops) =~= seq![args]);
}

/// The operations that open a frame and append `args` to it.
pub open spec fn open_ops(args: Seq<Arg>) -> Seq<Op> {
    seq![Op::Begin] + args.map_values(|a: Arg| Op::Push(a))
}

/// The operations of one call with `args`: open a frame, append each
/// argument, dispatch.
pub open spec fn call_ops(args: Seq<Arg>) -> Seq<Op> {
    open_ops(args).push(Op::Dispatch)
}

/// After a frame is opened and given `args`, it holds `args`.
proof fn lemma_arguments_pushed(stack: Seq<Seq<Arg>>, args: Seq<Arg>)
    ensures
        run(stack, open_ops(args)) == stack.push(args),
    decreases args.len(),
{
    let ops = open_ops(args);
    if args.len() == 0 {
        assert(ops.drop_last() =~= Seq::<Op>::empty());
        assert(ops.last() == Op::Begin);
        assert(args =~= Seq::<Arg>::empty());
        assert(run(stack, ops.drop_last()) == stack);
        assert(run(stack, ops) =~= stack.push(args));
    } else {
        lemma_arguments_pushed(stack, args.drop_last());
        assert(ops.drop_last() =~= open_ops(args.drop_last()));
        assert(ops.last() == Op::Push(args.last()));
        assert(args.drop_last().push(args.last()) =~= args);
        assert(stack.push(args.drop_last()).drop_last() =~= stack);
        assert(pushed(stack.push(args.drop_last()), args.last()) =~= stack.push(args));
    }
}

/// Opening a frame and appending arguments dispatches nothing.
proof fn lemma_no_dispatch(stack: Seq<Seq<Arg>>, args: Seq<Arg>)
    ensures
        dispatched(stack, open_ops(args)) == Seq::<Seq<Arg>>::empty(),
    decreases args.len(),
{
    let ops = open_ops(args);
    if args.len() == 0 {
        assert(ops.drop_last() =~= Seq::<Op>::empty());
        assert(ops.last() == Op::Begin);
        assert(dispatched(stack, ops.drop_last()) =~= Seq::<Seq<Arg>>::empty());
    } else {
        lemma_no_dispatch(stack, args.drop_last());
        assert(ops.drop_last() =~= open_ops(args.drop_last()));
        assert(ops.last() == Op::Push(args.last()));
    }
}

} // verus!
