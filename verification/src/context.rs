//! The result side of one invocation: the calls that the host is to receive,
//! kept in the order in which they were made.

use vstd::prelude::*;

verus! {

/// One call on the host's result interface, with what it carries.
#[derive(Debug, PartialEq, Eq)]
pub enum HostCall {
    /// A text result: `bytes` without a zero byte, and their number.
    Text { bytes: Vec<u8>, len: i32 },
    /// An integer result of 32 bits.
    Int(i32),
    /// An integer result of 64 bits.
    Int64(i64),
    /// A floating-point result, by its bits.
    Double(u64),
    /// A blob result, which the host copies, and the length it is told.
    Blob { bytes: Vec<u8>, len: i32 },
    /// A null result.
    Null,
    /// An error result with a message: `bytes` without a zero byte, and
    /// their number.
    Error { bytes: Vec<u8>, len: i32 },
    /// An error result that is one of the host's error codes.
    ErrorCode(i32),
    /// A subtype mark on the result.
    Subtype(u32),
    /// A pointer result, passed under `name`.
    Pointer { name: Vec<u8> },
    /// Auxiliary data for the argument in `column`: a pointer and the
    /// destructor that the host is to run on it.
    Auxdata { column: i32, pointer: usize, destructor: Option<usize> },
}

/// A call on the host's result interface, as mathematics sees it.
pub enum HostCallView {
    Text { bytes: Seq<u8>, len: i32 },
    Int(i32),
    Int64(i64),
    Double(u64),
    Blob { bytes: Seq<u8>, len: i32 },
    Null,
    Error { bytes: Seq<u8>, len: i32 },
    ErrorCode(i32),
    Subtype(u32),
    Pointer { name: Seq<u8> },
    Auxdata { column: i32, pointer: usize, destructor: Option<usize> },
}

impl HostCallView {
    /// The call settles what the invocation returns: a value or an error.
    /// A subtype mark and auxiliary data do not.
    pub open spec fn is_terminal(self) -> bool {
        !(self is Subtype || self is Auxdata)
    }
}

impl View for HostCall {
    type V = HostCallView;

    open spec fn view(&self) -> HostCallView {
        match *self {
            HostCall::Text { bytes, len } => HostCallView::Text { bytes: bytes@, len },
            HostCall::Int(i) => HostCallView::Int(i),
            HostCall::Int64(i) => HostCallView::Int64(i),
            HostCall::Double(bits) => HostCallView::Double(bits),
            HostCall::Blob { bytes, len } => HostCallView::Blob { bytes: bytes@, len },
            HostCall::Null => HostCallView::Null,
            HostCall::Error { bytes, len } => HostCallView::Error { bytes: bytes@, len },
            HostCall::ErrorCode(code) => HostCallView::ErrorCode(code),
            HostCall::Subtype(mark) => HostCallView::Subtype(mark),
            HostCall::Pointer { name } => HostCallView::Pointer { name: name@ },
            HostCall::Auxdata { column, pointer, destructor } => HostCallView::Auxdata {
                column,
                pointer,
                destructor,
            },
        }
    }
}

/// How many of `calls` settle the result.
pub open spec fn terminal_count(calls: Seq<HostCallView>) -> nat
    decreases calls.len(),
{
    if calls.len() == 0 {
        0
    } else {
        terminal_count(calls.drop_last()) + if calls.last().is_terminal() {
            1nat
        } else {
            0nat
        }
    }
}

/// The result side of one invocation. Every setter adds its call at the end;
/// nothing is ever taken out or changed.
#[derive(Debug, PartialEq, Eq)]
pub struct Context {
    calls: Vec<HostCall>,
}

impl View for Context {
    type V = Seq<HostCallView>;

    closed spec fn view(&self) -> Seq<HostCallView> {
        self.calls@.map_values(|call: HostCall| call@)
    }
}

impl Context {
    /// A context on which nothing has been called yet.
    pub fn new() -> (context: Context)
        ensures
            context@ == Seq::<HostCallView>::empty(),
    {
        let context = Context { calls: Vec::new() };
        assert(context@ =~= Seq::<HostCallView>::empty());
        context
    }

    /// Adds `call` at the end.
    pub fn record(&mut self, call: HostCall)
        ensures
            final(self)@ == old(self)@.push(call@),
    {
        self.calls.push(call);
        assert(self@ =~= old(self)@.push(call@));
    }

    /// The calls made so far, oldest first.
    pub fn calls(&self) -> (calls: &Vec<HostCall>)
        ensures
            calls@.len() == self@.len(),
            forall|i: int| 0 <= i < calls@.len() ==> (#[trigger] calls@[i])@ == self@[i],
    {
        &self.calls
    }

    /// Gives up the context for the calls made on it, oldest first.
    pub fn into_calls(self) -> (calls: Vec<HostCall>)
        ensures
            calls@.len() == self@.len(),
            forall|i: int| 0 <= i < calls@.len() ==> (#[trigger] calls@[i])@ == self@[i],
    {
        self.calls
    }

    /// Whether the invocation has its one result: exactly one of the calls
    /// made so far settles it.
    pub fn is_settled(&self) -> (settled: bool)
        ensures
            settled == (terminal_count(self@) == 1),
    {
        let mut count: usize = 0;
        let mut i: usize = 0;
        while i < self.calls.len()
            invariant
                i <= self.calls@.len(),
                count == terminal_count(self@.take(i as int)),
                count <= i,
            decreases self.calls@.len() - i,
        {
            let terminal: bool = match &self.calls[i] {
                HostCall::Subtype(_) => false,
                HostCall::Auxdata { .. } => false,
                _ => true,
            };
            proof {
                let next = self@.take(i + 1);
                assert(next.drop_last() =~= self@.take(i as int));
                assert(next.last() == self.calls@[i as int]@);
            }
            if terminal {
                count += 1;
            }
            i += 1;
        }
        proof {
            assert(self@.take(i as int) =~= self@);
        }
        count == 1
    }
}

} // verus!
