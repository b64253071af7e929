//! A buffer of the app signals that a cell has emitted and the test has not
//! yet looked at.

use vstd::prelude::*;

verus! {

/// Signals in the order in which they arrived, waiting to be drained.
pub struct SignalQueue<T> {
    items: Vec<T>,
}

impl<T> View for SignalQueue<T> {
    type V = Seq<T>;

    closed spec fn view(&self) -> Seq<T> {
        self.items@
    }
}

impl<T> SignalQueue<T> {
    /// An empty buffer.
    pub fn new() -> (res: SignalQueue<T>)
        ensures
            res@ == Seq::<T>::empty(),
    {
        SignalQueue { items: Vec::new() }
    }

    /// Adds a signal that has just arrived.
    pub fn push(&mut self, signal: T)
        ensures
            final(self)@ == old(self)@.push(signal),
    {
        self.items.push(signal);
    }

    /// How many signals wait to be drained.
    pub fn len(&self) -> (res: usize)
        ensures
            res == self@.len(),
    {
        self.items.len()
    }

    /// Takes every waiting signal, oldest first, and leaves the buffer empty.
    pub fn drain(&mut self) -> (res: Vec<T>)
        ensures
            res@ == old(self)@,
            final(self)@ == Seq::<T>::empty(),
    {
        let mut taken: Vec<T> = Vec::new();
        core::mem::swap(&mut taken, &mut self.items);
        taken
    }
}

/// One operation on a signal buffer: a `push` of a signal, or a `drain`.
pub enum QueueOp<T> {
    Push(T),
    Drain,
}

/// Runs `ops` on a buffer that holds `held`, as `push` and `drain` do:
/// what the buffer holds at the end, and what each drain returned, in order.
pub open spec fn run_ops<T>(held: Seq<T>, ops: Seq<QueueOp<T>>) -> (Seq<T>, Seq<Seq<T>>)
    decreases ops.len(),
{
    if ops.len() == 0 {
        (held, Seq::empty())
    } else {
        match ops[0] {
            QueueOp::Push(signal) => run_ops(held.push(signal), ops.skip(1)),
            QueueOp::Drain => {
                let (rest_held, rest_drains) = run_ops(Seq::<T>::empty(), ops.skip(1));
                (rest_held, seq![held] + rest_drains)
            },
        }
    }
}

/// The signals that `ops` push, in order.
pub open spec fn pushed_by<T>(ops: Seq<QueueOp<T>>) -> Seq<T>
    decreases ops.len(),
{
    if ops.len() == 0 {
        Seq::empty()
    } else {
        match ops[0] {
            QueueOp::Push(signal) => seq![signal] + pushed_by(ops.skip(1)),
            QueueOp::Drain => pushed_by(ops.skip(1)),
        }
    }
}

/// The parts one after the other.
pub open spec fn concat_all<T>(parts: Seq<Seq<T>>) -> Seq<T>
    decreases parts.len(),
{
    if parts.len() == 0 {
        Seq::empty()
    } else {
        parts[0] + concat_all(parts.skip(1))
    }
}

/// Successive drains give back every signal exactly once, in the order of
/// arrival: whatever pushes and drains happen, the drains' results one after
/// the other, followed by what the buffer still holds, are what it held at
/// first followed by every pushed signal. When the last operation is a
/// drain, the buffer is empty at the end, so the drains together return
/// exactly what it held and what was pushed.
pub proof fn law_drains_return_every_signal_once<T>(held: Seq<T>, ops: Seq<QueueOp<T>>)
    ensures
        concat_all(run_ops(held, ops).1) + run_ops(held, ops).0 == held + pushed_by(ops),
        ops.len() > 0 && ops.last() is Drain ==> run_ops(held, ops).0 == Seq::<T>::empty(),
    decreases ops.len(),
{
    if ops.len() == 0 {
        assert(concat_all(Seq::<Seq<T>>::empty()) + held =~= held + Seq::<T>::empty());
    } else {
        let rest = ops.skip(1);
        if ops.len() > 1 {
            assert(rest.last() == ops.last());
        }
        match ops[0] {
            QueueOp::Push(signal) => {
                law_drains_return_every_signal_once(held.push(signal), rest);
                assert(held.push(signal) + pushed_by(rest) =~= held + (seq![signal] + pushed_by(rest)));
            },
            QueueOp::Drain => {
                law_drains_return_every_signal_once(Seq::<T>::empty(), rest);
                let (rest_held, rest_drains) = run_ops(Seq::<T>::empty(), rest);
                let drains = seq![held] + rest_drains;
                assert(drains.skip(1) =~= rest_drains);
                assert(drains[0] == held);
                assert(Seq::<T>::empty() + pushed_by(rest) =~= pushed_by(rest));
                assert(concat_all(drains) + rest_held =~= held + (concat_all(rest_drains) + rest_held));
                if ops.len() == 1 {
                    assert(rest.len() == 0);
                }
            },
        }
    }
}

} // verus!
