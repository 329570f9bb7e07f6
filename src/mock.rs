//! A scripted generator for tests: its words come from a [`Delegate`] and it counts the
//! native draws made from it.
use crate::counter::wrapping_succ;
use crate::rand64::{self, concat_u64, Rand64};
use crate::Rand;
use core::ops::Range;
use vstd::prelude::*;

verus! {

/// The invocation state of a [`TestMock`].
#[derive(Clone, Copy, Debug, PartialEq, Eq, Structural)]
pub struct State {
    /// How many native 64-bit draws were made, wrapping at `u64::MAX`.
    pub next_u64_invocations: u64,
}

impl State {
    /// The number of native 64-bit draws made so far.
    pub fn next_u64_invocations(&self) -> (r: u64)
        ensures
            r == self.next_u64_invocations,
    {
        self.next_u64_invocations
    }
}

/// Something that has a successor value.
pub trait Next: Sized {
    /// Whether the value has a successor in its type.
    spec fn has_successor(self) -> bool;

    /// The successor.
    spec fn successor(self) -> Self;

    /// Returns the successor.
    fn next(self) -> (r: Self)
        requires
            self.has_successor(),
        ensures
            r == self.successor(),
    ;
}

impl Next for u64 {
    open spec fn has_successor(self) -> bool {
        self < u64::MAX
    }

    open spec fn successor(self) -> u64 {
        (self + 1) as u64
    }

    fn next(self) -> u64 {
        assert(self.has_successor());
        let r = self + 1;
        assert(r == self.successor());
        r
    }
}

impl Next for u128 {
    open spec fn has_successor(self) -> bool {
        self < u128::MAX
    }

    open spec fn successor(self) -> u128 {
        (self + 1) as u128
    }

    fn next(self) -> u128 {
        assert(self.has_successor());
        let r = self + 1;
        assert(r == self.successor());
        r
    }
}

/// Where a [`TestMock`] takes its words from.
#[derive(Clone, Copy, Debug, PartialEq, Eq, Structural)]
pub enum Delegate {
    /// Always the same word.
    Fixed(u64),
    /// Counts from `start` up to just below `end`, then starts again; `current` is the next
    /// word. Past `u64::MAX` it goes back to `start` as well.
    Counter { start: u64, end: u64, current: u64 },
}

impl Delegate {
    /// The word the delegate yields next.
    pub open spec fn output(self) -> u64 {
        match self {
            Delegate::Fixed(v) => v,
            Delegate::Counter { current, .. } => current,
        }
    }

    /// The delegate once it has yielded a word.
    pub open spec fn advance(self) -> Delegate {
        match self {
            Delegate::Fixed(v) => Delegate::Fixed(v),
            Delegate::Counter { start, end, current } => {
                let next = if current < u64::MAX {
                    (current + 1) as u64
                } else {
                    start
                };
                Delegate::Counter { start, end, current: if next == end { start } else { next } }
            },
        }
    }

    /// Yields the next word.
    pub fn call(&mut self) -> (r: u64)
        ensures
            r == old(self).output(),
            *final(self) == old(self).advance(),
    {
        match *self {
            Delegate::Fixed(v) => v,
            Delegate::Counter { start, end, current } => {
                let next = if current < u64::MAX {
                    current.next()
                } else {
                    start
                };
                *self = Delegate::Counter {
                    start,
                    end,
                    current: if next == end {
                        start
                    } else {
                        next
                    },
                };
                current
            },
        }
    }
}

/// A delegate that counts through `range`, starting again at its start when it reaches
/// its end.
pub fn counter(range: Range<u64>) -> (r: Delegate)
    ensures
        r == (Delegate::Counter { start: range.start, end: range.end, current: range.start }),
{
    Delegate::Counter { start: range.start, end: range.end, current: range.start }
}

/// A delegate that always yields `val`.
pub fn fixed(val: u64) -> (r: Delegate)
    ensures
        r == Delegate::Fixed(val),
{
    Delegate::Fixed(val)
}

/// A generator whose native 64-bit words come from a delegate; it counts its draws.
pub struct TestMock {
    pub state: State,
    pub delegate: Delegate,
}

impl TestMock {
    /// A mock that draws from `delegate` and has made no draw.
    pub fn new(delegate: Delegate) -> (r: TestMock)
        ensures
            r.state.next_u64_invocations == 0,
            r.delegate == delegate,
    {
        TestMock { state: State { next_u64_invocations: 0 }, delegate }
    }

    /// The invocation state.
    pub fn state(&self) -> (r: &State)
        ensures
            *r == self.state,
    {
        &self.state
    }
}

impl Rand64 for TestMock {
    open spec fn peek_word(&self) -> u64 {
        self.delegate.output()
    }

    open spec fn after_word(&self) -> Self {
        TestMock {
            state: State {
                next_u64_invocations: wrapping_succ(self.state.next_u64_invocations),
            },
            delegate: self.delegate.advance(),
        }
    }

    /// Calls the delegate, then counts the draw.
    fn next_word(&mut self) -> u64 {
        let r = self.delegate.call();
        self.state.next_u64_invocations = self.state.next_u64_invocations.wrapping_add(1);
        r
    }
}

impl Rand for TestMock {
    open spec fn peek_u16(&self) -> u16 {
        self.peek_word() as u16
    }

    open spec fn after_u16(&self) -> Self {
        self.after_word()
    }

    open spec fn peek_u32(&self) -> u32 {
        self.peek_word() as u32
    }

    open spec fn after_u32(&self) -> Self {
        self.after_word()
    }

    open spec fn peek_u64(&self) -> u64 {
        self.peek_word()
    }

    open spec fn after_u64(&self) -> Self {
        self.after_word()
    }

    open spec fn peek_u128(&self) -> u128 {
        concat_u64(self.peek_word(), self.after_word().peek_word())
    }

    open spec fn after_u128(&self) -> Self {
        self.after_word().after_word()
    }

    fn next_u16(&mut self) -> u16 {
        rand64::next_u16(self)
    }

    fn next_u32(&mut self) -> u32 {
        rand64::next_u32(self)
    }

    fn next_u64(&mut self) -> u64 {
        rand64::next_u64(self)
    }

    fn next_u128(&mut self) -> u128 {
        rand64::next_u128(self)
    }
}

/// Each native draw adds one to the invocation count (wrapping at `u64::MAX`): one draw for
/// a 16-, 32- or 64-bit word, which truncates or is the native word, and two for a 128-bit
/// word, which concatenates two draws.
pub proof fn lemma_invocation_accounting(m: TestMock)
    ensures
        m.after_u16().state.next_u64_invocations == wrapping_succ(m.state.next_u64_invocations),
        m.after_u32().state.next_u64_invocations == wrapping_succ(m.state.next_u64_invocations),
        m.after_u64().state.next_u64_invocations == wrapping_succ(m.state.next_u64_invocations),
        m.after_u128().state.next_u64_invocations == wrapping_succ(
            wrapping_succ(m.state.next_u64_invocations),
        ),
{
}

/// A 128-bit word from a mock whose next two native words are `a` and `b` is `a` in the
/// high half and `b` in the low half: `(a << 64) | b`.
pub proof fn lemma_concatenation(m: TestMock, a: u64, b: u64)
    requires
        m.peek_word() == a,
        m.after_word().peek_word() == b,
    ensures
        m.peek_u128() as nat == a as nat * 0x1_0000_0000_0000_0000 + b as nat,
{
    assert(a as nat * 0x1_0000_0000_0000_0000 + b as nat <= u128::MAX);
}

} // verus!
