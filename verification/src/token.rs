//! The verification token resource: a slot holding at most one challenge
//! solution, consumed atomically by read-then-clear.

use vstd::prelude::*;

verus! {

/// Holds at most one valid challenge-solution token.
pub struct TokenSlot {
    token: Option<Vec<char>>,
}

impl View for TokenSlot {
    type V = Option<Seq<char>>;

    closed spec fn view(&self) -> Option<Seq<char>> {
        match self.token {
            Some(t) => Some(t@),
            None => None,
        }
    }
}

/// The slot after a consume: always empty, whatever it held before.
pub open spec fn after_consume(t: Option<Seq<char>>) -> Option<Seq<char>> {
    None::<Seq<char>>
}

/// What a consume hands to its caller: exactly what the slot held.
pub open spec fn consume_grant(t: Option<Seq<char>>) -> Option<Seq<char>> {
    t
}

/// The view of an optional token value.
pub open spec fn opt_token_view(t: Option<Vec<char>>) -> Option<Seq<char>> {
    match t {
        Some(v) => Some(v@),
        None => None,
    }
}

impl TokenSlot {
    /// A fresh slot holds no token.
    pub fn new() -> (s: Self)
        ensures
            s@ is None,
    {
        TokenSlot { token: None }
    }

    pub fn is_present(&self) -> (r: bool)
        ensures
            r == (self@ is Some),
    {
        self.token.is_some()
    }

    /// The widget's solve callback: stores the token and marks it present,
    /// superseding whatever was held.
    pub fn on_solved(&mut self, t: Vec<char>)
        ensures
            final(self)@ == Some(t@),
    {
        self.token = Some(t);
    }

    /// Atomically reads and clears the slot: the caller receives the held
    /// token, or nothing when the slot was already empty; the slot is empty
    /// afterwards either way.
    pub fn consume(&mut self) -> (r: Option<Vec<char>>)
        ensures
            final(self)@ == after_consume(old(self)@),
            opt_token_view(r) == consume_grant(old(self)@),
    {
        let mut grabbed: Option<Vec<char>> = None;
        core::mem::swap(&mut grabbed, &mut self.token);
        grabbed
    }

    /// Discards any held solution; the widget is told separately to discard
    /// its own.
    pub fn reset(&mut self)
        ensures
            final(self)@ is None,
    {
        self.token = None;
    }
}

/// Single use: a consume immediately after another consume, with no solve
/// between, always finds the slot empty and grants nothing.
pub proof fn lemma_token_single_use(t: Option<Seq<char>>)
    ensures
        consume_grant(after_consume(t)) is None,
{
}

/// Exclusive grant: of two workflows that consume in sequence, with no solve
/// between, at most one can receive a token value; the other observes
/// absence.
pub proof fn lemma_no_shared_grant(t: Option<Seq<char>>)
    ensures
        !(consume_grant(t) is Some && consume_grant(after_consume(t)) is Some),
{
}

} // verus!
