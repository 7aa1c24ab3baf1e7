//! The emission cursor: where a session stands in the output of the native
//! call that it made last.

use vstd::prelude::*;

verus! {

/// The value that the native iterator starts from.
pub const START_SENTINEL: usize = 0;

/// Where a session stands in the output of its last submission.
#[derive(Clone, Copy, Debug, PartialEq, Eq, Structural)]
pub enum Cursor {
    /// Nothing was retrieved since the last submission.
    Start,
    /// Output was retrieved; the native iterator stands at this value.
    Advanced(usize),
    /// The native codec reported that no output is left.
    Exhausted,
}

impl Cursor {
    /// The iterator value to hand to the native retrieval call, or `None`
    /// where no call is to be made because the output is exhausted.
    pub open spec fn token(self) -> Option<usize> {
        match self {
            Cursor::Start => Some(START_SENTINEL),
            Cursor::Advanced(at) => Some(at),
            Cursor::Exhausted => None,
        }
    }

    /// Whether a retrieval at this cursor hands out output, given whether
    /// the native codec emitted any.
    pub open spec fn yields(self, emitted: bool) -> bool {
        emitted && self != Cursor::Exhausted
    }

    /// The cursor after a retrieval: exhausted once the native codec emitted
    /// nothing, and at the value that the native iterator was left at
    /// otherwise. An exhausted cursor stays exhausted.
    pub open spec fn step(self, emitted: Option<usize>) -> Cursor {
        match (self, emitted) {
            (Cursor::Exhausted, _) => Cursor::Exhausted,
            (_, None) => Cursor::Exhausted,
            (_, Some(at)) => Cursor::Advanced(at),
        }
    }

    /// The iterator value to hand to the native retrieval call, or `None`
    /// where no call is to be made because the output is exhausted.
    pub fn native_token(&self) -> (r: Option<usize>)
        ensures
            r == self.token(),
            r is None <==> *self == Cursor::Exhausted,
    {
        match self {
            Cursor::Start => Some(START_SENTINEL),
            Cursor::Advanced(at) => Some(*at),
            Cursor::Exhausted => None,
        }
    }

    /// Moves the cursor over one retrieval and says whether that retrieval
    /// hands out output.
    pub fn advance(&mut self, emitted: Option<usize>) -> (r: bool)
        ensures
            *final(self) == old(self).step(emitted),
            r == old(self).yields(emitted is Some),
    {
        match (*self, emitted) {
            (Cursor::Exhausted, _) => false,
            (_, None) => {
                *self = Cursor::Exhausted;
                false
            },
            (_, Some(at)) => {
                *self = Cursor::Advanced(at);
                true
            },
        }
    }
}

/// Once a retrieval handed out nothing, the next one hands out nothing
/// either, whatever the native codec is said to emit, and so does every one
/// after it until the cursor is set back to the start.
pub proof fn lemma_exhausted_stays_empty(cursor: Cursor, first: Option<usize>, second: Option<usize>)
    requires
        !cursor.yields(first is Some),
    ensures
        cursor.step(first) == Cursor::Exhausted,
        !cursor.step(first).yields(second is Some),
        cursor.step(first).step(second) == Cursor::Exhausted,
        cursor.step(first).token() is None,
{
}

/// A retrieval at the start of a submission's output hands out exactly what
/// the native codec emits.
pub proof fn lemma_start_follows_native(emitted: Option<usize>)
    ensures
        Cursor::Start.yields(emitted is Some) == (emitted is Some),
        Cursor::Start.token() == Some(START_SENTINEL),
{
}

} // verus!
