//! Ping-pong (double-buffer) state shared by every stage of a streaming pipeline.

use vstd::prelude::*;

verus! {

/// Which of the two buffers of a ping-pong pair is read and which is written.
///
/// A single controller holds this state and hands it to every stage; after each
/// stage (or tick) the controller toggles it, so that the next stage reads what
/// the previous one wrote.
#[derive(Debug, Clone, Copy, PartialEq, Eq, Structural)]
pub enum PingPongState {
    /// Read from buffer A (index 0), write to buffer B (index 1).
    Read0Write1,
    /// Read from buffer B (index 1), write to buffer A (index 0).
    Read1Write0,
}

impl PingPongState {
    /// The index of the buffer that is read in this state.
    pub open spec fn spec_read_index(self) -> nat {
        match self {
            PingPongState::Read0Write1 => 0,
            PingPongState::Read1Write0 => 1,
        }
    }

    /// The index of the buffer that is written in this state.
    pub open spec fn spec_write_index(self) -> nat {
        match self {
            PingPongState::Read0Write1 => 1,
            PingPongState::Read1Write0 => 0,
        }
    }

    /// The state that follows this one.
    pub open spec fn spec_toggled(self) -> PingPongState {
        match self {
            PingPongState::Read0Write1 => PingPongState::Read1Write0,
            PingPongState::Read1Write0 => PingPongState::Read0Write1,
        }
    }

    /// Toggle the ping-pong state for the next stage.
    #[inline]
    pub fn toggle(&mut self)
        ensures
            *final(self) == old(self).spec_toggled(),
    {
        *self = match *self {
            PingPongState::Read0Write1 => PingPongState::Read1Write0,
            PingPongState::Read1Write0 => PingPongState::Read0Write1,
        };
    }

    /// Get the read buffer index (0 or 1).
    #[inline]
    pub fn read_index(&self) -> (r: usize)
        ensures
            r == self.spec_read_index(),
    {
        match self {
            PingPongState::Read0Write1 => 0,
            PingPongState::Read1Write0 => 1,
        }
    }

    /// Get the write buffer index (0 or 1).
    #[inline]
    pub fn write_index(&self) -> (r: usize)
        ensures
            r == self.spec_write_index(),
    {
        match self {
            PingPongState::Read0Write1 => 1,
            PingPongState::Read1Write0 => 0,
        }
    }

    /// Given a pair of buffers, return the (read, write) buffers of this state.
    #[inline]
    pub fn buffers<'a, B>(&self, pair: &'a [B; 2]) -> (r: (&'a B, &'a B))
        ensures
            *r.0 == pair@[self.spec_read_index() as int],
            *r.1 == pair@[self.spec_write_index() as int],
    {
        match self {
            PingPongState::Read0Write1 => (&pair[0], &pair[1]),
            PingPongState::Read1Write0 => (&pair[1], &pair[0]),
        }
    }
}

impl Default for PingPongState {
    fn default() -> (r: Self)
        ensures
            r == PingPongState::Read0Write1,
    {
        PingPongState::Read0Write1
    }
}

/// Toggling twice gives back the state one started from.
pub proof fn lemma_toggle_involution(s: PingPongState)
    ensures
        s.spec_toggled().spec_toggled() == s,
{
}

/// In every state the read and write indices are the two distinct indices 0 and 1.
pub proof fn lemma_read_write_distinct(s: PingPongState)
    ensures
        s.spec_read_index() != s.spec_write_index(),
        s.spec_read_index() + s.spec_write_index() == 1,
{
}

/// Toggling swaps the roles: the buffer that was written is read next, and vice versa.
pub proof fn lemma_toggle_swaps_roles(s: PingPongState)
    ensures
        s.spec_toggled().spec_read_index() == s.spec_write_index(),
        s.spec_toggled().spec_write_index() == s.spec_read_index(),
{
}

/// A pair of buffers used for ping-pong processing; all stages share the pair and use
/// a [`PingPongState`] to agree on which one is read and which one is written.
#[derive(Debug)]
pub struct PingPongBuffers<B> {
    /// The two buffers in the ping-pong pair.
    pub buffers: [B; 2],
}

impl<B> PingPongBuffers<B> {
    /// Get the (read, write) buffer references for the given state.
    pub fn get(&self, state: PingPongState) -> (r: (&B, &B))
        ensures
            *r.0 == self.buffers@[state.spec_read_index() as int],
            *r.1 == self.buffers@[state.spec_write_index() as int],
    {
        state.buffers(&self.buffers)
    }

    /// Get the buffer at `index` (0 or 1).
    pub fn get_by_index(&self, index: usize) -> (r: &B)
        requires
            index < 2,
        ensures
            *r == self.buffers@[index as int],
    {
        &self.buffers[index]
    }
}

} // verus!
