//! The result cells behind pending replies.
//!
//! A cell is the rendezvous between the caller, who polls, and the dispatch
//! loop, who resolves: `Empty` until someone polls, `Pending(waker)` while a
//! poller waits, `Ready(result)` once the reply arrived, and `Consumed` after
//! the poller took the result. The caller and the loop share a cell by its
//! index into the connection's cell store.

use vstd::prelude::*;

use crate::err::{Error, ErrorV};
use crate::message::{Message, MessageV};

verus! {

/// What to do with a reply once its serial matches a pending entry.
#[derive(Clone, Copy, PartialEq, Eq, Structural)]
pub enum OnReply {
    /// Store the reply in the result cell at this index and wake its poller.
    Resolve { cell: usize },
    /// Drop the reply: the caller asked for one but reads no result.
    Discard,
}

/// One result cell, in one of its four states.
pub enum ReplyCell {
    /// No result yet, nobody waiting.
    Empty,
    /// No result yet; the holder of this waker token waits for one.
    Pending(u64),
    /// The result arrived and has not been taken.
    Ready(Result<Message, Error>),
    /// The result was taken; polling again is a programmer error.
    Consumed,
}

/// Mathematical model of a [`ReplyCell`].
pub enum CellV {
    Empty,
    Pending(u64),
    Ready(Result<MessageV, ErrorV>),
    Consumed,
}

impl View for ReplyCell {
    type V = CellV;

    open spec fn view(&self) -> CellV {
        match self {
            ReplyCell::Empty => CellV::Empty,
            ReplyCell::Pending(w) => CellV::Pending(*w),
            ReplyCell::Ready(Ok(m)) => CellV::Ready(Ok(m@)),
            ReplyCell::Ready(Err(e)) => CellV::Ready(Err(e@)),
            ReplyCell::Consumed => CellV::Consumed,
        }
    }
}

impl DeepView for ReplyCell {
    type V = CellV;

    open spec fn deep_view(&self) -> CellV {
        self@
    }
}

/// The connection's store of result cells, shared by index.
pub struct ReplyCells {
    pub cells: Vec<ReplyCell>,
}

impl View for ReplyCells {
    type V = Seq<CellV>;

    open spec fn view(&self) -> Seq<CellV> {
        self.cells.deep_view()
    }
}

/// What resolving does: the cell is overwritten with the arrived result, and
/// whoever was waiting on it — at most one poller — is owed exactly one wake.
pub open spec fn resolve_spec(cells: Seq<CellV>, idx: int, res: Result<MessageV, ErrorV>) -> (
    Seq<CellV>,
    Option<u64>,
) {
    (
        cells.update(idx, CellV::Ready(res)),
        match cells[idx] {
            CellV::Pending(w) => Some(w),
            _ => None,
        },
    )
}

/// What polling does: an unresolved cell records the poller's waker token —
/// only the most recent poller is notified — a ready cell hands the result
/// out exactly once, and a consumed cell answers nothing at all.
pub open spec fn poll_cell_spec(cells: Seq<CellV>, idx: int, waker: u64) -> (
    Seq<CellV>,
    PollState,
) {
    match cells[idx] {
        CellV::Empty => (cells.update(idx, CellV::Pending(waker)), PollState::NotReady),
        CellV::Pending(_) => (cells.update(idx, CellV::Pending(waker)), PollState::NotReady),
        CellV::Ready(res) => (cells.update(idx, CellV::Consumed), PollState::Took(res)),
        CellV::Consumed => (cells, PollState::AfterConsumed),
    }
}

/// What one poll of a cell yielded.
pub enum PollState {
    /// No result yet; the waker token was recorded.
    NotReady,
    /// The result, handed out exactly once.
    Took(Result<MessageV, ErrorV>),
    /// The cell had already handed its result out.
    AfterConsumed,
}

impl ReplyCells {
    /// A store with no cells yet.
    pub fn new() -> (r: ReplyCells)
        ensures
            r@ == Seq::<CellV>::empty(),
    {
        let r = ReplyCells { cells: Vec::new() };
        proof {
            assert(r@ =~= Seq::<CellV>::empty());
        }
        r
    }

    /// How many cells were ever handed out.
    pub fn len(&self) -> (r: usize)
        ensures
            r == self@.len(),
    {
        self.cells.len()
    }

    /// Hands out a fresh, empty cell and returns its index.
    pub fn new_cell(&mut self) -> (idx: usize)
        ensures
            idx == old(self)@.len(),
            final(self)@ == old(self)@.push(CellV::Empty),
    {
        let idx = self.cells.len();
        self.cells.push(ReplyCell::Empty);
        proof {
            assert(self@ =~= old(self)@.push(CellV::Empty));
        }
        idx
    }

    /// Stores an arrived result in a cell and returns the waker token owed a
    /// wake, if a poller was waiting.
    pub fn resolve(&mut self, idx: usize, res: Result<Message, Error>) -> (woke: Option<u64>)
        requires
            idx < old(self)@.len(),
        ensures
            final(self)@ == resolve_spec(old(self)@, idx as int, res_v(res)).0,
            woke == resolve_spec(old(self)@, idx as int, res_v(res)).1,
    {
        let woke = match &self.cells[idx] {
            ReplyCell::Pending(w) => Some(*w),
            _ => None,
        };
        let resv = match res {
            Ok(m) => ReplyCell::Ready(Ok(m)),
            Err(e) => ReplyCell::Ready(Err(e)),
        };
        self.cells.set(idx, resv);
        proof {
            assert(self@ =~= old(self)@.update(idx as int, CellV::Ready(res_v(res))));
        }
        woke
    }

    /// Polls a cell with the poller's waker token.
    pub fn poll(&mut self, idx: usize, waker: u64) -> (r: CellPoll)
        requires
            idx < old(self)@.len(),
        ensures
            final(self)@ == poll_cell_spec(old(self)@, idx as int, waker).0,
            cell_poll_v(r) == poll_cell_spec(old(self)@, idx as int, waker).1,
    {
        let taken: bool = match &self.cells[idx] {
            ReplyCell::Ready(_) => true,
            _ => false,
        };
        if taken {
            let mut out = ReplyCell::Consumed;
            let slot = &mut self.cells[idx];
            core::mem::swap(&mut out, slot);
            proof {
                assert(self@ =~= old(self)@.update(idx as int, CellV::Consumed));
            }
            match out {
                ReplyCell::Ready(res) => CellPoll::Took(res),
                _ => CellPoll::AfterConsumed,
            }
        } else {
            match &self.cells[idx] {
                ReplyCell::Consumed => CellPoll::AfterConsumed,
                _ => {
                    self.cells.set(idx, ReplyCell::Pending(waker));
                    proof {
                        assert(self@ =~= old(self)@.update(idx as int, CellV::Pending(waker)));
                    }
                    CellPoll::NotReady
                },
            }
        }
    }
}

/// What one poll of a cell yielded, with the result carried out by value.
pub enum CellPoll {
    NotReady,
    Took(Result<Message, Error>),
    AfterConsumed,
}

/// Mathematical model of a [`CellPoll`].
pub open spec fn cell_poll_v(r: CellPoll) -> PollState {
    match r {
        CellPoll::NotReady => PollState::NotReady,
        CellPoll::Took(res) => PollState::Took(res_v(res)),
        CellPoll::AfterConsumed => PollState::AfterConsumed,
    }
}

/// Mathematical model of a raw reply result.
pub open spec fn res_v(r: Result<Message, Error>) -> Result<MessageV, ErrorV> {
    match r {
        Ok(m) => Ok(m@),
        Err(e) => Err(e@),
    }
}

} // verus!
