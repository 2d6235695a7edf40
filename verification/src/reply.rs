//! The caller's handle on one outstanding call: a future that resolves to the
//! call's single result, decoded from the raw reply and post-processed by a
//! chain of transforms.
//!
//! One handle wraps one result cell. Chaining transforms never creates a
//! second suspension point: the chain rides on the same cell, and the cell
//! resolves exactly once.

use vstd::prelude::*;

use crate::cells::{cell_poll_v, poll_cell_spec, CellPoll, PollState, ReplyCells};
use crate::err::{err_kind_name, failed_error_name, ErrKind, Error, ErrorV};
use crate::message::{error_of_reply_spec, error_of_reply, BodyArg, Message, MessageType, MessageV};

verus! {

/// How the raw reply message is read into a typed result.
#[derive(Clone, Copy, PartialEq, Eq, Structural)]
pub enum ReadFn {
    /// Hand the raw reply message out as it is.
    Raw,
    /// Expect nothing: any successful reply reads as the unit result.
    Unit,
    /// Read the first argument as a boolean.
    Bool,
    /// Read the first argument as an unsigned number.
    U32,
    /// Read the first argument as a string.
    Str,
}

/// One post-processing step on an already-read result.
#[derive(Clone, Copy, PartialEq, Eq, Structural)]
pub enum Transform {
    /// Demand a `true` boolean and turn it into the unit result.
    RequireTrue,
    /// Flip a boolean result.
    NegateBool,
}

/// A typed result read from a reply.
pub enum ReplyValue {
    Raw(Message),
    Unit,
    Bool(bool),
    U32(u32),
    Str(String),
}

/// Mathematical model of a [`ReplyValue`].
pub enum ReplyValueV {
    Raw(MessageV),
    Unit,
    Bool(bool),
    U32(u32),
    Str(Seq<char>),
}

impl View for ReplyValue {
    type V = ReplyValueV;

    open spec fn view(&self) -> ReplyValueV {
        match self {
            ReplyValue::Raw(m) => ReplyValueV::Raw(m@),
            ReplyValue::Unit => ReplyValueV::Unit,
            ReplyValue::Bool(b) => ReplyValueV::Bool(*b),
            ReplyValue::U32(n) => ReplyValueV::U32(*n),
            ReplyValue::Str(s) => ReplyValueV::Str(s@),
        }
    }
}

/// Mathematical model of a typed reply result.
pub open spec fn typed_res_v(r: Result<ReplyValue, Error>) -> Result<ReplyValueV, ErrorV> {
    match r {
        Ok(v) => Ok(v@),
        Err(e) => Err(e@),
    }
}

/// The error surfaced when a reply's payload does not read as expected.
pub open spec fn read_error_v() -> ErrorV {
    ErrorV { name: err_kind_name(ErrKind::InvalidArgs), message: "argument type mismatch"@ }
}

/// What reading a raw reply yields: a transport failure passes through, a
/// reply of kind `Error` surfaces the typed error it carries, and anything
/// else is read as the chosen shape or fails as a type mismatch.
pub open spec fn decode_spec(rf: ReadFn, r: Result<MessageV, ErrorV>) -> Result<
    ReplyValueV,
    ErrorV,
> {
    match r {
        Err(e) => Err(e),
        Ok(m) => {
            if m.msg_type == MessageType::Error {
                Err(error_of_reply_spec(m))
            } else {
                match rf {
                    ReadFn::Raw => Ok(ReplyValueV::Raw(m)),
                    ReadFn::Unit => Ok(ReplyValueV::Unit),
                    ReadFn::Bool => if m.body.len() > 0 && m.body[0] is Bool {
                        Ok(ReplyValueV::Bool(m.body[0]->Bool_0))
                    } else {
                        Err(read_error_v())
                    },
                    ReadFn::U32 => if m.body.len() > 0 && m.body[0] is U32 {
                        Ok(ReplyValueV::U32(m.body[0]->U32_0))
                    } else {
                        Err(read_error_v())
                    },
                    ReadFn::Str => if m.body.len() > 0 && m.body[0] is Str {
                        Ok(ReplyValueV::Str(m.body[0]->Str_0))
                    } else {
                        Err(read_error_v())
                    },
                }
            }
        },
    }
}

/// The error surfaced when a transform refuses its input.
pub open spec fn transform_error_v() -> ErrorV {
    ErrorV { name: failed_error_name(), message: "unexpected result"@ }
}

/// What one transform does to a typed value.
pub open spec fn apply_transform_spec(t: Transform, v: ReplyValueV) -> Result<
    ReplyValueV,
    ErrorV,
> {
    match t {
        Transform::RequireTrue => match v {
            ReplyValueV::Bool(b) => if b {
                Ok(ReplyValueV::Unit)
            } else {
                Err(transform_error_v())
            },
            _ => Err(transform_error_v()),
        },
        Transform::NegateBool => match v {
            ReplyValueV::Bool(b) => Ok(ReplyValueV::Bool(!b)),
            _ => Err(transform_error_v()),
        },
    }
}

/// What a chain of transforms does, first registered first: an error anywhere
/// short-circuits the rest.
pub open spec fn apply_chain_spec(ts: Seq<Transform>, r: Result<ReplyValueV, ErrorV>) -> Result<
    ReplyValueV,
    ErrorV,
>
    decreases ts.len(),
{
    if ts.len() == 0 {
        r
    } else {
        let step = match r {
            Err(e) => Err(e),
            Ok(v) => apply_transform_spec(ts[0], v),
        };
        apply_chain_spec(ts.drop_first(), step)
    }
}

/// Reads a raw reply into a typed result.
pub fn decode(rf: ReadFn, r: Result<Message, Error>) -> (out: Result<ReplyValue, Error>)
    ensures
        typed_res_v(out) == decode_spec(rf, crate::cells::res_v(r)),
{
    match r {
        Err(e) => Err(e),
        Ok(m) => {
            let is_err: bool = match m.msg_type {
                MessageType::Error => true,
                _ => false,
            };
            if is_err {
                Err(error_of_reply(&m))
            } else {
                match rf {
                    ReadFn::Raw => Ok(ReplyValue::Raw(m)),
                    ReadFn::Unit => Ok(ReplyValue::Unit),
                    ReadFn::Bool => {
                        if m.body.len() > 0 {
                            match &m.body[0] {
                                BodyArg::Bool(b) => Ok(ReplyValue::Bool(*b)),
                                _ => Err(read_error()),
                            }
                        } else {
                            Err(read_error())
                        }
                    },
                    ReadFn::U32 => {
                        if m.body.len() > 0 {
                            match &m.body[0] {
                                BodyArg::U32(n) => Ok(ReplyValue::U32(*n)),
                                _ => Err(read_error()),
                            }
                        } else {
                            Err(read_error())
                        }
                    },
                    ReadFn::Str => {
                        if m.body.len() > 0 {
                            match &m.body[0] {
                                BodyArg::Str(s) => Ok(ReplyValue::Str(s.clone())),
                                _ => Err(read_error()),
                            }
                        } else {
                            Err(read_error())
                        }
                    },
                }
            }
        },
    }
}

/// Builds the type-mismatch error.
fn read_error() -> (r: Error)
    ensures
        r@ == read_error_v(),
{
    Error::new(
        "org.freedesktop.DBus.Error.InvalidArgs".to_owned(),
        "argument type mismatch".to_owned(),
    )
}

/// Applies one transform to a typed value.
pub fn apply_transform(t: Transform, v: ReplyValue) -> (out: Result<ReplyValue, Error>)
    ensures
        typed_res_v(out) == apply_transform_spec(t, v@),
{
    match t {
        Transform::RequireTrue => match v {
            ReplyValue::Bool(b) => {
                if b {
                    Ok(ReplyValue::Unit)
                } else {
                    Err(transform_error())
                }
            },
            _ => Err(transform_error()),
        },
        Transform::NegateBool => match v {
            ReplyValue::Bool(b) => Ok(ReplyValue::Bool(!b)),
            _ => Err(transform_error()),
        },
    }
}

/// Builds the refused-result error.
fn transform_error() -> (r: Error)
    ensures
        r@ == transform_error_v(),
{
    Error::new_failed("unexpected result".to_owned())
}

/// What one poll of a [`MethodReply`] yielded.
pub enum PollOutcome {
    /// The reply has not arrived; the waker token was recorded and will be
    /// woken when it does.
    Pending,
    /// The single completion of the call.
    Ready(Result<ReplyValue, Error>),
    /// The completion was already taken: a programmer error, fatal by
    /// contract, never a recoverable result.
    PolledAfterReady,
}

/// The future method reply: the caller's half of one result cell, plus how to
/// read and post-process the eventual raw result.
///
/// Dropping the handle does not cancel the underlying pending entry: a
/// completed-but-unawaited reply stays in its cell until the caller cancels
/// the call explicitly or a late reply is counted as unmatched.
pub struct MethodReply {
    /// Index of the result cell this handle polls.
    pub cell: usize,
    /// How the raw reply is read into a typed result.
    pub read: ReadFn,
    /// Post-processing steps, first registered first.
    pub transforms: Vec<Transform>,
}

/// Mathematical model of a [`MethodReply`].
#[verifier::ext_equal]
pub struct MethodReplyV {
    pub cell: usize,
    pub read: ReadFn,
    pub transforms: Seq<Transform>,
}

impl View for MethodReply {
    type V = MethodReplyV;

    open spec fn view(&self) -> MethodReplyV {
        MethodReplyV { cell: self.cell, read: self.read, transforms: self.transforms@ }
    }
}

/// The completion a resolved cell yields through this handle.
pub open spec fn completion_spec(mr: MethodReplyV, raw: Result<MessageV, ErrorV>) -> Result<
    ReplyValueV,
    ErrorV,
> {
    apply_chain_spec(mr.transforms, decode_spec(mr.read, raw))
}

impl MethodReply {
    /// Wraps a result cell with a way to read its eventual raw result.
    pub fn new(cell: usize, read: ReadFn) -> (r: MethodReply)
        ensures
            r@.cell == cell,
            r@.read == read,
            r@.transforms == Seq::<Transform>::empty(),
    {
        let r = MethodReply { cell, read, transforms: Vec::new() };
        proof {
            assert(r@.transforms =~= Seq::<Transform>::empty());
        }
        r
    }

    /// Chains one more post-processing step onto the eventual single result.
    ///
    /// The chain transforms what the one resolution yields; it rides on the
    /// same cell and creates no second suspension point.
    pub fn and_then(self, t: Transform) -> (r: MethodReply)
        ensures
            r@.cell == self@.cell,
            r@.read == self@.read,
            r@.transforms == self@.transforms.push(t),
    {
        let MethodReply { cell, read, mut transforms } = self;
        transforms.push(t);
        MethodReply { cell, read, transforms }
    }

    /// Polls for the completion with the caller's waker token.
    ///
    /// While the cell is unresolved this parks the token — overwriting any
    /// previously parked one, so only the most recent poller is notified —
    /// and yields `Pending`. The first poll after resolution yields the
    /// completion; any later poll yields the fatal `PolledAfterReady`.
    pub fn poll(&self, cells: &mut ReplyCells, waker: u64) -> (out: PollOutcome)
        requires
            self@.cell < old(cells)@.len(),
        ensures
            final(cells)@ == poll_cell_spec(old(cells)@, self@.cell as int, waker).0,
            match out {
                PollOutcome::Pending => poll_cell_spec(old(cells)@, self@.cell as int, waker).1
                    is NotReady,
                PollOutcome::Ready(res) => {
                    &&& poll_cell_spec(old(cells)@, self@.cell as int, waker).1 is Took
                    &&& typed_res_v(res) == completion_spec(
                        self@,
                        poll_cell_spec(old(cells)@, self@.cell as int, waker).1->Took_0,
                    )
                },
                PollOutcome::PolledAfterReady => poll_cell_spec(
                    old(cells)@,
                    self@.cell as int,
                    waker,
                ).1 is AfterConsumed,
            },
    {
        match cells.poll(self.cell, waker) {
            CellPoll::NotReady => PollOutcome::Pending,
            CellPoll::AfterConsumed => PollOutcome::PolledAfterReady,
            CellPoll::Took(raw) => {
                let mut acc = decode(self.read, raw);
                let n = self.transforms.len();
                let ghost ts = self.transforms@;
                let ghost start = typed_res_v(acc);
                proof {
                    assert(ts.skip(0) =~= ts);
                }
                let mut i: usize = 0;
                while i < n
                    invariant
                        n == self.transforms.len(),
                        0 <= i <= n,
                        ts == self.transforms@,
                        apply_chain_spec(ts.skip(i as int), typed_res_v(acc)) == apply_chain_spec(
                            ts,
                            start,
                        ),
                    decreases n - i,
                {
                    let ghost before = typed_res_v(acc);
                    acc = match acc {
                        Ok(v) => apply_transform(self.transforms[i], v),
                        Err(e) => Err(e),
                    };
                    proof {
                        assert(ts.skip(i as int).drop_first() =~= ts.skip(i as int + 1));
                        assert(ts.skip(i as int)[0] == ts[i as int]);
                    }
                    i = i + 1;
                }
                proof {
                    assert(ts.skip(n as int) =~= Seq::<Transform>::empty());
                }
                PollOutcome::Ready(acc)
            },
        }
    }
}

} // verus!
