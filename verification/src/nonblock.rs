//! The two concurrency flavors of a connection and the traits they share.
//!
//! [`LocalConnection`] is thread-confined: one logical owner, handler shapes
//! need not be shareable across threads. [`SyncConnection`] is thread-shared:
//! everything it stores must be safely invocable from whichever thread drives
//! dispatch. Both implement the same verified contract over the same model;
//! the flavor difference is a setup-time discipline of the dispatch
//! framework, not a difference in what the engine promises.

use vstd::prelude::*;

use crate::cells::{CellV, OnReply};
use crate::channel::Channel;
use crate::connection::{
    call_with_reply_spec, cancel_reply_spec, conn_wf, drops_spec, fresh_conn, on_reply_ok,
    process_all_spec, process_one_spec, send_conn_spec, send_with_reply_spec, stop_receive_spec,
    ConnState, ConnV,
};
use crate::err::SendError;
use crate::filters::{FilterV, SignalHandler};
use crate::message::Message;
use crate::reply::{MethodReply, ReadFn};
use crate::rule::MatchRule;

verus! {

/// Read access to the connection model that the shared contracts speak of.
pub trait HasConn {
    /// The mathematical model of this connection.
    spec fn conn(&self) -> ConnV;

    /// The connection's invariant: representation and model well-formed.
    spec fn inv(&self) -> bool;

    /// The invariant subsumes well-formedness of the model.
    proof fn inv_implies_wf(&self)
        requires
            self.inv(),
        ensures
            conn_wf(self.conn()),
    ;
}

/// The async reply half of a connection: sending calls whose replies resolve
/// result cells, and cancelling them.
pub trait NonblockReply: HasConn {
    /// Sends a message and, on success, tables `f` under the assigned serial,
    /// to be invoked by the dispatch loop when the reply arrives. On
    /// transport failure nothing is tabled.
    fn send_with_reply(&mut self, msg: Message, f: OnReply) -> (r: Result<u32, SendError>)
        requires
            old(self).inv(),
            on_reply_ok(f, old(self).conn().cells.len()),
        ensures
            final(self).inv(),
            final(self).conn() == send_with_reply_spec(old(self).conn(), msg@, f).0,
            r == send_with_reply_spec(old(self).conn(), msg@, f).1,
    ;

    /// Removes and returns a pending reply action without invoking it; safe
    /// whether or not a reply ever arrives, and idempotent.
    fn cancel_reply(&mut self, id: u32) -> (r: Option<OnReply>)
        requires
            old(self).inv(),
        ensures
            final(self).inv(),
            final(self).conn() == cancel_reply_spec(old(self).conn(), id),
            match r {
                Some(f) => old(self).conn().replies.contains_key(id) && f == old(
                    self,
                ).conn().replies[id].on_reply,
                None => !old(self).conn().replies.contains_key(id),
            },
    ;

    /// Hands out a fresh result cell for a call about to be issued.
    fn new_reply_cell(&mut self) -> (idx: usize)
        requires
            old(self).inv(),
        ensures
            final(self).inv(),
            idx == old(self).conn().cells.len(),
            final(self).conn() == (ConnV {
                cells: old(self).conn().cells.push(CellV::Empty),
                ..old(self).conn()
            }),
    ;

    /// Issues a call whose reply will resolve a fresh cell and returns the
    /// caller's handle on it; a failed send resolves the handle at once to
    /// the send failure.
    fn call_with_reply(&mut self, msg: Message, read: ReadFn) -> (mr: MethodReply)
        requires
            old(self).inv(),
        ensures
            final(self).inv(),
            final(self).conn() == call_with_reply_spec(old(self).conn(), msg@, read).0,
            mr@ == call_with_reply_spec(old(self).conn(), msg@, read).1,
            mr@.cell < final(self).conn().cells.len(),
    ;

    /// Builds the reply action that resolves a cell: the one callback shape
    /// the engine stores.
    fn make_f(cell: usize) -> (f: OnReply)
        ensures
            f == (OnReply::Resolve { cell }),
    {
        OnReply::Resolve { cell }
    }
}

/// The dispatch half of a connection: the single-pump loop that drains the
/// channel and routes each inbound message.
pub trait Process: HasConn {
    /// Dispatches one inbound message, as
    /// [`process_one_spec`](crate::connection::process_one_spec) says.
    fn process_one(&mut self, msg: Message)
        requires
            old(self).inv(),
        ensures
            final(self).inv(),
            final(self).conn() == process_one_spec(old(self).conn(), msg@),
    ;

    /// Takes the oldest message waiting inbound, if any.
    fn pop_message(&mut self) -> (r: Option<Message>)
        requires
            old(self).inv(),
        ensures
            final(self).inv(),
            match r {
                Some(m) => old(self).conn().channel.inbound.len() > 0 && m@ == old(
                    self,
                ).conn().channel.inbound[0] && final(self).conn() == (ConnV {
                    channel: crate::channel::ChannelV {
                        inbound: old(self).conn().channel.inbound.drop_first(),
                        ..old(self).conn().channel
                    },
                    ..old(self).conn()
                }),
                None => old(self).conn().channel.inbound.len() == 0 && final(self).conn() == old(
                    self,
                ).conn(),
            },
    ;

    /// Dispatches all inbound messages, oldest first, without blocking, until
    /// none remain.
    ///
    /// Single-pump: despite being reentrant-looking, it is a logic error to
    /// drive this recursively or from more than one thread at a time.
    fn process_all(&mut self)
        requires
            old(self).inv(),
        ensures
            final(self).inv(),
            final(self).conn() == process_all_spec(old(self).conn()),
    {
        loop
            invariant
                self.inv(),
                process_all_spec(self.conn()) == process_all_spec(old(self).conn()),
            decreases self.conn().channel.inbound.len(),
        {
            proof {
                self.inv_implies_wf();
            }
            let ghost at_entry = self.conn();
            let popped = self.pop_message();
            match popped {
                Some(msg) => {
                    proof {
                        self.inv_implies_wf();
                        crate::connection::lemma_process_one_wf(self.conn(), msg@);
                        crate::connection::lemma_process_one_inbound(self.conn(), msg@);
                        assert(process_all_spec(at_entry) == process_all_spec(
                            process_one_spec(self.conn(), msg@),
                        ));
                    }
                    self.process_one(msg);
                },
                None => {
                    proof {
                        assert(process_all_spec(self.conn()) == self.conn());
                    }
                    return ;
                },
            }
        }
    }

    /// Parks the reactor's suspension handle used by `send` to schedule a
    /// transport write, replacing any previous one.
    fn set_waker(&mut self, waker: u64)
        requires
            old(self).inv(),
        ensures
            final(self).inv(),
            final(self).conn() == (ConnV { waker: Some(waker), ..old(self).conn() }),
    ;

    /// Polls every queued best-effort cleanup once, dropping finished ones.
    fn drops(&mut self, waker: u64)
        requires
            old(self).inv(),
        ensures
            final(self).inv(),
            final(self).conn() == (ConnV {
                cells: drops_spec(old(self).conn().cells, old(self).conn().cleanup, waker).0,
                cleanup: drops_spec(old(self).conn().cells, old(self).conn().cleanup, waker).1,
                ..old(self).conn()
            }),
    ;
}

/// Thread-confined async connection: one logical owner, no internal locking,
/// handler shapes need not be shareable across threads.
pub struct LocalConnection {
    pub state: ConnState,
}

/// Thread-shared async connection: safely drivable from whichever thread
/// pumps dispatch; everything it stores must be shareable.
pub struct SyncConnection {
    pub state: ConnState,
}

impl View for LocalConnection {
    type V = ConnV;

    open spec fn view(&self) -> ConnV {
        self.state@
    }
}

impl View for SyncConnection {
    type V = ConnV;

    open spec fn view(&self) -> ConnV {
        self.state@
    }
}

impl From<Channel> for LocalConnection {
    /// Wraps a channel in a fresh thread-confined connection.
    fn from(x: Channel) -> (r: LocalConnection) {
        LocalConnection { state: ConnState::from_channel(x) }
    }
}

impl vstd::std_specs::convert::FromSpecImpl<Channel> for LocalConnection {
    open spec fn obeys_from_spec() -> bool {
        false
    }

    open spec fn from_spec(x: Channel) -> LocalConnection {
        vstd::pervasive::arbitrary()
    }
}

impl From<Channel> for SyncConnection {
    /// Wraps a channel in a fresh thread-shared connection.
    fn from(x: Channel) -> (r: SyncConnection) {
        SyncConnection { state: ConnState::from_channel(x) }
    }
}

impl vstd::std_specs::convert::FromSpecImpl<Channel> for SyncConnection {
    open spec fn obeys_from_spec() -> bool {
        false
    }

    open spec fn from_spec(x: Channel) -> SyncConnection {
        vstd::pervasive::arbitrary()
    }
}

impl HasConn for LocalConnection {
    open spec fn conn(&self) -> ConnV {
        self.state@
    }

    open spec fn inv(&self) -> bool {
        self.state.wf()
    }

    proof fn inv_implies_wf(&self) {
    }
}

impl HasConn for SyncConnection {
    open spec fn conn(&self) -> ConnV {
        self.state@
    }

    open spec fn inv(&self) -> bool {
        self.state.wf()
    }

    proof fn inv_implies_wf(&self) {
    }
}

impl NonblockReply for LocalConnection {
    fn send_with_reply(&mut self, msg: Message, f: OnReply) -> (r: Result<u32, SendError>) {
        self.state.send_with_reply(msg, f)
    }

    fn cancel_reply(&mut self, id: u32) -> (r: Option<OnReply>) {
        self.state.cancel_reply(id)
    }

    fn new_reply_cell(&mut self) -> (idx: usize) {
        self.state.new_reply_cell()
    }

    fn call_with_reply(&mut self, msg: Message, read: ReadFn) -> (mr: MethodReply) {
        self.state.call_with_reply(msg, read)
    }
}

impl NonblockReply for SyncConnection {
    fn send_with_reply(&mut self, msg: Message, f: OnReply) -> (r: Result<u32, SendError>) {
        self.state.send_with_reply(msg, f)
    }

    fn cancel_reply(&mut self, id: u32) -> (r: Option<OnReply>) {
        self.state.cancel_reply(id)
    }

    fn new_reply_cell(&mut self) -> (idx: usize) {
        self.state.new_reply_cell()
    }

    fn call_with_reply(&mut self, msg: Message, read: ReadFn) -> (mr: MethodReply) {
        self.state.call_with_reply(msg, read)
    }
}

impl Process for LocalConnection {
    fn process_one(&mut self, msg: Message) {
        self.state.process_one(msg)
    }

    fn pop_message(&mut self) -> (r: Option<Message>) {
        self.state.channel.pop_message()
    }

    fn set_waker(&mut self, waker: u64) {
        self.state.set_waker(waker)
    }

    fn drops(&mut self, waker: u64) {
        self.state.drops(waker)
    }
}

impl Process for SyncConnection {
    fn process_one(&mut self, msg: Message) {
        self.state.process_one(msg)
    }

    fn pop_message(&mut self) -> (r: Option<Message>) {
        self.state.channel.pop_message()
    }

    fn set_waker(&mut self, waker: u64) {
        self.state.set_waker(waker)
    }

    fn drops(&mut self, waker: u64) {
        self.state.drops(waker)
    }
}

impl LocalConnection {
    /// Wraps a channel in a fresh thread-confined connection: empty tables,
    /// no waker, subscription ids from one.
    pub fn from_channel(channel: Channel) -> (r: LocalConnection)
        ensures
            r@ == fresh_conn(channel@),
            r.inv(),
    {
        LocalConnection { state: ConnState::from_channel(channel) }
    }

    /// Sends a message, waking any parked reactor.
    pub fn send(&mut self, msg: Message) -> (r: Result<u32, SendError>)
        requires
            old(self).inv(),
        ensures
            final(self).inv(),
            final(self)@ == send_conn_spec(old(self)@, msg@).0,
            r == send_conn_spec(old(self)@, msg@).1,
    {
        self.state.send(msg)
    }

    /// Registers a signal subscription; ids run one, two, three, … per fresh
    /// connection and are never reused.
    pub fn start_receive(&mut self, rule: MatchRule, handler: SignalHandler) -> (id: u32)
        requires
            old(self).inv(),
            old(self)@.filter_nextid < u32::MAX,
        ensures
            final(self).inv(),
            id == old(self)@.filter_nextid,
            final(self)@ == (ConnV {
                filters: old(self)@.filters.push(FilterV { id: id, rule: rule@, handler: handler }),
                filter_nextid: (old(self)@.filter_nextid + 1) as u32,
                ..old(self)@
            }),
    {
        self.state.start_receive(rule, handler)
    }

    /// Stops a subscription, returning exactly the registered pair, and
    /// queues one best-effort remote unregistration.
    pub fn stop_receive(&mut self, id: u32) -> (r: Option<(MatchRule, SignalHandler)>)
        requires
            old(self).inv(),
        ensures
            final(self).inv(),
            final(self)@ == stop_receive_spec(old(self)@, id).0,
            match r {
                Some(p) => stop_receive_spec(old(self)@, id).1 == Some((p.0@, p.1)),
                None => stop_receive_spec(old(self)@, id).1 is None,
            },
    {
        self.state.stop_receive(id)
    }

    /// Takes the waker tokens owed a wake, for the reactor to fire.
    pub fn take_woken(&mut self) -> (r: Vec<u64>)
        requires
            old(self).inv(),
        ensures
            final(self).inv(),
            r@ == old(self)@.woken,
            final(self)@ == (ConnV { woken: Seq::<u64>::empty(), ..old(self)@ }),
    {
        self.state.take_woken()
    }
}

impl SyncConnection {
    /// Wraps a channel in a fresh thread-shared connection: empty tables,
    /// no waker, subscription ids from one.
    pub fn from_channel(channel: Channel) -> (r: SyncConnection)
        ensures
            r@ == fresh_conn(channel@),
            r.inv(),
    {
        SyncConnection { state: ConnState::from_channel(channel) }
    }

    /// Sends a message, waking any parked reactor.
    pub fn send(&mut self, msg: Message) -> (r: Result<u32, SendError>)
        requires
            old(self).inv(),
        ensures
            final(self).inv(),
            final(self)@ == send_conn_spec(old(self)@, msg@).0,
            r == send_conn_spec(old(self)@, msg@).1,
    {
        self.state.send(msg)
    }

    /// Registers a signal subscription; ids run one, two, three, … per fresh
    /// connection and are never reused.
    pub fn start_receive(&mut self, rule: MatchRule, handler: SignalHandler) -> (id: u32)
        requires
            old(self).inv(),
            old(self)@.filter_nextid < u32::MAX,
        ensures
            final(self).inv(),
            id == old(self)@.filter_nextid,
            final(self)@ == (ConnV {
                filters: old(self)@.filters.push(FilterV { id: id, rule: rule@, handler: handler }),
                filter_nextid: (old(self)@.filter_nextid + 1) as u32,
                ..old(self)@
            }),
    {
        self.state.start_receive(rule, handler)
    }

    /// Stops a subscription, returning exactly the registered pair, and
    /// queues one best-effort remote unregistration.
    pub fn stop_receive(&mut self, id: u32) -> (r: Option<(MatchRule, SignalHandler)>)
        requires
            old(self).inv(),
        ensures
            final(self).inv(),
            final(self)@ == stop_receive_spec(old(self)@, id).0,
            match r {
                Some(p) => stop_receive_spec(old(self)@, id).1 == Some((p.0@, p.1)),
                None => stop_receive_spec(old(self)@, id).1 is None,
            },
    {
        self.state.stop_receive(id)
    }

    /// Takes the waker tokens owed a wake, for the reactor to fire.
    pub fn take_woken(&mut self) -> (r: Vec<u64>)
        requires
            old(self).inv(),
        ensures
            final(self).inv(),
            r@ == old(self)@.woken,
            final(self)@ == (ConnV { woken: Seq::<u64>::empty(), ..old(self)@ }),
    {
        self.state.take_woken()
    }
}

} // verus!
