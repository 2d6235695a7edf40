//! The connection: one bus session owning the channel, the pending-reply
//! table, the filter table, the waker slot and the result cells, plus the
//! dispatch loop that routes every inbound message to a pending reply, a
//! matching filter, or a default responder.
//!
//! Two flavors share this state and its contract: [`LocalConnection`] for a
//! thread-confined owner and [`SyncConnection`] for a thread-shared one. The
//! verified model is the same; the flavors differ only in what their handler
//! shapes may capture, which is a setup-time contract of the dispatch
//! framework.

use vstd::prelude::*;

use crate::cells::{resolve_spec, CellV, OnReply, ReplyCells};
use crate::channel::{send_spec, Channel, ChannelV};
use crate::err::{failed_error_name, Error, ErrorV, SendError};
use crate::filters::{
    first_match, ids_below, ids_sorted, run_handler, run_handler_spec, Filter, FilterTable,
    FilterV, SignalHandler,
};
use crate::message::{default_reply, default_reply_spec, BodyArg, Message, MessageV};
use crate::reply::{MethodReply, MethodReplyV, ReadFn, Transform};
use crate::rule::{match_str_spec, MatchRule, MatchRuleV};
use crate::table::{PendingReply, PendingReplyV, ReplyTable};

verus! {

/// One queued best-effort cleanup: the serialized rule that was unregistered
/// remotely, and the in-flight reply of the unregister call.
pub struct CleanupEntry {
    pub match_str: String,
    pub reply: MethodReply,
}

/// Mathematical model of a [`CleanupEntry`].
#[verifier::ext_equal]
pub struct CleanupV {
    pub match_str: Seq<char>,
    pub reply: MethodReplyV,
}

impl View for CleanupEntry {
    type V = CleanupV;

    open spec fn view(&self) -> CleanupV {
        CleanupV { match_str: self.match_str@, reply: self.reply@ }
    }
}

impl DeepView for CleanupEntry {
    type V = CleanupV;

    open spec fn deep_view(&self) -> CleanupV {
        self@
    }
}

/// Mathematical model of a connection: everything one bus session owns.
#[verifier::ext_equal]
pub struct ConnV {
    pub channel: ChannelV,
    /// At most one pending suspension handle of the external reactor.
    pub waker: Option<u64>,
    /// Serial → outstanding call; a serial is present at most once.
    pub replies: Map<u32, PendingReplyV>,
    /// Subscriptions in registration order.
    pub filters: Seq<FilterV>,
    /// The next subscription id; ids start at one and are never reused.
    pub filter_nextid: u32,
    /// The result cells, shared with the callers' reply handles.
    pub cells: Seq<CellV>,
    /// Waker tokens owed a wake, oldest first, for the reactor to fire.
    pub woken: Seq<u64>,
    /// Best-effort remote-unregister calls still in flight.
    pub cleanup: Seq<CleanupV>,
    /// How many replies arrived with no pending entry and were dropped.
    pub unmatched: u64,
}

/// Whether a reply action only points at existing result cells.
pub open spec fn on_reply_ok(f: OnReply, n_cells: nat) -> bool {
    match f {
        OnReply::Resolve { cell } => cell < n_cells,
        OnReply::Discard => true,
    }
}

/// Well-formedness of a connection model: live serials are below the
/// channel's counter (so they are never reused), subscription ids increase in
/// registration order and stay below the next id, and every stored reply
/// action points at an existing cell.
pub open spec fn conn_wf(c: ConnV) -> bool {
    &&& forall|k: u32| c.replies.contains_key(k) ==> k < c.channel.next_serial
    &&& forall|k: u32|
        c.replies.contains_key(k) ==> on_reply_ok(#[trigger] c.replies[k].on_reply, c.cells.len())
    &&& ids_sorted(c.filters)
    &&& ids_below(c.filters, c.filter_nextid)
    &&& c.filter_nextid >= 1
    &&& forall|i: int| 0 <= i < c.cleanup.len() ==> #[trigger] c.cleanup[i].reply.cell < c.cells.len()
}

/// A fresh connection around a channel: empty tables, no waker, ids from one.
pub open spec fn fresh_conn(ch: ChannelV) -> ConnV {
    ConnV {
        channel: ch,
        waker: None,
        replies: Map::<u32, PendingReplyV>::empty(),
        filters: Seq::<FilterV>::empty(),
        filter_nextid: 1u32,
        cells: Seq::<CellV>::empty(),
        woken: Seq::<u64>::empty(),
        cleanup: Seq::<CleanupV>::empty(),
        unmatched: 0u64,
    }
}

/// What firing the waker slot does: the parked token, if any, moves to the
/// owed-wakes queue, exactly once.
pub open spec fn wake_all(c: ConnV) -> ConnV {
    match c.waker {
        Some(w) => ConnV { waker: None, woken: c.woken.push(w), ..c },
        None => c,
    }
}

/// What a plain send does: the channel transition, then a wake so a suspended
/// reactor re-checks transport writability.
pub open spec fn send_conn_spec(c: ConnV, m: MessageV) -> (ConnV, Result<u32, SendError>) {
    let (ch, r) = send_spec(c.channel, m);
    (wake_all(ConnV { channel: ch, ..c }), r)
}

/// What sending with a reply expectation does: on success the stamped request
/// and its reply action are tabled under the fresh serial; on failure nothing
/// is tabled. Either way any parked waker is woken.
pub open spec fn send_with_reply_spec(c: ConnV, m: MessageV, f: OnReply) -> (
    ConnV,
    Result<u32, SendError>,
) {
    let (ch, r) = send_spec(c.channel, m);
    match r {
        Ok(serial) => (
            wake_all(
                ConnV {
                    channel: ch,
                    replies: c.replies.insert(
                        serial,
                        PendingReplyV {
                            request: MessageV { serial: serial, ..m },
                            on_reply: f,
                        },
                    ),
                    ..c
                },
            ),
            Ok(serial),
        ),
        Err(e) => (wake_all(ConnV { channel: ch, ..c }), Err(e)),
    }
}

/// What cancelling does: the entry leaves the table without being invoked;
/// nothing else moves. Cancelling an absent serial changes nothing.
pub open spec fn cancel_reply_spec(c: ConnV, serial: u32) -> ConnV {
    ConnV { replies: c.replies.remove(serial), ..c }
}

/// What invoking a reply action does: a resolve action stores the reply in
/// its cell and queues the one wake owed to a waiting poller; a discard
/// action does nothing.
pub open spec fn apply_on_reply(c: ConnV, f: OnReply, m: MessageV) -> ConnV {
    match f {
        OnReply::Resolve { cell } => {
            if cell < c.cells.len() {
                let (cs, woke) = resolve_spec(c.cells, cell as int, Ok(m));
                ConnV {
                    cells: cs,
                    woken: match woke {
                        Some(w) => c.woken.push(w),
                        None => c.woken,
                    },
                    ..c
                }
            } else {
                c
            }
        },
        OnReply::Discard => c,
    }
}

/// Saturating count of one more dropped, unmatched reply.
pub open spec fn bump(n: u64) -> u64 {
    if n < u64::MAX {
        (n + 1) as u64
    } else {
        n
    }
}

/// What dispatching one inbound message does.
///
/// A reply with a pending entry removes that entry — and only that entry —
/// and invokes only its action. A reply with no entry is counted and dropped,
/// not fatal. Anything else goes to the first filter, in registration order,
/// whose rule matches: its handler is invoked and the filter stays only if
/// the handler signals continuation. A message that matched nothing but
/// expects a reply is answered with the standard error reply.
pub open spec fn process_one_spec(c: ConnV, m: MessageV) -> ConnV {
    match m.reply_serial {
        Some(serial) => {
            if c.replies.contains_key(serial) {
                let entry = c.replies[serial];
                let c1 = ConnV { replies: c.replies.remove(serial), ..c };
                apply_on_reply(c1, entry.on_reply, m)
            } else {
                ConnV { unmatched: bump(c.unmatched), ..c }
            }
        },
        None => {
            match first_match(c.filters, m) {
                Some(i) => {
                    let f = c.filters[i];
                    let (h2, keep) = run_handler_spec(f.handler);
                    if keep {
                        ConnV {
                            filters: c.filters.update(i, FilterV { handler: h2, ..f }),
                            ..c
                        }
                    } else {
                        ConnV { filters: c.filters.remove(i), ..c }
                    }
                },
                None => {
                    match default_reply_spec(m) {
                        Some(rep) => send_conn_spec(c, rep).0,
                        None => c,
                    }
                },
            }
        },
    }
}

/// Dispatching preserves what is waiting inbound: the loop alone drains it.
pub proof fn lemma_process_one_inbound(c: ConnV, m: MessageV)
    ensures
        process_one_spec(c, m).channel.inbound == c.channel.inbound,
{
}

/// Dispatching preserves well-formedness, and never shrinks the cell store.
pub proof fn lemma_process_one_wf(c: ConnV, m: MessageV)
    requires
        conn_wf(c),
    ensures
        conn_wf(process_one_spec(c, m)),
        process_one_spec(c, m).cells.len() >= c.cells.len(),
{
    let c2 = process_one_spec(c, m);
    match m.reply_serial {
        Some(serial) => {
            if c.replies.contains_key(serial) {
                assert(forall|k: u32|
                    c2.replies.contains_key(k) ==> c.replies.contains_key(k) && c2.replies[k]
                        == c.replies[k]);
            }
        },
        None => {
            match first_match(c.filters, m) {
                Some(i) => {
                    crate::filters::lemma_first_match(c.filters, m);
                    let f = c.filters[i];
                    let (h2, keep) = run_handler_spec(f.handler);
                    if keep {
                        let fs = c.filters.update(i, FilterV { handler: h2, ..f });
                        assert(forall|j: int| 0 <= j < fs.len() ==> #[trigger] fs[j].id == c.filters[j].id);
                    } else {
                        let fs = c.filters.remove(i);
                        assert(forall|j: int|
                            0 <= j < fs.len() ==> #[trigger] fs[j] == (if j < i {
                                c.filters[j]
                            } else {
                                c.filters[j + 1]
                            }));
                    }
                },
                None => {},
            }
        },
    }
}

/// What draining the channel does: pop and dispatch, oldest first, until
/// nothing inbound remains.
pub open spec fn process_all_spec(c: ConnV) -> ConnV
    decreases c.channel.inbound.len(),
    when conn_wf(c)
    via process_all_spec_decreases
{
    if c.channel.inbound.len() == 0 {
        c
    } else {
        let m = c.channel.inbound[0];
        let c1 = ConnV {
            channel: ChannelV { inbound: c.channel.inbound.drop_first(), ..c.channel },
            ..c
        };
        process_all_spec(process_one_spec(c1, m))
    }
}

#[via_fn]
proof fn process_all_spec_decreases(c: ConnV) {
    if c.channel.inbound.len() > 0 {
        let m = c.channel.inbound[0];
        let c1 = ConnV {
            channel: ChannelV { inbound: c.channel.inbound.drop_first(), ..c.channel },
            ..c
        };
        lemma_process_one_inbound(c1, m);
        lemma_process_one_wf(c1, m);
    }
}

/// Draining the channel preserves well-formedness and leaves nothing inbound.
pub proof fn lemma_process_all_wf(c: ConnV)
    requires
        conn_wf(c),
    ensures
        conn_wf(process_all_spec(c)),
        process_all_spec(c).channel.inbound.len() == 0,
    decreases c.channel.inbound.len(),
{
    if c.channel.inbound.len() > 0 {
        let m = c.channel.inbound[0];
        let c1 = ConnV {
            channel: ChannelV { inbound: c.channel.inbound.drop_first(), ..c.channel },
            ..c
        };
        lemma_process_one_inbound(c1, m);
        lemma_process_one_wf(c1, m);
        lemma_process_all_wf(process_one_spec(c1, m));
    }
}

/// The error a reply handle resolves to when its call could not be sent.
pub open spec fn send_failed_error_v() -> ErrorV {
    ErrorV { name: failed_error_name(), message: "Failed to send message"@ }
}

/// What issuing a call that awaits a reply does: a fresh cell is wired to the
/// call's serial; if the send fails, the cell resolves immediately to the
/// send failure, so the caller's poll surfaces it.
pub open spec fn call_with_reply_spec(c: ConnV, m: MessageV, read: ReadFn) -> (
    ConnV,
    MethodReplyV,
) {
    let cell = c.cells.len() as usize;
    let c1 = ConnV { cells: c.cells.push(CellV::Empty), ..c };
    let (c2, r) = send_with_reply_spec(c1, m, OnReply::Resolve { cell });
    let c3 = match r {
        Ok(_) => c2,
        Err(_) => ConnV {
            cells: c2.cells.update(cell as int, CellV::Ready(Err(send_failed_error_v()))),
            ..c2
        },
    };
    (c3, MethodReplyV { cell, read, transforms: Seq::<Transform>::empty() })
}

/// The message that asks the remote bus to stop server-side filtering for a
/// rule: a `RemoveMatch` call on the bus's own interface, carrying the
/// serialized rule.
pub open spec fn remove_match_msg_spec(mstr: Seq<char>) -> MessageV {
    MessageV {
        msg_type: crate::message::MessageType::MethodCall,
        serial: 0u32,
        reply_serial: None,
        destination: Some("org.freedesktop.DBus"@),
        sender: None,
        path: Some("/"@),
        interface: Some("org.freedesktop.DBus"@),
        member: Some("RemoveMatch"@),
        error_name: None,
        no_reply_expected: false,
        body: seq![crate::message::ArgV::Str(mstr)],
    }
}

/// What stopping a subscription does: the exact registered pair leaves the
/// table and is returned, and one best-effort remote unregistration is queued
/// — fire and forget, drained later, with no delivery guarantee. Stopping an
/// unknown id changes nothing and returns nothing.
pub open spec fn stop_receive_spec(c: ConnV, id: u32) -> (
    ConnV,
    Option<(MatchRuleV, SignalHandler)>,
) {
    match crate::filters::find_id(c.filters, id) {
        None => (c, None),
        Some(i) => {
            let f = c.filters[i];
            let c1 = ConnV { filters: c.filters.remove(i), ..c };
            let mstr = match_str_spec(f.rule);
            let (c2, mr) = call_with_reply_spec(c1, remove_match_msg_spec(mstr), ReadFn::Unit);
            let c3 = ConnV { cleanup: c2.cleanup.push(CleanupV { match_str: mstr, reply: mr }), ..c2 };
            (c3, Some((f.rule, f.handler)))
        },
    }
}

/// What opportunistically draining the cleanup queue does: each in-flight
/// unregister reply is polled once with the reactor's waker token; finished
/// ones leave the queue, unfinished ones stay, in order.
pub open spec fn drops_spec(cells: Seq<CellV>, cleanup: Seq<CleanupV>, waker: u64) -> (
    Seq<CellV>,
    Seq<CleanupV>,
)
    decreases cleanup.len(),
{
    if cleanup.len() == 0 {
        (cells, cleanup)
    } else {
        let e = cleanup[0];
        if e.reply.cell < cells.len() {
            let (cs1, st) = crate::cells::poll_cell_spec(cells, e.reply.cell as int, waker);
            let (cs2, rest) = drops_spec(cs1, cleanup.drop_first(), waker);
            match st {
                crate::cells::PollState::NotReady => (cs2, seq![e] + rest),
                _ => (cs2, rest),
            }
        } else {
            let (cs2, rest) = drops_spec(cells, cleanup.drop_first(), waker);
            (cs2, rest)
        }
    }
}

/// The shared state of a connection, whatever its concurrency flavor.
pub struct ConnState {
    pub channel: Channel,
    pub waker: Option<u64>,
    pub replies: ReplyTable,
    pub filters: FilterTable,
    pub filter_nextid: u32,
    pub cells: ReplyCells,
    pub woken: Vec<u64>,
    pub cleanup: Vec<CleanupEntry>,
    pub unmatched: u64,
}

impl View for ConnState {
    type V = ConnV;

    open spec fn view(&self) -> ConnV {
        ConnV {
            channel: self.channel@,
            waker: self.waker,
            replies: self.replies@,
            filters: self.filters@,
            filter_nextid: self.filter_nextid,
            cells: self.cells@,
            woken: self.woken@,
            cleanup: self.cleanup.deep_view(),
            unmatched: self.unmatched,
        }
    }
}

impl ConnState {
    /// Both the representation and the model are well-formed.
    pub open spec fn wf(&self) -> bool {
        &&& self.replies.wf()
        &&& conn_wf(self@)
    }

    /// Wraps a channel in a fresh connection.
    pub fn from_channel(channel: Channel) -> (r: ConnState)
        ensures
            r@ == fresh_conn(channel@),
            r.wf(),
    {
        let r = ConnState {
            channel,
            waker: None,
            replies: ReplyTable::new(),
            filters: FilterTable::new(),
            filter_nextid: 1,
            cells: ReplyCells::new(),
            woken: Vec::new(),
            cleanup: Vec::new(),
            unmatched: 0,
        };
        proof {
            assert(r@.woken =~= Seq::<u64>::empty());
            assert(r@.cleanup =~= Seq::<CleanupV>::empty());
            assert(r@ =~= fresh_conn(r.channel@));
        }
        r
    }

    /// Fires the waker slot: the parked token, if any, is owed its one wake.
    fn wake(&mut self)
        ensures
            final(self)@ == wake_all(old(self)@),
            final(self).replies == old(self).replies,
    {
        match self.waker {
            Some(w) => {
                self.waker = None;
                let ghost prev = self@.woken;
                self.woken.push(w);
                proof {
                    assert(self@.woken =~= prev.push(w));
                    assert(self@ =~= wake_all(old(self)@));
                }
            },
            None => {
                proof {
                    assert(self@ =~= wake_all(old(self)@));
                }
            },
        }
    }

    /// Sends a message, then wakes any parked reactor so it re-checks
    /// transport writability.
    pub fn send(&mut self, msg: Message) -> (r: Result<u32, SendError>)
        requires
            old(self).wf(),
        ensures
            final(self).wf(),
            final(self)@ == send_conn_spec(old(self)@, msg@).0,
            r == send_conn_spec(old(self)@, msg@).1,
    {
        let r = self.channel.send(msg);
        self.wake();
        proof {
            assert(self@ =~= send_conn_spec(old(self)@, msg@).0);
        }
        r
    }

    /// Parks the reactor's suspension handle, replacing any previous one.
    pub fn set_waker(&mut self, waker: u64)
        ensures
            final(self)@ == (ConnV { waker: Some(waker), ..old(self)@ }),
            final(self).replies == old(self).replies,
    {
        self.waker = Some(waker);
        proof {
            assert(self@ =~= (ConnV { waker: Some(waker), ..old(self)@ }));
        }
    }

    /// Takes the queue of waker tokens owed a wake; the reactor fires them.
    pub fn take_woken(&mut self) -> (r: Vec<u64>)
        ensures
            r@ == old(self)@.woken,
            final(self)@ == (ConnV { woken: Seq::<u64>::empty(), ..old(self)@ }),
            final(self).replies == old(self).replies,
    {
        let mut taken: Vec<u64> = Vec::new();
        core::mem::swap(&mut taken, &mut self.woken);
        proof {
            assert(self@ =~= (ConnV { woken: Seq::<u64>::empty(), ..old(self)@ }));
        }
        taken
    }

    /// Hands out a fresh result cell for a call about to be issued.
    pub fn new_reply_cell(&mut self) -> (idx: usize)
        requires
            old(self).wf(),
        ensures
            final(self).wf(),
            idx == old(self)@.cells.len(),
            final(self)@ == (ConnV { cells: old(self)@.cells.push(CellV::Empty), ..old(self)@ }),
    {
        let idx = self.cells.new_cell();
        proof {
            assert(self@ =~= (ConnV { cells: old(self)@.cells.push(CellV::Empty), ..old(self)@ }));
            assert(forall|k: u32|
                self@.replies.contains_key(k) ==> on_reply_ok(
                    #[trigger] self@.replies[k].on_reply,
                    self@.cells.len(),
                ));
        }
        idx
    }

    /// Resolves a cell to the failure of its own send, without waking: nobody
    /// can have polled a cell whose call was never tabled.
    pub fn fail_cell(&mut self, idx: usize, e: Error)
        requires
            old(self).wf(),
            idx < old(self)@.cells.len(),
        ensures
            final(self).wf(),
            final(self)@ == (ConnV {
                cells: old(self)@.cells.update(idx as int, CellV::Ready(Err(e@))),
                ..old(self)@
            }),
    {
        let _ = self.cells.resolve(idx, Err(e));
        proof {
            assert(self@.cells =~= old(self)@.cells.update(idx as int, CellV::Ready(Err(e@))));
            assert(self@ =~= (ConnV { cells: self@.cells, ..old(self)@ }));
        }
    }

    /// Sends a message and, on success, tables its reply action under the
    /// assigned serial; on transport failure nothing is tabled. Wakes any
    /// parked reactor either way.
    pub fn send_with_reply(&mut self, msg: Message, f: OnReply) -> (r: Result<u32, SendError>)
        requires
            old(self).wf(),
            on_reply_ok(f, old(self)@.cells.len()),
        ensures
            final(self).wf(),
            final(self)@ == send_with_reply_spec(old(self)@, msg@, f).0,
            r == send_with_reply_spec(old(self)@, msg@, f).1,
    {
        let sent = self.channel.send(msg.clone_msg());
        match sent {
            Ok(serial) => {
                let mut stamped = msg;
                stamped.serial = serial;
                proof {
                    assert(stamped@ =~= (MessageV { serial: serial, ..msg@ }));
                }
                self.replies.insert(serial, PendingReply { request: stamped, on_reply: f });
                self.wake();
                proof {
                    assert(self@ =~= send_with_reply_spec(old(self)@, msg@, f).0);
                }
                Ok(serial)
            },
            Err(e) => {
                self.wake();
                proof {
                    assert(self@ =~= send_with_reply_spec(old(self)@, msg@, f).0);
                }
                Err(e)
            },
        }
    }

    /// Removes and returns a pending reply action without invoking it.
    ///
    /// Safe whether or not a reply ever arrives, and idempotent: a second
    /// cancel for the same serial returns nothing.
    pub fn cancel_reply(&mut self, serial: u32) -> (r: Option<OnReply>)
        requires
            old(self).wf(),
        ensures
            final(self).wf(),
            final(self)@ == cancel_reply_spec(old(self)@, serial),
            match r {
                Some(f) => old(self)@.replies.contains_key(serial) && f == old(
                    self,
                )@.replies[serial].on_reply,
                None => !old(self)@.replies.contains_key(serial),
            },
    {
        let entry = self.replies.remove(serial);
        proof {
            assert(self@ =~= cancel_reply_spec(old(self)@, serial));
        }
        match entry {
            Some(e) => Some(e.on_reply),
            None => None,
        }
    }

    /// Registers a signal subscription and returns its id: one, two, three, …
    /// in order for a fresh connection, never reused.
    pub fn start_receive(&mut self, rule: MatchRule, handler: SignalHandler) -> (id: u32)
        requires
            old(self).wf(),
            old(self)@.filter_nextid < u32::MAX,
        ensures
            final(self).wf(),
            id == old(self)@.filter_nextid,
            final(self)@ == (ConnV {
                filters: old(self)@.filters.push(
                    FilterV { id: old(self)@.filter_nextid, rule: rule@, handler: handler },
                ),
                filter_nextid: (old(self)@.filter_nextid + 1) as u32,
                ..old(self)@
            }),
    {
        let id = self.filter_nextid;
        self.filter_nextid = id + 1;
        self.filters.push_new(Filter { id, rule, handler });
        proof {
            let fs = self@.filters;
            assert(forall|j: int| 0 <= j < fs.len() - 1 ==> fs[j] == old(self)@.filters[j]);
            assert(self@ =~= (ConnV {
                filters: old(self)@.filters.push(FilterV { id: id, rule: rule@, handler: handler }),
                filter_nextid: (old(self)@.filter_nextid + 1) as u32,
                ..old(self)@
            }));
        }
        id
    }

    /// Issues a call whose reply will resolve a fresh cell, and returns the
    /// caller's handle on that cell. If the send fails, the handle is already
    /// resolved to the send failure.
    pub fn call_with_reply(&mut self, msg: Message, read: ReadFn) -> (mr: MethodReply)
        requires
            old(self).wf(),
        ensures
            final(self).wf(),
            final(self)@ == call_with_reply_spec(old(self)@, msg@, read).0,
            mr@ == call_with_reply_spec(old(self)@, msg@, read).1,
            mr@.cell < final(self)@.cells.len(),
    {
        let cell = self.new_reply_cell();
        let sent = self.send_with_reply(msg, OnReply::Resolve { cell });
        match sent {
            Ok(_) => (),
            Err(_) => {
                self.fail_cell(cell, Error::new_failed("Failed to send message".to_owned()));
            },
        }
        proof {
            assert(self@ =~= call_with_reply_spec(old(self)@, msg@, read).0);
        }
        MethodReply::new(cell, read)
    }

    /// Stops a subscription: returns the exact registered pair and queues one
    /// best-effort remote unregistration — advisory cleanup whose completion
    /// is never guaranteed. A second stop for the same id returns nothing.
    pub fn stop_receive(&mut self, id: u32) -> (r: Option<(MatchRule, SignalHandler)>)
        requires
            old(self).wf(),
        ensures
            final(self).wf(),
            final(self)@ == stop_receive_spec(old(self)@, id).0,
            match r {
                Some(p) => stop_receive_spec(old(self)@, id).1 == Some((p.0@, p.1)),
                None => stop_receive_spec(old(self)@, id).1 is None,
            },
    {
        let found = self.filters.remove_by_id(id);
        match found {
            None => {
                proof {
                    assert(self@ =~= stop_receive_spec(old(self)@, id).0);
                }
                None
            },
            Some(f) => {
                proof {
                    let ghost idx = crate::filters::find_id(old(self)@.filters, id)->0;
                    crate::filters::lemma_find_id(old(self)@.filters, id);
                    let fs = self@.filters;
                    assert(fs =~= old(self)@.filters.remove(idx));
                    assert(forall|j: int|
                        0 <= j < fs.len() ==> #[trigger] fs[j] == (if j < idx {
                            old(self)@.filters[j]
                        } else {
                            old(self)@.filters[j + 1]
                        }));
                    assert(conn_wf(self@));
                }
                let Filter { id: _, rule, handler } = f;
                let mstr = rule.match_str();
                let mut msg = Message::method_call(
                    "org.freedesktop.DBus".to_owned(),
                    "/".to_owned(),
                    "org.freedesktop.DBus".to_owned(),
                    "RemoveMatch".to_owned(),
                );
                msg.append_arg(BodyArg::Str(mstr.clone()));
                proof {
                    assert(msg@ =~= remove_match_msg_spec(match_str_spec(rule@)));
                }
                let ghost c1 = self@;
                let mr = self.call_with_reply(msg, ReadFn::Unit);
                let ghost mrv = mr@;
                let ghost before_push = self@;
                self.cleanup.push(CleanupEntry { match_str: mstr, reply: mr });
                proof {
                    assert(self.cleanup.deep_view() =~= before_push.cleanup.push(
                        CleanupV { match_str: match_str_spec(rule@), reply: mrv },
                    ));
                    assert(self@ =~= stop_receive_spec(old(self)@, id).0);
                }
                Some((rule, handler))
            },
        }
    }

    /// Dispatches one inbound message, as [`process_one_spec`] says.
    pub fn process_one(&mut self, msg: Message)
        requires
            old(self).wf(),
        ensures
            final(self).wf(),
            final(self)@ == process_one_spec(old(self)@, msg@),
    {
        proof {
            lemma_process_one_wf(old(self)@, msg@);
        }
        let reply_serial = msg.get_reply_serial();
        match reply_serial {
            Some(serial) => {
                let entry = self.replies.remove(serial);
                match entry {
                    Some(e) => {
                        match e.on_reply {
                            OnReply::Resolve { cell } => {
                                let woke = self.cells.resolve(cell, Ok(msg));
                                match woke {
                                    Some(w) => {
                                        self.woken.push(w);
                                    },
                                    None => (),
                                }
                                proof {
                                    assert(self@ =~= process_one_spec(old(self)@, msg@));
                                }
                            },
                            OnReply::Discard => {
                                proof {
                                    assert(self@ =~= process_one_spec(old(self)@, msg@));
                                }
                            },
                        }
                    },
                    None => {
                        self.unmatched = if self.unmatched < u64::MAX {
                            self.unmatched + 1
                        } else {
                            self.unmatched
                        };
                        proof {
                            assert(self@ =~= process_one_spec(old(self)@, msg@));
                        }
                    },
                }
            },
            None => {
                let hit = self.filters.find_first_match(&msg);
                match hit {
                    Some(i) => {
                        proof {
                            crate::filters::lemma_first_match(old(self)@.filters, msg@);
                        }
                        let f = self.filters.remove_at(i);
                        let (h2, keep) = run_handler(f.handler);
                        if keep {
                            self.filters.insert_at(
                                i,
                                Filter { id: f.id, rule: f.rule, handler: h2 },
                            );
                            proof {
                                assert(self@.filters =~= old(self)@.filters.update(
                                    i as int,
                                    FilterV { handler: h2, ..old(self)@.filters[i as int] },
                                ));
                                assert(self@ =~= process_one_spec(old(self)@, msg@));
                            }
                        } else {
                            proof {
                                assert(self@ =~= process_one_spec(old(self)@, msg@));
                            }
                        }
                    },
                    None => {
                        let rep = default_reply(&msg);
                        match rep {
                            Some(reply) => {
                                let _ = self.send(reply);
                                proof {
                                    assert(self@ =~= process_one_spec(old(self)@, msg@));
                                }
                            },
                            None => {
                                proof {
                                    assert(self@ =~= process_one_spec(old(self)@, msg@));
                                }
                            },
                        }
                    },
                }
            },
        }
    }

    /// Dispatches all inbound messages, oldest first, without blocking, until
    /// none remain. Single-pump: one caller at a time drives this.
    pub fn process_all(&mut self)
        requires
            old(self).wf(),
        ensures
            final(self).wf(),
            final(self)@ == process_all_spec(old(self)@),
    {
        loop
            invariant
                self.wf(),
                process_all_spec(self@) == process_all_spec(old(self)@),
            decreases self@.channel.inbound.len(),
        {
            let ghost at_entry = self@;
            let popped = self.channel.pop_message();
            match popped {
                Some(msg) => {
                    proof {
                        lemma_process_one_wf(self@, msg@);
                        lemma_process_one_inbound(self@, msg@);
                        assert(self@ =~= (ConnV {
                            channel: ChannelV {
                                inbound: at_entry.channel.inbound.drop_first(),
                                ..at_entry.channel
                            },
                            ..at_entry
                        }));
                    }
                    self.process_one(msg);
                },
                None => {
                    proof {
                        assert(process_all_spec(self@) == self@);
                    }
                    return ;
                },
            }
        }
    }

    /// Polls every queued best-effort cleanup once with the reactor's waker
    /// token, dropping the finished ones and keeping the rest in order.
    pub fn drops(&mut self, waker: u64)
        requires
            old(self).wf(),
        ensures
            final(self).wf(),
            final(self)@ == (ConnV {
                cells: drops_spec(old(self)@.cells, old(self)@.cleanup, waker).0,
                cleanup: drops_spec(old(self)@.cells, old(self)@.cleanup, waker).1,
                ..old(self)@
            }),
    {
        let mut queue: Vec<CleanupEntry> = Vec::new();
        core::mem::swap(&mut queue, &mut self.cleanup);
        let ghost q0 = queue.deep_view();
        let ghost cs0 = self@.cells;
        proof {
            assert(self.cleanup.deep_view() =~= Seq::<CleanupV>::empty());
            assert(q0.skip(0) =~= q0);
            assert(Seq::<CleanupV>::empty() + drops_spec(cs0, q0, waker).1 =~= drops_spec(
                cs0,
                q0,
                waker,
            ).1);
        }
        let n = queue.len();
        let mut i: usize = 0;
        while i < n
            invariant
                n == queue.len(),
                0 <= i <= n,
                q0 == queue.deep_view(),
                self.replies.wf(),
                self@.cells.len() == cs0.len(),
                forall|j: int| 0 <= j < n ==> #[trigger] q0[j].reply.cell < cs0.len(),
                forall|j: int|
                    0 <= j < self@.cleanup.len() ==> #[trigger] self@.cleanup[j].reply.cell
                        < cs0.len(),
                drops_spec(self@.cells, q0.skip(i as int), waker).0 == drops_spec(cs0, q0, waker).0,
                self@.cleanup + drops_spec(self@.cells, q0.skip(i as int), waker).1 == drops_spec(
                    cs0,
                    q0,
                    waker,
                ).1,
                self@ == (ConnV { cells: self@.cells, cleanup: self@.cleanup, ..old(self)@ }),
            decreases n - i,
        {
            let e = &queue[i];
            let ghost pre = self@;
            proof {
                assert(q0.skip(i as int)[0] == q0[i as int]);
                assert(e@ == q0[i as int]);
                assert(e@.reply.cell < pre.cells.len());
            }
            let keep_it: bool = match self.cells.poll(e.reply.cell, waker) {
                crate::cells::CellPoll::NotReady => true,
                _ => false,
            };
            proof {
                assert(q0.skip(i as int).drop_first() =~= q0.skip(i as int + 1));
            }
            if keep_it {
                let kept = CleanupEntry {
                    match_str: queue[i].match_str.clone(),
                    reply: MethodReply {
                        cell: queue[i].reply.cell,
                        read: queue[i].reply.read,
                        transforms: clone_transforms(&queue[i].reply.transforms),
                    },
                };
                proof {
                    assert(kept@ =~= q0[i as int]);
                }
                self.cleanup.push(kept);
                proof {
                    assert(self.cleanup.deep_view() =~= pre.cleanup.push(q0[i as int]));
                    assert(pre.cleanup.push(q0[i as int]) + drops_spec(
                        self@.cells,
                        q0.skip(i as int + 1),
                        waker,
                    ).1 =~= pre.cleanup + (seq![q0[i as int]] + drops_spec(
                        self@.cells,
                        q0.skip(i as int + 1),
                        waker,
                    ).1));
                }
            }
            i = i + 1;
        }
        proof {
            assert(q0.skip(n as int) =~= Seq::<CleanupV>::empty());
            assert(self@.cleanup + Seq::<CleanupV>::empty() =~= self@.cleanup);
            assert(self@ =~= (ConnV {
                cells: drops_spec(old(self)@.cells, old(self)@.cleanup, waker).0,
                cleanup: drops_spec(old(self)@.cells, old(self)@.cleanup, waker).1,
                ..old(self)@
            }));
        }
    }
}

/// Clones a transform chain, step for step.
fn clone_transforms(ts: &Vec<Transform>) -> (r: Vec<Transform>)
    ensures
        r@ == ts@,
{
    let mut r: Vec<Transform> = Vec::new();
    let n = ts.len();
    let mut i: usize = 0;
    while i < n
        invariant
            n == ts.len(),
            0 <= i <= n,
            r@ == ts@.take(i as int),
        decreases n - i,
    {
        r.push(ts[i]);
        proof {
            assert(r@ =~= ts@.take(i as int + 1));
        }
        i = i + 1;
    }
    proof {
        assert(ts@.take(n as int) =~= ts@);
    }
    r
}

} // verus!
