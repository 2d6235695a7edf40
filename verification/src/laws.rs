//! The engine's correlation and subscription laws, stated and proved over the
//! connection model.

use vstd::prelude::*;

use crate::cells::{poll_cell_spec, CellV, OnReply, PollState};
use crate::connection::{
    bump, cancel_reply_spec, conn_wf, process_one_spec, stop_receive_spec, ConnV,
};
use crate::filters::{find_id, lemma_find_id, lemma_find_id_found, FilterV, SignalHandler};
use crate::message::MessageV;
use crate::rule::MatchRuleV;

verus! {

/// Whether a reply action targets the result cell at a position.
pub open spec fn resolves_to(f: OnReply, i: int) -> bool {
    match f {
        OnReply::Resolve { cell } => cell == i,
        OnReply::Discard => false,
    }
}

/// Correlation is by serial alone: a reply carrying one pending serial
/// removes that entry and only that entry, invokes only its action, and
/// leaves every other pending entry — and every cell its action does not
/// target — exactly as it was.
pub proof fn lemma_reply_targets_only_its_serial(c: ConnV, m: MessageV, s1: u32, s2: u32)
    requires
        conn_wf(c),
        m.reply_serial == Some(s1),
        c.replies.contains_key(s1),
        c.replies.contains_key(s2),
        s1 != s2,
    ensures
        !process_one_spec(c, m).replies.contains_key(s1),
        process_one_spec(c, m).replies.contains_key(s2),
        process_one_spec(c, m).replies[s2] == c.replies[s2],
        process_one_spec(c, m).cells.len() == c.cells.len(),
        forall|i: int|
            0 <= i < c.cells.len() && !resolves_to(c.replies[s1].on_reply, i)
                ==> process_one_spec(c, m).cells[i] == c.cells[i],
{
}

/// A cancelled entry is gone for good: a reply arriving for the cancelled
/// serial finds no entry, invokes no action — no cell moves, no wake is owed
/// — and is merely counted as unmatched and dropped, never a crash.
pub proof fn lemma_cancel_then_reply_is_dropped(c: ConnV, m: MessageV, s: u32)
    requires
        conn_wf(c),
        m.reply_serial == Some(s),
    ensures
        !cancel_reply_spec(c, s).replies.contains_key(s),
        process_one_spec(cancel_reply_spec(c, s), m).replies == cancel_reply_spec(c, s).replies,
        process_one_spec(cancel_reply_spec(c, s), m).cells == cancel_reply_spec(c, s).cells,
        process_one_spec(cancel_reply_spec(c, s), m).woken == cancel_reply_spec(c, s).woken,
        process_one_spec(cancel_reply_spec(c, s), m).filters == cancel_reply_spec(c, s).filters,
        process_one_spec(cancel_reply_spec(c, s), m).unmatched == bump(c.unmatched),
{
    let c1 = cancel_reply_spec(c, s);
    assert(!c1.replies.contains_key(s));
}

/// What one registration does: the rule and handler are tabled under the next
/// id, and the next id moves on by one.
pub open spec fn start_receive_spec(c: ConnV, rule: MatchRuleV, h: SignalHandler) -> (ConnV, u32) {
    (
        ConnV {
            filters: c.filters.push(FilterV { id: c.filter_nextid, rule: rule, handler: h }),
            filter_nextid: (c.filter_nextid + 1) as u32,
            ..c
        },
        c.filter_nextid,
    )
}

/// A run of registrations, first one first.
pub open spec fn register_all(c: ConnV, subs: Seq<(MatchRuleV, SignalHandler)>) -> ConnV
    decreases subs.len(),
{
    if subs.len() == 0 {
        c
    } else {
        register_all(start_receive_spec(c, subs[0].0, subs[0].1).0, subs.drop_first())
    }
}

/// Registrations move the next id forward by exactly one each.
pub proof fn lemma_register_all_nextid(c: ConnV, subs: Seq<(MatchRuleV, SignalHandler)>)
    requires
        c.filter_nextid + subs.len() <= u32::MAX,
    ensures
        register_all(c, subs).filter_nextid == c.filter_nextid + subs.len(),
    decreases subs.len(),
{
    if subs.len() > 0 {
        lemma_register_all_nextid(start_receive_spec(c, subs[0].0, subs[0].1).0, subs.drop_first());
    }
}

/// Subscription ids are issued in order, and never reused: the id issued by
/// the registration made after `i` earlier ones is exactly `i` past the
/// connection's starting id. On a fresh connection, whose starting id is one,
/// the registrations are issued ids one, two, three, … in order.
pub proof fn lemma_subscription_ids_in_order(
    c: ConnV,
    subs: Seq<(MatchRuleV, SignalHandler)>,
    i: int,
)
    requires
        0 <= i < subs.len(),
        c.filter_nextid + subs.len() <= u32::MAX,
    ensures
        start_receive_spec(register_all(c, subs.take(i)), subs[i].0, subs[i].1).1
            == c.filter_nextid + i,
{
    lemma_register_all_nextid(c, subs.take(i));
}

/// Stopping a subscription right after registering it returns exactly the
/// registered rule and handler.
pub proof fn lemma_stop_returns_exact_registration(c: ConnV, rule: MatchRuleV, h: SignalHandler)
    requires
        conn_wf(c),
        c.filter_nextid < u32::MAX,
    ensures
        stop_receive_spec(start_receive_spec(c, rule, h).0, start_receive_spec(c, rule, h).1).1
            == Some((rule, h)),
{
    let (c1, id) = start_receive_spec(c, rule, h);
    let n = c.filters.len() as int;
    assert(c1.filters[n] == (FilterV { id: id, rule: rule, handler: h }));
    assert(forall|j: int| 0 <= j < n ==> c1.filters[j] == c.filters[j]);
    assert(forall|j: int| 0 <= j < n ==> c1.filters[j].id != id);
    lemma_find_id_found(c1.filters, id, n);
}

/// Stopping a subscription is idempotent: whatever the first stop found, a
/// second stop for the same id finds nothing.
pub proof fn lemma_stop_receive_idempotent(c: ConnV, id: u32)
    requires
        conn_wf(c),
    ensures
        stop_receive_spec(stop_receive_spec(c, id).0, id).1 is None,
{
    lemma_find_id(c.filters, id);
    match find_id(c.filters, id) {
        None => {
            assert(stop_receive_spec(c, id).0 == c);
        },
        Some(i) => {
            let c1 = stop_receive_spec(c, id).0;
            let fs = c.filters.remove(i);
            assert(c1.filters == fs);
            assert forall|j: int| 0 <= j < fs.len() implies fs[j].id != id by {
                if j < i {
                    assert(fs[j] == c.filters[j]);
                } else {
                    assert(fs[j] == c.filters[j + 1]);
                }
            }
            lemma_find_id(fs, id);
            if find_id(fs, id) is Some {
                let w = find_id(fs, id)->0;
                assert(fs[w].id != id);
            }
        },
    }
}

/// A resolved future completes exactly once: the first poll after resolution
/// hands the one stored completion out, and any later poll of the same cell
/// answers the fatal after-consumed state without ever re-resolving the cell.
pub proof fn lemma_single_completion(cells: Seq<CellV>, i: int, w1: u64, w2: u64)
    requires
        0 <= i < cells.len(),
        cells[i] is Ready,
    ensures
        poll_cell_spec(cells, i, w1).1 == PollState::Took(cells[i]->Ready_0),
        poll_cell_spec(poll_cell_spec(cells, i, w1).0, i, w2).1 is AfterConsumed,
        poll_cell_spec(poll_cell_spec(cells, i, w1).0, i, w2).0 == poll_cell_spec(
            cells,
            i,
            w1,
        ).0,
{
}

} // verus!
