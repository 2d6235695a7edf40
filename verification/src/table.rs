//! The pending-reply table: serial → (original request, what to do with the
//! reply). A serial is present at most once, and serials are never reused
//! while their entry is live — the channel's serial counter outruns them.

use vstd::prelude::*;

use crate::cells::OnReply;
use crate::message::{Message, MessageV};

verus! {

/// One outstanding call: the request that was sent and what to do with its
/// eventual reply.
pub struct PendingReply {
    pub request: Message,
    pub on_reply: OnReply,
}

/// Mathematical model of a [`PendingReply`].
#[verifier::ext_equal]
pub struct PendingReplyV {
    pub request: MessageV,
    pub on_reply: OnReply,
}

impl View for PendingReply {
    type V = PendingReplyV;

    open spec fn view(&self) -> PendingReplyV {
        PendingReplyV { request: self.request@, on_reply: self.on_reply }
    }
}

/// The model of a table's entry list.
pub open spec fn entries_v(s: Seq<(u32, PendingReply)>) -> Seq<(u32, PendingReplyV)> {
    s.map_values(|e: (u32, PendingReply)| (e.0, e.1@))
}

/// Folds an entry list into the map it stands for; a later entry for the same
/// serial would win, but a well-formed table never holds one.
pub open spec fn to_map(s: Seq<(u32, PendingReplyV)>) -> Map<u32, PendingReplyV>
    decreases s.len(),
{
    if s.len() == 0 {
        Map::<u32, PendingReplyV>::empty()
    } else {
        to_map(s.drop_last()).insert(s.last().0, s.last().1)
    }
}

/// No serial appears twice in the entry list.
pub open spec fn distinct_keys(s: Seq<(u32, PendingReplyV)>) -> bool {
    forall|i: int, j: int| 0 <= i < j < s.len() ==> s[i].0 != s[j].0
}

/// A serial is in the map exactly when some entry carries it.
pub proof fn lemma_to_map_domain(s: Seq<(u32, PendingReplyV)>, k: u32)
    ensures
        to_map(s).contains_key(k) <==> exists|i: int| 0 <= i < s.len() && s[i].0 == k,
    decreases s.len(),
{
    if s.len() > 0 {
        lemma_to_map_domain(s.drop_last(), k);
        if s.last().0 == k {
            assert(s[s.len() - 1].0 == k);
        } else if to_map(s).contains_key(k) {
            let i = choose|i: int| 0 <= i < s.drop_last().len() && s.drop_last()[i].0 == k;
            assert(s[i].0 == k);
        } else {
            assert forall|i: int| 0 <= i < s.len() implies s[i].0 != k by {
                if i < s.len() - 1 {
                    assert(s.drop_last()[i].0 == s[i].0);
                }
            }
        }
    }
}

/// Under distinct serials, the entry that carries a serial is what the map
/// holds for it.
pub proof fn lemma_to_map_lookup(s: Seq<(u32, PendingReplyV)>, i: int)
    requires
        distinct_keys(s),
        0 <= i < s.len(),
    ensures
        to_map(s).contains_key(s[i].0),
        to_map(s)[s[i].0] == s[i].1,
    decreases s.len(),
{
    lemma_to_map_domain(s, s[i].0);
    if i < s.len() - 1 {
        assert(distinct_keys(s.drop_last())) by {
            assert(forall|a: int, b: int|
                0 <= a < b < s.drop_last().len() ==> s.drop_last()[a].0 == s[a].0
                    && s.drop_last()[b].0 == s[b].0);
        }
        assert(s.drop_last()[i] == s[i]);
        lemma_to_map_lookup(s.drop_last(), i);
        assert(s.last().0 != s[i].0);
    }
}

/// Under distinct serials, removing the entry that carries a serial removes
/// exactly that serial from the map.
pub proof fn lemma_to_map_remove(s: Seq<(u32, PendingReplyV)>, i: int)
    requires
        distinct_keys(s),
        0 <= i < s.len(),
    ensures
        to_map(s.remove(i)) == to_map(s).remove(s[i].0),
    decreases s.len(),
{
    let k = s[i].0;
    assert(distinct_keys(s.drop_last())) by {
        assert(forall|a: int, b: int|
            0 <= a < b < s.drop_last().len() ==> s.drop_last()[a].0 == s[a].0 && s.drop_last()[b].0
                == s[b].0);
    }
    if i == s.len() - 1 {
        assert(s.remove(i) =~= s.drop_last());
        lemma_to_map_domain(s.drop_last(), k);
        assert(!to_map(s.drop_last()).contains_key(k)) by {
            assert(forall|a: int|
                0 <= a < s.drop_last().len() ==> #[trigger] s.drop_last()[a].0 == s[a].0);
        }
        assert(to_map(s).remove(k) =~= to_map(s.drop_last()));
    } else {
        assert(s.drop_last()[i] == s[i]);
        lemma_to_map_remove(s.drop_last(), i);
        assert(s.remove(i).drop_last() =~= s.drop_last().remove(i));
        assert(s.remove(i).last() == s.last());
        assert(to_map(s.remove(i)) == to_map(s.drop_last().remove(i)).insert(
            s.last().0,
            s.last().1,
        ));
        assert(s.last().0 != k);
        assert(to_map(s).remove(k) =~= to_map(s.drop_last()).remove(k).insert(
            s.last().0,
            s.last().1,
        ));
    }
}

/// Under distinct serials, the map holds exactly as many entries as the list.
pub proof fn lemma_to_map_len(s: Seq<(u32, PendingReplyV)>)
    requires
        distinct_keys(s),
    ensures
        to_map(s).dom().finite(),
        to_map(s).dom().len() == s.len(),
    decreases s.len(),
{
    if s.len() > 0 {
        assert(distinct_keys(s.drop_last())) by {
            assert(forall|a: int, b: int|
                0 <= a < b < s.drop_last().len() ==> s.drop_last()[a].0 == s[a].0
                    && s.drop_last()[b].0 == s[b].0);
        }
        lemma_to_map_len(s.drop_last());
        lemma_to_map_domain(s.drop_last(), s.last().0);
        assert(!to_map(s.drop_last()).contains_key(s.last().0)) by {
            assert(forall|a: int|
                0 <= a < s.drop_last().len() ==> #[trigger] s.drop_last()[a].0 == s[a].0);
        }
    }
}

/// The table of outstanding calls, keyed by serial.
pub struct ReplyTable {
    pub entries: Vec<(u32, PendingReply)>,
}

impl View for ReplyTable {
    type V = Map<u32, PendingReplyV>;

    open spec fn view(&self) -> Map<u32, PendingReplyV> {
        to_map(entries_v(self.entries@))
    }
}

impl ReplyTable {
    /// No serial appears twice among the entries.
    pub open spec fn wf(&self) -> bool {
        distinct_keys(entries_v(self.entries@))
    }

    /// Every serial present is below the bound; fresh serials stay fresh.
    pub open spec fn serials_below(&self, bound: u32) -> bool {
        forall|k: u32| self@.contains_key(k) ==> k < bound
    }

    /// An empty table.
    pub fn new() -> (r: ReplyTable)
        ensures
            r@ == Map::<u32, PendingReplyV>::empty(),
            r.wf(),
    {
        let r = ReplyTable { entries: Vec::new() };
        proof {
            assert(entries_v(r.entries@) =~= Seq::<(u32, PendingReplyV)>::empty());
        }
        r
    }

    /// How many calls are outstanding.
    pub fn len(&self) -> (r: usize)
        requires
            self.wf(),
        ensures
            r == self@.dom().len(),
            self@.dom().finite(),
    {
        proof {
            lemma_to_map_len(entries_v(self.entries@));
        }
        self.entries.len()
    }

    /// Whether a serial has an outstanding entry.
    pub fn contains(&self, k: u32) -> (r: bool)
        ensures
            r == self@.contains_key(k),
    {
        let ghost s = entries_v(self.entries@);
        let n = self.entries.len();
        let mut i: usize = 0;
        while i < n
            invariant
                n == self.entries.len(),
                0 <= i <= n,
                s == entries_v(self.entries@),
                forall|j: int| 0 <= j < i ==> s[j].0 != k,
            decreases n - i,
        {
            if self.entries[i].0 == k {
                proof {
                    lemma_to_map_domain(s, k);
                    assert(s[i as int].0 == k);
                    assert(exists|j: int| 0 <= j < s.len() && s[j].0 == k);
                }
                return true;
            }
            i = i + 1;
        }
        proof {
            lemma_to_map_domain(s, k);
        }
        false
    }

    /// Records an outstanding call under a fresh serial.
    pub fn insert(&mut self, k: u32, v: PendingReply)
        requires
            old(self).wf(),
            !old(self)@.contains_key(k),
        ensures
            final(self)@ == old(self)@.insert(k, v@),
            final(self).wf(),
    {
        proof {
            lemma_to_map_domain(entries_v(self.entries@), k);
        }
        let ghost prev = entries_v(self.entries@);
        self.entries.push((k, v));
        proof {
            let cur = entries_v(self.entries@);
            assert(cur =~= prev.push((k, v@)));
            assert(cur.drop_last() =~= prev);
            assert(forall|j: int| 0 <= j < prev.len() ==> #[trigger] prev[j].0 != k);
            assert(distinct_keys(cur)) by {
                assert(forall|a: int| 0 <= a < prev.len() ==> cur[a] == prev[a]);
            }
        }
    }

    /// Removes and returns the entry for a serial, if one is outstanding; a
    /// second removal for the same serial finds nothing.
    pub fn remove(&mut self, k: u32) -> (r: Option<PendingReply>)
        requires
            old(self).wf(),
        ensures
            final(self).wf(),
            final(self)@ == old(self)@.remove(k),
            match r {
                Some(v) => old(self)@.contains_key(k) && old(self)@[k] == v@,
                None => !old(self)@.contains_key(k),
            },
    {
        let ghost s = entries_v(self.entries@);
        let n = self.entries.len();
        let mut i: usize = 0;
        while i < n
            invariant
                n == self.entries.len(),
                0 <= i <= n,
                s == entries_v(self.entries@),
                distinct_keys(s),
                old(self) == self,
                forall|j: int| 0 <= j < i ==> s[j].0 != k,
            decreases n - i,
        {
            if self.entries[i].0 == k {
                proof {
                    assert(s[i as int].0 == k);
                    lemma_to_map_lookup(s, i as int);
                    lemma_to_map_remove(s, i as int);
                }
                let e = self.entries.remove(i);
                proof {
                    assert(entries_v(self.entries@) =~= s.remove(i as int));
                    assert(distinct_keys(s.remove(i as int))) by {
                        assert(forall|a: int|
                            0 <= a < s.remove(i as int).len() ==> s.remove(i as int)[a] == (if a
                                < i as int {
                                s[a]
                            } else {
                                s[a + 1]
                            }));
                    }
                }
                return Some(e.1);
            }
            i = i + 1;
        }
        proof {
            lemma_to_map_domain(s, k);
            assert(!self@.contains_key(k));
            assert(self@.remove(k) =~= self@);
        }
        None
    }
}

} // verus!
