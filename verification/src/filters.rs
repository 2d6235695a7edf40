//! The signal-filter table: subscription id → (match rule, handler), kept in
//! registration order. Ids are strictly increasing per connection and never
//! reused; the dispatch loop tests rules in registration order and the first
//! match wins.

use vstd::prelude::*;

use crate::message::{Message, MessageV};
use crate::rule::{rule_matches, MatchRule, MatchRuleV};

verus! {

/// Whether a handler keeps its subscription after a delivery.
#[derive(Clone, Copy, PartialEq, Eq, Structural, Debug)]
pub enum HandlerMode {
    /// Signal continuation after every delivery: the filter stays registered.
    Keep,
    /// Signal no continuation after the first delivery: the filter is removed.
    Once,
}

/// A signal callback, as data: how it answers the continuation question and
/// how many deliveries it has seen.
#[derive(Clone, Copy, PartialEq, Eq, Structural)]
pub struct SignalHandler {
    pub mode: HandlerMode,
    pub received: u64,
}

/// What invoking a handler on a delivered signal does: the delivery is
/// counted, and the returned flag says whether the subscription goes on.
pub open spec fn run_handler_spec(h: SignalHandler) -> (SignalHandler, bool) {
    (
        SignalHandler {
            mode: h.mode,
            received: if h.received < u64::MAX {
                (h.received + 1) as u64
            } else {
                h.received
            },
        },
        h.mode == HandlerMode::Keep,
    )
}

/// Invokes a handler on a delivered signal.
pub fn run_handler(h: SignalHandler) -> (r: (SignalHandler, bool))
    ensures
        r == run_handler_spec(h),
{
    let received = if h.received < u64::MAX {
        h.received + 1
    } else {
        h.received
    };
    (
        SignalHandler { mode: h.mode, received },
        match h.mode {
            HandlerMode::Keep => true,
            HandlerMode::Once => false,
        },
    )
}

impl SignalHandler {
    /// A handler that keeps its subscription forever.
    pub fn keep() -> (r: SignalHandler)
        ensures
            r == (SignalHandler { mode: HandlerMode::Keep, received: 0u64 }),
    {
        SignalHandler { mode: HandlerMode::Keep, received: 0 }
    }

    /// A handler that asks to be removed after its first delivery.
    pub fn once() -> (r: SignalHandler)
        ensures
            r == (SignalHandler { mode: HandlerMode::Once, received: 0u64 }),
    {
        SignalHandler { mode: HandlerMode::Once, received: 0 }
    }
}

/// One registered subscription.
pub struct Filter {
    pub id: u32,
    pub rule: MatchRule,
    pub handler: SignalHandler,
}

/// Mathematical model of a [`Filter`].
#[verifier::ext_equal]
pub struct FilterV {
    pub id: u32,
    pub rule: MatchRuleV,
    pub handler: SignalHandler,
}

impl View for Filter {
    type V = FilterV;

    open spec fn view(&self) -> FilterV {
        FilterV { id: self.id, rule: self.rule@, handler: self.handler }
    }
}

impl DeepView for Filter {
    type V = FilterV;

    open spec fn deep_view(&self) -> FilterV {
        self@
    }
}

/// The registration-order position of the first filter whose rule accepts the
/// message, if any: the first match wins.
pub open spec fn first_match(s: Seq<FilterV>, m: MessageV) -> Option<int>
    decreases s.len(),
{
    if s.len() == 0 {
        None
    } else if rule_matches(s[0].rule, m) {
        Some(0int)
    } else {
        match first_match(s.drop_first(), m) {
            Some(i) => Some(i + 1),
            None => None,
        }
    }
}

/// What [`first_match`] means: the returned position matches, nothing before
/// it does, and `None` means nothing matches at all.
pub proof fn lemma_first_match(s: Seq<FilterV>, m: MessageV)
    ensures
        match first_match(s, m) {
            Some(i) => 0 <= i < s.len() && rule_matches(s[i].rule, m) && forall|j: int|
                0 <= j < i ==> !rule_matches(s[j].rule, m),
            None => forall|j: int| 0 <= j < s.len() ==> !rule_matches(s[j].rule, m),
        },
    decreases s.len(),
{
    if s.len() > 0 && !rule_matches(s[0].rule, m) {
        let t = s.drop_first();
        lemma_first_match(t, m);
        assert(forall|j: int| 0 <= j < t.len() ==> t[j] == s[j + 1]);
        match first_match(t, m) {
            Some(i) => {
                assert(t[i] == s[i + 1]);
                assert forall|j: int| 0 <= j < i + 1 implies !rule_matches(s[j].rule, m) by {
                    if j > 0 {
                        assert(t[j - 1] == s[j]);
                        assert(!rule_matches(t[j - 1].rule, m));
                    }
                }
            },
            None => {
                assert forall|j: int| 0 <= j < s.len() implies !rule_matches(s[j].rule, m) by {
                    if j > 0 {
                        assert(t[j - 1] == s[j]);
                    }
                }
            },
        }
    }
}

/// The registration-order position of the subscription with an id, if it is
/// still registered.
pub open spec fn find_id(s: Seq<FilterV>, id: u32) -> Option<int>
    decreases s.len(),
{
    if s.len() == 0 {
        None
    } else if s[0].id == id {
        Some(0int)
    } else {
        match find_id(s.drop_first(), id) {
            Some(i) => Some(i + 1),
            None => None,
        }
    }
}

/// What [`find_id`] means: the returned position carries the id, nothing
/// before it does, and `None` means no position carries it.
pub proof fn lemma_find_id(s: Seq<FilterV>, id: u32)
    ensures
        match find_id(s, id) {
            Some(i) => 0 <= i < s.len() && s[i].id == id && forall|j: int|
                0 <= j < i ==> s[j].id != id,
            None => forall|j: int| 0 <= j < s.len() ==> s[j].id != id,
        },
    decreases s.len(),
{
    if s.len() > 0 && s[0].id != id {
        let t = s.drop_first();
        lemma_find_id(t, id);
        assert(forall|j: int| 0 <= j < t.len() ==> t[j] == s[j + 1]);
        match find_id(t, id) {
            Some(i) => {
                assert(t[i] == s[i + 1]);
                assert forall|j: int| 0 <= j < i + 1 implies s[j].id != id by {
                    if j > 0 {
                        assert(t[j - 1] == s[j]);
                    }
                }
            },
            None => {
                assert forall|j: int| 0 <= j < s.len() implies s[j].id != id by {
                    if j > 0 {
                        assert(t[j - 1] == s[j]);
                    }
                }
            },
        }
    }
}

/// A position that carries the id, with nothing carrying it before, is what
/// [`find_id`] returns.
pub proof fn lemma_find_id_found(s: Seq<FilterV>, id: u32, i: int)
    requires
        0 <= i < s.len(),
        s[i].id == id,
        forall|j: int| 0 <= j < i ==> s[j].id != id,
    ensures
        find_id(s, id) == Some(i),
    decreases s.len(),
{
    if i > 0 {
        assert(forall|j: int| 0 <= j < s.drop_first().len() ==> s.drop_first()[j] == s[j + 1]);
        lemma_find_id_found(s.drop_first(), id, i - 1);
    }
}

/// The table of registered subscriptions, in registration order.
pub struct FilterTable {
    pub filters: Vec<Filter>,
}

impl View for FilterTable {
    type V = Seq<FilterV>;

    open spec fn view(&self) -> Seq<FilterV> {
        self.filters.deep_view()
    }
}

/// Registration order: ids strictly increase along the table.
pub open spec fn ids_sorted(s: Seq<FilterV>) -> bool {
    forall|i: int, j: int| 0 <= i < j < s.len() ==> s[i].id < s[j].id
}

/// All ids in the table are below the bound; the next id is fresh.
pub open spec fn ids_below(s: Seq<FilterV>, bound: u32) -> bool {
    forall|i: int| 0 <= i < s.len() ==> s[i].id < bound
}

impl FilterTable {
    /// An empty table.
    pub fn new() -> (r: FilterTable)
        ensures
            r@ == Seq::<FilterV>::empty(),
    {
        let r = FilterTable { filters: Vec::new() };
        proof {
            assert(r@ =~= Seq::<FilterV>::empty());
        }
        r
    }

    /// Registers a subscription under an id newer than every registered one.
    pub fn push_new(&mut self, f: Filter)
        requires
            ids_below(old(self)@, f.id),
        ensures
            final(self)@ == old(self)@.push(f@),
    {
        let ghost prev = self@;
        self.filters.push(f);
        proof {
            assert(self@ =~= prev.push(f@));
        }
    }

    /// The registration-order position of the first filter accepting the
    /// message, if any.
    pub fn find_first_match(&self, m: &Message) -> (r: Option<usize>)
        ensures
            match r {
                Some(i) => first_match(self@, m@) == Some(i as int),
                None => first_match(self@, m@) is None,
            },
    {
        let ghost s = self@;
        let n = self.filters.len();
        let mut i: usize = 0;
        while i < n
            invariant
                n == self.filters.len(),
                0 <= i <= n,
                s == self@,
                forall|j: int| 0 <= j < i ==> !rule_matches(s[j].rule, m@),
            decreases n - i,
        {
            if self.filters[i].rule.matches(m) {
                proof {
                    lemma_first_match_found(s, m@, i as int);
                }
                return Some(i);
            }
            i = i + 1;
        }
        proof {
            lemma_first_match(s, m@);
            if first_match(s, m@) is Some {
                let w = first_match(s, m@)->0;
                assert(!rule_matches(s[w].rule, m@));
            }
        }
        None
    }

    /// Takes the subscription at a registration-order position out.
    pub fn remove_at(&mut self, i: usize) -> (r: Filter)
        requires
            i < old(self)@.len(),
        ensures
            r@ == old(self)@[i as int],
            final(self)@ == old(self)@.remove(i as int),
    {
        let r = self.filters.remove(i);
        proof {
            assert(self@ =~= old(self)@.remove(i as int));
        }
        r
    }

    /// Puts a subscription back at the registration-order position it was
    /// taken from.
    pub fn insert_at(&mut self, i: usize, f: Filter)
        requires
            i <= old(self)@.len(),
        ensures
            final(self)@ == old(self)@.insert(i as int, f@),
    {
        self.filters.insert(i, f);
        proof {
            assert(self@ =~= old(self)@.insert(i as int, f@));
        }
    }

    /// Removes and returns the subscription registered under an id, if it is
    /// still registered; a second removal for the same id finds nothing.
    pub fn remove_by_id(&mut self, id: u32) -> (r: Option<Filter>)
        ensures
            match r {
                Some(f) => {
                    &&& find_id(old(self)@, id) is Some
                    &&& f@ == old(self)@[find_id(old(self)@, id)->0]
                    &&& final(self)@ == old(self)@.remove(find_id(old(self)@, id)->0)
                },
                None => final(self)@ == old(self)@ && find_id(old(self)@, id) is None,
            },
    {
        let ghost s = self@;
        let n = self.filters.len();
        let mut i: usize = 0;
        while i < n
            invariant
                n == self.filters.len(),
                0 <= i <= n,
                s == self@,
                old(self) == self,
                forall|j: int| 0 <= j < i ==> s[j].id != id,
            decreases n - i,
        {
            if self.filters[i].id == id {
                proof {
                    lemma_find_id_found(s, id, i as int);
                }
                let f = self.filters.remove(i);
                proof {
                    assert(self@ =~= s.remove(i as int));
                }
                return Some(f);
            }
            i = i + 1;
        }
        proof {
            lemma_find_id(s, id);
            if find_id(s, id) is Some {
                let w = find_id(s, id)->0;
                assert(s[w].id != id);
            }
        }
        None
    }
}

/// A position that matches, with nothing matching before it, is what
/// [`first_match`] returns.
pub proof fn lemma_first_match_found(s: Seq<FilterV>, m: MessageV, i: int)
    requires
        0 <= i < s.len(),
        rule_matches(s[i].rule, m),
        forall|j: int| 0 <= j < i ==> !rule_matches(s[j].rule, m),
    ensures
        first_match(s, m) == Some(i),
    decreases s.len(),
{
    if i > 0 {
        assert(!rule_matches(s[0].rule, m));
        assert(forall|j: int| 0 <= j < s.drop_first().len() ==> s.drop_first()[j] == s[j + 1]);
        lemma_first_match_found(s.drop_first(), m, i - 1);
    }
}

} // verus!
