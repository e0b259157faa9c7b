//! The message filter: a run-scoped deduplicator.
//!
//! Given a batch of messages and an optional compiled selector, the filter
//! partitions the batch into `results` (first seen per key, or everything
//! when there is no selector) and `skipped` (later duplicates), and keeps
//! running totals. `results` and `skipped` are per batch; the set of seen
//! keys and the totals persist for the whole run.

use vstd::prelude::*;
use crate::message::Message;
use crate::selector::{Selector, opt_str_views, regex_groups};

verus! {

/// Running totals of a filter: messages kept and duplicates skipped.
#[derive(Clone, Copy, Debug, PartialEq, Eq, Structural)]
pub struct MessageFilterStats {
    pub total: u64,
    pub deduped: u64,
}

/// The mathematical state of a message filter.
#[verifier::ext_equal]
pub ghost struct FilterModel {
    /// The selector pattern, when deduplication is on.
    pub pat: Option<Seq<char>>,
    /// Every dedup key met so far in the run.
    pub seen: Set<Seq<char>>,
    /// The messages kept from the batches since the last clear, in order.
    pub results: Seq<Message>,
    /// The duplicates skipped since the last clear, in order.
    pub skipped: Seq<Message>,
    /// How many messages were kept over the whole run.
    pub total: int,
    /// How many duplicates were skipped over the whole run.
    pub deduped: int,
}

/// The dedup key of a group list: the text of the last group that
/// participated in the match (the whole match when no inner group did).
pub open spec fn dedup_key(groups: Seq<Option<Seq<char>>>) -> Seq<char>
    decreases groups.len(),
{
    if groups.len() == 0 {
        Seq::empty()
    } else {
        match groups.last() {
            Some(k) => k,
            None => dedup_key(groups.drop_last()),
        }
    }
}

/// The dedup key of a message under a selector pattern: `None` when the
/// pattern does not match the body.
pub open spec fn msg_key(pat: Seq<char>, m: Message) -> Option<Seq<char>> {
    match regex_groups(pat, m.body_chars()) {
        Some(groups) => Some(dedup_key(groups)),
        None => None,
    }
}

/// The filter state after its per-batch buffers are emptied: the seen keys
/// and the totals persist.
pub open spec fn cleared(st: FilterModel) -> FilterModel {
    FilterModel { results: Seq::empty(), skipped: Seq::empty(), ..st }
}

/// One message through the filter.
///
/// Without a selector the message is kept. With one, a non-matching message
/// is kept unconditionally; a matching message is kept exactly when its key
/// is new, in which case the key is recorded.
pub open spec fn add_one(st: FilterModel, m: Message) -> FilterModel {
    match st.pat {
        None => FilterModel { results: st.results.push(m), total: st.total + 1, ..st },
        Some(p) => match msg_key(p, m) {
            None => FilterModel { results: st.results.push(m), total: st.total + 1, ..st },
            Some(k) => if st.seen.contains(k) {
                FilterModel { skipped: st.skipped.push(m), deduped: st.deduped + 1, ..st }
            } else {
                FilterModel {
                    seen: st.seen.insert(k),
                    results: st.results.push(m),
                    total: st.total + 1,
                    ..st
                }
            },
        },
    }
}

/// A whole batch through the filter, in batch order.
pub open spec fn add_seq(st: FilterModel, ms: Seq<Message>) -> FilterModel
    decreases ms.len(),
{
    if ms.len() == 0 {
        st
    } else {
        add_seq(add_one(st, ms.first()), ms.drop_first())
    }
}

proof fn lemma_add_seq_snoc(st: FilterModel, ms: Seq<Message>, m: Message)
    ensures
        add_seq(st, ms.push(m)) == add_one(add_seq(st, ms), m),
    decreases ms.len(),
{
    reveal_with_fuel(add_seq, 3);
    if ms.len() == 0 {
        assert(ms.push(m).first() == m);
        assert(ms.push(m).drop_first() =~= Seq::<Message>::empty());
    } else {
        assert(ms.push(m).first() == ms.first());
        assert(ms.push(m).drop_first() =~= ms.drop_first().push(m));
        lemma_add_seq_snoc(add_one(st, ms.first()), ms.drop_first(), m);
    }
}

/// Conservation: every message handed to the filter lands in exactly one
/// running total, so `total + deduped` grows by exactly the batch length.
pub proof fn lemma_conservation(st: FilterModel, ms: Seq<Message>)
    ensures
        add_seq(st, ms).total + add_seq(st, ms).deduped == st.total + st.deduped + ms.len(),
    decreases ms.len(),
{
    if ms.len() > 0 {
        lemma_conservation(add_one(st, ms.first()), ms.drop_first());
    }
}

/// With no selector, a batch is kept whole, in order, and nothing is
/// skipped; the kept total grows by the batch length.
pub proof fn lemma_no_selector(st: FilterModel, ms: Seq<Message>)
    requires
        st.pat is None,
    ensures
        add_seq(st, ms).results == st.results + ms,
        add_seq(st, ms).skipped == st.skipped,
        add_seq(st, ms).seen == st.seen,
        add_seq(st, ms).total == st.total + ms.len(),
        add_seq(st, ms).deduped == st.deduped,
    decreases ms.len(),
{
    if ms.len() == 0 {
        assert(st.results + ms =~= st.results);
    } else {
        lemma_no_selector(add_one(st, ms.first()), ms.drop_first());
        assert(st.results.push(ms.first()) + ms.drop_first() =~= st.results + ms);
    }
}

/// How many messages in `ms` carry dedup key `k` under pattern `p`.
pub open spec fn count_keyed(p: Seq<char>, ms: Seq<Message>, k: Seq<char>) -> int
    decreases ms.len(),
{
    if ms.len() == 0 {
        0
    } else {
        (if msg_key(p, ms.first()) == Some(k) {
            1int
        } else {
            0int
        }) + count_keyed(p, ms.drop_first(), k)
    }
}

/// The index of the first message in `ms` carrying dedup key `k`.
pub open spec fn first_keyed(p: Seq<char>, ms: Seq<Message>, k: Seq<char>) -> int
    decreases ms.len(),
{
    if ms.len() == 0 {
        0
    } else if msg_key(p, ms.first()) == Some(k) {
        0
    } else {
        1 + first_keyed(p, ms.drop_first(), k)
    }
}

proof fn lemma_count_nonneg(p: Seq<char>, ms: Seq<Message>, k: Seq<char>)
    ensures
        count_keyed(p, ms, k) >= 0,
    decreases ms.len(),
{
    if ms.len() > 0 {
        lemma_count_nonneg(p, ms.drop_first(), k);
    }
}

proof fn lemma_count_push(p: Seq<char>, ms: Seq<Message>, m: Message, k: Seq<char>)
    ensures
        count_keyed(p, ms.push(m), k) == count_keyed(p, ms, k) + (if msg_key(p, m) == Some(k) {
            1int
        } else {
            0int
        }),
    decreases ms.len(),
{
    reveal_with_fuel(count_keyed, 3);
    if ms.len() == 0 {
        assert(ms.push(m).first() == m);
        assert(ms.push(m).drop_first() =~= Seq::<Message>::empty());
    } else {
        assert(ms.push(m).first() == ms.first());
        assert(ms.push(m).drop_first() =~= ms.drop_first().push(m));
        lemma_count_push(p, ms.drop_first(), m, k);
    }
}

/// A message once kept stays kept while further messages are filtered.
proof fn lemma_results_monotone(st: FilterModel, ms: Seq<Message>, x: Message)
    requires
        st.results.contains(x),
    ensures
        add_seq(st, ms).results.contains(x),
    decreases ms.len(),
{
    if ms.len() > 0 {
        let st2 = add_one(st, ms.first());
        let i = choose|i: int| 0 <= i < st.results.len() && st.results[i] == x;
        assert(st2.results[i] == x);
        lemma_results_monotone(st2, ms.drop_first(), x);
    }
}

/// First seen wins, and it is run-scoped: with a selector in place, for any
/// key `k`, a batch adds exactly one message carrying `k` to `results` when
/// `k` is new to the run and the batch carries it at all, and every other
/// message carrying `k` goes to `skipped`; when `k` was already seen in an
/// earlier batch, every message carrying it is skipped. The key is recorded
/// exactly when the run has met it.
pub proof fn lemma_first_seen_wins(st: FilterModel, ms: Seq<Message>, k: Seq<char>)
    requires
        st.pat is Some,
    ensures
        ({
            let p = st.pat->0;
            let post = add_seq(st, ms);
            &&& (post.seen.contains(k) <==> st.seen.contains(k) || count_keyed(p, ms, k) > 0)
            &&& st.seen.contains(k) ==> {
                &&& count_keyed(p, post.results, k) == count_keyed(p, st.results, k)
                &&& count_keyed(p, post.skipped, k) == count_keyed(p, st.skipped, k)
                    + count_keyed(p, ms, k)
            }
            &&& (!st.seen.contains(k) && count_keyed(p, ms, k) > 0) ==> {
                &&& count_keyed(p, post.results, k) == count_keyed(p, st.results, k) + 1
                &&& count_keyed(p, post.skipped, k) == count_keyed(p, st.skipped, k)
                    + count_keyed(p, ms, k) - 1
            }
            &&& (!st.seen.contains(k) && count_keyed(p, ms, k) == 0) ==> {
                &&& count_keyed(p, post.results, k) == count_keyed(p, st.results, k)
                &&& count_keyed(p, post.skipped, k) == count_keyed(p, st.skipped, k)
            }
        }),
    decreases ms.len(),
{
    if ms.len() > 0 {
        let p = st.pat->0;
        let m = ms.first();
        let st2 = add_one(st, m);
        lemma_count_nonneg(p, ms.drop_first(), k);
        lemma_first_seen_wins(st2, ms.drop_first(), k);
        match msg_key(p, m) {
            None => {
                lemma_count_push(p, st.results, m, k);
            },
            Some(k2) => {
                if st.seen.contains(k2) {
                    lemma_count_push(p, st.skipped, m, k);
                } else {
                    lemma_count_push(p, st.results, m, k);
                }
            },
        }
    }
}

/// The one message kept for a fresh key is the first one carrying it.
pub proof fn lemma_first_kept(st: FilterModel, ms: Seq<Message>, k: Seq<char>)
    requires
        st.pat is Some,
        !st.seen.contains(k),
        count_keyed(st.pat->0, ms, k) > 0,
    ensures
        0 <= first_keyed(st.pat->0, ms, k) < ms.len(),
        msg_key(st.pat->0, ms[first_keyed(st.pat->0, ms, k)]) == Some(k),
        add_seq(st, ms).results.contains(ms[first_keyed(st.pat->0, ms, k)]),
    decreases ms.len(),
{
    let p = st.pat->0;
    let m = ms.first();
    let st2 = add_one(st, m);
    lemma_count_nonneg(p, ms.drop_first(), k);
    if msg_key(p, m) == Some(k) {
        assert(st2.results[st.results.len() as int] == m);
        lemma_results_monotone(st2, ms.drop_first(), m);
    } else {
        lemma_first_kept(st2, ms.drop_first(), k);
        assert(ms[first_keyed(p, ms, k)] == ms.drop_first()[first_keyed(p, ms.drop_first(), k)]);
    }
}

/// The set of keys recorded in the seen list.
pub open spec fn seen_keys(seen: Seq<String>) -> Set<Seq<char>> {
    Set::new(|k: Seq<char>| exists|i: int| 0 <= i < seen.len() && seen[i]@ == k)
}

proof fn lemma_seen_keys_push(seen: Seq<String>, key: String)
    ensures
        seen_keys(seen.push(key)) =~= seen_keys(seen).insert(key@),
{
    assert forall|k: Seq<char>| seen_keys(seen.push(key)).contains(k) implies seen_keys(
        seen,
    ).insert(key@).contains(k) by {
        let i = choose|i: int| 0 <= i < seen.push(key).len() && seen.push(key)[i]@ == k;
        if i < seen.len() {
            assert(seen[i]@ == k);
        } else {
            assert(seen.push(key)[i] == key);
        }
    };
    assert forall|k: Seq<char>| seen_keys(seen).insert(key@).contains(k) implies seen_keys(
        seen.push(key),
    ).contains(k) by {
        if k == key@ {
            assert(seen.push(key)[seen.len() as int]@ == k);
        } else {
            let i = choose|i: int| 0 <= i < seen.len() && seen[i]@ == k;
            assert(seen.push(key)[i]@ == k);
        }
    };
}

/// The stateful deduplicator.
pub struct MessageFilter {
    pub selector: Option<Selector>,
    pub seen: Vec<String>,
    pub results: Vec<Message>,
    pub skipped: Vec<Message>,
    pub stats: MessageFilterStats,
}

/// The pattern of an optional selector.
pub open spec fn pat_of(selector: Option<Selector>) -> Option<Seq<char>> {
    match selector {
        Some(s) => Some(s.pat()),
        None => None,
    }
}

impl View for MessageFilter {
    type V = FilterModel;

    open spec fn view(&self) -> FilterModel {
        FilterModel {
            pat: pat_of(self.selector),
            seen: seen_keys(self.seen@),
            results: self.results@,
            skipped: self.skipped@,
            total: self.stats.total as int,
            deduped: self.stats.deduped as int,
        }
    }
}

/// Whether the seen list holds the key.
fn seen_contains(seen: &Vec<String>, key: &String) -> (r: bool)
    ensures
        r == seen_keys(seen@).contains(key@),
{
    let n: usize = seen.len();
    let mut i: usize = 0;
    while i < n
        invariant
            0 <= i <= n,
            n == seen@.len(),
            forall|j: int| 0 <= j < i ==> seen@[j]@ != key@,
        decreases n - i,
    {
        if seen[i].eq(key) {
            return true;
        }
        i += 1;
    }
    false
}

/// The last participating group's text: walk the groups in order and keep
/// the text of each one that is present.
fn extract_key(groups: &Vec<Option<String>>) -> (k: String)
    ensures
        k@ == dedup_key(opt_str_views(groups@)),
{
    let mut key = String::new();
    let n: usize = groups.len();
    let mut i: usize = 0;
    proof {
        assert(opt_str_views(groups@.take(0)) =~= Seq::<Option<Seq<char>>>::empty());
    }
    while i < n
        invariant
            0 <= i <= n,
            n == groups@.len(),
            key@ == dedup_key(opt_str_views(groups@.take(i as int))),
        decreases n - i,
    {
        match &groups[i] {
            Some(s) => {
                key = s.clone();
            },
            None => {},
        }
        proof {
            let pre = opt_str_views(groups@.take(i as int));
            let post = opt_str_views(groups@.take(i as int + 1));
            assert(post =~= pre.push(
                match groups@[i as int] {
                    Some(x) => Some(x@),
                    None => None,
                },
            ));
            assert(post.drop_last() =~= pre);
        }
        i += 1;
    }
    proof {
        assert(groups@.take(n as int) =~= groups@);
    }
    key
}

impl MessageFilter {
    /// A fresh filter: nothing seen, nothing kept, totals at zero.
    pub fn new(selector: Option<Selector>) -> (r: MessageFilter)
        ensures
            r@.pat == pat_of(selector),
            r@.seen == Set::<Seq<char>>::empty(),
            r@.results == Seq::<Message>::empty(),
            r@.skipped == Seq::<Message>::empty(),
            r@.total == 0,
            r@.deduped == 0,
    {
        let r = MessageFilter {
            selector,
            seen: Vec::new(),
            results: Vec::new(),
            skipped: Vec::new(),
            stats: MessageFilterStats { total: 0, deduped: 0 },
        };
        proof {
            assert(seen_keys(r.seen@) =~= Set::<Seq<char>>::empty());
        }
        r
    }

    /// Runs a batch through the filter, in order.
    pub fn add(&mut self, messages: Vec<Message>)
        requires
            old(self).stats.total + messages@.len() <= u64::MAX,
            old(self).stats.deduped + messages@.len() <= u64::MAX,
        ensures
            final(self)@ == add_seq(old(self)@, messages@),
            final(self)@.total + final(self)@.deduped == old(self)@.total + old(self)@.deduped
                + messages@.len(),
    {
        let n: usize = messages.len();
        let mut i: usize = 0;
        proof {
            assert(messages@.take(0) =~= Seq::<Message>::empty());
            reveal_strlit("");
        }
        while i < n
            invariant
                0 <= i <= n,
                n == messages@.len(),
                self@ == add_seq(old(self)@, messages@.take(i as int)),
                self.stats.total <= old(self).stats.total + i,
                self.stats.deduped <= old(self).stats.deduped + i,
                old(self).stats.total + n <= u64::MAX,
                old(self).stats.deduped + n <= u64::MAX,
            decreases n - i,
        {
            let ghost pre = self@;
            let m = messages[i].duplicate();
            match &self.selector {
                None => {
                    self.stats.total = self.stats.total + 1;
                    self.results.push(m);
                },
                Some(sel) => {
                    let groups_opt = match &m.body {
                        Some(b) => sel.match_groups(b.as_str()),
                        None => sel.match_groups(""),
                    };
                    proof {
                        reveal_strlit("");
                        assert(""@ =~= Seq::<char>::empty());
                    }
                    match groups_opt {
                        None => {
                            self.stats.total = self.stats.total + 1;
                            self.results.push(m);
                        },
                        Some(groups) => {
                            let key = extract_key(&groups);
                            if !seen_contains(&self.seen, &key) {
                                proof {
                                    lemma_seen_keys_push(self.seen@, key);
                                }
                                self.seen.push(key);
                                self.stats.total = self.stats.total + 1;
                                self.results.push(m);
                            } else {
                                self.skipped.push(m);
                                self.stats.deduped = self.stats.deduped + 1;
                            }
                        },
                    }
                },
            }
            proof {
                assert(self@ == add_one(pre, messages@[i as int]));
                lemma_add_seq_snoc(old(self)@, messages@.take(i as int), messages@[i as int]);
                assert(messages@.take(i as int + 1) =~= messages@.take(i as int).push(
                    messages@[i as int],
                ));
            }
            i += 1;
        }
        proof {
            assert(messages@.take(n as int) =~= messages@);
            lemma_conservation(old(self)@, messages@);
        }
    }

    /// Empties the per-batch buffers; the seen keys and the totals persist,
    /// so deduplication stays run-scoped.
    pub fn clear(&mut self)
        ensures
            final(self)@.results == Seq::<Message>::empty(),
            final(self)@.skipped == Seq::<Message>::empty(),
            final(self)@.pat == old(self)@.pat,
            final(self)@.seen == old(self)@.seen,
            final(self)@.total == old(self)@.total,
            final(self)@.deduped == old(self)@.deduped,
    {
        self.skipped.clear();
        self.results.clear();
    }
}

} // verus!

