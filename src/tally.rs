use std::collections::HashMap;
use vstd::prelude::*;
use crate::tier::{Item, Rarity, Wear};

verus! {

broadcast use vstd::std_specs::hash::group_hash_axioms;

/// Number of `(rarity, wear)` buckets.
pub const BUCKETS: u64 = 25;

/// Key of the `(rarity, wear)` bucket: rarity rank major, wear rank minor, so
/// that keys ascend in report order.
pub open spec fn bucket_key(r: Rarity, w: Wear) -> u64 {
    (r.rank() * 5 + w.rank()) as u64
}

/// Counts `(total, bonus)` of the bucket at `k`, zero when it is absent.
pub open spec fn counts_at(m: Map<u64, (u64, u64)>, k: u64) -> (u64, u64) {
    if m.contains_key(k) {
        m[k]
    } else {
        (0, 0)
    }
}

/// The tally after one more item: its bucket is created if absent, its total
/// grows by one, and its bonus count by one when the item has the bonus flag.
pub open spec fn recorded_into(m: Map<u64, (u64, u64)>, item: Item) -> Map<u64, (u64, u64)> {
    let k = bucket_key(item.rarity, item.wear);
    let c = counts_at(m, k);
    m.insert(k, ((c.0 + 1) as u64, (if item.stattrak { c.1 + 1 } else { c.1 as int }) as u64))
}

/// The tally of a sequence of items, recorded in order into an empty one.
pub open spec fn tally_of(items: Seq<Item>) -> Map<u64, (u64, u64)>
    decreases items.len(),
{
    if items.len() == 0 {
        Map::empty()
    } else {
        recorded_into(tally_of(items.drop_last()), items.last())
    }
}

/// Sum of the totals of the buckets with keys below `n`.
pub open spec fn total_below(m: Map<u64, (u64, u64)>, n: nat) -> nat
    decreases n,
{
    if n == 0 {
        0
    } else {
        total_below(m, (n - 1) as nat) + counts_at(m, (n - 1) as u64).0 as nat
    }
}

/// What holds of a tally of `n` items: only real buckets, each created by an
/// item, no more bonus items than items, and the totals sum to `n`.
pub open spec fn tally_invariant(m: Map<u64, (u64, u64)>, n: nat) -> bool {
    &&& forall|k: u64| #[trigger] m.contains_key(k) ==> k < BUCKETS && 1 <= m[k].0 && m[k].1 <= m[k].0
    &&& total_below(m, BUCKETS as nat) == n
}

proof fn lemma_total_below_insert(m: Map<u64, (u64, u64)>, k: u64, c: (u64, u64), n: nat)
    requires
        n <= BUCKETS,
    ensures
        total_below(m.insert(k, c), n) == if k < n {
            total_below(m, n) - counts_at(m, k).0 + c.0
        } else {
            total_below(m, n) as int
        },
    decreases n,
{
    if n > 0 {
        let j = (n - 1) as nat;
        lemma_total_below_insert(m, k, c, j);
        assert(counts_at(m.insert(k, c), j as u64) == if k == j as u64 {
            c
        } else {
            counts_at(m, j as u64)
        });
    }
}

proof fn lemma_bucket_within_total(m: Map<u64, (u64, u64)>, k: u64, n: nat)
    requires
        k < n,
    ensures
        counts_at(m, k).0 <= total_below(m, n),
    decreases n,
{
    if k < n - 1 {
        lemma_bucket_within_total(m, k, (n - 1) as nat);
    }
}

/// Recording one item keeps the tally's invariant and adds one to its count.
pub proof fn lemma_record_keeps_invariant(m: Map<u64, (u64, u64)>, n: nat, item: Item)
    requires
        tally_invariant(m, n),
        n < u64::MAX,
    ensures
        tally_invariant(recorded_into(m, item), n + 1),
{
    let k = bucket_key(item.rarity, item.wear);
    lemma_bucket_within_total(m, k, BUCKETS as nat);
    let c = counts_at(m, k);
    let c2 = ((c.0 + 1) as u64, (if item.stattrak { c.1 + 1 } else { c.1 as int }) as u64);
    lemma_total_below_insert(m, k, c2, BUCKETS as nat);
}

/// After any sequence of recorded items, every bucket holds no more bonus
/// items than items, and the bucket totals sum to the number of items.
pub proof fn lemma_tally_consistent(items: Seq<Item>)
    requires
        items.len() <= u64::MAX,
    ensures
        tally_invariant(tally_of(items), items.len()),
        forall|k: u64| #[trigger]
            tally_of(items).contains_key(k) ==> tally_of(items)[k].1 <= tally_of(items)[k].0,
        total_below(tally_of(items), BUCKETS as nat) == items.len(),
    decreases items.len(),
{
    if items.len() == 0 {
        lemma_total_below_empty(BUCKETS as nat);
    } else {
        lemma_tally_consistent(items.drop_last());
        lemma_record_keeps_invariant(tally_of(items.drop_last()), (items.len() - 1) as nat, items.last());
    }
}

/// Number of items of `items` with rarity `r` and wear `w`.
pub open spec fn items_in(items: Seq<Item>, r: Rarity, w: Wear) -> nat {
    items.filter(|i: Item| i.rarity == r && i.wear == w).len()
}

/// Number of items of `items` with rarity `r`, wear `w` and the bonus flag.
pub open spec fn bonus_items_in(items: Seq<Item>, r: Rarity, w: Wear) -> nat {
    items.filter(|i: Item| i.rarity == r && i.wear == w && i.stattrak).len()
}

/// In the tally of a sequence of items, the bucket of `(r, w)` counts exactly
/// the items with that rarity and wear, and among them those with the bonus
/// flag; it is present exactly when some item has that rarity and wear.
pub proof fn lemma_tally_counts(items: Seq<Item>, r: Rarity, w: Wear)
    requires
        items.len() <= u64::MAX,
    ensures
        counts_at(tally_of(items), bucket_key(r, w)).0 == items_in(items, r, w),
        counts_at(tally_of(items), bucket_key(r, w)).1 == bonus_items_in(items, r, w),
        tally_of(items).contains_key(bucket_key(r, w)) <==> items_in(items, r, w) > 0,
    decreases items.len(),
{
    reveal(Seq::filter);
    if items.len() > 0 {
        let rest = items.drop_last();
        lemma_tally_counts(rest, r, w);
        lemma_tally_consistent(rest);
        lemma_bucket_within_total(tally_of(rest), bucket_key(r, w), BUCKETS as nat);
        let last = items.last();
        assert(bucket_key(last.rarity, last.wear) == bucket_key(r, w) <==> (last.rarity == r
            && last.wear == w));
    }
}

/// Two sequences with the same number of items, and of bonus items, in every
/// `(rarity, wear)` bucket give the same tally, in whatever order their items
/// come; in particular any reordering of one sequence gives the same tally.
pub proof fn lemma_tally_depends_on_counts_only(a: Seq<Item>, b: Seq<Item>)
    requires
        a.len() <= u64::MAX,
        b.len() <= u64::MAX,
        forall|r: Rarity, w: Wear| #[trigger] items_in(a, r, w) == items_in(b, r, w),
        forall|r: Rarity, w: Wear| #[trigger] bonus_items_in(a, r, w) == bonus_items_in(b, r, w),
    ensures
        tally_of(a) == tally_of(b),
{
    lemma_tally_consistent(a);
    lemma_tally_consistent(b);
    assert forall|k: u64| #[trigger] tally_of(a).contains_key(k) || tally_of(b).contains_key(k) implies
        tally_of(a).contains_key(k) && tally_of(b).contains_key(k) && tally_of(a)[k] == tally_of(b)[k] by {
        let r = Rarity::at(k as int / 5);
        let w = Wear::at(k as int % 5);
        assert(bucket_key(r, w) == k);
        lemma_tally_counts(a, r, w);
        lemma_tally_counts(b, r, w);
        assert(items_in(a, r, w) == items_in(b, r, w));
        assert(bonus_items_in(a, r, w) == bonus_items_in(b, r, w));
    }
    assert(tally_of(a) =~= tally_of(b));
}

/// Recording two items in either order gives the same tally, so the tally (and
/// the report drawn from it) does not depend on the order of the draws.
pub proof fn lemma_record_order_irrelevant(m: Map<u64, (u64, u64)>, n: nat, a: Item, b: Item)
    requires
        tally_invariant(m, n),
        n + 2 <= u64::MAX,
    ensures
        recorded_into(recorded_into(m, a), b) == recorded_into(recorded_into(m, b), a),
{
    let ka = bucket_key(a.rarity, a.wear);
    lemma_bucket_within_total(m, ka, BUCKETS as nat);
    assert(recorded_into(recorded_into(m, a), b) =~= recorded_into(recorded_into(m, b), a));
}

/// Counts of simulated items per rarity and wear.
pub struct Aggregate {
    counts: HashMap<u64, (u64, u64)>,
    recorded: u64,
}

impl View for Aggregate {
    type V = Map<u64, (u64, u64)>;

    /// The buckets, by `bucket_key`, with their `(total, bonus)` counts.
    closed spec fn view(&self) -> Map<u64, (u64, u64)> {
        self.counts@
    }
}

impl Aggregate {
    /// Number of items recorded so far.
    pub closed spec fn recorded_count(&self) -> nat {
        self.recorded as nat
    }

    pub open spec fn wf(&self) -> bool {
        tally_invariant(self@, self.recorded_count())
    }

    /// An aggregate with no buckets.
    pub fn new() -> (r: Aggregate)
        ensures
            r.wf(),
            r@ == Map::<u64, (u64, u64)>::empty(),
            r.recorded_count() == 0,
    {
        let r = Aggregate { counts: HashMap::new(), recorded: 0 };
        assert(total_below(r@, BUCKETS as nat) == 0) by {
            lemma_total_below_empty(BUCKETS as nat);
        }
        r
    }

    /// Folds one item into its `(rarity, wear)` bucket.
    pub fn record(&mut self, item: &Item)
        requires
            old(self).wf(),
            old(self).recorded_count() < u64::MAX,
        ensures
            final(self).wf(),
            final(self)@ == recorded_into(old(self)@, *item),
            final(self).recorded_count() == old(self).recorded_count() + 1,
    {
        let key = bucket_key_of(item.rarity, item.wear);
        let (total, bonus) = match self.counts.get(&key) {
            Some(c) => *c,
            None => (0, 0),
        };
        proof {
            lemma_bucket_within_total(self@, key, BUCKETS as nat);
            lemma_record_keeps_invariant(self@, self.recorded_count(), *item);
        }
        let bonus = if item.stattrak {
            bonus + 1
        } else {
            bonus
        };
        self.counts.insert(key, (total + 1, bonus));
        self.recorded = self.recorded + 1;
    }

    /// Counts `(total, bonus)` of the `(rarity, wear)` bucket, if any item fell in it.
    pub fn get(&self, rarity: Rarity, wear: Wear) -> (r: Option<(u64, u64)>)
        ensures
            r == (if self@.contains_key(bucket_key(rarity, wear)) {
                Some(self@[bucket_key(rarity, wear)])
            } else {
                None
            }),
    {
        match self.counts.get(&bucket_key_of(rarity, wear)) {
            Some(c) => Some(*c),
            None => None,
        }
    }

    /// Number of items recorded so far.
    pub fn recorded(&self) -> (r: u64)
        ensures
            r == self.recorded_count(),
    {
        self.recorded
    }
}

proof fn lemma_total_below_empty(n: nat)
    ensures
        total_below(Map::<u64, (u64, u64)>::empty(), n) == 0,
    decreases n,
{
    if n > 0 {
        lemma_total_below_empty((n - 1) as nat);
    }
}

pub(crate) fn bucket_key_of(r: Rarity, w: Wear) -> (k: u64)
    ensures
        k == bucket_key(r, w),
        k < BUCKETS,
{
    r.rank_of() * 5 + w.rank_of()
}

} // verus!
