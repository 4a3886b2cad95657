//! Fan-out completions and the ownership aggregator.
//!
//! One unit of work runs per catalog identifier; its result is a
//! [`Completion`].  The [`Aggregator`] collects exactly one completion per
//! identifier, discards zero amounts, and — once every completion has
//! arrived — assembles the final report, sorted by the textual form of the
//! identifier.  Per-item failures are absorbed here: a failed balance query
//! counts as amount zero, failed metadata as the all-empty default.

use vstd::prelude::*;
use vstd::multiset::Multiset;
use crate::defines::NetworkType;
use crate::digits::{
    dec_string, lex_less_str, lemma_dec_digits_injective, lemma_lex_le_transitive,
    lemma_lex_lt_asymmetric, lemma_lex_lt_connected, spec_dec_digits, spec_lex_le, spec_lex_lt,
};
use crate::models::{
    spec_default_metadata, MetadataView, NamiLandERC1155NFTMetadata, NamiLandNFTOwnership,
    OwnershipItem, OwnershipItemView,
};

verus! {

broadcast use {vstd::seq_lib::group_to_multiset_ensures, vstd::multiset::group_multiset_axioms};

/// The result of one unit of fan-out work: the catalog identifier it served,
/// the balance found (zero on failure), and the metadata resolved (the
/// all-empty default on failure or when nothing is held).
#[derive(Debug, Clone, PartialEq)]
pub struct Completion {
    pub nft_id: u64,
    pub amount: u64,
    pub nft_metadata: NamiLandERC1155NFTMetadata,
}

/// The report item a completion turns into: the identifier becomes its
/// decimal text.
pub open spec fn spec_item_view(c: Completion) -> OwnershipItemView {
    OwnershipItemView {
        nft_id: spec_dec_digits(c.nft_id as nat),
        amount: c.amount,
        nft_metadata: c.nft_metadata@,
    }
}

/// The amount a unit reports: the queried balance, or zero when the ledger
/// query failed.
pub open spec fn spec_unit_amount(balance: Option<u64>) -> u64 {
    match balance {
        Option::Some(b) => b,
        Option::None => 0,
    }
}

/// The metadata a unit reports: what the cache resolved when something is
/// held, the all-empty default when nothing is held or resolution failed.
pub open spec fn spec_unit_metadata(
    balance: Option<u64>,
    metadata: Option<NamiLandERC1155NFTMetadata>,
) -> MetadataView {
    if spec_unit_amount(balance) == 0 {
        spec_default_metadata()
    } else {
        match metadata {
            Option::Some(m) => m@,
            Option::None => spec_default_metadata(),
        }
    }
}

/// The per-identifier outcome policy: a failed ledger query counts as zero
/// balance, failed metadata resolution as the default metadata; neither
/// failure propagates.  `balance` is `None` exactly when the ledger query
/// failed; `metadata` is `None` when metadata was not resolved (not owned,
/// or resolution failed).
pub fn unit_outcome(
    nft_id: u64,
    balance: Option<u64>,
    metadata: Option<NamiLandERC1155NFTMetadata>,
) -> (c: Completion)
    ensures
        c.nft_id == nft_id,
        c.amount == spec_unit_amount(balance),
        c.nft_metadata@ == spec_unit_metadata(balance, metadata),
{
    let amount: u64 = match balance {
        Option::Some(b) => b,
        Option::None => 0,
    };
    let nft_metadata: NamiLandERC1155NFTMetadata = if amount == 0 {
        NamiLandERC1155NFTMetadata::default()
    } else {
        match metadata {
            Option::Some(m) => m,
            Option::None => NamiLandERC1155NFTMetadata::default(),
        }
    };
    Completion { nft_id, amount, nft_metadata }
}

/// Report items are sorted by the lexicographic order of their textual
/// identifiers.
pub open spec fn spec_sorted_items(s: Seq<OwnershipItemView>) -> bool {
    forall|i: int, j: int| 0 <= i < j < s.len() ==> spec_lex_le(s[i].nft_id, s[j].nft_id)
}

/// No two report items carry the same textual identifier.
pub open spec fn spec_distinct_ids(s: Seq<OwnershipItemView>) -> bool {
    forall|i: int, j: int| 0 <= i < j < s.len() ==> s[i].nft_id != s[j].nft_id
}

/// Every report item carries a positive amount.
pub open spec fn spec_amounts_positive(s: Seq<OwnershipItemView>) -> bool {
    forall|i: int| 0 <= i < s.len() ==> (#[trigger] s[i]).amount > 0
}

/// The report items a sequence of kept completions stands for.
pub open spec fn spec_kept_views(kept: Seq<Completion>) -> Seq<OwnershipItemView> {
    kept.map_values(|c: Completion| spec_item_view(c))
}

/// The views of a vector of report items.
pub open spec fn spec_item_views(v: Seq<OwnershipItem>) -> Seq<OwnershipItemView> {
    v.map_values(|x: OwnershipItem| x@)
}

/// What the aggregator guarantees of a finished item list: it holds exactly
/// the kept (positive-amount) completions, sorted by textual identifier,
/// each identifier at most once.
pub open spec fn spec_report_items_of(kept: Seq<Completion>, items: Seq<OwnershipItemView>) -> bool {
    &&& items.to_multiset() == spec_kept_views(kept).to_multiset()
    &&& items.len() == kept.len()
    &&& spec_sorted_items(items)
    &&& spec_distinct_ids(items)
    &&& spec_amounts_positive(items)
}

/// Collects exactly one completion per catalog identifier and assembles the
/// final report once all have arrived.  Arrival order is immaterial: the
/// finished item list is determined by the set of completions alone
/// ([`lemma_report_deterministic`]).
pub struct Aggregator {
    /// How many completions are expected: the catalog size.
    pub expected: usize,
    /// The identifiers whose completions have arrived, in arrival order.
    pub seen: Vec<u64>,
    /// The completions with positive amounts, in arrival order.
    pub kept: Vec<Completion>,
}

impl Aggregator {
    /// The aggregator's internal consistency: one completion per identifier,
    /// never more than expected, and only positive amounts kept.
    pub open spec fn wf(self) -> bool {
        &&& self.seen@.len() <= self.expected
        &&& forall|i: int, j: int|
            0 <= i < j < self.seen@.len() ==> self.seen@[i] != self.seen@[j]
        &&& forall|i: int|
            0 <= i < self.kept@.len() ==> self.seen@.contains(
                (#[trigger] self.kept@[i]).nft_id,
            )
        &&& forall|i: int| 0 <= i < self.kept@.len() ==> (#[trigger] self.kept@[i]).amount > 0
        &&& forall|i: int, j: int|
            0 <= i < j < self.kept@.len() ==> self.kept@[i].nft_id != self.kept@[j].nft_id
    }

    /// Aggregation is complete exactly when one completion per expected
    /// catalog identifier has been received.
    pub open spec fn spec_complete(self) -> bool {
        self.seen@.len() == self.expected
    }

    /// A fresh aggregator awaiting `expected` completions.
    pub fn new(expected: usize) -> (a: Aggregator)
        ensures
            a.wf(),
            a.expected == expected,
            a.seen@ == Seq::<u64>::empty(),
            a.kept@ == Seq::<Completion>::empty(),
    {
        let a = Aggregator { expected, seen: Vec::new(), kept: Vec::new() };
        proof {
            assert(a.seen@ =~= Seq::<u64>::empty());
            assert(a.kept@ =~= Seq::<Completion>::empty());
        }
        a
    }

    /// How many completions have been received so far.
    pub fn received(&self) -> (n: usize)
        ensures
            n == self.seen@.len(),
    {
        self.seen.len()
    }

    /// Whether every expected completion has been received.
    pub fn is_complete(&self) -> (r: bool)
        ensures
            r == self.spec_complete(),
    {
        self.seen.len() == self.expected
    }

    /// Whether a completion for this identifier has already been received.
    pub fn has_seen(&self, nft_id: u64) -> (b: bool)
        ensures
            b == self.seen@.contains(nft_id),
    {
        let n = self.seen.len();
        let mut i: usize = 0;
        while i < n
            invariant
                i <= n,
                n == self.seen@.len(),
                forall|k: int| 0 <= k < i ==> self.seen@[k] != nft_id,
            decreases n - i,
        {
            if self.seen[i] == nft_id {
                return true;
            }
            i = i + 1;
        }
        false
    }

    /// Records one completion.  A zero amount leaves the kept set unchanged —
    /// the item is discarded — while a positive amount is kept; either way
    /// exactly one more completion counts towards the join.
    pub fn accept(&mut self, c: Completion)
        requires
            old(self).wf(),
            !old(self).seen@.contains(c.nft_id),
            old(self).seen@.len() < old(self).expected,
        ensures
            final(self).wf(),
            final(self).expected == old(self).expected,
            final(self).seen@ == old(self).seen@.push(c.nft_id),
            final(self).kept@ == if c.amount > 0 {
                old(self).kept@.push(c)
            } else {
                old(self).kept@
            },
    {
        self.seen.push(c.nft_id);
        if c.amount > 0 {
            self.kept.push(c);
        }
        proof {
            assert forall|i: int|
                0 <= i < self.kept@.len() implies self.seen@.contains(
                (#[trigger] self.kept@[i]).nft_id,
            ) by {
                if i < old(self).kept@.len() {
                    assert(old(self).seen@.contains(old(self).kept@[i].nft_id));
                    let k = choose|k: int|
                        0 <= k < old(self).seen@.len() && old(self).seen@[k] == old(
                            self,
                        ).kept@[i].nft_id;
                    assert(self.seen@[k] == self.kept@[i].nft_id);
                } else {
                    assert(self.seen@[self.seen@.len() - 1] == c.nft_id);
                }
            }
            assert forall|i: int, j: int|
                0 <= i < j < self.kept@.len() implies self.kept@[i].nft_id
                != self.kept@[j].nft_id by {
                if j == self.kept@.len() - 1 && self.kept@.len() > old(self).kept@.len() {
                    assert(old(self).seen@.contains(old(self).kept@[i].nft_id));
                }
            }
        }
    }
}

/// Whether `x` must still move left past position `j - 1` during insertion:
/// its textual identifier sorts strictly before the one already there.
fn shifts_before(r: &Vec<OwnershipItem>, j: usize, x: &OwnershipItem) -> (b: bool)
    requires
        0 < j <= r@.len(),
    ensures
        b == spec_lex_lt(x@.nft_id, spec_item_views(r@)[j as int - 1].nft_id),
{
    let prev: &OwnershipItem = vstd::slice::slice_index_get(r.as_slice(), j - 1);
    proof {
        assert(spec_item_views(r@)[j as int - 1] == r@[j as int - 1]@);
    }
    lex_less_str(x.nft_id.as_str(), prev.nft_id.as_str())
}

/// Insertion sort of report items by the lexicographic order of their
/// textual identifiers: the result is sorted and holds the same items.
fn sort_items(v: Vec<OwnershipItem>) -> (r: Vec<OwnershipItem>)
    ensures
        spec_item_views(r@).to_multiset() == spec_item_views(v@).to_multiset(),
        spec_sorted_items(spec_item_views(r@)),
{
    let ghost orig = v@;
    let mut rest = v;
    let mut r: Vec<OwnershipItem> = Vec::new();
    proof {
        assert(spec_item_views(r@) =~= Seq::<OwnershipItemView>::empty());
        assert(spec_item_views(r@).to_multiset().add(spec_item_views(rest@).to_multiset())
            =~= spec_item_views(orig).to_multiset());
    }
    while rest.len() > 0
        invariant
            spec_sorted_items(spec_item_views(r@)),
            spec_item_views(r@).to_multiset().add(spec_item_views(rest@).to_multiset())
                == spec_item_views(orig).to_multiset(),
        decreases rest@.len(),
    {
        let ghost rest_before = rest@;
        let x = rest.pop().unwrap();
        let ghost xv = x@;
        proof {
            assert(rest_before =~= rest@.push(x));
            assert(spec_item_views(rest_before) =~= spec_item_views(rest@).push(xv));
        }
        let mut j: usize = r.len();
        while j > 0 && shifts_before(&r, j, &x)
            invariant
                j <= r@.len(),
                xv == x@,
                forall|k: int|
                    j <= k < r@.len() ==> spec_lex_lt(
                        xv.nft_id,
                        spec_item_views(r@)[k].nft_id,
                    ),
            decreases j,
        {
            j = j - 1;
        }
        let ghost r_before = r@;
        proof {
            let rv = spec_item_views(r_before);
            let rv2 = rv.insert(j as int, xv);
            let jj = j as int;
            if jj > 0 {
                lemma_lex_lt_connected(rv[jj - 1].nft_id, xv.nft_id);
            }
            assert forall|i1: int, i2: int|
                0 <= i1 < i2 < rv2.len() implies spec_lex_le(
                rv2[i1].nft_id,
                rv2[i2].nft_id,
            ) by {
                if i2 < jj {
                    assert(spec_lex_le(rv[i1].nft_id, rv[i2].nft_id));
                } else if i1 < jj && i2 == jj {
                    assert(spec_lex_le(rv[i1].nft_id, rv[jj - 1].nft_id));
                    lemma_lex_le_transitive(rv[i1].nft_id, rv[jj - 1].nft_id, xv.nft_id);
                } else if i1 < jj && i2 > jj {
                    assert(spec_lex_le(rv[i1].nft_id, rv[i2 - 1].nft_id));
                } else if i1 == jj {
                    assert(spec_lex_lt(xv.nft_id, rv[i2 - 1].nft_id));
                } else {
                    assert(spec_lex_le(rv[i1 - 1].nft_id, rv[i2 - 1].nft_id));
                }
            }
        }
        r.insert(j, x);
        proof {
            assert(spec_item_views(r@) =~= spec_item_views(r_before).insert(j as int, xv));
            vstd::seq_lib::to_multiset_insert(spec_item_views(r_before), j as int, xv);
            assert(spec_item_views(r@).to_multiset().add(spec_item_views(rest@).to_multiset())
                =~= spec_item_views(orig).to_multiset());
        }
    }
    proof {
        assert(spec_item_views(rest@) =~= Seq::<OwnershipItemView>::empty());
        assert(spec_item_views(rest@).to_multiset() =~= Multiset::<OwnershipItemView>::empty());
        assert(spec_item_views(r@).to_multiset() =~= spec_item_views(r@).to_multiset().add(
            Multiset::<OwnershipItemView>::empty(),
        ));
    }
    r
}

impl Aggregator {
    /// Assembles the final report.  Requires the join to be complete: exactly
    /// one completion per expected catalog identifier has been received.
    /// The item list holds exactly the kept completions, sorted by textual
    /// identifier, with no zero amounts and no duplicate identifiers.
    pub fn finish(
        self,
        public_address: String,
        network: NetworkType,
        contract_address: String,
    ) -> (r: NamiLandNFTOwnership)
        requires
            self.wf(),
            self.spec_complete(),
        ensures
            r@.public_address == public_address@,
            r@.network == network,
            r@.contract_address == contract_address@,
            spec_report_items_of(self.kept@, r@.ownerships),
    {
        let ghost kept0 = self.kept@;
        let Aggregator { expected: _, seen: _, kept } = self;
        let mut kept = kept;
        let mut items: Vec<OwnershipItem> = Vec::new();
        proof {
            assert(spec_item_views(items@) =~= Seq::<OwnershipItemView>::empty());
            assert(spec_item_views(items@).to_multiset().add(
                spec_kept_views(kept@).to_multiset(),
            ) =~= spec_kept_views(kept0).to_multiset());
        }
        while kept.len() > 0
            invariant
                spec_item_views(items@).to_multiset().add(spec_kept_views(kept@).to_multiset())
                    == spec_kept_views(kept0).to_multiset(),
                items@.len() + kept@.len() == kept0.len(),
            decreases kept@.len(),
        {
            let ghost kept_before = kept@;
            let c = kept.pop().unwrap();
            let ghost cv = spec_item_view(c);
            proof {
                assert(kept_before =~= kept@.push(c));
                assert(spec_kept_views(kept_before) =~= spec_kept_views(kept@).push(cv));
            }
            let Completion { nft_id, amount, nft_metadata } = c;
            let id_text = dec_string(nft_id);
            let item = OwnershipItem { nft_id: id_text, amount, nft_metadata };
            let ghost items_before = items@;
            items.push(item);
            proof {
                assert(item@ =~= cv);
                assert(spec_item_views(items@) =~= spec_item_views(items_before).push(cv));
                assert(spec_item_views(items@).to_multiset().add(
                    spec_kept_views(kept@).to_multiset(),
                ) =~= spec_kept_views(kept0).to_multiset());
            }
        }
        proof {
            assert(spec_kept_views(kept@) =~= Seq::<OwnershipItemView>::empty());
            assert(spec_kept_views(kept@).to_multiset() =~= Multiset::<OwnershipItemView>::empty());
            assert(spec_item_views(items@).to_multiset() =~= spec_item_views(
                items@,
            ).to_multiset().add(Multiset::<OwnershipItemView>::empty()));
        }
        let items = sort_items(items);
        proof {
            lemma_kept_view_properties(kept0, spec_item_views(items@));
        }
        let r = NamiLandNFTOwnership { public_address, network, contract_address, ownerships: items };
        proof {
            assert(r@.ownerships =~= spec_item_views(items@));
        }
        r
    }
}

/// A mapped sequence's multiset is determined by the source multiset: two
/// sequences holding the same elements map to the same elements.
proof fn lemma_map_values_multiset<A, B>(x: Seq<A>, y: Seq<A>, f: spec_fn(A) -> B)
    requires
        x.to_multiset() == y.to_multiset(),
    ensures
        x.map_values(f).to_multiset() == y.map_values(f).to_multiset(),
    decreases x.len(),
{
    if x.len() == 0 {
        assert(x.to_multiset().len() == 0);
        assert(y.to_multiset().len() == y.len());
        assert(x.map_values(f) =~= Seq::<B>::empty());
        assert(y.map_values(f) =~= Seq::<B>::empty());
    } else {
        let a = x.last();
        let xr = x.drop_last();
        assert(x =~= xr.push(a));
        assert(x.contains(a));
        assert(x.to_multiset().count(a) > 0);
        assert(y.to_multiset().count(a) > 0);
        assert(y.contains(a));
        let i = choose|i: int| 0 <= i < y.len() && y[i] == a;
        let yr = y.remove(i);
        assert(yr.to_multiset() == y.to_multiset().remove(a));
        assert(xr.push(a).to_multiset() == xr.to_multiset().insert(a));
        assert(xr.to_multiset() =~= x.to_multiset().remove(a));
        lemma_map_values_multiset(xr, yr, f);
        assert(x.map_values(f) =~= xr.map_values(f).push(f(a)));
        assert(x.map_values(f).to_multiset() == xr.map_values(f).to_multiset().insert(f(a)));
        assert(yr.map_values(f) =~= y.map_values(f).remove(i));
        assert(y.map_values(f).remove(i).to_multiset() == y.map_values(f).to_multiset().remove(
            y.map_values(f)[i],
        ));
        assert(y.map_values(f)[i] == f(a));
        assert(y.map_values(f).contains(y.map_values(f)[i]));
        assert(y.map_values(f).to_multiset().count(f(a)) > 0);
        assert(y.map_values(f).to_multiset() =~= y.map_values(f).to_multiset().remove(
            f(a),
        ).insert(f(a)));
    }
}

/// A finished item list inherits what holds of the kept completions: since
/// catalog identifiers are distinct and their decimal texts therefore
/// distinct, every item carries a unique textual identifier and a positive
/// amount, and there are as many items as kept completions.
proof fn lemma_kept_view_properties(kept: Seq<Completion>, s: Seq<OwnershipItemView>)
    requires
        s.to_multiset() == spec_kept_views(kept).to_multiset(),
        forall|i: int, j: int| 0 <= i < j < kept.len() ==> kept[i].nft_id != kept[j].nft_id,
        forall|i: int| 0 <= i < kept.len() ==> (#[trigger] kept[i]).amount > 0,
    ensures
        spec_distinct_ids(s),
        spec_amounts_positive(s),
        s.len() == kept.len(),
{
    let kv = spec_kept_views(kept);
    assert(s.len() == kv.len()) by {
        assert(s.to_multiset().len() == kv.to_multiset().len());
    }
    assert forall|i: int, j: int|
        0 <= i < j < kv.len() implies #[trigger] kv[i] != #[trigger] kv[j] by {
        if kv[i].nft_id == kv[j].nft_id {
            lemma_dec_digits_injective(kept[i].nft_id as nat, kept[j].nft_id as nat);
        }
    }
    assert(kv.no_duplicates());
    kv.lemma_multiset_has_no_duplicates();
    s.lemma_multiset_has_no_duplicates_conv();
    assert(s.no_duplicates());
    assert forall|i: int| 0 <= i < s.len() implies (#[trigger] s[i]).amount > 0 by {
        assert(s.contains(s[i]));
        assert(s.to_multiset().count(s[i]) > 0);
        assert(kv.to_multiset().count(s[i]) > 0);
        assert(kv.contains(s[i]));
        let k = choose|k: int| 0 <= k < kv.len() && kv[k] == s[i];
        assert(kv[k].amount == kept[k].amount);
    }
    assert forall|i: int, j: int|
        0 <= i < j < s.len() implies s[i].nft_id != s[j].nft_id by {
        if s[i].nft_id == s[j].nft_id {
            assert(s[i] != s[j]);
            assert(s.contains(s[i]));
            assert(s.to_multiset().count(s[i]) > 0);
            assert(kv.to_multiset().count(s[i]) > 0);
            assert(kv.contains(s[i]));
            assert(s.contains(s[j]));
            assert(s.to_multiset().count(s[j]) > 0);
            assert(kv.to_multiset().count(s[j]) > 0);
            assert(kv.contains(s[j]));
            let k1 = choose|k: int| 0 <= k < kv.len() && kv[k] == s[i];
            let k2 = choose|k: int| 0 <= k < kv.len() && kv[k] == s[j];
            assert(kv[k1].nft_id == kv[k2].nft_id);
            if k1 != k2 {
                lemma_dec_digits_injective(kept[k1].nft_id as nat, kept[k2].nft_id as nat);
                assert(kept[k1].nft_id != kept[k2].nft_id);
                assert(false);
            }
        }
    }
}

/// The completions an aggregation keeps: those with positive amounts, in
/// arrival order.
pub open spec fn spec_positive_completions(s: Seq<Completion>) -> Seq<Completion> {
    s.filter(|c: Completion| c.amount > 0)
}

/// One resolution request joined in a single step: exactly one completion
/// per catalog identifier is consumed — no fewer, no more — and the report
/// keeps exactly those with positive amounts, sorted by textual identifier.
pub fn assemble_report(
    public_address: String,
    network: NetworkType,
    contract_address: String,
    completions: Vec<Completion>,
) -> (r: NamiLandNFTOwnership)
    requires
        forall|i: int, j: int|
            0 <= i < j < completions@.len() ==> completions@[i].nft_id
                != completions@[j].nft_id,
    ensures
        r@.public_address == public_address@,
        r@.network == network,
        r@.contract_address == contract_address@,
        spec_report_items_of(spec_positive_completions(completions@), r@.ownerships),
{
    let ghost orig = completions@;
    let n = completions.len();
    let mut agg = Aggregator::new(n);
    let mut rest = completions;
    proof {
        assert(rest@ =~= orig.skip(0));
        assert(agg.seen@ =~= orig.take(0).map_values(|c: Completion| c.nft_id));
        assert(orig.take(0) =~= Seq::<Completion>::empty());
        assert(spec_positive_completions(orig.take(0)) =~= Seq::<Completion>::empty()) by {
            reveal(Seq::filter);
        }
    }
    while rest.len() > 0
        invariant
            agg.wf(),
            agg.expected == n,
            n == orig.len(),
            rest@.len() <= orig.len(),
            rest@ == orig.skip(orig.len() - rest@.len()),
            agg.seen@ == orig.take(orig.len() - rest@.len()).map_values(|c: Completion| c.nft_id),
            agg.kept@ == spec_positive_completions(orig.take(orig.len() - rest@.len())),
            forall|i: int, j: int|
                0 <= i < j < orig.len() ==> orig[i].nft_id != orig[j].nft_id,
        decreases rest@.len(),
    {
        let ghost i = orig.len() - rest@.len();
        let c = rest.remove(0);
        proof {
            assert(c == orig.skip(i)[0]);
            assert(c == orig[i]);
            assert(rest@ =~= orig.skip(i).remove(0));
            assert(rest@ =~= orig.skip(i + 1));
            assert(!agg.seen@.contains(c.nft_id)) by {
                if agg.seen@.contains(c.nft_id) {
                    let k = choose|k: int|
                        0 <= k < agg.seen@.len() && agg.seen@[k] == c.nft_id;
                    assert(agg.seen@[k] == orig.take(i)[k].nft_id);
                    assert(orig[k].nft_id == orig[i].nft_id);
                }
            }
        }
        agg.accept(c);
        proof {
            assert(agg.seen@ =~= orig.take(i + 1).map_values(|c: Completion| c.nft_id)) by {
                assert(orig.take(i + 1).drop_last() =~= orig.take(i));
                assert forall|k: int|
                    0 <= k < i + 1 implies orig.take(i + 1).map_values(
                    |c: Completion| c.nft_id,
                )[k] == agg.seen@[k] by {
                    if k < i {
                        assert(orig.take(i).map_values(|c: Completion| c.nft_id)[k]
                            == orig.take(i)[k].nft_id);
                    }
                }
            }
            assert(agg.kept@ =~= spec_positive_completions(orig.take(i + 1))) by {
                reveal(Seq::filter);
                assert(orig.take(i + 1).drop_last() =~= orig.take(i));
                assert(orig.take(i + 1).last() == orig[i]);
            }
        }
    }
    proof {
        assert(orig.take(orig.len() as int) =~= orig);
        assert(agg.spec_complete());
    }
    agg.finish(public_address, network, contract_address)
}

/// Whether the completions carry pairwise distinct identifiers — one
/// completion per catalog entry.
pub fn ids_all_distinct(completions: &Vec<Completion>) -> (b: bool)
    ensures
        b == (forall|i: int, j: int|
            0 <= i < j < completions@.len() ==> completions@[i].nft_id
                != completions@[j].nft_id),
{
    let n = completions.len();
    let mut i: usize = 0;
    while i < n
        invariant
            i <= n,
            n == completions@.len(),
            forall|p: int, q: int|
                0 <= p < q < i ==> completions@[p].nft_id != completions@[q].nft_id,
        decreases n - i,
    {
        let mut j: usize = 0;
        while j < i
            invariant
                j <= i,
                i < n,
                n == completions@.len(),
                forall|p: int, q: int|
                    0 <= p < q < i ==> completions@[p].nft_id != completions@[q].nft_id,
                forall|p: int| 0 <= p < j ==> completions@[p].nft_id != completions@[i as int].nft_id,
            decreases i - j,
        {
            if completions[j].nft_id == completions[i].nft_id {
                return false;
            }
            j = j + 1;
        }
        i = i + 1;
    }
    true
}

/// Joins one resolution request if the completions are well-formed —
/// exactly one per catalog identifier — and returns nothing when an
/// identifier repeats.
pub fn try_assemble_report(
    public_address: String,
    network: NetworkType,
    contract_address: String,
    completions: Vec<Completion>,
) -> (r: Option<NamiLandNFTOwnership>)
    ensures
        match r {
            Option::Some(rep) => {
                &&& forall|i: int, j: int|
                    0 <= i < j < completions@.len() ==> completions@[i].nft_id
                        != completions@[j].nft_id
                &&& rep@.public_address == public_address@
                &&& rep@.network == network
                &&& rep@.contract_address == contract_address@
                &&& spec_report_items_of(
                    spec_positive_completions(completions@),
                    rep@.ownerships,
                )
            },
            Option::None => exists|i: int, j: int|
                0 <= i < j < completions@.len() && completions@[i].nft_id
                    == completions@[j].nft_id,
        },
{
    if ids_all_distinct(&completions) {
        Option::Some(assemble_report(public_address, network, contract_address, completions))
    } else {
        Option::None
    }
}

/// There is exactly one way to list a given collection of items sorted by
/// textual identifier when no identifier repeats: two sorted, duplicate-free
/// listings of the same items are equal, position by position.
pub proof fn lemma_sorted_items_unique(x: Seq<OwnershipItemView>, y: Seq<OwnershipItemView>)
    requires
        x.to_multiset() == y.to_multiset(),
        spec_sorted_items(x),
        spec_sorted_items(y),
        spec_distinct_ids(x),
        spec_distinct_ids(y),
    ensures
        x == y,
    decreases x.len(),
{
    assert(x.len() == y.len()) by {
        vstd::seq_lib::to_multiset_len(x);
        vstd::seq_lib::to_multiset_len(y);
    }
    if x.len() == 0 {
        assert(x =~= y);
    } else {
        assert(y.contains(y[0]));
        assert(y.to_multiset().count(y[0]) > 0);
        assert(x.to_multiset().count(y[0]) > 0);
        assert(x.contains(y[0]));
        let i = choose|i: int| 0 <= i < x.len() && x[i] == y[0];
        assert(x.contains(x[0]));
        assert(x.to_multiset().count(x[0]) > 0);
        assert(y.to_multiset().count(x[0]) > 0);
        assert(y.contains(x[0]));
        let j = choose|j: int| 0 <= j < y.len() && y[j] == x[0];
        assert(spec_lex_le(x[0].nft_id, x[i].nft_id));
        assert(spec_lex_le(y[0].nft_id, y[j].nft_id));
        if x[0].nft_id != y[0].nft_id {
            lemma_lex_lt_asymmetric(x[0].nft_id, y[0].nft_id);
            assert(false);
        }
        if i != 0 {
            assert(x[i].nft_id == x[0].nft_id);
            assert(false);
        }
        assert(x[0] == y[0]);
        let xr = x.drop_first();
        let yr = y.drop_first();
        assert(xr.to_multiset() == yr.to_multiset()) by {
            assert(x.remove(0) =~= xr);
            assert(y.remove(0) =~= yr);
            assert(x.remove(0).to_multiset() == x.to_multiset().remove(x[0]));
            assert(y.remove(0).to_multiset() == y.to_multiset().remove(y[0]));
        }
        assert forall|p: int, q: int|
            0 <= p < q < xr.len() implies spec_lex_le(xr[p].nft_id, xr[q].nft_id) && xr[p].nft_id
            != xr[q].nft_id by {
            assert(xr[p] == x[p + 1]);
            assert(xr[q] == x[q + 1]);
        }
        assert forall|p: int, q: int|
            0 <= p < q < yr.len() implies spec_lex_le(yr[p].nft_id, yr[q].nft_id) && yr[p].nft_id
            != yr[q].nft_id by {
            assert(yr[p] == y[p + 1]);
            assert(yr[q] == y[q + 1]);
        }
        lemma_sorted_items_unique(xr, yr);
        assert forall|k: int| 0 <= k < x.len() implies x[k] == y[k] by {
            if k > 0 {
                assert(x[k] == xr[k - 1]);
                assert(y[k] == yr[k - 1]);
            }
        }
        assert(x =~= y);
    }
}

/// Filtering sees the elements, not their order: two sequences holding the
/// same elements keep the same elements.
proof fn lemma_filter_multiset<A>(x: Seq<A>, y: Seq<A>, p: spec_fn(A) -> bool)
    requires
        x.to_multiset() == y.to_multiset(),
    ensures
        x.filter(p).to_multiset() == y.filter(p).to_multiset(),
    decreases x.len(),
{
    reveal(Seq::filter);
    if x.len() == 0 {
        vstd::seq_lib::to_multiset_len(x);
        vstd::seq_lib::to_multiset_len(y);
        assert(y.len() == 0);
        assert(x.filter(p) == x);
        assert(y.filter(p) == y);
        assert(x =~= y);
    } else {
        let a = x.last();
        let xr = x.drop_last();
        assert(x.contains(a));
        assert(x.to_multiset().count(a) > 0);
        assert(y.to_multiset().count(a) > 0);
        assert(y.contains(a));
        let i = choose|i: int| 0 <= i < y.len() && y[i] == a;
        let yt = y.take(i);
        let ys = y.skip(i + 1);
        let yr = y.remove(i);
        assert(yr =~= yt + ys);
        assert(y =~= yt + (seq![a] + ys));
        assert(x.remove(x.len() - 1) =~= xr);
        assert(x.remove(x.len() - 1).to_multiset() == x.to_multiset().remove(a));
        assert(yr.to_multiset() == y.to_multiset().remove(a));
        assert(xr.to_multiset() == yr.to_multiset());
        lemma_filter_multiset(xr, yr, p);
        Seq::filter_distributes_over_add(yt, seq![a] + ys, p);
        Seq::filter_distributes_over_add(seq![a], ys, p);
        Seq::filter_distributes_over_add(yt, ys, p);
        assert(y.filter(p) == yt.filter(p) + (seq![a].filter(p) + ys.filter(p)));
        assert(yr.filter(p) == yt.filter(p) + ys.filter(p));
        assert(seq![a].drop_last() =~= Seq::<A>::empty());
        assert(Seq::<A>::empty().filter(p) == Seq::<A>::empty());
        assert(x.drop_last() == xr);
        if p(a) {
            assert(seq![a].filter(p) =~= Seq::<A>::empty().push(a));
            assert(seq![a].filter(p) =~= seq![a]);
            assert(x.filter(p) == xr.filter(p).push(a));
            assert(x.filter(p).to_multiset() == xr.filter(p).to_multiset().insert(a));
            assert(y.filter(p).to_multiset() =~= yr.filter(p).to_multiset().insert(a)) by {
                broadcast use vstd::seq_lib::lemma_multiset_commutative;
                assert(seq![a] =~= Seq::<A>::empty().push(a));
                assert(seq![a].to_multiset() =~= Multiset::<A>::empty().insert(a));
            }
        } else {
            assert(seq![a].filter(p) =~= Seq::<A>::empty());
            assert(seq![a].filter(p) + ys.filter(p) =~= ys.filter(p));
            assert(y.filter(p) == yr.filter(p));
            assert(x.filter(p) == xr.filter(p));
        }
    }
}

/// An account with zero balance at every catalog identifier — whether
/// genuinely or because every query failed — gets an empty item list:
/// completions all of amount zero keep nothing.
pub proof fn lemma_all_zero_amounts_empty(
    completions: Seq<Completion>,
    items: Seq<OwnershipItemView>,
)
    requires
        spec_report_items_of(spec_positive_completions(completions), items),
        forall|i: int| 0 <= i < completions.len() ==> (#[trigger] completions[i]).amount == 0,
    ensures
        items == Seq::<OwnershipItemView>::empty(),
{
    lemma_no_positive_filter_empty(completions);
    assert(items.len() == 0);
    assert(items =~= Seq::<OwnershipItemView>::empty());
}

/// A sequence of completions all of amount zero keeps nothing.
proof fn lemma_no_positive_filter_empty(s: Seq<Completion>)
    requires
        forall|i: int| 0 <= i < s.len() ==> (#[trigger] s[i]).amount == 0,
    ensures
        spec_positive_completions(s) == Seq::<Completion>::empty(),
    decreases s.len(),
{
    reveal(Seq::filter);
    if s.len() == 0 {
        assert(s =~= Seq::<Completion>::empty());
    } else {
        assert forall|i: int| 0 <= i < s.drop_last().len() implies (#[trigger] s.drop_last()[i]).amount
            == 0 by {
            assert(s.drop_last()[i] == s[i]);
        }
        lemma_no_positive_filter_empty(s.drop_last());
        assert(s.last().amount == 0);
    }
}

/// Determinism end to end: however the fan-out's completions were ordered
/// when they arrived, two joins of the same completions produce identical
/// item lists.
pub proof fn lemma_assembly_order_immaterial(
    completions1: Seq<Completion>,
    completions2: Seq<Completion>,
    items1: Seq<OwnershipItemView>,
    items2: Seq<OwnershipItemView>,
)
    requires
        completions1.to_multiset() == completions2.to_multiset(),
        spec_report_items_of(spec_positive_completions(completions1), items1),
        spec_report_items_of(spec_positive_completions(completions2), items2),
    ensures
        items1 == items2,
{
    lemma_filter_multiset(completions1, completions2, |c: Completion| c.amount > 0);
    lemma_report_deterministic(
        spec_positive_completions(completions1),
        spec_positive_completions(completions2),
        items1,
        items2,
    );
}

/// Determinism of aggregation: whatever order completions arrived in, two
/// finished reports built from the same kept completions have identical item
/// lists.
pub proof fn lemma_report_deterministic(
    kept1: Seq<Completion>,
    kept2: Seq<Completion>,
    items1: Seq<OwnershipItemView>,
    items2: Seq<OwnershipItemView>,
)
    requires
        kept1.to_multiset() == kept2.to_multiset(),
        spec_report_items_of(kept1, items1),
        spec_report_items_of(kept2, items2),
    ensures
        items1 == items2,
{
    lemma_map_values_multiset(kept1, kept2, |c: Completion| spec_item_view(c));
    assert(items1.to_multiset() == items2.to_multiset());
    lemma_sorted_items_unique(items1, items2);
}

/// An account that holds nothing leaves nothing in the report: when no
/// completion was kept — every amount was zero — the finished item list is
/// empty.
pub proof fn lemma_nothing_owned_empty_report(
    kept: Seq<Completion>,
    items: Seq<OwnershipItemView>,
)
    requires
        spec_report_items_of(kept, items),
        kept.len() == 0,
    ensures
        items == Seq::<OwnershipItemView>::empty(),
{
    assert(items =~= Seq::<OwnershipItemView>::empty());
}

/// The join counts completions, nothing else: an aggregator is complete
/// exactly when as many completions as the catalog expects have been
/// received — each `accept` contributes exactly one, whatever identifier it
/// carries and in whatever order it arrives.
pub proof fn lemma_complete_iff_exact_count(a: Aggregator)
    requires
        a.wf(),
    ensures
        a.spec_complete() <==> a.seen@.len() == a.expected,
        !a.spec_complete() ==> a.seen@.len() < a.expected,
{
}

} // verus!
