//! Market structure derived from product-level data.
//!
//! A product table lists products in market order: all products of one
//! market stand in one contiguous block. [`MarketPartition::new`] scans the
//! market labels once, derives the segment boundaries, and rejects any label
//! whose block is split — a label that starts a new run after its earlier
//! run closed. Later components only ever read the segment ranges; they
//! never recompute them.

use vstd::prelude::*;

use crate::error::BlpError;

verus! {

/// A position `j` starts a new run of equal labels.
pub open spec fn run_start(ids: Seq<Seq<char>>, j: int) -> bool {
    0 < j < ids.len() && ids[j] != ids[j - 1]
}

/// The label starting a run at `j` already appeared strictly earlier, so its
/// market is split into non-adjacent blocks.
pub open spec fn label_reappears_at(ids: Seq<Seq<char>>, j: int) -> bool {
    run_start(ids, j) && exists|i: int| 0 <= i < j && #[trigger] ids[i] == ids[j]
}

/// Labels are grouped into contiguous blocks: no run reuses an earlier
/// run's label.
pub open spec fn contiguously_grouped(ids: Seq<Seq<char>>) -> bool {
    forall|j: int| !#[trigger] label_reappears_at(ids, j)
}

/// Metadata for a single market: its label and the half-open index range of
/// its products in the flattened product arrays.
#[derive(Debug, Clone)]
pub struct MarketSegment {
    market_id: String,
    start: usize,
    end: usize,
}

impl MarketSegment {
    /// The market's label, as a character sequence.
    pub closed spec fn spec_id(&self) -> Seq<char> {
        self.market_id@
    }

    /// Start index (inclusive) of this market's block.
    pub closed spec fn spec_start(&self) -> int {
        self.start as int
    }

    /// End index (exclusive) of this market's block.
    pub closed spec fn spec_end(&self) -> int {
        self.end as int
    }

    /// Returns the identifier of the market.
    pub fn id(&self) -> (r: &str)
        ensures
            r@ == self.spec_id(),
    {
        self.market_id.as_str()
    }

    /// Returns the inclusive start and exclusive end of the product indices
    /// that belong to this market.
    pub fn range(&self) -> (r: (usize, usize))
        ensures
            r.0 == self.spec_start(),
            r.1 == self.spec_end(),
    {
        (self.start, self.end)
    }

    /// Number of products inside the market.
    pub fn product_count(&self) -> (r: usize)
        requires
            self.spec_start() <= self.spec_end(),
        ensures
            r == self.spec_end() - self.spec_start(),
    {
        self.end - self.start
    }
}

/// Describes the markets contained in a product table: the segments in table
/// order and, for each product, the index of the segment it belongs to.
#[derive(Debug, Clone)]
pub struct MarketPartition {
    markets: Vec<MarketSegment>,
    product_to_market: Vec<usize>,
}

impl MarketPartition {
    /// The segments, in table order.
    pub closed spec fn spec_markets(&self) -> Seq<MarketSegment> {
        self.markets@
    }

    /// For each product index, the index of its segment.
    pub closed spec fn spec_product_to_market(&self) -> Seq<usize> {
        self.product_to_market@
    }

    /// Structural well-formedness: non-empty segments tile the product range
    /// without gaps, adjacent segments carry different labels, and the
    /// per-product back-references point into the segment that contains them.
    pub open spec fn wf(&self) -> bool {
        let ms = self.spec_markets();
        let pm = self.spec_product_to_market();
        &&& forall|i: int| 0 <= i < ms.len() ==> (#[trigger] ms[i]).spec_start() < ms[i].spec_end()
        &&& (ms.len() == 0 ==> pm.len() == 0)
        &&& (ms.len() > 0 ==> ms[0].spec_start() == 0 && ms[ms.len() - 1].spec_end() == pm.len())
        &&& forall|i: int| 0 <= i < ms.len() - 1 ==> (#[trigger] ms[i]).spec_end() == ms[i + 1].spec_start()
        &&& forall|i: int| 0 <= i < ms.len() - 1 ==> (#[trigger] ms[i]).spec_id() != ms[i + 1].spec_id()
        &&& forall|j: int| 0 <= j < pm.len() ==> ((#[trigger] pm[j]) as int) < ms.len()
            && ms[pm[j] as int].spec_start() <= j < ms[pm[j] as int].spec_end()
    }

    /// The partition describes exactly the given label sequence: each
    /// product's label equals the label of the segment it is mapped to.
    pub open spec fn labels_match(&self, ids: Seq<Seq<char>>) -> bool {
        let ms = self.spec_markets();
        let pm = self.spec_product_to_market();
        &&& pm.len() == ids.len()
        &&& forall|j: int| 0 <= j < ids.len() ==> ids[j] == ms[((#[trigger] pm[j]) as int)].spec_id()
    }

    /// Constructs a partition by scanning contiguous runs of market labels.
    ///
    /// Succeeds exactly when the labels are contiguously grouped; otherwise
    /// fails with a non-contiguous-market error naming the label of the
    /// first run that reuses an earlier run's label.
    #[verifier::loop_isolation(false)]
    pub fn new(market_ids: &Vec<String>) -> (r: Result<MarketPartition, BlpError>)
        ensures
            r is Ok <==> contiguously_grouped(market_ids.deep_view()),
            r matches Ok(p) ==> p.wf() && p.labels_match(market_ids.deep_view()),
            r matches Err(e) ==> (e matches BlpError::NonContiguousMarket { market_id }
                && exists|j: int| #[trigger] label_reappears_at(market_ids.deep_view(), j)
                    && market_ids.deep_view()[j] == market_id@
                    && forall|j2: int| 0 <= j2 < j
                        ==> !label_reappears_at(market_ids.deep_view(), j2)),
    {
        let ghost ids = market_ids.deep_view();
        let n = market_ids.len();
        assert(ids.len() == n);
        let mut markets: Vec<MarketSegment> = Vec::new();
        let mut product_to_market: Vec<usize> = Vec::new();
        let mut start: usize = 0;
        while start < n
            invariant
                start <= n,
                product_to_market@.len() == start,
                markets@.len() == 0 <==> start == 0,
                markets@.len() > 0 ==> markets@[0].spec_start() == 0
                    && markets@[markets@.len() - 1].spec_end() == start,
                forall|i: int| 0 <= i < markets@.len()
                    ==> (#[trigger] markets@[i]).spec_start() < markets@[i].spec_end(),
                forall|i: int| 0 <= i < markets@.len() - 1
                    ==> (#[trigger] markets@[i]).spec_end() == markets@[i + 1].spec_start(),
                forall|i: int| 0 <= i < markets@.len() - 1
                    ==> (#[trigger] markets@[i]).spec_id() != markets@[i + 1].spec_id(),
                forall|j: int| 0 <= j < start
                    ==> ((#[trigger] product_to_market@[j]) as int) < markets@.len()
                        && markets@[product_to_market@[j] as int].spec_start() <= j
                        && j < markets@[product_to_market@[j] as int].spec_end()
                        && ids[j] == markets@[product_to_market@[j] as int].spec_id(),
                forall|j: int| 0 <= j < start ==> !#[trigger] label_reappears_at(ids, j),
                0 < start < n ==> ids[start as int] != ids[start - 1],
                markets@.len() > 0
                    ==> ids[start - 1] == markets@[markets@.len() - 1].spec_id(),
            decreases n - start,
        {
            // A label that equals any earlier label here restarts a market
            // whose block has already closed.
            let mut i: usize = 0;
            while i < start
                invariant
                    i <= start,
                    forall|k: int| 0 <= k < i ==> ids[k] != ids[start as int],
                decreases start - i,
            {
                if market_ids[i] == market_ids[start] {
                    proof {
                        assert(ids[i as int] == market_ids@[i as int]@);
                        assert(ids[start as int] == market_ids@[start as int]@);
                        assert(ids[i as int] == ids[start as int]);
                        assert(run_start(ids, start as int));
                    }
                    assert(label_reappears_at(ids, start as int));
                    return Err(BlpError::NonContiguousMarket {
                        market_id: market_ids[start].clone(),
                    });
                }
                i = i + 1;
            }

            let mut end: usize = start + 1;
            while end < n && market_ids[end] == market_ids[start]
                invariant
                    start < end <= n,
                    forall|j: int| start <= j < end ==> ids[j] == ids[start as int],
                decreases n - end,
            {
                end = end + 1;
            }

            markets.push(MarketSegment {
                market_id: market_ids[start].clone(),
                start,
                end,
            });
            let seg_index: usize = markets.len() - 1;
            let mut j: usize = start;
            while j < end
                invariant
                    start <= j <= end,
                    product_to_market@.len() == j,
                    forall|k: int| 0 <= k < start
                        ==> ((#[trigger] product_to_market@[k]) as int) < markets@.len() - 1
                            && markets@[product_to_market@[k] as int].spec_start() <= k
                            && k < markets@[product_to_market@[k] as int].spec_end()
                            && ids[k] == markets@[product_to_market@[k] as int].spec_id(),
                    forall|k: int| start <= k < j
                        ==> (#[trigger] product_to_market@[k]) == seg_index,
                decreases end - j,
            {
                product_to_market.push(seg_index);
                j = j + 1;
            }

            proof {
                assert forall|j2: int| 0 <= j2 < end implies !label_reappears_at(
                    ids,
                    j2,
                ) by {
                    if start < j2 < end {
                        assert(ids[j2] == ids[start as int]);
                        assert(ids[j2 - 1] == ids[start as int]);
                    }
                }
            }
            start = end;
        }
        proof {
            assert forall|j: int| !label_reappears_at(ids, j) by {
                if 0 <= j < n {
                    assert(!label_reappears_at(ids, j));
                }
            }
        }
        Ok(MarketPartition { markets, product_to_market })
    }

    /// Returns the number of distinct markets.
    pub fn market_count(&self) -> (r: usize)
        ensures
            r == self.spec_markets().len(),
    {
        self.markets.len()
    }

    /// Returns the market segments in table order.
    pub fn markets(&self) -> (r: &Vec<MarketSegment>)
        ensures
            r@ == self.spec_markets(),
    {
        &self.markets
    }

    /// Segments are laid out in table order: an earlier segment ends no
    /// later than a later one starts.
    pub proof fn lemma_segment_order(&self, k1: int, k2: int)
        requires
            self.wf(),
            0 <= k1 < k2 < self.spec_markets().len(),
        ensures
            self.spec_markets()[k1].spec_end() <= self.spec_markets()[k2].spec_start(),
        decreases k2 - k1,
    {
        if k1 + 1 < k2 {
            self.lemma_segment_order(k1, k2 - 1);
        }
    }

    /// Each product index lies in exactly one segment: the one its
    /// back-reference names.
    pub proof fn lemma_position_segment(&self, k: int, j: int)
        requires
            self.wf(),
            0 <= k < self.spec_markets().len(),
            self.spec_markets()[k].spec_start() <= j < self.spec_markets()[k].spec_end(),
        ensures
            0 <= j < self.spec_product_to_market().len(),
            self.spec_product_to_market()[j] as int == k,
    {
        let ms = self.spec_markets();
        let pm = self.spec_product_to_market();
        if k < ms.len() - 1 {
            self.lemma_segment_order(k, ms.len() - 1);
        }
        let k2 = pm[j] as int;
        if k2 < k {
            self.lemma_segment_order(k2, k);
        }
        if k < k2 {
            self.lemma_segment_order(k, k2);
        }
    }

    /// No two distinct segments of a partition over contiguously grouped
    /// labels carry the same label: a label shared by a later segment would
    /// reappear at that segment's first product, which contiguous grouping
    /// rules out.
    pub proof fn lemma_segment_labels_distinct(&self, ids: Seq<Seq<char>>, i1: int, i2: int)
        requires
            self.wf(),
            self.labels_match(ids),
            contiguously_grouped(ids),
            0 <= i1 < i2 < self.spec_markets().len(),
        ensures
            self.spec_markets()[i1].spec_id() != self.spec_markets()[i2].spec_id(),
    {
        let ms = self.spec_markets();
        let s1 = ms[i1].spec_start();
        let s2 = ms[i2].spec_start();
        self.lemma_position_segment(i1, s1);
        self.lemma_position_segment(i2, s2);
        self.lemma_position_segment(i2 - 1, s2 - 1);
        self.lemma_segment_order(i1, i2);
        assert(ids[s1] == ms[i1].spec_id());
        assert(ids[s2] == ms[i2].spec_id());
        assert(ids[s2 - 1] == ms[i2 - 1].spec_id());
        if ms[i1].spec_id() == ms[i2].spec_id() {
            assert(run_start(ids, s2));
            assert(label_reappears_at(ids, s2));
        }
    }

    /// Finds the index of the market containing `product_index`.
    pub fn market_of(&self, product_index: usize) -> (r: usize)
        requires
            product_index < self.spec_product_to_market().len(),
        ensures
            r == self.spec_product_to_market()[product_index as int],
            self.wf() ==> r < self.spec_markets().len()
                && self.spec_markets()[r as int].spec_start() <= product_index
                && product_index < self.spec_markets()[r as int].spec_end(),
    {
        self.product_to_market[product_index]
    }
}

} // verus!
