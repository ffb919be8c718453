//! Choosing among weighted items.

use vstd::prelude::*;
use crate::distributions::range::Range;
use crate::distributions::{ConstructionError, Distribution};
use crate::rng::RngCore;

verus! {

/// A value with a particular weight for use with `WeightedChoice`.
#[derive(Copy, Clone, Debug)]
pub struct Weighted<T> {
    /// The numerical weight of this item
    pub weight: u32,
    /// The actual item which is being weighted
    pub item: T,
}

/// The sum of the weights of the first `n` items.
pub open spec fn weight_sum<T>(items: Seq<Weighted<T>>, n: int) -> int
    decreases n,
{
    if n <= 0 {
        0
    } else {
        weight_sum(items, n - 1) + items[n - 1].weight
    }
}

/// The sum of the weights of all the items.
pub open spec fn total_weight<T>(items: Seq<Weighted<T>>) -> int {
    weight_sum(items, items.len() as int)
}

/// The sum of the first items grows with their number.
pub proof fn lemma_weight_sum_grows<T>(items: Seq<Weighted<T>>, i: int, j: int)
    requires
        0 <= i <= j,
    ensures
        0 <= weight_sum(items, i) <= weight_sum(items, j),
    decreases j,
{
    if j > 0 {
        if i < j {
            lemma_weight_sum_grows(items, i, j - 1);
        } else {
            lemma_weight_sum_grows(items, i - 1, j - 1);
        }
    }
}

/// A distribution that selects from a finite collection of weighted items.
///
/// Each item has an associated weight that influences how likely it is to be
/// chosen: an item is chosen with a chance of its weight in the sum of all
/// weights. The distribution borrows the items and keeps, in place of each
/// weight, the sum of the weights up to and including it.
#[derive(Debug)]
pub struct WeightedChoice<'a, T: 'a> {
    items: &'a mut [Weighted<T>],
    weight_range: Range<u32>,
}

impl<'a, T> WeightedChoice<'a, T> {
    /// The items to choose from, in their order.
    pub closed spec fn items(&self) -> Seq<T> {
        Seq::new(self.items@.len(), |i: int| self.items@[i].item)
    }

    /// The running sums of the weights: entry `i` is the sum of the weights
    /// of the items `0` to `i`.
    pub closed spec fn cumulative(&self) -> Seq<u32> {
        Seq::new(self.items@.len(), |i: int| self.items@[i].weight)
    }

    /// The sum of all weights.
    pub open spec fn total(&self) -> int {
        self.cumulative().last() as int
    }

    /// The sum of the weights before item `i`.
    pub open spec fn before(&self, i: int) -> int {
        if i <= 0 {
            0
        } else {
            self.cumulative()[i - 1] as int
        }
    }

    /// The weight of item `i`.
    pub open spec fn weight(&self, i: int) -> int {
        self.cumulative()[i] - self.before(i)
    }

    /// The invariant: there is an item, the running sums never fall, the
    /// sum of all weights is positive, and the distribution of the drawn
    /// weight is uniform over `[0, total)`.
    pub closed spec fn valid(&self) -> bool {
        &&& self.items@.len() > 0
        &&& self.cumulative().len() == self.items().len()
        &&& forall|i: int, j: int|
            0 <= i <= j < self.cumulative().len() ==> self.cumulative()[i] <= self.cumulative()[j]
        &&& self.total() > 0
        &&& self.weight_range.valid()
        &&& self.weight_range.low() == 0
        &&& self.weight_range.size() == self.total()
    }

    /// The item that the drawn weight `draw` falls to: the one with
    /// `before(i) <= draw < cumulative()[i]`.
    pub open spec fn chosen(&self, draw: u32) -> int {
        choose|i: int|
            0 <= i < self.cumulative().len() && self.before(i) <= draw
                < #[trigger] self.cumulative()[i]
    }

    /// A valid distribution has as many running sums as items, and at
    /// least one.
    pub proof fn lemma_lengths(&self)
        requires
            self.valid(),
        ensures
            self.items().len() == self.cumulative().len(),
            self.cumulative().len() > 0,
            0 < self.total() <= u32::MAX,
    {
    }

    /// Only one item has the drawn weight in its share.
    pub proof fn lemma_chosen_unique(&self, draw: u32, i: int)
        requires
            self.valid(),
            0 <= i < self.cumulative().len(),
            self.before(i) <= draw < self.cumulative()[i],
        ensures
            self.chosen(draw) == i,
    {
        let j = self.chosen(draw);
        if j < i {
            assert(self.cumulative()[j] <= self.cumulative()[i - 1]);
        }
        if i < j {
            assert(self.cumulative()[i] <= self.cumulative()[j - 1]);
        }
    }

    /// An item without weight is never chosen, and each item is chosen for
    /// as many drawn weights as its weight says: the drawn weights of item
    /// `i` are those from `before(i)` up to `before(i) + weight(i)`.
    pub proof fn lemma_chosen_by_weight(&self, draw: u32)
        requires
            self.valid(),
            draw < self.total(),
        ensures
            0 <= self.chosen(draw) < self.items().len(),
            self.weight(self.chosen(draw)) > 0,
            self.before(self.chosen(draw)) <= draw < self.before(self.chosen(draw)) + self.weight(
                self.chosen(draw),
            ),
    {
        self.lemma_some_item(draw, self.cumulative().len() - 1);
    }

    /// Among the items `0` to `n`, one has `draw` in its share if `draw` is
    /// below the running sum at `n`.
    proof fn lemma_some_item(&self, draw: u32, n: int)
        requires
            self.valid(),
            0 <= n < self.cumulative().len(),
            draw < self.cumulative()[n],
        ensures
            exists|i: int|
                0 <= i <= n && self.before(i) <= draw < #[trigger] self.cumulative()[i],
        decreases n,
    {
        if n > 0 && draw < self.cumulative()[n - 1] {
            self.lemma_some_item(draw, n - 1);
        } else {
            assert(self.before(n) <= draw < self.cumulative()[n]);
        }
    }

    /// Create a new `WeightedChoice`.
    ///
    /// Fails, and leaves the items as they were, if
    ///
    /// - `items` is empty
    /// - the total weight is larger than a `u32` can contain
    /// - the total weight is 0.
    #[verifier::rlimit(50)]
    pub fn new(items: &'a mut [Weighted<T>]) -> (r: Result<WeightedChoice<'a, T>, ConstructionError>)
        ensures
            match r {
                Ok(c) => {
                    &&& old(items)@.len() > 0
                    &&& 0 < total_weight(old(items)@) <= u32::MAX
                    &&& c.valid()
                    &&& c.items() == Seq::new(old(items)@.len(), |i: int| old(items)@[i].item)
                    &&& c.cumulative().len() == old(items)@.len()
                    &&& forall|i: int|
                        0 <= i < old(items)@.len() ==> c.cumulative()[i] == weight_sum(
                            old(items)@,
                            i + 1,
                        )
                },
                Err(e) => {
                    &&& final(items)@ == old(items)@
                    &&& e == if old(items)@.len() == 0 {
                        ConstructionError::NoItems
                    } else if total_weight(old(items)@) > u32::MAX {
                        ConstructionError::WeightOverflow
                    } else {
                        ConstructionError::ZeroTotalWeight
                    }
                    &&& old(items)@.len() == 0 || total_weight(old(items)@) > u32::MAX
                        || total_weight(old(items)@) == 0
                },
            },
    {
        let n: usize = items.len();
        if n == 0 {
            return Err(ConstructionError::NoItems);
        }
        // The total is worked out before any weight is touched, so that a
        // refusal leaves the items as they were.
        let mut running_total: u32 = 0;
        let mut i: usize = 0;
        while i < n
            invariant
                i <= n == items@.len(),
                items@ == old(items)@,
                running_total == weight_sum(items@, i as int),
            decreases n - i,
        {
            running_total = match running_total.checked_add(items[i].weight) {
                Some(t) => t,
                None => {
                    proof {
                        lemma_weight_sum_grows(items@, i + 1, n as int);
                    }
                    return Err(ConstructionError::WeightOverflow);
                },
            };
            i += 1;
        }
        if running_total == 0 {
            return Err(ConstructionError::ZeroTotalWeight);
        }
        let total: u32 = running_total;
        // The weights are replaced by their running sums, so that an item can
        // be found by binary search.
        running_total = 0;
        i = 0;
        while i < n
            invariant
                i <= n == items@.len(),
                n == old(items)@.len(),
                total == weight_sum(old(items)@, n as int),
                running_total == weight_sum(old(items)@, i as int),
                forall|j: int| 0 <= j < n ==> items@[j].item == old(items)@[j].item,
                forall|j: int| 0 <= j < i ==> items@[j].weight == weight_sum(old(items)@, j + 1),
                forall|j: int| i <= j < n ==> items@[j].weight == old(items)@[j].weight,
            decreases n - i,
        {
            proof {
                lemma_weight_sum_grows(old(items)@, i + 1, n as int);
            }
            running_total = running_total + items[i].weight;
            items[i].weight = running_total;
            i += 1;
        }
        let weight_range = match Range::<u32>::new(0, total) {
            Ok(range) => range,
            Err(e) => {
                return Err(e);
            },
        };
        let c = WeightedChoice { items, weight_range };
        proof {
            assert forall|a: int, b: int| 0 <= a <= b < c.cumulative().len() implies c.cumulative()[a]
                <= c.cumulative()[b] by {
                lemma_weight_sum_grows(old(items)@, a + 1, b + 1);
            }
            assert(c.items() =~= Seq::new(old(items)@.len(), |i: int| old(items)@[i].item));
        }
        Ok(c)
    }

    /// The number of items.
    pub fn len(&self) -> (n: usize)
        requires
            self.valid(),
        ensures
            n == self.items().len(),
            n > 0,
    {
        self.items.len()
    }

    /// The index of the item that the drawn weight `draw` falls to: the
    /// first item whose running sum is above `draw`.
    #[verifier::rlimit(50)]
    pub fn index_of(&self, draw: u32) -> (idx: usize)
        requires
            self.valid(),
            draw < self.total(),
        ensures
            idx == self.chosen(draw),
            idx < self.items().len(),
            self.before(idx as int) <= draw < self.cumulative()[idx as int],
    {
        // short circuit when it's the first item
        if draw < self.items[0].weight {
            proof {
                self.lemma_chosen_unique(draw, 0);
            }
            return 0;
        }
        let n: usize = self.items.len();
        let mut idx: usize = 0;
        let mut modifier: usize = n;
        proof {
            self.lemma_some_item(draw, n - 1);
        }
        // Every possibility now has an item to its left. The search is for
        // the last item whose running sum is at most `draw`; the next one is
        // the item wanted. It is never the last of all, since `draw` is below
        // the total, which is the running sum of the last item.
        while modifier > 1
            invariant
                self.valid(),
                n == self.items@.len(),
                draw < self.total(),
                1 <= modifier,
                idx + modifier <= n,
                self.cumulative()[idx as int] <= draw,
                exists|a: int|
                    idx < a <= idx + modifier && a < n && self.before(a) <= draw
                        < #[trigger] self.cumulative()[a],
            decreases modifier,
        {
            let half: usize = modifier / 2;
            let i: usize = idx + half;
            let ghost a = choose|a: int|
                idx < a <= idx + modifier && a < n && self.before(a) <= draw
                    < #[trigger] self.cumulative()[a];
            if self.items[i].weight <= draw {
                // The item is at or left of the last one wanted: go right,
                // and keep this one.
                proof {
                    if a <= i {
                        assert(self.cumulative()[a] <= self.cumulative()[i as int]);
                    }
                }
                idx = i;
                // The half that is left is rounded up, or the last item
                // would be lost where `modifier` is odd.
                modifier = modifier - half;
            } else {
                // The item is right of the last one wanted: go left.
                proof {
                    if a > i {
                        assert(self.cumulative()[i as int] <= self.cumulative()[a - 1]);
                    }
                }
                modifier = half;
            }
            assert(idx < a <= idx + modifier && a < n && self.before(a) <= draw
                < self.cumulative()[a]);
        }
        proof {
            self.lemma_chosen_unique(draw, idx + 1);
        }
        idx + 1
    }

    /// The item that the drawn weight `draw` falls to.
    pub fn item_of(&self, draw: u32) -> (item: &T)
        requires
            self.valid(),
            draw < self.total(),
        ensures
            *item == self.items()[self.chosen(draw)],
    {
        let idx: usize = self.index_of(draw);
        &self.items[idx].item
    }
}

impl<'a, T: Copy, R: RngCore> Distribution<T, R> for WeightedChoice<'a, T> {
    open spec fn wf(&self) -> bool {
        self.valid()
    }

    /// A weight is drawn uniformly from `[0, total)`; the item that it falls
    /// to is returned.
    open spec fn sample_spec(&self, s: R::V) -> (T, R::V) {
        let (draw, s1) = Range::<u32>::draw_spec::<R>(0, self.total(), s);
        (self.items()[self.chosen(draw)], s1)
    }

    fn sample(&self, rng: &mut R) -> (r: T) {
        // choose a weight in [0, total_weight)
        let sample_weight: u32 = self.weight_range.sample(rng);
        *self.item_of(sample_weight)
    }
}

} // verus!
