//! Iteration over values made from a random source.
//!
//! A source is borrowed for the iteration, so that these types are no
//! iterators of the standard library: they have a `next` of their own, and
//! `collect` where their length is limited.

use vstd::prelude::*;
use crate::rng::RngCore;

verus! {

/// How many collections without an item `FlatMap::next` makes in a row
/// before it answers that there is no item, where the number of
/// collections is not limited.
pub const EMPTY_LIMIT: u64 = 0xffff_ffff_ffff_ffff;

/// Pseudo-iterator encapsulating a random number generator.
/// See [`iter`].
#[derive(Debug)]
pub struct Iter<'a, R: RngCore> {
    /// The source.
    pub rng: &'a mut R,
    /// The number of items that are left, where it is limited.
    pub len: Option<usize>,
}

/// Create an iterator on a source.
///
/// This does not create a "real" `Iterator` due to lifetime restrictions, but
/// the returned object supports the most important iterator functions, like
/// `take(number)` and `map(closure)`.
pub fn iter<'a, R: RngCore>(rng: &'a mut R) -> (r: Iter<'a, R>)
    ensures
        r.len is None,
        *r.rng == *old(rng),
        *final(rng) == *final(r.rng),
{
    Iter { rng, len: None }
}

/// The smaller of a limit that may be there and a new limit.
pub open spec fn limited(old: Option<usize>, len: usize) -> usize {
    match old {
        Some(n) => if n < len {
            n
        } else {
            len
        },
        None => len,
    }
}

impl<'a, R: RngCore> Iter<'a, R> {
    /// Restrict number of generated items to at most `len`
    pub fn take(self, len: usize) -> (r: Self)
        ensures
            r.len == Some(limited(self.len, len)),
            *r.rng == *old(self.rng),
            *final(self.rng) == *final(r.rng),
    {
        let new_len: usize = match self.len {
            Some(old) => if old < len {
                old
            } else {
                len
            },
            None => len,
        };
        Iter { rng: self.rng, len: Some(new_len) }
    }

    /// Produce an iterator returning a mapped value
    pub fn map<B, F: Fn(&mut R) -> B>(self, f: F) -> (r: MapIter<'a, R, F>)
        ensures
            *r.rng == *old(self.rng),
            *final(self.rng) == *final(r.rng),
            r.len == self.len,
            r.f == f,
    {
        MapIter { rng: self.rng, len: self.len, f }
    }

    /// Produce an iterator returning a flat-mapped value
    pub fn flat_map<B, F: Fn(&mut R) -> Vec<B>>(self, f: F) -> (r: FlatMap<'a, R, B, F>)
        ensures
            *r.rng == *old(self.rng),
            *final(self.rng) == *final(r.rng),
            r.len == self.len,
            r.f == f,
            r.front@.len() == 0,
    {
        FlatMap { rng: self.rng, len: self.len, f, front: Vec::new() }
    }
}

/// Whether `b` is a value that the closure `f` may return for a source.
pub open spec fn made_by<R, B, F: Fn(&mut R) -> B>(f: F, b: B) -> bool {
    exists|x: &mut R| #[trigger] f.ensures((x,), b)
}

/// The items that a closure makes of a source, one for each call.
#[derive(Debug)]
pub struct MapIter<'a, R: RngCore, F> {
    /// The source.
    pub rng: &'a mut R,
    /// The number of items that are left, where it is limited.
    pub len: Option<usize>,
    /// The closure that makes an item of the source.
    pub f: F,
}

impl<'a, R: RngCore, B, F: Fn(&mut R) -> B> MapIter<'a, R, F> {
    /// The next item, if the limit allows one more. The closure has to
    /// accept the source in every state.
    pub fn next(&mut self) -> (r: Option<B>)
        requires
            forall|x: &mut R| #[trigger] old(self).f.requires((x,)),
        ensures
            final(self).f == old(self).f,
            old(self).len == Some(0usize) ==> r is None && final(self).len == old(self).len,
            old(self).len is Some && old(self).len->Some_0 > 0 ==> r is Some && final(self).len
                == Some((old(self).len->Some_0 - 1) as usize),
            old(self).len is None ==> r is Some && final(self).len is None,
            r matches Some(b) ==> made_by::<R, B, F>(old(self).f, b),
    {
        match self.len {
            Some(n) => {
                if n == 0 {
                    return None;
                }
                self.len = Some(n - 1);
            },
            None => {},
        }
        Some((self.f)(self.rng))
    }

    /// The number of items that are left: where there is no limit, the
    /// greatest number as the lower bound, and no upper bound.
    pub fn size_hint(&self) -> (r: (usize, Option<usize>))
        ensures
            r == match self.len {
                Some(len) => (len, Some(len)),
                None => (usize::MAX, None::<usize>),
            },
    {
        // If len == None we have an infinite iterator; usize::MAX is nearest
        // available lower bound.
        match self.len {
            Some(len) => (len, Some(len)),
            None => (usize::MAX, None),
        }
    }

    /// All the items that are left, in order. The number of items has to be
    /// limited.
    pub fn collect(self) -> (items: Vec<B>)
        requires
            self.len is Some,
            forall|x: &mut R| #[trigger] self.f.requires((x,)),
        ensures
            items@.len() == self.len->Some_0,
            forall|i: int|
                0 <= i < items@.len() ==> made_by::<R, B, F>(self.f, #[trigger] items@[i]),
    {
        let mut it = self;
        let mut items: Vec<B> = Vec::new();
        loop
            invariant
                it.len is Some,
                it.f == self.f,
                forall|x: &mut R| #[trigger] it.f.requires((x,)),
                items@.len() + it.len->Some_0 == self.len->Some_0,
                forall|i: int|
                    0 <= i < items@.len() ==> made_by::<R, B, F>(self.f, #[trigger] items@[i]),
            decreases it.len->Some_0,
        {
            match it.next() {
                Some(b) => {
                    items.push(b);
                },
                None => {
                    return items;
                },
            }
        }
    }
}

/// Whether `b` is an item of a collection that the closure `f` may return
/// for a source.
pub open spec fn item_made_by<R, B, F: Fn(&mut R) -> Vec<B>>(f: F, b: B) -> bool {
    exists|x: &mut R, v: Vec<B>| #[trigger] f.ensures((x,), v) && v@.contains(b)
}

/// The items of the collections that a closure makes of a source, one
/// collection for each call, one after the other.
#[derive(Debug)]
pub struct FlatMap<'a, R: RngCore, B, F> {
    /// The source.
    pub rng: &'a mut R,
    /// The number of collections that are left, where it is limited.
    pub len: Option<usize>,
    /// The closure that makes a collection of the source.
    pub f: F,
    /// What is left of the collection made last, the next item last.
    pub front: Vec<B>,
}

impl<'a, R: RngCore, B, F: Fn(&mut R) -> Vec<B>> FlatMap<'a, R, B, F> {
    /// The next item: the next of the collection made last or, where that
    /// is used up, the first of the next collection that is not empty.
    /// `None` if no collection is left.
    pub fn next(&mut self) -> (r: Option<B>)
        requires
            forall|x: &mut R| #[trigger] old(self).f.requires((x,)),
        ensures
            final(self).f == old(self).f,
            old(self).front@.len() > 0 ==> r == Some(old(self).front@.last()) && final(self).front@
                == old(self).front@.drop_last() && final(self).len == old(self).len,
            old(self).front@.len() == 0 && old(self).len == Some(0usize) ==> r is None,
            r is None ==> final(self).front@.len() == 0,
            final(self).len is Some <==> old(self).len is Some,
            old(self).len matches Some(n) ==> final(self).len->Some_0 <= n,
            old(self).len is Some && r is Some ==> final(self).len->Some_0 < old(self).len->Some_0
                || (final(self).len == old(self).len && final(self).front@.len() < old(
                self,
            ).front@.len()),
            old(self).front@.len() == 0 && r is Some ==> item_made_by::<R, B, F>(
                old(self).f,
                r->Some_0,
            ),
            old(self).front@.len() == 0 ==> forall|j: int|
                0 <= j < final(self).front@.len() ==> item_made_by::<R, B, F>(
                    old(self).f,
                    #[trigger] final(self).front@[j],
                ),
    {
        let mut empty: u64 = 0;
        loop
            invariant
                self.f == old(self).f,
                forall|x: &mut R| #[trigger] self.f.requires((x,)),
                empty <= EMPTY_LIMIT,
                empty == 0 ==> self.front@ == old(self).front@ && self.len == old(self).len,
                empty > 0 ==> old(self).front@.len() == 0,
                self.len is Some <==> old(self).len is Some,
                old(self).len matches Some(n) ==> self.len->Some_0 <= n,
                old(self).len is Some && empty > 0 ==> self.len->Some_0 < old(self).len->Some_0,
                empty > 0 ==> forall|j: int|
                    0 <= j < self.front@.len() ==> item_made_by::<R, B, F>(
                        self.f,
                        #[trigger] self.front@[j],
                    ),
            decreases
                    (match self.len {
                        Some(n) => n as int,
                        None => EMPTY_LIMIT - empty,
                    }),
                    self.front@.len(),
        {
            match self.front.pop() {
                Some(x) => {
                    return Some(x);
                },
                None => {},
            }
            match self.len {
                Some(n) => {
                    if n == 0 {
                        return None;
                    }
                    self.len = Some(n - 1);
                },
                None => {
                    if empty == EMPTY_LIMIT {
                        return None;
                    }
                },
            }
            if empty < EMPTY_LIMIT {
                empty += 1;
            }
            let mut made: Vec<B> = (self.f)(self.rng);
            let ghost fresh = made;
            reverse(&mut made);
            proof {
                assert forall|j: int| 0 <= j < made@.len() implies item_made_by::<R, B, F>(
                    self.f,
                    #[trigger] made@[j],
                ) by {
                    assert(fresh@[fresh@.len() - 1 - j] == made@[j]);
                    assert(fresh@.contains(made@[j]));
                }
            }
            self.front = made;
        }
    }

    /// The number of items that are left: at least those of the collection
    /// made last; and no more than those if no collection is left.
    pub fn size_hint(&self) -> (r: (usize, Option<usize>))
        ensures
            r.0 == self.front@.len(),
            r.1 == if self.len == Some(0usize) {
                Some(self.front@.len() as usize)
            } else {
                None::<usize>
            },
    {
        let lb: usize = self.front.len();
        match self.len {
            Some(n) => {
                if n == 0 {
                    // No new collections, so we have the front one or nothing
                    (lb, Some(lb))
                } else {
                    (lb, None)
                }
            },
            // Can't compute an actual bound without producing the
            // collections, which we don't want to do. But we have a lower
            // bound.
            None => (lb, None),
        }
    }

    /// All the items that are left, in order: first what is left of the
    /// collection made last, then the items of the collections that the
    /// closure makes, as many collections as the limit allows. The number of
    /// collections has to be limited.
    pub fn collect(self) -> (items: Vec<B>)
        requires
            self.len is Some,
            forall|x: &mut R| #[trigger] self.f.requires((x,)),
        ensures
            self.front@.len() <= items@.len(),
            forall|i: int|
                0 <= i < self.front@.len() ==> #[trigger] items@[i] == self.front@[self.front@.len()
                    - 1 - i],
            forall|i: int|
                self.front@.len() <= i < items@.len() ==> item_made_by::<R, B, F>(
                    self.f,
                    #[trigger] items@[i],
                ),
            self.len == Some(0usize) ==> items@.len() == self.front@.len(),
    {
        let mut it = self;
        let mut items: Vec<B> = Vec::new();
        let ghost k = self.front@.len() as int;
        let ghost past = false;
        loop
            invariant
                it.len is Some,
                it.f == self.f,
                forall|x: &mut R| #[trigger] it.f.requires((x,)),
                k == self.front@.len(),
                !past ==> it.len == self.len && items@.len() + it.front@.len() == k && it.front@
                    == self.front@.take(it.front@.len() as int),
                past ==> items@.len() >= k && self.len != Some(0usize) && forall|j: int|
                    0 <= j < it.front@.len() ==> item_made_by::<R, B, F>(
                        self.f,
                        #[trigger] it.front@[j],
                    ),
                items@.len() <= k ==> forall|i: int|
                    0 <= i < items@.len() ==> #[trigger] items@[i] == self.front@[k - 1 - i],
                items@.len() >= k ==> forall|i: int|
                    0 <= i < k ==> #[trigger] items@[i] == self.front@[k - 1 - i],
                forall|i: int|
                    k <= i < items@.len() ==> item_made_by::<R, B, F>(self.f, #[trigger] items@[i]),
            decreases it.len->Some_0, it.front@.len(),
        {
            let ghost before = it.front@;
            let ghost had = items@;
            match it.next() {
                Some(b) => {
                    items.push(b);
                    proof {
                        if before.len() == 0 {
                            past = true;
                        }
                        assert forall|i: int| 0 <= i < items@.len() && i < k implies #[trigger] items@[i]
                            == self.front@[k - 1 - i] by {
                            if i < had.len() {
                                assert(items@[i] == had[i]);
                            }
                        }
                        assert forall|i: int| k <= i < items@.len() implies item_made_by::<R, B, F>(
                            self.f,
                            #[trigger] items@[i],
                        ) by {
                            if i < had.len() {
                                assert(items@[i] == had[i]);
                            }
                        }
                    }
                },
                None => {
                    return items;
                },
            }
        }
    }
}

/// Turns a vector round: its first element becomes its last.
pub fn reverse<T>(v: &mut Vec<T>)
    ensures
        final(v)@ == old(v)@.reverse(),
{
    let n: usize = v.len();
    let mut i: usize = 0;
    while i < n / 2
        invariant
            n == v@.len(),
            n == old(v)@.len(),
            i <= n / 2,
            forall|k: int| 0 <= k < i ==> v@[k] == old(v)@[n - 1 - k],
            forall|k: int| 0 <= k < i ==> v@[n - 1 - k] == old(v)@[k],
            forall|k: int| i <= k < n - i ==> v@[k] == old(v)@[k],
        decreases n / 2 - i,
    {
        v.as_mut_slice().swap(i, n - 1 - i);
        i += 1;
    }
    assert(v@ =~= old(v)@.reverse());
}

} // verus!
