use rand::distributions::{ConstructionError, Distribution, Weighted, WeightedChoice};
use rand::mock::StepRng;

fn check(items: &mut [Weighted<i32>], expected: &[i32]) {
    let mut total_weight = 0;
    for item in items.iter() {
        total_weight += item.weight;
    }

    let wc = WeightedChoice::new(items).unwrap();

    // Use extremely large steps between the random numbers, because
    // we test with small ranges and the range is designed to prefer
    // the most significant bits.
    let mut rng = StepRng::new(0, !0 / (total_weight as u64));

    for &val in expected.iter() {
        assert_eq!(wc.sample(&mut rng), val)
    }
}

#[test]
fn test_weighted_choice() {
    // this makes assumptions about the internal implementation of
    // WeightedChoice. It may fail when the implementation of the range
    // changes.
    check(&mut [Weighted { weight: 1, item: 10 }], &[10]);

    // skip some
    check(
        &mut [
            Weighted { weight: 0, item: 20 },
            Weighted { weight: 2, item: 21 },
            Weighted { weight: 0, item: 22 },
            Weighted { weight: 1, item: 23 },
        ],
        &[21, 21, 23],
    );

    // different weights
    check(
        &mut [Weighted { weight: 4, item: 30 }, Weighted { weight: 3, item: 31 }],
        &[30, 31, 30, 31, 30, 31, 30],
    );

    // check that we're binary searching
    // correctly with some vectors of odd
    // length.
    check(
        &mut [
            Weighted { weight: 1, item: 40 },
            Weighted { weight: 1, item: 41 },
            Weighted { weight: 1, item: 42 },
            Weighted { weight: 1, item: 43 },
            Weighted { weight: 1, item: 44 },
        ],
        &[40, 41, 42, 43, 44],
    );
    check(
        &mut [
            Weighted { weight: 1, item: 50 },
            Weighted { weight: 1, item: 51 },
            Weighted { weight: 1, item: 52 },
            Weighted { weight: 1, item: 53 },
            Weighted { weight: 1, item: 54 },
            Weighted { weight: 1, item: 55 },
            Weighted { weight: 1, item: 56 },
        ],
        &[50, 54, 51, 55, 52, 56, 53],
    );
}

#[test]
fn test_weighted_clone_initialization() {
    let initial: Weighted<u32> = Weighted { weight: 1, item: 1 };
    let clone = initial.clone();
    assert_eq!(initial.weight, clone.weight);
    assert_eq!(initial.item, clone.item);
}

#[test]
#[should_panic]
fn test_weighted_clone_change_weight() {
    let initial: Weighted<u32> = Weighted { weight: 1, item: 1 };
    let mut clone = initial.clone();
    clone.weight = 5;
    assert_eq!(initial.weight, clone.weight);
}

#[test]
#[should_panic]
fn test_weighted_clone_change_item() {
    let initial: Weighted<u32> = Weighted { weight: 1, item: 1 };
    let mut clone = initial.clone();
    clone.item = 5;
    assert_eq!(initial.item, clone.item);
}

#[test]
#[should_panic]
fn test_weighted_choice_no_items() {
    WeightedChoice::<isize>::new(&mut []).unwrap();
}

#[test]
#[should_panic]
fn test_weighted_choice_zero_weight() {
    WeightedChoice::new(&mut [Weighted { weight: 0, item: 0 }, Weighted { weight: 0, item: 1 }])
        .unwrap();
}

#[test]
#[should_panic]
fn test_weighted_choice_weight_overflows() {
    let x = ::core::u32::MAX / 2; // x + x + 2 is the overflow
    WeightedChoice::new(&mut [
        Weighted { weight: x, item: 0 },
        Weighted { weight: 1, item: 1 },
        Weighted { weight: x, item: 2 },
        Weighted { weight: 1, item: 3 },
    ])
    .unwrap();
}

#[test]
fn weighted_choice_reports_why_it_fails() {
    let mut none: [Weighted<u8>; 0] = [];
    assert_eq!(WeightedChoice::new(&mut none).unwrap_err(), ConstructionError::NoItems);

    let mut zero = [Weighted { weight: 0, item: 'a' }, Weighted { weight: 0, item: 'b' }];
    assert_eq!(WeightedChoice::new(&mut zero).unwrap_err(), ConstructionError::ZeroTotalWeight);
    // a refusal leaves the weights as they were
    assert_eq!(zero[0].weight, 0);
    assert_eq!(zero[1].weight, 0);

    let x = u32::MAX / 2;
    let mut over = [
        Weighted { weight: x, item: 0 },
        Weighted { weight: 1, item: 1 },
        Weighted { weight: x, item: 2 },
        Weighted { weight: 1, item: 3 },
    ];
    assert_eq!(WeightedChoice::new(&mut over).unwrap_err(), ConstructionError::WeightOverflow);
    assert_eq!(over[0].weight, x);
    assert_eq!(over[1].weight, 1);
    assert_eq!(over[2].weight, x);
    assert_eq!(over[3].weight, 1);

    // the greatest total that fits
    let mut fits = [Weighted { weight: x, item: 0 }, Weighted { weight: x + 1, item: 1 }];
    assert!(WeightedChoice::new(&mut fits).is_ok());
}

#[test]
fn weighted_choice_by_drawn_weight() {
    // weights 0, 2, 0, 1: the drawn weights 0 and 1 fall to item 1, the
    // drawn weight 2 to item 3, and items 0 and 2 are never chosen
    let mut items = [
        Weighted { weight: 0, item: 'a' },
        Weighted { weight: 2, item: 'b' },
        Weighted { weight: 0, item: 'c' },
        Weighted { weight: 1, item: 'd' },
    ];
    let wc = WeightedChoice::new(&mut items).unwrap();
    assert_eq!(wc.index_of(0), 1);
    assert_eq!(wc.index_of(1), 1);
    assert_eq!(wc.index_of(2), 3);
    assert_eq!(*wc.item_of(0), 'b');
    assert_eq!(*wc.item_of(1), 'b');
    assert_eq!(*wc.item_of(2), 'd');
}

#[test]
fn weighted_choice_counts_follow_weights() {
    // every drawn weight of the total is looked at once: each item is
    // chosen as often as its weight says
    let weights = [3u32, 0, 1, 7, 2, 0, 5, 1, 1];
    for n in 1..=weights.len() {
        let mut items: Vec<Weighted<usize>> =
            (0..n).map(|i| Weighted { weight: weights[i], item: i }).collect();
        let total: u32 = weights[..n].iter().sum();
        let wc = WeightedChoice::new(&mut items).unwrap();
        let mut counts = vec![0u32; n];
        let mut last = 0;
        for draw in 0..total {
            let idx = wc.index_of(draw);
            assert!(idx >= last);
            last = idx;
            counts[idx] += 1;
        }
        assert_eq!(&counts[..], &weights[..n]);
    }
}

#[test]
fn weighted_choice_keeps_running_sums_in_the_items() {
    let mut items = [
        Weighted { weight: 2, item: 'a' },
        Weighted { weight: 4, item: 'b' },
        Weighted { weight: 1, item: 'c' },
    ];
    {
        let wc = WeightedChoice::new(&mut items).unwrap();
        assert_eq!(wc.len(), 3);
    }
    assert_eq!(items[0].weight, 2);
    assert_eq!(items[1].weight, 6);
    assert_eq!(items[2].weight, 7);
}
