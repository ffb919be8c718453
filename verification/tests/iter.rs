use rand::distributions::{Distribution, Uniform};
use rand::iter::iter;
use rand::mock::StepRng;
use rand::{Rng, RngCore};

#[test]
fn test_iter() {
    let mut rng = StepRng::new(3, 1);

    let x: Vec<()> = iter(&mut rng).take(10).map(|_| ()).collect();
    assert_eq!(x.len(), 10);
    let y: Vec<u32> = iter(&mut rng).take(10).map(|rng| rng.sample(Uniform)).collect();
    assert_eq!(y.len(), 10);
    let z: Vec<u32> = iter(&mut rng)
        .take(10)
        .flat_map(|rng| vec![rng.sample(Uniform), rng.sample(Uniform)])
        .collect();
    assert_eq!(z.len(), 20);
    let w: Vec<String> = iter(&mut rng).take(10).flat_map(|_| vec![]).collect();
    assert_eq!(w.len(), 0);
}

#[test]
fn test_dyn_dispatch() {
    let r = &mut StepRng::new(0, 0x0421_0842_1084_2108);

    let x: String = iter(r)
        .take(10)
        .map(|rng| rng.gen_ascii_chars().next().unwrap())
        .collect()
        .into_iter()
        .collect();
    assert_eq!(x.len(), 10);
    assert_eq!(x, "ABCDEFGHIJ");
}

#[test]
fn mapped_items_come_in_order() {
    let mut rng = StepRng::new(3, 1);
    let mut it = iter(&mut rng).take(7).take(3).take(5).map(|rng| rng.next_u64() * 10);
    assert_eq!(it.size_hint(), (3, Some(3)));
    assert_eq!(it.next(), Some(30));
    assert_eq!(it.size_hint(), (2, Some(2)));
    assert_eq!(it.next(), Some(40));
    assert_eq!(it.next(), Some(50));
    assert_eq!(it.next(), None);
    assert_eq!(it.next(), None);
    assert_eq!(it.size_hint(), (0, Some(0)));
    // the source has handed out three values
    assert_eq!(rng.next_u64(), 6);

    let mut unlimited = iter(&mut rng).map(|rng| rng.next_u64());
    assert_eq!(unlimited.size_hint(), (usize::MAX, None));
    assert_eq!(unlimited.next(), Some(7));
}

#[test]
fn flat_mapped_items_come_in_order() {
    let mut rng = StepRng::new(0, 1);
    let mut it = iter(&mut rng).take(4).flat_map(|rng| {
        let n = rng.next_u64();
        (0..n).map(|k| 10 * n + k).collect::<Vec<u64>>()
    });
    assert_eq!(it.size_hint(), (0, None));
    // the first collection is empty and is passed over
    assert_eq!(it.next(), Some(10));
    assert_eq!(it.next(), Some(20));
    assert_eq!(it.size_hint(), (1, None));
    assert_eq!(it.next(), Some(21));
    assert_eq!(it.next(), Some(30));
    assert_eq!(it.size_hint(), (2, Some(2)));
    assert_eq!(it.next(), Some(31));
    assert_eq!(it.next(), Some(32));
    assert_eq!(it.next(), None);
    assert_eq!(it.size_hint(), (0, Some(0)));
    let rest: Vec<u64> = iter(&mut rng)
        .take(2)
        .flat_map(|rng| {
            let n = rng.next_u64();
            vec![n, n + 100]
        })
        .collect();
    assert_eq!(rest, [4, 104, 5, 105]);
}

#[test]
fn uniform_through_the_distribution() {
    let mut rng = StepRng::new(9, 1);
    let v: u64 = Uniform.sample(&mut rng);
    assert_eq!(v, 9);
}

#[test]
fn collecting_starts_with_what_is_left() {
    let mut rng = StepRng::new(1, 1);
    let mut it = iter(&mut rng).take(3).flat_map(|rng| {
        let n = rng.next_u64();
        vec![10 * n, 10 * n + 1, 10 * n + 2]
    });
    assert_eq!(it.next(), Some(10));
    // two items of the first collection are left, and two collections
    assert_eq!(it.collect(), [11, 12, 20, 21, 22, 30, 31, 32]);

    let mut rng = StepRng::new(1, 1);
    let mut it = iter(&mut rng).take(1).flat_map(|rng| vec![rng.next_u64(), 7]);
    assert_eq!(it.next(), Some(1));
    // no collection is left: what is collected is the rest of the first
    assert_eq!(it.collect(), [7]);
    assert_eq!(rng.next_u64(), 2);
}
