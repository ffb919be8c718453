use rand::entropy::{Action, Event, Phase, Source};
use rand::mock::StepRng;
use rand::reseeding::ReseedingRng;
use rand::retry::{after_failure, Retry, RETRY_LIMIT};
use rand::{
    thread_rng, EntropyRng, EntropySource, Error, ErrorKind, FromEntropy, ReadRng, RngCore,
    SeedFromRng, SeedableRng, StdRng, XorShiftRng,
};

/// An entropy source that hands out seeds tagged with the number of the
/// request, and that can be made to fail.
struct Tagged {
    requests: u8,
    fail: Option<ErrorKind>,
}

// The view and the functions that describe the source are read by the
// verifier only; nothing calls them.
impl rand::View for Tagged {
    type V = ();

    fn view(&self) {}
}

impl EntropySource for Tagged {
    fn wf(&self) -> bool {
        true
    }

    fn try_fill_bytes_spec(
        _: (),
        _: rand::Length,
    ) -> (Result<rand::Bytes, Error>, ()) {
        unreachable!()
    }

    fn try_fill_bytes(&mut self, dest: &mut [u8]) -> Result<(), Error> {
        if let Some(kind) = self.fail {
            return Err(Error::new(kind, "no entropy"));
        }
        self.requests += 1;
        for b in dest.iter_mut() {
            *b = self.requests;
        }
        Ok(())
    }
}

fn seeded_with(tag: u8) -> StdRng {
    StdRng::from_seed([tag; 32]).unwrap()
}

#[test]
fn error_kinds() {
    assert!(!ErrorKind::Unavailable.should_retry());
    assert!(ErrorKind::Unexpected.should_retry());
    assert!(ErrorKind::Transient.should_retry());
    assert!(ErrorKind::NotReady.should_retry());
    assert!(!ErrorKind::Unavailable.should_wait());
    assert!(!ErrorKind::Unexpected.should_wait());
    assert!(!ErrorKind::Transient.should_wait());
    assert!(ErrorKind::NotReady.should_wait());
    assert_eq!(ErrorKind::Unavailable.description(), "permanently unavailable");
    assert_eq!(ErrorKind::Unexpected.description(), "unexpected failure");
    assert_eq!(ErrorKind::Transient.description(), "transient failure");
    assert_eq!(ErrorKind::NotReady.description(), "not ready yet");
    let e = Error::new(ErrorKind::Transient, "busy");
    assert_eq!(e.kind, ErrorKind::Transient);
    assert_eq!(e.msg, "busy");
}

#[test]
fn reseeding_at_the_threshold() {
    // threshold 100 bytes: the request that takes the count to 100 is
    // served by a generator seeded afresh, once for each crossing
    let mut rng = ReseedingRng::new(seeded_with(0), 100, Tagged { requests: 0, fail: None });
    let mut plain = seeded_with(0);
    let mut buf = [0u8; 60];
    let mut expected = [0u8; 60];
    rng.try_fill_bytes(&mut buf).unwrap();
    plain.fill_bytes(&mut expected);
    assert_eq!(buf[..], expected[..]);
    assert!(!rng.is_reseed_due(39));
    assert!(rng.is_reseed_due(40));

    // 60 + 39 = 99: still the first generator
    let mut buf = [0u8; 39];
    let mut expected = [0u8; 39];
    rng.try_fill_bytes(&mut buf).unwrap();
    plain.fill_bytes(&mut expected);
    assert_eq!(buf[..], expected[..]);

    // 99 + 4 crosses: the word comes from the generator with the first
    // seed of the source
    assert!(rng.is_reseed_due(1));
    let mut first = seeded_with(1);
    assert_eq!(rng.try_next_u32().unwrap(), first.next_u32());
    assert!(!rng.is_reseed_due(95));
    assert!(rng.is_reseed_due(96));
    assert_eq!(rng.try_next_u64().unwrap(), first.next_u64());

    // 12 + 88 crosses again: the second seed
    let mut buf = [0u8; 88];
    let mut expected = [0u8; 88];
    rng.try_fill_bytes(&mut buf).unwrap();
    let mut second = seeded_with(2);
    second.fill_bytes(&mut expected);
    assert_eq!(buf[..], expected[..]);
    assert!(rng.is_reseed_due(12));
    assert!(!rng.is_reseed_due(11));
}

#[test]
fn one_reseeding_for_a_request_beyond_the_threshold() {
    let mut rng = ReseedingRng::new(seeded_with(0), 100, Tagged { requests: 0, fail: None });
    let mut buf = vec![0u8; 1000];
    rng.try_fill_bytes(&mut buf).unwrap();
    let mut first = seeded_with(1);
    let mut expected = vec![0u8; 1000];
    first.fill_bytes(&mut expected);
    assert_eq!(buf, expected);
    // the count stands beyond the threshold: the next request reseeds
    assert!(rng.is_reseed_due(0));
    let mut second = seeded_with(2);
    assert_eq!(rng.try_next_u32().unwrap(), second.next_u32());
}

#[test]
fn reseed_on_demand() {
    let mut rng = ReseedingRng::new(seeded_with(0), 1 << 40, Tagged { requests: 0, fail: None });
    rng.try_next_u32().unwrap();
    rng.reseed().unwrap();
    let mut first = seeded_with(1);
    assert_eq!(rng.try_next_u64().unwrap(), first.next_u64());
}

#[test]
fn a_failed_reseeding_is_reported() {
    let mut rng = ReseedingRng::new(
        seeded_with(0),
        8,
        Tagged { requests: 0, fail: Some(ErrorKind::NotReady) },
    );
    let mut plain = seeded_with(0);
    assert_eq!(rng.try_next_u32().unwrap(), plain.next_u32());
    // 4 + 4 reaches the threshold, and the source fails
    let e = rng.try_next_u32().unwrap_err();
    assert_eq!(e.kind, ErrorKind::NotReady);
    assert_eq!(e.msg, "no entropy");
    let e = rng.try_next_u64().unwrap_err();
    assert_eq!(e.kind, ErrorKind::NotReady);
    let mut buf = [0u8; 5];
    assert_eq!(rng.try_fill_bytes(&mut buf).unwrap_err().kind, ErrorKind::NotReady);
    assert_eq!(rng.reseed().unwrap_err().kind, ErrorKind::NotReady);
    // the generator is as it was: a request below the threshold is served
    let mut buf = [0u8; 3];
    let mut expected = [0u8; 3];
    rng.try_fill_bytes(&mut buf).unwrap();
    plain.fill_bytes(&mut expected);
    assert_eq!(buf, expected);
}

#[test]
fn thread_rng_is_seeded_and_reseeded_from_its_source() {
    let mut rng = thread_rng(Tagged { requests: 0, fail: None }).unwrap();
    let mut first = seeded_with(1);
    assert_eq!(rng.try_next_u32().unwrap(), first.next_u32());
    assert_eq!(rng.try_next_u64().unwrap(), first.next_u64());
    // 32 MiB less the 12 bytes taken and one more: served without a new seed
    let mut buf = vec![0u8; (32 << 20) - 13];
    let mut expected = vec![0u8; (32 << 20) - 13];
    rng.try_fill_bytes(&mut buf).unwrap();
    first.fill_bytes(&mut expected);
    assert!(buf == expected);
    // the next byte reaches 32 MiB
    let mut second = seeded_with(2);
    let mut one = [0u8; 1];
    let mut expected = [0u8; 1];
    rng.try_fill_bytes(&mut one).unwrap();
    second.fill_bytes(&mut expected);
    assert_eq!(one, expected);

    let failed = thread_rng(Tagged { requests: 0, fail: Some(ErrorKind::Unavailable) });
    assert_eq!(failed.err().unwrap().kind, ErrorKind::Unavailable);
}

#[test]
fn from_entropy_is_from_rng() {
    let mut a = StdRng::from_entropy(&mut Tagged { requests: 4, fail: None }).unwrap();
    let mut b = StdRng::from_rng(&mut Tagged { requests: 4, fail: None }).unwrap();
    let mut c = seeded_with(5);
    for _ in 0..70 {
        let x = a.next_u32();
        assert_eq!(x, b.next_u32());
        assert_eq!(x, c.next_u32());
    }
    let failed = XorShiftRng::from_entropy(&mut Tagged {
        requests: 0,
        fail: Some(ErrorKind::Transient),
    });
    assert_eq!(failed.err().unwrap().kind, ErrorKind::Transient);
}

#[test]
fn seeding_from_a_generator_round_trip() {
    // The generator seeded from a source is the one seeded from the bytes
    // that the source hands out.
    let mut source = StepRng::new(0x0807_0605_0403_0201, 0x0808_0808_0808_0808);
    let mut from_source = StdRng::from_rng(&mut source).unwrap();
    let mut seed = [0u8; 32];
    for (i, b) in seed.iter_mut().enumerate() {
        *b = i as u8 + 1;
    }
    let mut from_bytes = StdRng::from_seed(seed).unwrap();
    for _ in 0..300 {
        assert_eq!(from_source.next_u64(), from_bytes.next_u64());
    }
    // exactly the bytes of the seed were taken
    assert_eq!(source.next_u64(), 0x2827_2625_2423_2221);
}

#[test]
fn entropy_chain_asks_the_operating_system_first() {
    let mut chain = EntropyRng::new();
    assert_eq!(chain.source(), Source::Unused);
    assert!(matches!(chain.phase(), Phase::Idle));
    assert!(matches!(chain.step(Event::Start), Action::FillFromOs));
    assert!(matches!(chain.phase(), Phase::AwaitingOs));
    assert!(matches!(chain.step(Event::OsDone(Ok(()))), Action::Finish(Ok(()))));
    assert_eq!(chain.source(), Source::Os);
    assert!(matches!(chain.phase(), Phase::Idle));
}

#[test]
fn entropy_chain_falls_back_to_the_jitter() {
    let mut chain = EntropyRng::new();
    chain.step(Event::Start);
    let os = Error::new(ErrorKind::Unavailable, "no source of the system");
    assert!(matches!(chain.step(Event::OsDone(Err(os))), Action::FillFromJitter));
    assert!(matches!(chain.step(Event::JitterDone(Ok(()))), Action::Finish(Ok(()))));
    assert_eq!(chain.source(), Source::Jitter);

    // the next request asks the operating system again
    assert!(matches!(chain.step(Event::Start), Action::FillFromOs));
    assert!(matches!(chain.step(Event::OsDone(Ok(()))), Action::Finish(Ok(()))));
    assert_eq!(chain.source(), Source::Os);
}

#[test]
fn entropy_chain_fails_with_the_first_failure() {
    let mut chain = EntropyRng::new();
    chain.step(Event::Start);
    let os = Error::new(ErrorKind::NotReady, "pool not ready");
    chain.step(Event::OsDone(Err(os)));
    let jitter = Error::new(ErrorKind::Unavailable, "timer too coarse");
    match chain.step(Event::JitterDone(Err(jitter))) {
        Action::Finish(Err(e)) => {
            assert_eq!(e.kind, ErrorKind::NotReady);
            assert_eq!(e.msg, "pool not ready");
        }
        _ => panic!("the request did not fail"),
    }
    assert_eq!(chain.source(), Source::Unused);
    assert!(matches!(chain.phase(), Phase::Idle));
}

#[test]
fn entropy_chain_refuses_events_out_of_order() {
    let mut chain = EntropyRng::new();
    match chain.step(Event::JitterDone(Ok(()))) {
        Action::Finish(Err(e)) => assert_eq!(e.kind, ErrorKind::Unexpected),
        _ => panic!("accepted"),
    }
    chain.step(Event::Start);
    match chain.step(Event::Start) {
        Action::Finish(Err(e)) => assert_eq!(e.kind, ErrorKind::Unexpected),
        _ => panic!("accepted"),
    }
    assert!(matches!(chain.phase(), Phase::Idle));
}

#[test]
fn read_rng_hands_out_its_bytes() {
    let mut rng = ReadRng::new(vec![1, 2, 3, 4, 5, 6, 7, 8, 9, 10, 11, 12, 13, 14, 15]);
    assert_eq!(rng.remaining(), 15);
    assert_eq!(rng.try_next_u32().unwrap(), 0x0403_0201);
    assert_eq!(rng.try_next_u64().unwrap(), 0x0c0b_0a09_0807_0605);
    let mut two = [0u8; 2];
    rng.try_fill_bytes(&mut two).unwrap();
    assert_eq!(two, [13, 14]);
    // one byte is left: a word is not to be had, and the byte stays
    let e = rng.try_next_u32().unwrap_err();
    assert_eq!(e.kind, ErrorKind::Unavailable);
    assert_eq!(e.msg, "not enough bytes available, reached end of source");
    assert_eq!(rng.remaining(), 1);
    let mut none = [0u8; 0];
    rng.try_fill_bytes(&mut none).unwrap();
    let mut one = [0u8; 1];
    rng.try_fill_bytes(&mut one).unwrap();
    assert_eq!(one, [15]);
    assert!(rng.try_fill_bytes(&mut one).is_err());
    rng.try_fill_bytes(&mut none).unwrap();
}

#[test]
fn read_rng_seeds_a_generator() {
    let mut bytes = vec![0u8; 16];
    bytes.extend((1..=16).collect::<Vec<u8>>());
    let mut source = ReadRng::new(bytes);
    // the first sixteen bytes are a seed of zeros, which is drawn again
    let mut a = XorShiftRng::from_rng(&mut source).unwrap();
    let mut seed = [0u8; 16];
    for (i, b) in seed.iter_mut().enumerate() {
        *b = i as u8 + 1;
    }
    let mut b = XorShiftRng::from_seed(seed).unwrap();
    assert_eq!(a.next_u64(), b.next_u64());
    assert_eq!(source.remaining(), 0);
    // no seed is left
    let e = XorShiftRng::from_rng(&mut source).err().unwrap();
    assert_eq!(e.kind, ErrorKind::Unavailable);
}

#[test]
fn step_rng_steps() {
    let mut rng = StepRng::new(u64::MAX - 1, 3);
    assert_eq!(rng.next_u64(), u64::MAX - 1);
    assert_eq!(rng.next_u64(), 1);
    assert_eq!(rng.next_u32(), 4);
    let mut rng = StepRng::new(0x0102_0304_0506_0708, 0x1010_1010_1010_1010);
    assert_eq!(rng.next_u32(), 0x0506_0708);
    let mut buf = [0u8; 13];
    rng.try_fill_bytes(&mut buf).unwrap();
    assert_eq!(buf, [0x18, 0x17, 0x16, 0x15, 0x14, 0x13, 0x12, 0x11, 0x28, 0x27, 0x26, 0x25, 0x24]);
    assert_eq!(rng.next_u64(), 0x3132_3334_3536_3738);
}

#[test]
fn retries_after_failures() {
    let mut count = 0;
    assert_eq!(after_failure(&mut count, ErrorKind::NotReady), Retry::Wait);
    assert_eq!(count, 1);
    assert_eq!(after_failure(&mut count, ErrorKind::Transient), Retry::Again);
    assert_eq!(count, 14);
    assert_eq!(after_failure(&mut count, ErrorKind::Unexpected), Retry::Again);
    assert_eq!(count, 27);
    assert_eq!(after_failure(&mut count, ErrorKind::Unavailable), Retry::Fatal);
    assert_eq!(count, 27);

    // a source that is never ready is waited for a hundred times
    let mut count = 0;
    let mut waits = 0;
    while after_failure(&mut count, ErrorKind::NotReady) == Retry::Wait {
        waits += 1;
    }
    assert_eq!(waits, 100);
    assert_eq!(count, RETRY_LIMIT);
    assert_eq!(after_failure(&mut count, ErrorKind::NotReady), Retry::GiveUp);
    assert_eq!(after_failure(&mut count, ErrorKind::Unavailable), Retry::GiveUp);

    // a failure that passes is tried eight times
    let mut count = 0;
    let mut tries = 0;
    while after_failure(&mut count, ErrorKind::Transient) == Retry::Again {
        tries += 1;
    }
    assert_eq!(tries, 8);
}
