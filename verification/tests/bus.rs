use sensing::bus::{BusArbiter, Grant, Handover, Timed, DEFAULT_HOLD_LIMIT_MS};
use sensing::enums::failure::FailureReason;

#[test]
fn bus_goes_to_one_caller_at_a_time() {
    let mut bus = BusArbiter::new(DEFAULT_HOLD_LIMIT_MS);
    assert_eq!(bus.limit_ms, 100);
    assert_eq!(bus.holder, None);
    assert_eq!(bus.request(1, 1_000), Grant::Granted);
    assert_eq!(bus.holder, Some(1));
    assert_eq!(bus.since_ms, 1_000);
    assert_eq!(bus.request(2, 1_001), Grant::Queued);
    assert_eq!(bus.request(3, 1_002), Grant::Queued);
    assert_eq!(bus.holder, Some(1));
    assert_eq!(bus.waiters, vec![2, 3]);
    assert_eq!(bus.request(1, 1_003), Grant::Refused);
    assert_eq!(bus.request(3, 1_003), Grant::Refused);
    assert_eq!(bus.holder, Some(1));
    assert_eq!(bus.waiters, vec![2, 3]);
}

#[test]
fn bus_passes_to_waiters_in_the_order_they_asked() {
    let mut bus = BusArbiter::new(100);
    bus.request(5, 0);
    bus.request(9, 1);
    bus.request(7, 2);
    bus.request(8, 3);
    assert_eq!(bus.release(7, 10), None);
    assert_eq!(bus.holder, Some(5));
    assert_eq!(bus.release(5, 10), Some(Handover { next: Some(9), overran: false }));
    assert_eq!(bus.holder, Some(9));
    assert_eq!(bus.since_ms, 10);
    assert_eq!(bus.waiters, vec![7, 8]);
    assert_eq!(bus.release(9, 110), Some(Handover { next: Some(7), overran: false }));
    assert_eq!(bus.release(7, 211), Some(Handover { next: Some(8), overran: true }));
    assert_eq!(bus.release(8, 212), Some(Handover { next: None, overran: false }));
    assert_eq!(bus.holder, None);
    assert!(bus.waiters.is_empty());
    assert_eq!(bus.release(8, 213), None);
}

#[test]
fn bus_is_taken_from_a_holder_that_overstays() {
    let mut bus = BusArbiter::new(50);
    assert_eq!(bus.expire(1_000), None);
    bus.request(1, 1_000);
    bus.request(2, 1_010);
    assert_eq!(bus.expire(1_050), None);
    assert_eq!(bus.expire(900), None);
    assert_eq!(bus.holder, Some(1));
    assert_eq!(bus.expire(1_051), Some(1));
    assert_eq!(bus.holder, Some(2));
    assert_eq!(bus.since_ms, 1_051);
    assert!(bus.waiters.is_empty());
    assert_eq!(bus.expire(1_102), Some(2));
    assert_eq!(bus.holder, None);
    assert_eq!(bus.expire(u64::MAX), None);
}

#[test]
fn waiters_may_give_up_their_place() {
    let mut bus = BusArbiter::new(100);
    bus.request(1, 0);
    bus.request(2, 0);
    bus.request(3, 0);
    bus.request(4, 0);
    assert!(bus.withdraw(3));
    assert_eq!(bus.waiters, vec![2, 4]);
    assert!(!bus.withdraw(3));
    assert!(!bus.withdraw(1));
    assert_eq!(bus.holder, Some(1));
    assert_eq!(bus.request(3, 5), Grant::Queued);
    assert_eq!(bus.waiters, vec![2, 4, 3]);
}

#[test]
fn with_bus_lets_go_on_every_path() {
    let mut bus = BusArbiter::new(100);
    let r = bus.with_bus(1, || Timed { value: 42u16, elapsed_ms: 100 });
    assert_eq!(r, Timed { value: Ok(42), elapsed_ms: 100 });
    assert_eq!(bus.holder, None);
    let r = bus.with_bus(1, || Timed { value: 42u16, elapsed_ms: 101 });
    assert_eq!(r, Timed { value: Err(FailureReason::BusBusy), elapsed_ms: 101 });
    assert_eq!(bus.holder, None);
    let r: Timed<Result<Result<u16, FailureReason>, FailureReason>> = bus
        .with_bus(1, || Timed { value: Err(FailureReason::DeviceNotResponding), elapsed_ms: 1 });
    assert_eq!(r, Timed { value: Ok(Err(FailureReason::DeviceNotResponding)), elapsed_ms: 1 });
    assert_eq!(bus.holder, None);
    bus.request(2, 0);
    let mut ran = false;
    let r = bus.with_bus(1, || {
        ran = true;
        Timed { value: 1u8, elapsed_ms: 5 }
    });
    assert_eq!(r, Timed { value: Err(FailureReason::BusBusy), elapsed_ms: 0 });
    assert!(!ran);
    assert_eq!(bus.holder, Some(2));
    assert!(bus.waiters.is_empty());
}

#[test]
fn bus_is_never_held_by_two_callers() {
    let mut bus = BusArbiter::new(40);
    let mut holding: Vec<u64> = Vec::new();
    let mut seed: u64 = 0x2545_f491_4f6c_dd1d;
    let mut now: u64 = 0;
    for _ in 0..20_000 {
        seed = seed.wrapping_mul(6364136223846793005).wrapping_add(1442695040888963407);
        let caller = (seed >> 33) % 6;
        now += (seed >> 40) % 30;
        match (seed >> 50) % 4 {
            0 | 1 => match bus.request(caller, now) {
                Grant::Granted => {
                    assert!(holding.is_empty());
                    holding.push(caller);
                }
                Grant::Queued => assert!(!holding.contains(&caller)),
                Grant::Refused => {}
            },
            2 => {
                if let Some(h) = bus.release(caller, now) {
                    assert_eq!(holding, vec![caller]);
                    holding.clear();
                    holding.extend(h.next);
                }
            }
            _ => {
                if let Some(loser) = bus.expire(now) {
                    assert_eq!(holding, vec![loser]);
                    holding.clear();
                    holding.extend(bus.holder);
                }
            }
        }
        assert!(holding.len() <= 1);
        assert_eq!(bus.holder, holding.first().copied());
        if let Some(h) = bus.holder {
            assert!(!bus.waiters.contains(&h));
        } else {
            assert!(bus.waiters.is_empty());
        }
        let mut sorted = bus.waiters.clone();
        sorted.sort();
        sorted.dedup();
        assert_eq!(sorted.len(), bus.waiters.len());
    }
}
