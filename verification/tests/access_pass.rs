use std::cell::RefCell;

use connect_preflight::access_pass::{
    check_accesspass, next_read, AccessPass, LedgerAnswers, NextRead,
};
use connect_preflight::address::Ipv4Addr;

const EPOCH: u64 = 100;

fn client_ip() -> Ipv4Addr {
    Ipv4Addr::new(203, 0, 113, 7)
}

fn pass(last_access_epoch: u64) -> AccessPass {
    AccessPass { last_access_epoch }
}

/// Records the IPs looked up, so the tests can assert the fallback happened (or did not).
fn recording_lookup<'a>(
    seen: &'a RefCell<Vec<Ipv4Addr>>,
    answer: impl Fn(Ipv4Addr) -> Option<AccessPass> + 'a,
) -> impl Fn(Ipv4Addr) -> eyre::Result<Option<AccessPass>> + 'a {
    move |ip| {
        seen.borrow_mut().push(ip);
        Ok(answer(ip))
    }
}

fn stored_at(at: Ipv4Addr, last_access_epoch: u64) -> impl Fn(Ipv4Addr) -> Option<AccessPass> {
    move |ip| {
        if ip == at {
            Some(pass(last_access_epoch))
        } else {
            None
        }
    }
}

#[test]
fn specific_ip_pass_is_found_without_probing_the_dynamic_pda() {
    let seen = RefCell::new(vec![]);
    let found = check_accesspass(
        client_ip(),
        true,
        recording_lookup(&seen, stored_at(client_ip(), EPOCH)),
        || Ok(EPOCH),
    )
    .unwrap();

    assert!(found);
    assert_eq!(*seen.borrow(), vec![client_ip()]);
}

#[test]
fn falls_back_to_a_valid_dynamic_pass() {
    let seen = RefCell::new(vec![]);
    let found = check_accesspass(
        client_ip(),
        true,
        recording_lookup(&seen, stored_at(Ipv4Addr::unspecified(), EPOCH)),
        || Ok(EPOCH),
    )
    .unwrap();

    assert!(found);
    assert_eq!(
        *seen.borrow(),
        vec![client_ip(), Ipv4Addr::unspecified()]
    );
}

#[test]
fn no_pass_at_either_pda_is_not_an_error() {
    let seen = RefCell::new(vec![]);
    let found = check_accesspass(client_ip(), true, recording_lookup(&seen, |_| None), || {
        panic!("the epoch is not read when there is no pass")
    })
    .unwrap();

    assert!(!found);
    assert_eq!(
        *seen.borrow(),
        vec![client_ip(), Ipv4Addr::unspecified()]
    );
}

#[test]
fn an_epoch_expired_dynamic_pass_does_not_count() {
    let seen = RefCell::new(vec![]);
    let found = check_accesspass(
        client_ip(),
        true,
        recording_lookup(&seen, stored_at(Ipv4Addr::unspecified(), EPOCH - 1)),
        || Ok(EPOCH),
    )
    .unwrap();

    assert!(!found);
}

#[test]
fn an_expired_pass_still_counts_when_the_epoch_is_not_enforced() {
    let seen = RefCell::new(vec![]);
    let found = check_accesspass(
        client_ip(),
        false,
        recording_lookup(&seen, stored_at(Ipv4Addr::unspecified(), EPOCH - 1)),
        || panic!("the epoch is not read when it is not enforced"),
    )
    .unwrap();

    assert!(found);
}

#[test]
fn an_unspecified_client_ip_is_looked_up_once() {
    let seen = RefCell::new(vec![]);
    let found = check_accesspass(
        Ipv4Addr::unspecified(),
        true,
        recording_lookup(&seen, |_| None),
        || Ok(EPOCH),
    )
    .unwrap();

    assert!(!found);
    assert_eq!(*seen.borrow(), vec![Ipv4Addr::unspecified()]);
}

#[test]
fn a_valid_dynamic_pass_counts_beside_an_expired_own_one() {
    for (own, any, expected) in [(99, 100, true), (99, 99, false), (0, 200, true)] {
        let seen = RefCell::new(vec![]);
        let reads = RefCell::new(0);
        let found = check_accesspass(
            client_ip(),
            true,
            recording_lookup(&seen, move |ip| {
                Some(pass(if ip == client_ip() { own } else { any }))
            }),
            || {
                *reads.borrow_mut() += 1;
                Ok(EPOCH)
            },
        )
        .unwrap();

        assert_eq!(found, expected);
        assert_eq!(*seen.borrow(), vec![client_ip(), Ipv4Addr::unspecified()]);
        assert_eq!(*reads.borrow(), 1);
    }
}

#[test]
fn an_expired_own_pass_without_a_dynamic_one_does_not_count() {
    let found: Result<bool, String> = check_accesspass(
        client_ip(),
        true,
        |ip| Ok(stored_at(client_ip(), EPOCH - 1)(ip)),
        || Ok(EPOCH),
    );
    assert_eq!(found, Ok(false));

    let down: Result<bool, &str> = check_accesspass(
        client_ip(),
        true,
        |ip| {
            if ip == client_ip() {
                Ok(Some(pass(EPOCH - 1)))
            } else {
                Err("rpc down")
            }
        },
        || Ok(EPOCH),
    );
    assert_eq!(down, Err("rpc down"));
}

#[test]
fn an_expired_pass_at_the_unspecified_address_is_looked_up_once() {
    let seen = RefCell::new(vec![]);
    let found = check_accesspass(
        Ipv4Addr::unspecified(),
        true,
        recording_lookup(&seen, |_| Some(pass(EPOCH - 1))),
        || Ok(EPOCH),
    )
    .unwrap();

    assert!(!found);
    assert_eq!(*seen.borrow(), vec![Ipv4Addr::unspecified()]);
}

#[test]
fn each_reading_follows_from_the_ones_before() {
    let any = Ipv4Addr::unspecified();
    let fresh = LedgerAnswers::new();
    assert_eq!(next_read(client_ip(), true, fresh), NextRead::Lookup(client_ip()));

    let none = fresh.record_lookup(None);
    assert_eq!(next_read(client_ip(), true, none), NextRead::Lookup(any));
    assert_eq!(next_read(any, true, none), NextRead::Verdict(false));
    let neither = none.record_lookup(None);
    assert_eq!(next_read(client_ip(), true, neither), NextRead::Verdict(false));
    let dynamic = none.record_lookup(Some(pass(EPOCH)));
    assert_eq!(next_read(client_ip(), false, dynamic), NextRead::Verdict(true));
    assert_eq!(next_read(client_ip(), true, dynamic), NextRead::Epoch);
    assert_eq!(
        next_read(client_ip(), true, dynamic.record_epoch(EPOCH)),
        NextRead::Verdict(true)
    );

    let own = fresh.record_lookup(Some(pass(EPOCH)));
    assert_eq!(next_read(client_ip(), false, own), NextRead::Verdict(true));
    assert_eq!(next_read(client_ip(), true, own), NextRead::Epoch);
    assert_eq!(
        next_read(client_ip(), true, own.record_epoch(EPOCH)),
        NextRead::Verdict(true)
    );
    let expired = own.record_epoch(EPOCH + 1);
    assert_eq!(next_read(client_ip(), true, expired), NextRead::Lookup(any));
    assert_eq!(
        next_read(client_ip(), true, expired.record_lookup(Some(pass(EPOCH + 1)))),
        NextRead::Verdict(true)
    );
}

#[test]
fn a_pass_is_usable_up_to_and_including_its_last_epoch() {
    for (last, expected) in [(99, false), (100, true), (101, true)] {
        let found: Result<bool, String> =
            check_accesspass(client_ip(), true, |_| Ok(Some(pass(last))), || Ok(EPOCH));
        assert_eq!(found, Ok(expected));
    }
}

#[test]
fn a_ledger_that_cannot_be_read_is_an_error() {
    let at_own: Result<bool, &str> = check_accesspass(
        client_ip(),
        true,
        |ip| {
            if ip == client_ip() {
                Err("rpc down")
            } else {
                panic!("no fallback after an error")
            }
        },
        || Ok(EPOCH),
    );
    assert_eq!(at_own, Err("rpc down"));

    let at_dynamic: Result<bool, &str> = check_accesspass(
        client_ip(),
        false,
        |ip| {
            if ip == client_ip() {
                Ok(None)
            } else {
                Err("rpc down later")
            }
        },
        || Ok(EPOCH),
    );
    assert_eq!(at_dynamic, Err("rpc down later"));

    let at_epoch: Result<bool, &str> =
        check_accesspass(client_ip(), true, |_| Ok(Some(pass(EPOCH))), || Err("no epoch"));
    assert_eq!(at_epoch, Err("no epoch"));
}

#[test]
fn a_failed_reading_is_the_last() {
    let seen = RefCell::new(vec![]);
    let down: Result<bool, &str> = check_accesspass(
        client_ip(),
        true,
        |ip| {
            seen.borrow_mut().push(ip);
            if ip == client_ip() {
                Ok(None)
            } else {
                Err("rpc down")
            }
        },
        || panic!("nothing is read after a failure"),
    );
    assert_eq!(down, Err("rpc down"));
    assert_eq!(*seen.borrow(), vec![client_ip(), Ipv4Addr::unspecified()]);
}

#[test]
fn a_dynamic_pass_follows_the_epoch() {
    for (last, now, expected) in [(100, 99, true), (100, 100, true), (100, 101, false)] {
        let found: Result<bool, String> = check_accesspass(
            client_ip(),
            true,
            |ip| Ok(stored_at(Ipv4Addr::unspecified(), last)(ip)),
            || Ok(now),
        );
        assert_eq!(found, Ok(expected));
    }
}
