//! The access-pass check that runs before anything is sent: does the caller hold a pass the program
//! will accept for this `client_ip`?
//!
//! Callers reach the ledger through different clients, so the ledger reads are closures and only
//! the decision lives here. [`next_read`] says what to read next, given what was read so far;
//! [`check_accesspass`] reads it.
use vstd::prelude::*;

use crate::address::Ipv4Addr;

verus! {

/// What the check reads of an access pass: the last ledger epoch in which it grants access.
#[derive(Clone, Copy, Debug, PartialEq, Eq, Structural)]
pub struct AccessPass {
    pub last_access_epoch: u64,
}

/// What was read from the ledger so far. `None` stands for what was not read.
#[derive(Clone, Copy, Debug)]
pub struct LedgerAnswers {
    /// The pass stored at the caller's own address, if any.
    pub own: Option<Option<AccessPass>>,
    /// The pass for any address, which is stored at `0.0.0.0`, if any.
    pub any: Option<Option<AccessPass>>,
    /// The current ledger epoch.
    pub epoch: Option<u64>,
}

/// What to do next in a check.
#[derive(Clone, Copy, Debug, PartialEq, Eq, Structural)]
pub enum NextRead {
    /// Look up the pass stored at this address.
    Lookup(Ipv4Addr),
    /// Read the current ledger epoch.
    Epoch,
    /// Nothing: this tells whether the caller holds a usable pass.
    Verdict(bool),
}

/// Before anything was read.
pub open spec fn nothing_read() -> LedgerAnswers {
    LedgerAnswers { own: None, any: None, epoch: None }
}

impl LedgerAnswers {
    /// With the answer to one more lookup: the first is for the own address, the second for any.
    pub open spec fn looked_up(self, found: Option<AccessPass>) -> LedgerAnswers {
        if self.own is None {
            LedgerAnswers { own: Some(found), ..self }
        } else {
            LedgerAnswers { any: Some(found), ..self }
        }
    }

    /// With the epoch.
    pub open spec fn at_epoch(self, now: u64) -> LedgerAnswers {
        LedgerAnswers { epoch: Some(now), ..self }
    }

    /// Before anything was read.
    pub fn new() -> (r: LedgerAnswers)
        ensures
            r == nothing_read(),
    {
        LedgerAnswers { own: None, any: None, epoch: None }
    }

    /// Takes down the answer to one more lookup.
    pub fn record_lookup(self, found: Option<AccessPass>) -> (r: LedgerAnswers)
        ensures
            r == self.looked_up(found),
    {
        if self.own.is_none() {
            LedgerAnswers { own: Some(found), any: self.any, epoch: self.epoch }
        } else {
            LedgerAnswers { own: self.own, any: Some(found), epoch: self.epoch }
        }
    }

    /// Takes down the epoch.
    pub fn record_epoch(self, now: u64) -> (r: LedgerAnswers)
        ensures
            r == self.at_epoch(now),
    {
        LedgerAnswers { own: self.own, any: self.any, epoch: Some(now) }
    }
}

/// What a pass that was found calls for: where the epoch is not enforced it settles the check;
/// otherwise the epoch has to be known; and a pass that has expired by then leaves it to `expired`.
pub open spec fn next_after_pass(
    enforce_epoch: bool,
    pass: AccessPass,
    epoch: Option<u64>,
    expired: NextRead,
) -> NextRead {
    if !enforce_epoch {
        NextRead::Verdict(true)
    } else {
        match epoch {
            None => NextRead::Epoch,
            Some(now) => if pass.last_access_epoch >= now {
                NextRead::Verdict(true)
            } else {
                expired
            },
        }
    }
}

/// What is next once the own address has nothing to offer: the pass for any address, unless the own
/// address is already the one where it is stored.
pub open spec fn next_after_own(
    client_ip: Ipv4Addr,
    enforce_epoch: bool,
    so_far: LedgerAnswers,
) -> NextRead {
    if client_ip == crate::address::unspecified_addr() {
        NextRead::Verdict(false)
    } else {
        match so_far.any {
            None => NextRead::Lookup(crate::address::unspecified_addr()),
            Some(None) => NextRead::Verdict(false),
            Some(Some(pass)) => next_after_pass(
                enforce_epoch,
                pass,
                so_far.epoch,
                NextRead::Verdict(false),
            ),
        }
    }
}

/// What to do next, given what was read so far.
pub open spec fn next_of(
    client_ip: Ipv4Addr,
    enforce_epoch: bool,
    so_far: LedgerAnswers,
) -> NextRead {
    match so_far.own {
        None => NextRead::Lookup(client_ip),
        Some(None) => next_after_own(client_ip, enforce_epoch, so_far),
        Some(Some(pass)) => next_after_pass(
            enforce_epoch,
            pass,
            so_far.epoch,
            next_after_own(client_ip, enforce_epoch, so_far),
        ),
    }
}

/// Says what to do next in a check, given what was read so far.
///
/// A pass stored at `0.0.0.0` is valid for any client address, which is how dynamic seats are held,
/// and the program accepts either. So an own address without a usable pass is followed by a lookup
/// there, unless it is that address itself: a second identical lookup would tell nothing.
pub fn next_read(client_ip: Ipv4Addr, enforce_epoch: bool, so_far: LedgerAnswers) -> (r: NextRead)
    ensures
        r == next_of(client_ip, enforce_epoch, so_far),
{
    let own = match so_far.own {
        None => {
            return NextRead::Lookup(client_ip);
        },
        Some(own) => own,
    };
    if let Some(pass) = own {
        if !enforce_epoch {
            return NextRead::Verdict(true);
        }
        match so_far.epoch {
            None => {
                return NextRead::Epoch;
            },
            Some(now) => {
                if pass.last_access_epoch >= now {
                    return NextRead::Verdict(true);
                }
            },
        }
    }
    if client_ip == Ipv4Addr::unspecified() {
        return NextRead::Verdict(false);
    }
    match so_far.any {
        None => NextRead::Lookup(Ipv4Addr::unspecified()),
        Some(None) => NextRead::Verdict(false),
        Some(Some(pass)) => {
            if !enforce_epoch {
                return NextRead::Verdict(true);
            }
            match so_far.epoch {
                None => NextRead::Epoch,
                Some(now) => NextRead::Verdict(pass.last_access_epoch >= now),
            }
        },
    }
}

/// The answer to a lookup at an address: the pass stored there, if any, or why the ledger could not
/// be read.
pub type LookupAnswer<X> = Result<Option<AccessPass>, X>;

/// Whether there is a pass, and it is good at this epoch where the epoch is enforced.
pub open spec fn usable<X>(
    enforce_epoch: bool,
    pass: Option<AccessPass>,
    now: Result<u64, X>,
) -> bool {
    &&& pass is Some
    &&& !enforce_epoch || (now is Ok && pass->0.last_access_epoch >= now->Ok_0)
}

/// Whether the pass for any address has to be looked up: the own address, which is not already the
/// one where such passes are stored, has none, or one that has expired.
pub open spec fn any_is_due<X>(
    client_ip: Ipv4Addr,
    enforce_epoch: bool,
    own: LookupAnswer<X>,
    now: Result<u64, X>,
) -> bool {
    &&& client_ip != crate::address::unspecified_addr()
    &&& own is Ok
    &&& own->Ok_0 is None || (enforce_epoch && now is Ok && own->Ok_0->0.last_access_epoch
        < now->Ok_0)
}

/// Whether the ledger's epoch has to be read: it is enforced, and there is a pass at the own
/// address, or none there and one for any address.
pub open spec fn epoch_is_due<X>(
    client_ip: Ipv4Addr,
    enforce_epoch: bool,
    own: LookupAnswer<X>,
    any: LookupAnswer<X>,
) -> bool {
    &&& enforce_epoch
    &&& own is Ok
    &&& own->Ok_0 is Some || (client_ip != crate::address::unspecified_addr() && any is Ok
        && any->Ok_0 is Some)
}

/// Whether the caller holds a usable pass, at the own address or for any; or the error of a reading
/// that was due.
pub open spec fn verdict<X>(
    client_ip: Ipv4Addr,
    enforce_epoch: bool,
    own: LookupAnswer<X>,
    any: LookupAnswer<X>,
    now: Result<u64, X>,
) -> Result<bool, X> {
    if own is Err {
        Err(own->Err_0)
    } else if any_is_due(client_ip, enforce_epoch, own, now) && any is Err {
        Err(any->Err_0)
    } else if epoch_is_due(client_ip, enforce_epoch, own, any) && now is Err {
        Err(now->Err_0)
    } else {
        Ok(
            usable(enforce_epoch, own->Ok_0, now) || (any_is_due(client_ip, enforce_epoch, own, now)
                && usable(enforce_epoch, any->Ok_0, now)),
        )
    }
}

/// These are answers that the two closures can give to the questions that the check asks.
pub open spec fn answers<X, L: Fn(Ipv4Addr) -> LookupAnswer<X>, E: FnOnce() -> Result<u64, X>>(
    client_ip: Ipv4Addr,
    enforce_epoch: bool,
    lookup: L,
    epoch: E,
    own: LookupAnswer<X>,
    any: LookupAnswer<X>,
    now: Result<u64, X>,
) -> bool {
    &&& lookup.ensures((client_ip,), own)
    &&& any_is_due(client_ip, enforce_epoch, own, now) ==> lookup.ensures(
        (crate::address::unspecified_addr(),),
        any,
    )
    &&& epoch_is_due(client_ip, enforce_epoch, own, any) ==> epoch.ensures((), now)
}

/// Reports whether the caller holds a usable access pass for `client_ip`.
///
/// `lookup` resolves the pass stored at a given address for the caller's payer; `epoch` reads the
/// current ledger epoch. Each need only be callable where it is asked: `lookup` at `0.0.0.0` when
/// there is no usable pass for `client_ip` itself, and `epoch` when it is enforced and there is a
/// pass. What is asked, and that nothing is asked twice, is up to [`next_read`].
///
/// `Ok(false)` rather than an error when no pass exists: the caller renders its own diagnostic
/// before bailing, which is more use than a generic "not found".
pub fn check_accesspass<X, L, E>(
    client_ip: Ipv4Addr,
    enforce_epoch: bool,
    lookup: L,
    epoch: E,
) -> (r: Result<bool, X>) where
    L: Fn(Ipv4Addr) -> LookupAnswer<X>,
    E: FnOnce() -> Result<u64, X>,

    requires
        lookup.requires((client_ip,)),
        forall|own: LookupAnswer<X>, now: Result<u64, X>|
            #[trigger] any_is_due(client_ip, enforce_epoch, own, now) && lookup.ensures(
                (client_ip,),
                own,
            ) && (own->Ok_0 is Some ==> epoch.ensures((), now)) ==> lookup.requires(
                (crate::address::unspecified_addr(),),
            ),
        forall|own: LookupAnswer<X>, any: LookupAnswer<X>|
            #[trigger] epoch_is_due(client_ip, enforce_epoch, own, any) && lookup.ensures(
                (client_ip,),
                own,
            ) && (own->Ok_0 is None ==> lookup.ensures((crate::address::unspecified_addr(),), any))
                ==> epoch.requires(()),
    ensures
        exists|own: LookupAnswer<X>, any: LookupAnswer<X>, now: Result<u64, X>|
            #[trigger] answers(client_ip, enforce_epoch, lookup, epoch, own, any, now) && r
                == verdict(client_ip, enforce_epoch, own, any, now),
{
    let ghost read_epoch = epoch;
    let ghost unspecified = crate::address::unspecified_addr();
    let mut unread = Some(epoch);
    let mut so_far = LedgerAnswers::new();
    // What the answers so far come to as readings; what was not read stands for nothing yet.
    let ghost mut own: LookupAnswer<X> = Ok(None);
    let ghost mut any: LookupAnswer<X> = Ok(None);
    let ghost mut now: Result<u64, X> = Ok(0);
    loop
        invariant
            lookup.requires((client_ip,)),
            forall|own: LookupAnswer<X>, now: Result<u64, X>|
                #[trigger] any_is_due(client_ip, enforce_epoch, own, now) && lookup.ensures(
                    (client_ip,),
                    own,
                ) && (own->Ok_0 is Some ==> read_epoch.ensures((), now)) ==> lookup.requires(
                    (unspecified,),
                ),
            forall|own: LookupAnswer<X>, any: LookupAnswer<X>|
                #[trigger] epoch_is_due(client_ip, enforce_epoch, own, any) && lookup.ensures(
                    (client_ip,),
                    own,
                ) && (own->Ok_0 is None ==> lookup.ensures((unspecified,), any))
                    ==> read_epoch.requires(()),
            read_epoch == epoch,
            unspecified == crate::address::unspecified_addr(),
            so_far.epoch is None ==> unread == Some(read_epoch),
            own is Ok && any is Ok && now is Ok,
            so_far.own matches Some(found) ==> own == Ok::<Option<AccessPass>, X>(found)
                && lookup.ensures((client_ip,), own),
            so_far.any matches Some(found) ==> any == Ok::<Option<AccessPass>, X>(found)
                && lookup.ensures((unspecified,), any) && so_far.own is Some,
            so_far.epoch matches Some(at) ==> now == Ok::<u64, X>(at) && read_epoch.ensures((), now)
                && so_far.own is Some,
            so_far.any is None ==> any == Ok::<Option<AccessPass>, X>(None),
            so_far.own == Some(None::<AccessPass>) && so_far.epoch is Some ==> so_far.any is Some,
        decreases
            (if so_far.own is None { 1int } else { 0 }) + (if so_far.any is None { 1int } else { 0 })
                + (if so_far.epoch is None { 1int } else { 0 }),
    {
        match next_read(client_ip, enforce_epoch, so_far) {
            NextRead::Lookup(ip) => {
                let first = so_far.own.is_none();
                assert(!first ==> any_is_due(client_ip, enforce_epoch, own, now));
                let answer = lookup(ip);
                let ghost told = answer;
                match answer {
                    Err(e) => {
                        proof {
                            if first {
                                own = told;
                            } else {
                                any = told;
                            }
                            assert(answers(
                                client_ip,
                                enforce_epoch,
                                lookup,
                                read_epoch,
                                own,
                                any,
                                now,
                            ));
                        }
                        return Err(e);
                    },
                    Ok(found) => {
                        proof {
                            if first {
                                own = told;
                            } else {
                                any = told;
                            }
                        }
                        so_far = so_far.record_lookup(found);
                    },
                }
            },
            NextRead::Epoch => {
                assert(epoch_is_due(client_ip, enforce_epoch, own, any));
                let read = unread.take().unwrap();
                let answer = read();
                let ghost told = answer;
                match answer {
                    Err(e) => {
                        proof {
                            now = told;
                            assert(answers(
                                client_ip,
                                enforce_epoch,
                                lookup,
                                read_epoch,
                                own,
                                any,
                                now,
                            ));
                        }
                        return Err(e);
                    },
                    Ok(at) => {
                        proof {
                            now = told;
                        }
                        so_far = so_far.record_epoch(at);
                    },
                }
            },
            NextRead::Verdict(usable) => {
                assert(answers(client_ip, enforce_epoch, lookup, read_epoch, own, any, now));
                return Ok(usable);
            },
        }
    }
}

} // verus!
