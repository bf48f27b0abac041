//! What the access-pass check decides, said of addresses and epochs themselves.
use vstd::prelude::*;

use crate::access_pass::{answers, any_is_due, epoch_is_due, next_of, nothing_read, verdict};
use crate::access_pass::{AccessPass, LedgerAnswers, LookupAnswer, NextRead};
use crate::address::{unspecified_addr, Ipv4Addr};
use crate::laws::{known, reads, Ledger};

verus! {

/// The address under which passes for any address are stored is `0.0.0.0`.
pub proof fn law_the_unspecified_address_is_all_zero(ip: Ipv4Addr)
    ensures
        ip == unspecified_addr() <==> ip.a == 0 && ip.b == 0 && ip.c == 0 && ip.d == 0,
{
}

/// Where there is one pass only and the epoch is enforced, the caller holds a usable pass if and
/// only if the pass's last epoch is not before the ledger's. It makes no difference whether that
/// pass is stored for the caller's own address or for any.
pub proof fn law_a_pass_lasts_through_its_last_epoch<X>(client_ip: Ipv4Addr, last: u64, now: u64)
    ensures
        verdict::<X>(
            client_ip,
            true,
            Ok(Some(AccessPass { last_access_epoch: last })),
            Ok(None),
            Ok(now),
        ) == Ok::<bool, X>(last >= now),
        client_ip.a != 0 || client_ip.b != 0 || client_ip.c != 0 || client_ip.d != 0 ==> verdict::<
            X,
        >(
            client_ip,
            true,
            Ok(None),
            Ok(Some(AccessPass { last_access_epoch: last })),
            Ok(now),
        ) == Ok::<bool, X>(last >= now),
{
}

/// What a check returns where the epoch is enforced, the lookup finds one pass only and the epoch can
/// be read: that the caller holds a usable pass, if and only if the pass's last epoch is not before
/// the ledger's. `found_at_own` tells where the pass is stored: at the caller's address, or at
/// `0.0.0.0`, which is another one.
pub proof fn law_a_check_of_one_pass_compares_epochs<
    X,
    L: Fn(Ipv4Addr) -> LookupAnswer<X>,
    E: FnOnce() -> Result<u64, X>,
>(
    client_ip: Ipv4Addr,
    lookup: L,
    epoch: E,
    found_at_own: bool,
    last: u64,
    now: u64,
    r: Result<bool, X>,
)
    requires
        exists|own: LookupAnswer<X>, any: LookupAnswer<X>, at: Result<u64, X>|
            #[trigger] answers(client_ip, true, lookup, epoch, own, any, at) && r == verdict(
                client_ip,
                true,
                own,
                any,
                at,
            ),
        forall|own: LookupAnswer<X>| #[trigger]
            lookup.ensures((client_ip,), own) ==> own == Ok::<Option<AccessPass>, X>(
                if found_at_own {
                    Some(AccessPass { last_access_epoch: last })
                } else {
                    None
                },
            ),
        client_ip != (Ipv4Addr { a: 0, b: 0, c: 0, d: 0 }) ==> forall|any: LookupAnswer<X>| #[trigger]
            lookup.ensures((Ipv4Addr { a: 0, b: 0, c: 0, d: 0 },), any) ==> any == Ok::<
                Option<AccessPass>,
                X,
            >(
                if found_at_own {
                    None
                } else {
                    Some(AccessPass { last_access_epoch: last })
                },
            ),
        client_ip == (Ipv4Addr { a: 0, b: 0, c: 0, d: 0 }) ==> found_at_own,
        forall|at: Result<u64, X>| #[trigger] epoch.ensures((), at) ==> at == Ok::<u64, X>(now),
    ensures
        r == Ok::<bool, X>(last >= now),
{
}

/// Where there are two passes and the epoch is enforced, the one that lasts longer decides.
pub proof fn law_the_longer_of_two_passes_decides<X>(
    client_ip: Ipv4Addr,
    own: u64,
    any: u64,
    now: u64,
)
    requires
        client_ip.a != 0 || client_ip.b != 0 || client_ip.c != 0 || client_ip.d != 0,
    ensures
        verdict::<X>(
            client_ip,
            true,
            Ok(Some(AccessPass { last_access_epoch: own })),
            Ok(Some(AccessPass { last_access_epoch: any })),
            Ok(now),
        ) == Ok::<bool, X>(own >= now || any >= now),
{
}

/// Where the epoch is not enforced, the caller holds a usable pass if and only if there is one.
pub proof fn law_without_the_epoch_any_pass_does<X>(
    client_ip: Ipv4Addr,
    own: Option<AccessPass>,
    any: Option<AccessPass>,
    now: Result<u64, X>,
)
    requires
        client_ip.a != 0 || client_ip.b != 0 || client_ip.c != 0 || client_ip.d != 0,
    ensures
        verdict::<X>(client_ip, false, Ok(own), Ok(any), now) == Ok::<bool, X>(
            own is Some || any is Some,
        ),
{
}

/// For a caller at `0.0.0.0` the one answer there decides, whatever another lookup would say.
pub proof fn law_at_the_unspecified_address_one_answer_decides<X>(
    enforce_epoch: bool,
    only: Option<AccessPass>,
    unasked: LookupAnswer<X>,
    now: u64,
)
    ensures
        verdict::<X>(
            Ipv4Addr { a: 0, b: 0, c: 0, d: 0 },
            enforce_epoch,
            Ok(only),
            unasked,
            Ok(now),
        ) == Ok::<bool, X>(
            only is Some && (!enforce_epoch || only->0.last_access_epoch >= now),
        ),
{
}

/// What a check answers follows from what was read, and only what has to be read is read: the own
/// address always; `0.0.0.0` when there is no pass for the own address, which is another one, or
/// one whose last epoch is before the ledger's; and the epoch when it is enforced and there is a
/// pass. A reading that fails is answered with its error.
pub proof fn law_a_check_answers_by_what_was_read<
    X,
    L: Fn(Ipv4Addr) -> LookupAnswer<X>,
    E: FnOnce() -> Result<u64, X>,
>(
    client_ip: Ipv4Addr,
    enforce_epoch: bool,
    lookup: L,
    epoch: E,
    own: LookupAnswer<X>,
    any: LookupAnswer<X>,
    now: Result<u64, X>,
    r: Result<bool, X>,
)
    requires
        answers(client_ip, enforce_epoch, lookup, epoch, own, any, now),
        r == verdict(client_ip, enforce_epoch, own, any, now),
    ensures
        lookup.ensures((client_ip,), own),
        own matches Err(e) ==> r == Err::<bool, X>(e),
        ({
            let at_zero = client_ip.a == 0 && client_ip.b == 0 && client_ip.c == 0 && client_ip.d
                == 0;
            let zero = Ipv4Addr { a: 0, b: 0, c: 0, d: 0 };
            &&& own == Ok::<Option<AccessPass>, X>(None) && at_zero ==> r == Ok::<bool, X>(false)
            &&& own == Ok::<Option<AccessPass>, X>(None) && !at_zero ==> {
                &&& lookup.ensures((zero,), any)
                &&& any matches Err(e) ==> r == Err::<bool, X>(e)
                &&& any == Ok::<Option<AccessPass>, X>(None) ==> r == Ok::<bool, X>(false)
                &&& any is Ok && any->Ok_0 is Some && !enforce_epoch ==> r == Ok::<bool, X>(true)
                &&& any is Ok && any->Ok_0 is Some && enforce_epoch ==> {
                    &&& epoch.ensures((), now)
                    &&& now matches Err(e) ==> r == Err::<bool, X>(e)
                    &&& now matches Ok(t) ==> r == Ok::<bool, X>(
                        any->Ok_0->0.last_access_epoch >= t,
                    )
                }
            }
            &&& own is Ok && own->Ok_0 is Some && !enforce_epoch ==> r == Ok::<bool, X>(true)
            &&& own is Ok && own->Ok_0 is Some && enforce_epoch ==> {
                &&& epoch.ensures((), now)
                &&& now matches Err(e) ==> r == Err::<bool, X>(e)
                &&& now matches Ok(t) ==> own->Ok_0->0.last_access_epoch >= t ==> r == Ok::<
                    bool,
                    X,
                >(true)
                &&& now matches Ok(t) ==> own->Ok_0->0.last_access_epoch < t && at_zero ==> r
                    == Ok::<bool, X>(false)
                &&& now matches Ok(t) ==> own->Ok_0->0.last_access_epoch < t && !at_zero ==> {
                    &&& lookup.ensures((zero,), any)
                    &&& any matches Err(e) ==> r == Err::<bool, X>(e)
                    &&& any == Ok::<Option<AccessPass>, X>(None) ==> r == Ok::<bool, X>(false)
                    &&& any is Ok && any->Ok_0 is Some ==> r == Ok::<bool, X>(
                        any->Ok_0->0.last_access_epoch >= t,
                    )
                }
            }
        }),
{
}

/// `0.0.0.0` is asked only by a caller from elsewhere without a pass that is good by then, and the
/// epoch only where it is enforced and there is a pass.
pub proof fn law_nothing_is_due_without_need<X>(
    client_ip: Ipv4Addr,
    enforce_epoch: bool,
    own: LookupAnswer<X>,
    any: LookupAnswer<X>,
    now: Result<u64, X>,
)
    ensures
        any_is_due(client_ip, enforce_epoch, own, now) ==> {
            &&& client_ip.a != 0 || client_ip.b != 0 || client_ip.c != 0 || client_ip.d != 0
            &&& own is Ok
            &&& own->Ok_0 matches Some(pass) ==> enforce_epoch && now is Ok
                && pass.last_access_epoch < now->Ok_0
        },
        epoch_is_due(client_ip, enforce_epoch, own, any) ==> {
            &&& enforce_epoch
            &&& own is Ok
            &&& own->Ok_0 is None ==> any is Ok && any->Ok_0 is Some
        },
{
}

/// A check is settled with a yes only by a pass that was read and, where the epoch is enforced, by
/// one whose last epoch is not before the epoch that was read; and with a no only when no pass that
/// was read is such a one and there is no other to read.
pub proof fn law_a_settled_check_has_its_reason(
    client_ip: Ipv4Addr,
    enforce_epoch: bool,
    so_far: LedgerAnswers,
)
    ensures
        ({
            let good = |found: Option<Option<AccessPass>>|
                {
                    &&& found is Some
                    &&& found->0 is Some
                    &&& !enforce_epoch || (so_far.epoch is Some && found->0->0.last_access_epoch
                        >= so_far.epoch->0)
                };
            &&& next_of(client_ip, enforce_epoch, so_far) == NextRead::Verdict(true) ==> good(
                so_far.own,
            ) || good(so_far.any)
            &&& next_of(client_ip, enforce_epoch, so_far) == NextRead::Verdict(false) ==> {
                &&& !good(so_far.own)
                &&& so_far.own is Some
                &&& client_ip != (Ipv4Addr { a: 0, b: 0, c: 0, d: 0 }) ==> so_far.any is Some
                    && !good(so_far.any)
            }
        }),
{
}

/// What is read next, in every state of a check.
pub proof fn law_every_state_has_its_next_reading(
    client_ip: Ipv4Addr,
    enforce_epoch: bool,
    so_far: LedgerAnswers,
)
    ensures
        ({
            let next = next_of(client_ip, enforce_epoch, so_far);
            let zero = Ipv4Addr { a: 0, b: 0, c: 0, d: 0 };
            let own_fails = so_far.own is Some && (so_far.own->0 is None || (enforce_epoch
                && so_far.epoch is Some && so_far.own->0->0.last_access_epoch < so_far.epoch->0));
            &&& so_far.own is None ==> next == NextRead::Lookup(client_ip)
            &&& so_far.own is Some && so_far.own->0 is Some && !enforce_epoch ==> next
                == NextRead::Verdict(true)
            &&& so_far.own is Some && so_far.own->0 is Some && enforce_epoch && so_far.epoch is None
                ==> next == NextRead::Epoch
            &&& so_far.own is Some && so_far.own->0 is Some && enforce_epoch && so_far.epoch is Some
                && so_far.own->0->0.last_access_epoch >= so_far.epoch->0 ==> next
                == NextRead::Verdict(true)
            &&& own_fails && client_ip == zero ==> next == NextRead::Verdict(false)
            &&& own_fails && client_ip != zero && so_far.any is None ==> next == NextRead::Lookup(
                zero,
            )
            &&& own_fails && client_ip != zero && so_far.any is Some && so_far.any->0 is None
                ==> next == NextRead::Verdict(false)
            &&& own_fails && client_ip != zero && so_far.any is Some && so_far.any->0 is Some ==> {
                &&& !enforce_epoch ==> next == NextRead::Verdict(true)
                &&& enforce_epoch && so_far.epoch is None ==> next == NextRead::Epoch
                &&& enforce_epoch && so_far.epoch is Some ==> next == NextRead::Verdict(
                    so_far.any->0->0.last_access_epoch >= so_far.epoch->0,
                )
            }
        }),
{
}

/// Answers are kept as they were given: the first lookup's as the own address's, the second's as
/// that for any, and the epoch as the epoch, with the others left alone.
pub proof fn law_answers_are_kept(
    so_far: LedgerAnswers,
    found: Option<AccessPass>,
    now: u64,
)
    ensures
        nothing_read().own is None && nothing_read().any is None && nothing_read().epoch is None,
        so_far.own is None ==> so_far.looked_up(found).own == Some(found) && so_far.looked_up(
            found,
        ).any == so_far.any,
        so_far.own is Some ==> so_far.looked_up(found).own == so_far.own && so_far.looked_up(
            found,
        ).any == Some(found),
        so_far.looked_up(found).epoch == so_far.epoch,
        so_far.at_epoch(now).own == so_far.own,
        so_far.at_epoch(now).any == so_far.any,
        so_far.at_epoch(now).epoch == Some(now),
{
}

/// Driven to its end over a ledger that can be read, a check tells whether there is a pass at the
/// own address or at `0.0.0.0` that is good at the ledger's epoch, where the epoch is enforced, or
/// one at all, where it is not.
pub proof fn law_a_check_of_a_ledger_tells_what_it_holds(
    client_ip: Ipv4Addr,
    enforce_epoch: bool,
    ledger: Ledger,
    n: nat,
)
    requires
        n >= 3,
    ensures
        ({
            let own = (ledger.pass_at)(client_ip);
            let any = (ledger.pass_at)(Ipv4Addr { a: 0, b: 0, c: 0, d: 0 });
            next_of(
                client_ip,
                enforce_epoch,
                known(client_ip, enforce_epoch, nothing_read(), ledger, n),
            ) == NextRead::Verdict(
                (own is Some && (!enforce_epoch || own->0.last_access_epoch >= ledger.now)) || (any
                    is Some && (!enforce_epoch || any->0.last_access_epoch >= ledger.now)),
            )
        }),
        reads(client_ip, enforce_epoch, nothing_read(), ledger, n).len() <= 3,
{
    crate::laws::law_a_check_reads_what_it_needs(client_ip, enforce_epoch, ledger, n);
}

} // verus!
