//! What the supervisor guarantees over whole runs of events.

use crate::supervisor::{step, valid, LinkActionView, LinkEventView, LinkState, SupervisorView};
use crate::wifi::{auth_or_default, client_configuration, find_ssid, AuthMethod};
use vstd::prelude::*;

verus! {

/// The supervisor after a run of events, first to last.
pub open spec fn run(s: SupervisorView, events: Seq<LinkEventView>) -> SupervisorView
    decreases events.len(),
{
    if events.len() == 0 {
        s
    } else {
        step(run(s, events.drop_last()), events.last()).0
    }
}

/// The action that the last event of a run is answered with.
pub open spec fn last_action(s: SupervisorView, events: Seq<LinkEventView>) -> LinkActionView
    recommends
        events.len() > 0,
{
    step(run(s, events.drop_last()), events.last()).1
}

/// How often a run is answered with `Fatal`.
pub open spec fn fatal_count(s: SupervisorView, events: Seq<LinkEventView>) -> nat
    decreases events.len(),
{
    if events.len() == 0 {
        0
    } else {
        fatal_count(s, events.drop_last()) + (if last_action(s, events) is Fatal {
            1nat
        } else {
            0nat
        })
    }
}

/// Whether a scan event reports that the network `ssid` was not seen.
pub open spec fn is_miss(e: LinkEventView, ssid: Seq<char>) -> bool {
    match e {
        LinkEventView::ScanFailed => true,
        LinkEventView::ScanCompleted(aps) => find_ssid(aps, ssid) is None,
        _ => false,
    }
}

/// Whether a scan event reports that the network `ssid` was seen.
pub open spec fn is_hit(e: LinkEventView, ssid: Seq<char>) -> bool {
    match e {
        LinkEventView::ScanCompleted(aps) => find_ssid(aps, ssid) is Some,
        _ => false,
    }
}

/// Whether `events` are the scans of one attempt to join: one scan that
/// shows the network, or a miss followed by a second scan of either kind.
pub open spec fn is_scan_phase(events: Seq<LinkEventView>, ssid: Seq<char>) -> bool {
    ||| events.len() == 1 && is_hit(events[0], ssid)
    ||| events.len() == 2 && is_miss(events[0], ssid) && (is_hit(events[1], ssid) || is_miss(
        events[1],
        ssid,
    ))
}

/// Whether `round` is one failed attempt to join: a start, the scans, and
/// then a rejected association or an accepted one whose lease fails.
pub open spec fn is_failed_attempt(round: Seq<LinkEventView>, ssid: Seq<char>) -> bool {
    let n = round.len() as int;
    &&& n >= 3
    &&& round[0] == LinkEventView::Start
    &&& {
        ||| (round[n - 1] == LinkEventView::AssociationRejected && is_scan_phase(
            round.subrange(1, n - 1),
            ssid,
        ))
        ||| (n >= 4 && round[n - 2] == LinkEventView::AssociationAccepted && round[n - 1]
            == LinkEventView::LeaseFailed && is_scan_phase(round.subrange(1, n - 2), ssid))
    }
}

/// Whether `round` is one attempt that joins: a start, the scans, an
/// accepted association and a lease of `address` at the time `now`.
pub open spec fn is_joining_attempt(
    round: Seq<LinkEventView>,
    ssid: Seq<char>,
    address: crate::address::Ipv4Addr,
    now: u64,
) -> bool {
    let n = round.len() as int;
    &&& n >= 4
    &&& round[0] == LinkEventView::Start
    &&& round[n - 2] == LinkEventView::AssociationAccepted
    &&& round[n - 1] == (LinkEventView::LeaseObtained { address, now })
    &&& is_scan_phase(round.subrange(1, n - 2), ssid)
}

/// The events of several rounds, one round after the other.
pub open spec fn flatten(rounds: Seq<Seq<LinkEventView>>) -> Seq<LinkEventView>
    decreases rounds.len(),
{
    if rounds.len() == 0 {
        Seq::empty()
    } else {
        flatten(rounds.drop_last()) + rounds.last()
    }
}

/// A run over two sequences is the run over the first continued over the
/// second, and the fatal answers add up.
pub proof fn lemma_run_concat(
    s: SupervisorView,
    first: Seq<LinkEventView>,
    second: Seq<LinkEventView>,
)
    ensures
        run(s, first + second) == run(run(s, first), second),
        fatal_count(s, first + second) == fatal_count(s, first) + fatal_count(
            run(s, first),
            second,
        ),
    decreases second.len(),
{
    if second.len() == 0 {
        assert(first + second =~= first);
    } else {
        lemma_run_concat(s, first, second.drop_last());
        assert((first + second).drop_last() =~= first + second.drop_last());
        assert((first + second).last() == second.last());
    }
}

/// Every step keeps a valid supervisor valid.
pub proof fn law_step_keeps_valid(s: SupervisorView, e: LinkEventView)
    requires
        valid(s),
    ensures
        valid(step(s, e).0),
{
}

/// Every run keeps a valid supervisor valid.
pub proof fn law_run_keeps_valid(s: SupervisorView, events: Seq<LinkEventView>)
    requires
        valid(s),
    ensures
        valid(run(s, events)),
    decreases events.len(),
{
    if events.len() > 0 {
        law_run_keeps_valid(s, events.drop_last());
        law_step_keeps_valid(run(s, events.drop_last()), events.last());
    }
}

/// `Fatal` is the answer to exactly one kind of step: the failed attempt
/// that brings the count of failures in a row up to the ceiling.
pub proof fn law_fatal_exactly_at_ceiling(s: SupervisorView, e: LinkEventView)
    requires
        valid(s),
    ensures
        step(s, e).1 is Fatal <==> {
            &&& s.attempt_failures + 1 >= s.config.failure_ceiling
            &&& {
                ||| (s.state == LinkState::Associating && e == LinkEventView::AssociationRejected)
                ||| (s.state == LinkState::WaitingForLease && e == LinkEventView::LeaseFailed)
            }
        },
        step(s, e).1 is Fatal <==> (s.state != LinkState::Failed && step(s, e).0.state
            == LinkState::Failed),
{
}

/// Nothing leaves the terminal state, and nothing is reported from it
/// again: every event is ignored.
pub proof fn law_failed_is_final(s: SupervisorView, events: Seq<LinkEventView>)
    requires
        s.state == LinkState::Failed,
    ensures
        run(s, events) == s,
        fatal_count(s, events) == 0,
    decreases events.len(),
{
    if events.len() > 0 {
        law_failed_is_final(s, events.drop_last());
    }
}

/// A run of one event is one step.
pub proof fn lemma_run_one(s: SupervisorView, e: LinkEventView)
    ensures
        run(s, seq![e]) == step(s, e).0,
        last_action(s, seq![e]) == step(s, e).1,
        fatal_count(s, seq![e]) == (if step(s, e).1 is Fatal {
            1nat
        } else {
            0nat
        }),
{
    reveal_with_fuel(run, 2);
    reveal_with_fuel(fatal_count, 2);
    assert(seq![e].drop_last() =~= Seq::<LinkEventView>::empty());
}

/// A run that ends with the event `e` ends with the step for `e`.
pub proof fn lemma_run_push(s: SupervisorView, events: Seq<LinkEventView>, e: LinkEventView)
    ensures
        run(s, events.push(e)) == step(run(s, events), e).0,
        last_action(s, events.push(e)) == step(run(s, events), e).1,
        fatal_count(s, events.push(e)) == fatal_count(s, events) + (if step(
            run(s, events),
            e,
        ).1 is Fatal {
            1nat
        } else {
            0nat
        }),
{
    assert(events.push(e).drop_last() =~= events);
}

/// The scans of one attempt lead from `Scanning` to `Associating`: the
/// supervisor asks to associate, and nothing else about it changes but the
/// note that a scan was repeated. None of the steps is fatal.
pub proof fn lemma_scan_phase(s: SupervisorView, scans: Seq<LinkEventView>)
    requires
        s.state == LinkState::Scanning,
        !s.scan_retried,
        is_scan_phase(scans, s.credentials.wifi_ssid),
    ensures
        run(s, scans) == (SupervisorView {
            state: LinkState::Associating,
            scan_retried: scans.len() == 2,
            ..s
        }),
        last_action(s, scans) is Associate,
        fatal_count(s, scans) == 0,
{
    if scans.len() == 1 {
        assert(scans =~= seq![scans[0]]);
        lemma_run_one(s, scans[0]);
    } else {
        assert(scans =~= seq![scans[0]].push(scans[1]));
        lemma_run_one(s, scans[0]);
        lemma_run_push(s, seq![scans[0]], scans[1]);
    }
}

/// One failed attempt to join, begun while `Disconnected`, raises the
/// count of failures in a row by one. The attempt that reaches the ceiling
/// ends in `Failed` and is answered with `Fatal`, once; any other ends in
/// `Disconnected`, is answered with `Restart`, and no step of it is fatal.
pub proof fn law_failed_attempt_counts(s: SupervisorView, round: Seq<LinkEventView>)
    requires
        valid(s),
        s.state == LinkState::Disconnected,
        is_failed_attempt(round, s.credentials.wifi_ssid),
    ensures
        3 <= round.len() <= 5,
        run(s, round).config == s.config,
        run(s, round).credentials == s.credentials,
        run(s, round).cycle == s.cycle,
        run(s, round).attempt_failures == s.attempt_failures + 1,
        s.attempt_failures + 1 >= s.config.failure_ceiling ==> {
            &&& run(s, round).state == LinkState::Failed
            &&& last_action(s, round) == LinkActionView::Fatal
            &&& fatal_count(s, round) == 1
        },
        s.attempt_failures + 1 < s.config.failure_ceiling ==> {
            &&& run(s, round).state == LinkState::Disconnected
            &&& last_action(s, round) == LinkActionView::Restart
            &&& fatal_count(s, round) == 0
        },
{
    let n = round.len() as int;
    let ssid = s.credentials.wifi_ssid;
    let begun = step(s, round[0]).0;
    lemma_run_one(s, round[0]);
    if round[n - 1] == LinkEventView::AssociationRejected && is_scan_phase(
        round.subrange(1, n - 1),
        ssid,
    ) {
        let scans = round.subrange(1, n - 1);
        lemma_scan_phase(begun, scans);
        lemma_run_concat(s, seq![round[0]], scans);
        let scanned = seq![round[0]] + scans;
        lemma_run_push(s, scanned, round[n - 1]);
        assert(round =~= scanned.push(round[n - 1]));
    } else {
        let scans = round.subrange(1, n - 2);
        lemma_scan_phase(begun, scans);
        lemma_run_concat(s, seq![round[0]], scans);
        let scanned = seq![round[0]] + scans;
        lemma_run_push(s, scanned, round[n - 2]);
        let accepted = scanned.push(round[n - 2]);
        lemma_run_push(s, accepted, round[n - 1]);
        assert(round =~= accepted.push(round[n - 1]));
    }
}

/// One attempt that joins, begun while `Disconnected`, ends `Connected`
/// since the time of the lease, with every failure count back at zero. Its
/// last answer announces the leased address, and no step of it is fatal.
pub proof fn law_joining_attempt_connects(
    s: SupervisorView,
    round: Seq<LinkEventView>,
    address: crate::address::Ipv4Addr,
    now: u64,
)
    requires
        s.state == LinkState::Disconnected,
        is_joining_attempt(round, s.credentials.wifi_ssid, address, now),
    ensures
        4 <= round.len() <= 5,
        run(s, round).state == (LinkState::Connected { since: now, failure_count: 0 }),
        run(s, round).attempt_failures == 0,
        run(s, round).cycle == 0,
        run(s, round).config == s.config,
        run(s, round).credentials == s.credentials,
        last_action(s, round) == LinkActionView::Announce(address),
        fatal_count(s, round) == 0,
{
    let n = round.len() as int;
    let begun = step(s, round[0]).0;
    lemma_run_one(s, round[0]);
    let scans = round.subrange(1, n - 2);
    lemma_scan_phase(begun, scans);
    lemma_run_concat(s, seq![round[0]], scans);
    let scanned = seq![round[0]] + scans;
    lemma_run_push(s, scanned, round[n - 2]);
    let accepted = scanned.push(round[n - 2]);
    lemma_run_push(s, accepted, round[n - 1]);
    assert(round =~= accepted.push(round[n - 1]));
}

/// An unreachable network is given up on at the ceiling, not before: after
/// any number of failed attempts up to the ceiling, the count of failures
/// is the number of attempts; the supervisor is `Failed` and has answered
/// `Fatal` exactly once if that number is the ceiling, and is
/// `Disconnected` and has never answered `Fatal` if it is less.
pub proof fn law_unreachable_network_escalates(
    s: SupervisorView,
    rounds: Seq<Seq<LinkEventView>>,
)
    requires
        valid(s),
        s.state == LinkState::Disconnected,
        s.attempt_failures == 0,
        rounds.len() <= s.config.failure_ceiling,
        forall|i: int|
            0 <= i < rounds.len() ==> is_failed_attempt(#[trigger] rounds[i], s.credentials.wifi_ssid),
    ensures
        run(s, flatten(rounds)).attempt_failures == rounds.len(),
        run(s, flatten(rounds)).config == s.config,
        run(s, flatten(rounds)).credentials == s.credentials,
        flatten(rounds).len() <= 5 * rounds.len(),
        rounds.len() > 0 && rounds.len() == s.config.failure_ceiling ==> {
            &&& run(s, flatten(rounds)).state == LinkState::Failed
            &&& fatal_count(s, flatten(rounds)) == 1
        },
        rounds.len() == 0 || rounds.len() < s.config.failure_ceiling ==> {
            &&& run(s, flatten(rounds)).state == LinkState::Disconnected
            &&& fatal_count(s, flatten(rounds)) == 0
        },
    decreases rounds.len(),
{
    if rounds.len() > 0 {
        let earlier = rounds.drop_last();
        assert forall|i: int| 0 <= i < earlier.len() implies is_failed_attempt(
            #[trigger] earlier[i],
            s.credentials.wifi_ssid,
        ) by {
            assert(earlier[i] == rounds[i]);
        }
        law_unreachable_network_escalates(s, earlier);
        let before = run(s, flatten(earlier));
        law_run_keeps_valid(s, flatten(earlier));
        law_failed_attempt_counts(before, rounds.last());
        lemma_run_concat(s, flatten(earlier), rounds.last());
    }
}

/// A reachable network is joined within a bounded number of steps: after
/// fewer failed attempts than the ceiling allows, one attempt that joins
/// ends `Connected` with the failure counts at zero. No step of the whole
/// run is fatal, and the run is at most five events for each attempt.
pub proof fn law_reachable_network_connects(
    s: SupervisorView,
    failed: Seq<Seq<LinkEventView>>,
    joining: Seq<LinkEventView>,
    address: crate::address::Ipv4Addr,
    now: u64,
)
    requires
        valid(s),
        s.state == LinkState::Disconnected,
        s.attempt_failures == 0,
        failed.len() == 0 || failed.len() < s.config.failure_ceiling,
        forall|i: int|
            0 <= i < failed.len() ==> is_failed_attempt(#[trigger] failed[i], s.credentials.wifi_ssid),
        is_joining_attempt(joining, s.credentials.wifi_ssid, address, now),
    ensures
        run(s, flatten(failed) + joining).state == (LinkState::Connected {
            since: now,
            failure_count: 0,
        }),
        run(s, flatten(failed) + joining).attempt_failures == 0,
        last_action(s, flatten(failed) + joining) == LinkActionView::Announce(address),
        fatal_count(s, flatten(failed) + joining) == 0,
        (flatten(failed) + joining).len() <= 5 * (failed.len() + 1),
{
    law_unreachable_network_escalates(s, failed);
    let before = run(s, flatten(failed));
    law_joining_attempt_connects(before, joining, address, now);
    lemma_run_concat(s, flatten(failed), joining);
    let n = joining.len() as int;
    assert((flatten(failed) + joining).drop_last() =~= flatten(failed) + joining.drop_last());
    lemma_run_concat(s, flatten(failed), joining.drop_last());
}

/// A network that two scans in a row do not show is still tried: the
/// supervisor asks to associate without a channel hint.
pub proof fn law_two_misses_still_associate(
    s: SupervisorView,
    first: LinkEventView,
    second: LinkEventView,
)
    requires
        s.state == LinkState::Disconnected,
        is_miss(first, s.credentials.wifi_ssid),
        is_miss(second, s.credentials.wifi_ssid),
    ensures
        run(s, seq![LinkEventView::Start, first, second]).state == LinkState::Associating,
        last_action(s, seq![LinkEventView::Start, first, second]) == LinkActionView::Associate(
            client_configuration(s.credentials, None, AuthMethod::WPA2Personal),
        ),
        fatal_count(s, seq![LinkEventView::Start, first, second]) == 0,
{
    let start = LinkEventView::Start;
    lemma_run_one(s, start);
    lemma_run_push(s, seq![start], first);
    lemma_run_push(s, seq![start].push(first), second);
    assert(seq![start, first, second] =~= seq![start].push(first).push(second));
}

/// A network that the first scan shows is joined in four steps, each
/// answered as it should be: the scan is started, the radio associates on
/// the channel found, the lease is awaited, and the address is announced.
pub proof fn law_found_network_joins(
    s: SupervisorView,
    aps: Seq<crate::wifi::AccessPointView>,
    address: crate::address::Ipv4Addr,
    now: u64,
)
    requires
        s.state == LinkState::Disconnected,
        find_ssid(aps, s.credentials.wifi_ssid) is Some,
    ensures
        ({
            let found = aps[find_ssid(aps, s.credentials.wifi_ssid).unwrap()];
            let e0 = LinkEventView::Start;
            let e1 = LinkEventView::ScanCompleted(aps);
            let e2 = LinkEventView::AssociationAccepted;
            let e3 = LinkEventView::LeaseObtained { address, now };
            &&& last_action(s, seq![e0]) == LinkActionView::StartScan
            &&& run(s, seq![e0]).state == LinkState::Scanning
            &&& last_action(s, seq![e0, e1]) == LinkActionView::Associate(
                client_configuration(
                    s.credentials,
                    Some(found.channel),
                    auth_or_default(found.auth_method),
                ),
            )
            &&& run(s, seq![e0, e1]).state == LinkState::Associating
            &&& last_action(s, seq![e0, e1, e2]) == LinkActionView::WaitForLease
            &&& run(s, seq![e0, e1, e2]).state == LinkState::WaitingForLease
            &&& last_action(s, seq![e0, e1, e2, e3]) == LinkActionView::Announce(address)
            &&& run(s, seq![e0, e1, e2, e3]).state == (LinkState::Connected {
                since: now,
                failure_count: 0,
            })
        }),
{
    let e0 = LinkEventView::Start;
    let e1 = LinkEventView::ScanCompleted(aps);
    let e2 = LinkEventView::AssociationAccepted;
    let e3 = LinkEventView::LeaseObtained { address, now };
    lemma_run_one(s, e0);
    lemma_run_push(s, seq![e0], e1);
    lemma_run_push(s, seq![e0].push(e1), e2);
    lemma_run_push(s, seq![e0].push(e1).push(e2), e3);
    assert(seq![e0, e1] =~= seq![e0].push(e1));
    assert(seq![e0, e1, e2] =~= seq![e0].push(e1).push(e2));
    assert(seq![e0, e1, e2, e3] =~= seq![e0].push(e1).push(e2).push(e3));
}

/// So many monitoring cycles, each with the same report on the link.
pub open spec fn cycles(n: nat, link_up: bool) -> Seq<LinkEventView> {
    Seq::new(n, |i: int| LinkEventView::CycleElapsed { link_up })
}

/// A healthy link is left alone: while the link is up and the clock has not
/// failed, any number of monitoring cycles leaves the supervisor
/// `Connected` as it was, provided that the policy lets at least one clock
/// failure pass before it rebuilds the link.
pub proof fn law_healthy_link_stays_connected(s: SupervisorView, since: u64, n: nat)
    requires
        valid(s),
        s.state == (LinkState::Connected { since, failure_count: 0 }),
        s.config.clock_failure_threshold >= 1,
    ensures
        run(s, cycles(n, true)).state == s.state,
        run(s, cycles(n, true)).attempt_failures == s.attempt_failures,
        run(s, cycles(n, true)).config == s.config,
        valid(run(s, cycles(n, true))),
        fatal_count(s, cycles(n, true)) == 0,
    decreases n,
{
    if n > 0 {
        let earlier = cycles((n - 1) as nat, true);
        law_healthy_link_stays_connected(s, since, (n - 1) as nat);
        assert(cycles(n, true).drop_last() =~= earlier);
    }
}

/// The number of monitoring cycles until the next check of the link.
pub open spec fn cycles_until_check(s: SupervisorView) -> nat {
    if s.config.health_check_cycles > s.cycle {
        (s.config.health_check_cycles - s.cycle) as nat
    } else {
        1
    }
}

/// A failing link is rebuilt at the next check: while the link is down, or
/// the clock has failed as often as the policy tolerates, the supervisor
/// stays `Connected` through the cycles before the check and is `Degraded`
/// after the cycle of the check, which is answered with the request to
/// disconnect and stop.
pub proof fn law_failing_link_degrades_at_the_check(
    s: SupervisorView,
    since: u64,
    failure_count: u8,
    link_up: bool,
    n: nat,
)
    requires
        valid(s),
        s.state == (LinkState::Connected { since, failure_count }),
        !link_up || failure_count >= s.config.clock_failure_threshold,
        1 <= n <= cycles_until_check(s),
    ensures
        n < cycles_until_check(s) ==> {
            &&& run(s, cycles(n, link_up)).state == s.state
            &&& run(s, cycles(n, link_up)).cycle == s.cycle + n
        },
        n == cycles_until_check(s) ==> {
            &&& run(s, cycles(n, link_up)).state == (LinkState::Degraded { failure_count })
            &&& run(s, cycles(n, link_up)).cycle == 0
            &&& last_action(s, cycles(n, link_up)) == LinkActionView::DisconnectAndStop
        },
        run(s, cycles(n, link_up)).config == s.config,
        fatal_count(s, cycles(n, link_up)) == 0,
    decreases n,
{
    let earlier = cycles((n - 1) as nat, link_up);
    assert(cycles(n, link_up).drop_last() =~= earlier);
    if n > 1 {
        law_failing_link_degrades_at_the_check(s, since, failure_count, link_up, (n - 1) as nat);
    } else {
        assert(earlier.len() == 0);
        assert(run(s, earlier) == s);
        assert(fatal_count(s, earlier) == 0);
    }
}

} // verus!
