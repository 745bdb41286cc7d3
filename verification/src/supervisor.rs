//! The supervisor that joins the network, watches the link and rejoins
//! when it degrades.
//!
//! The supervisor does no radio work itself. It is a state machine: the
//! caller reports what happened as an event, and the supervisor moves to the
//! next state and names the one thing to do next.

use crate::address::Ipv4Addr;
use crate::wifi::{
    auth_or_default, client_configuration, find_ssid, lemma_find_ssid, scan_view, wifi_scan,
    AccessPointInfo, AccessPointView, AuthMethod, ClientConfiguration, ClientConfigurationView,
    Config, ConfigView, WifiError,
};
use vstd::prelude::*;

verus! {

/// The policy of the supervisor.
#[derive(Clone, Copy, Debug, PartialEq, Eq, Structural)]
pub struct SupervisorConfig {
    /// How many attempts to join may fail in a row; the one that reaches
    /// this count is fatal.
    pub failure_ceiling: u8,
    /// Every this many monitoring cycles the link is checked.
    pub health_check_cycles: u8,
    /// From this cycle on the clock is set again if setting it failed.
    pub clock_sync_cycles: u8,
    /// How many failures to set the clock force the link to be rebuilt at
    /// the next check.
    pub clock_failure_threshold: u8,
    /// The length of one monitoring cycle, in seconds.
    pub cycle_seconds: u64,
}

/// The policy that has served well: ten attempts, a check every eighth
/// cycle of ten seconds, the clock retried from the sixth cycle, and one
/// clock failure enough to rebuild the link.
pub open spec fn default_policy() -> SupervisorConfig {
    SupervisorConfig {
        failure_ceiling: 10,
        health_check_cycles: 8,
        clock_sync_cycles: 6,
        clock_failure_threshold: 1,
        cycle_seconds: 10,
    }
}

impl Default for SupervisorConfig {
    fn default() -> (config: SupervisorConfig)
        ensures
            config == default_policy(),
    {
        SupervisorConfig {
            failure_ceiling: 10,
            health_check_cycles: 8,
            clock_sync_cycles: 6,
            clock_failure_threshold: 1,
            cycle_seconds: 10,
        }
    }
}

/// Where the link stands.
#[derive(Clone, Copy, Debug, PartialEq, Eq, Structural)]
pub enum LinkState {
    /// Not joined and nothing under way.
    Disconnected,
    /// A scan for the configured network is under way.
    Scanning,
    /// The radio is associating with the access point.
    Associating,
    /// Associated; waiting for an address.
    WaitingForLease,
    /// Joined since `since`; `failure_count` counts the failures to set
    /// the clock since the last success.
    Connected { since: u64, failure_count: u8 },
    /// The link is being taken down to be rebuilt.
    Degraded { failure_count: u8 },
    /// Too many attempts to join failed. Nothing leaves this state.
    Failed,
}

/// What the caller reports to the supervisor.
#[derive(Debug, PartialEq, Eq)]
pub enum LinkEvent {
    /// Begin to join, or begin again.
    Start,
    /// A scan ended with these access points.
    ScanCompleted(Vec<AccessPointInfo>),
    /// A scan failed.
    ScanFailed,
    /// The access point accepted the association.
    AssociationAccepted,
    /// The access point rejected the association.
    AssociationRejected,
    /// An address was leased at the time `now`.
    LeaseObtained { address: Ipv4Addr, now: u64 },
    /// No address was leased.
    LeaseFailed,
    /// The clock was set.
    ClockSynced,
    /// The clock could not be set.
    ClockSyncFailed,
    /// One monitoring cycle has passed; `link_up` is what the radio says of
    /// the link.
    CycleElapsed { link_up: bool },
    /// The radio was disconnected and stopped.
    LinkStopped,
}

/// An event as specifications see it.
pub enum LinkEventView {
    Start,
    ScanCompleted(Seq<AccessPointView>),
    ScanFailed,
    AssociationAccepted,
    AssociationRejected,
    LeaseObtained { address: Ipv4Addr, now: u64 },
    LeaseFailed,
    ClockSynced,
    ClockSyncFailed,
    CycleElapsed { link_up: bool },
    LinkStopped,
}

impl View for LinkEvent {
    type V = LinkEventView;

    open spec fn view(&self) -> LinkEventView {
        match self {
            LinkEvent::Start => LinkEventView::Start,
            LinkEvent::ScanCompleted(aps) => LinkEventView::ScanCompleted(scan_view(aps@)),
            LinkEvent::ScanFailed => LinkEventView::ScanFailed,
            LinkEvent::AssociationAccepted => LinkEventView::AssociationAccepted,
            LinkEvent::AssociationRejected => LinkEventView::AssociationRejected,
            LinkEvent::LeaseObtained { address, now } => LinkEventView::LeaseObtained {
                address: *address,
                now: *now,
            },
            LinkEvent::LeaseFailed => LinkEventView::LeaseFailed,
            LinkEvent::ClockSynced => LinkEventView::ClockSynced,
            LinkEvent::ClockSyncFailed => LinkEventView::ClockSyncFailed,
            LinkEvent::CycleElapsed { link_up } => LinkEventView::CycleElapsed {
                link_up: *link_up,
            },
            LinkEvent::LinkStopped => LinkEventView::LinkStopped,
        }
    }
}

/// What the supervisor asks the caller to do next.
#[derive(Debug, PartialEq, Eq)]
pub enum LinkAction {
    /// Scan for the configured network and report how the scan ended.
    StartScan,
    /// Configure the radio so and associate.
    Associate(ClientConfiguration),
    /// Wait for an address.
    WaitForLease,
    /// Publish the new address, then set the clock and report how it went.
    Announce(Ipv4Addr),
    /// Set the clock and report how it went.
    SyncClock,
    /// Sleep for so many seconds, then report that a cycle has passed.
    Sleep(u64),
    /// Disconnect and stop the radio, then report that it stopped.
    DisconnectAndStop,
    /// Report `Start` to try again from the beginning.
    Restart,
    /// Give up: the failure ceiling is reached.
    Fatal,
    /// The event does not concern the present state; do nothing.
    Ignore,
}

/// An action as specifications see it.
pub enum LinkActionView {
    StartScan,
    Associate(ClientConfigurationView),
    WaitForLease,
    Announce(Ipv4Addr),
    SyncClock,
    Sleep(u64),
    DisconnectAndStop,
    Restart,
    Fatal,
    Ignore,
}

impl View for LinkAction {
    type V = LinkActionView;

    open spec fn view(&self) -> LinkActionView {
        match self {
            LinkAction::StartScan => LinkActionView::StartScan,
            LinkAction::Associate(c) => LinkActionView::Associate(c@),
            LinkAction::WaitForLease => LinkActionView::WaitForLease,
            LinkAction::Announce(a) => LinkActionView::Announce(*a),
            LinkAction::SyncClock => LinkActionView::SyncClock,
            LinkAction::Sleep(s) => LinkActionView::Sleep(*s),
            LinkAction::DisconnectAndStop => LinkActionView::DisconnectAndStop,
            LinkAction::Restart => LinkActionView::Restart,
            LinkAction::Fatal => LinkActionView::Fatal,
            LinkAction::Ignore => LinkActionView::Ignore,
        }
    }
}

/// The supervisor: its policy, the network to join, the state of the link
/// and its counters.
#[derive(Debug)]
pub struct Supervisor {
    config: SupervisorConfig,
    credentials: Config,
    state: LinkState,
    scan_retried: bool,
    attempt_failures: u8,
    cycle: u8,
}

/// A supervisor as specifications see it.
pub struct SupervisorView {
    pub config: SupervisorConfig,
    pub credentials: ConfigView,
    pub state: LinkState,
    /// Whether the scan under way is the second one of this attempt.
    pub scan_retried: bool,
    /// How many attempts to join have failed in a row.
    pub attempt_failures: u8,
    /// How many monitoring cycles have passed since the last check.
    pub cycle: u8,
}

impl View for Supervisor {
    type V = SupervisorView;

    closed spec fn view(&self) -> SupervisorView {
        SupervisorView {
            config: self.config,
            credentials: self.credentials@,
            state: self.state,
            scan_retried: self.scan_retried,
            attempt_failures: self.attempt_failures,
            cycle: self.cycle,
        }
    }
}

/// What holds of every supervisor: short of the terminal state fewer
/// attempts have failed than the ceiling allows, and fewer cycles have
/// passed than lie between two checks.
pub open spec fn valid(s: SupervisorView) -> bool {
    &&& s.state != LinkState::Failed ==> s.attempt_failures == 0 || s.attempt_failures
        < s.config.failure_ceiling
    &&& s.cycle == 0 || s.cycle < s.config.health_check_cycles
}

/// A supervisor that has not begun: disconnected, with every counter at
/// zero.
pub open spec fn initial(config: SupervisorConfig, credentials: ConfigView) -> SupervisorView {
    SupervisorView {
        config,
        credentials,
        state: LinkState::Disconnected,
        scan_retried: false,
        attempt_failures: 0,
        cycle: 0,
    }
}

/// One more attempt to join has failed: the count goes up, and the attempt
/// that reaches the ceiling is fatal. Any other is followed by a fresh start.
pub open spec fn fail_attempt(s: SupervisorView) -> (SupervisorView, LinkActionView) {
    let failures = (s.attempt_failures + 1) as u8;
    if failures >= s.config.failure_ceiling {
        (
            SupervisorView { state: LinkState::Failed, attempt_failures: failures, ..s },
            LinkActionView::Fatal,
        )
    } else {
        (
            SupervisorView { state: LinkState::Disconnected, attempt_failures: failures, ..s },
            LinkActionView::Restart,
        )
    }
}

/// A scan did not show the network: the first time the scan is repeated,
/// the second time the radio associates without a channel hint.
pub open spec fn scan_missed(s: SupervisorView) -> (SupervisorView, LinkActionView) {
    if !s.scan_retried {
        (SupervisorView { scan_retried: true, ..s }, LinkActionView::StartScan)
    } else {
        (
            SupervisorView { state: LinkState::Associating, ..s },
            LinkActionView::Associate(
                client_configuration(s.credentials, None, AuthMethod::WPA2Personal),
            ),
        )
    }
}

/// A scan showed the network at `ap`: the radio associates on its channel
/// with its authentication method.
pub open spec fn scan_found(s: SupervisorView, ap: AccessPointView) -> (
    SupervisorView,
    LinkActionView,
) {
    (
        SupervisorView { state: LinkState::Associating, ..s },
        LinkActionView::Associate(
            client_configuration(s.credentials, Some(ap.channel), auth_or_default(ap.auth_method)),
        ),
    )
}

/// One step of joining the network: from `Disconnected` through the scan,
/// the association and the lease to `Connected`.
pub open spec fn connect_step(s: SupervisorView, e: LinkEventView) -> (
    SupervisorView,
    LinkActionView,
) {
    match (s.state, e) {
        (LinkState::Disconnected, LinkEventView::Start) => (
            SupervisorView { state: LinkState::Scanning, scan_retried: false, ..s },
            LinkActionView::StartScan,
        ),
        (LinkState::Scanning, LinkEventView::ScanCompleted(aps)) => match find_ssid(
            aps,
            s.credentials.wifi_ssid,
        ) {
            Some(i) => scan_found(s, aps[i]),
            None => scan_missed(s),
        },
        (LinkState::Scanning, LinkEventView::ScanFailed) => scan_missed(s),
        (LinkState::Associating, LinkEventView::AssociationAccepted) => (
            SupervisorView { state: LinkState::WaitingForLease, ..s },
            LinkActionView::WaitForLease,
        ),
        (LinkState::Associating, LinkEventView::AssociationRejected) => fail_attempt(s),
        (LinkState::WaitingForLease, LinkEventView::LeaseObtained { address, now }) => (
            SupervisorView {
                state: LinkState::Connected { since: now, failure_count: 0 },
                attempt_failures: 0,
                cycle: 0,
                ..s
            },
            LinkActionView::Announce(address),
        ),
        (LinkState::WaitingForLease, LinkEventView::LeaseFailed) => fail_attempt(s),
        _ => (s, LinkActionView::Ignore),
    }
}

/// The count of clock failures after one more, which stops at the largest
/// number the counter holds.
pub open spec fn one_more(failure_count: u8) -> u8 {
    if failure_count < u8::MAX {
        (failure_count + 1) as u8
    } else {
        failure_count
    }
}

/// What a monitoring cycle leads to while connected: at every check the
/// link is rebuilt if it is down or the clock failed often enough; between
/// checks the clock is retried once it has failed and the retry cycle has
/// come; otherwise the supervisor sleeps.
pub open spec fn cycle_elapsed(s: SupervisorView, since: u64, failure_count: u8, link_up: bool) -> (
    SupervisorView,
    LinkActionView,
) {
    let cycle = (s.cycle + 1) as u8;
    if cycle >= s.config.health_check_cycles {
        if !link_up || failure_count >= s.config.clock_failure_threshold {
            (
                SupervisorView { state: LinkState::Degraded { failure_count }, cycle: 0, ..s },
                LinkActionView::DisconnectAndStop,
            )
        } else {
            (SupervisorView { cycle: 0, ..s }, LinkActionView::Sleep(s.config.cycle_seconds))
        }
    } else if cycle >= s.config.clock_sync_cycles && failure_count > 0 {
        (SupervisorView { cycle, ..s }, LinkActionView::SyncClock)
    } else {
        (SupervisorView { cycle, ..s }, LinkActionView::Sleep(s.config.cycle_seconds))
    }
}

/// One step of watching the link: the monitoring cycles while `Connected`,
/// and the way back to `Disconnected` once the link is `Degraded`.
pub open spec fn monitor_step(s: SupervisorView, e: LinkEventView) -> (
    SupervisorView,
    LinkActionView,
) {
    match (s.state, e) {
        (LinkState::Connected { since, failure_count }, LinkEventView::ClockSynced) => (
            SupervisorView { state: LinkState::Connected { since, failure_count: 0 }, ..s },
            LinkActionView::Sleep(s.config.cycle_seconds),
        ),
        (LinkState::Connected { since, failure_count }, LinkEventView::ClockSyncFailed) => (
            SupervisorView {
                state: LinkState::Connected { since, failure_count: one_more(failure_count) },
                ..s
            },
            LinkActionView::Sleep(s.config.cycle_seconds),
        ),
        (
            LinkState::Connected { since, failure_count },
            LinkEventView::CycleElapsed { link_up },
        ) => cycle_elapsed(s, since, failure_count, link_up),
        (LinkState::Degraded { failure_count }, LinkEventView::LinkStopped) => (
            SupervisorView { state: LinkState::Disconnected, ..s },
            LinkActionView::Restart,
        ),
        _ => (s, LinkActionView::Ignore),
    }
}

/// Whether the link is up or on its way down, so that events belong to the
/// monitoring and not to the joining.
pub open spec fn is_monitoring(state: LinkState) -> bool {
    state is Connected || state is Degraded
}

/// One step of the supervisor.
pub open spec fn step(s: SupervisorView, e: LinkEventView) -> (SupervisorView, LinkActionView) {
    if is_monitoring(s.state) {
        monitor_step(s, e)
    } else {
        connect_step(s, e)
    }
}

impl Supervisor {
    #[verifier::type_invariant]
    spec fn well_formed(&self) -> bool {
        &&& self.state != LinkState::Failed ==> self.attempt_failures == 0 || self.attempt_failures
            < self.config.failure_ceiling
        &&& self.cycle == 0 || self.cycle < self.config.health_check_cycles
    }

    /// A supervisor for the network of `credentials`, not yet begun.
    /// Credentials that do not fit the radio's fields are refused.
    pub fn new(config: SupervisorConfig, credentials: Config) -> (r: Result<Supervisor, WifiError>)
        ensures
            match crate::wifi::credentials_fault(credentials@) {
                Some(fault) => r == Err::<Supervisor, WifiError>(fault),
                None => r matches Ok(s) && s@ == initial(config, credentials@),
            },
    {
        match credentials.check() {
            Ok(()) => Ok(
                Supervisor {
                    config,
                    credentials,
                    state: LinkState::Disconnected,
                    scan_retried: false,
                    attempt_failures: 0,
                    cycle: 0,
                },
            ),
            Err(fault) => Err(fault),
        }
    }

    /// The state of the link.
    pub fn state(&self) -> (state: LinkState)
        ensures
            state == self@.state,
    {
        self.state
    }

    /// The policy.
    pub fn config(&self) -> (config: SupervisorConfig)
        ensures
            config == self@.config,
    {
        self.config
    }

    /// How many attempts to join have failed in a row.
    pub fn attempt_failures(&self) -> (n: u8)
        ensures
            n == self@.attempt_failures,
            valid(self@),
    {
        proof {
            use_type_invariant(self);
        }
        self.attempt_failures
    }

    /// How many monitoring cycles have passed since the last check.
    pub fn cycle(&self) -> (n: u8)
        ensures
            n == self@.cycle,
    {
        self.cycle
    }

    /// Whether the supervisor has given up.
    pub fn is_failed(&self) -> (failed: bool)
        ensures
            failed == (self@.state == LinkState::Failed),
    {
        match self.state {
            LinkState::Failed => true,
            _ => false,
        }
    }

    /// Counts one more failed attempt to join.
    fn fail_attempt(&mut self) -> (action: LinkAction)
        requires
            old(self)@.state != LinkState::Failed,
        ensures
            (final(self)@, action@) == fail_attempt(old(self)@),
    {
        proof {
            use_type_invariant(&*self);
        }
        let failures: u8 = self.attempt_failures + 1;
        if failures >= self.config.failure_ceiling {
            self.state = LinkState::Failed;
            self.attempt_failures = failures;
            LinkAction::Fatal
        } else {
            self.attempt_failures = failures;
            self.state = LinkState::Disconnected;
            LinkAction::Restart
        }
    }

    /// Reacts to a scan that did not show the network.
    fn scan_missed(&mut self) -> (action: LinkAction)
        requires
            old(self)@.state == LinkState::Scanning,
        ensures
            (final(self)@, action@) == scan_missed(old(self)@),
    {
        proof {
            use_type_invariant(&*self);
        }
        if !self.scan_retried {
            self.scan_retried = true;
            LinkAction::StartScan
        } else {
            self.state = LinkState::Associating;
            LinkAction::Associate(
                ClientConfiguration::for_network(&self.credentials, None, AuthMethod::WPA2Personal),
            )
        }
    }

    /// One step of joining the network.
    ///
    /// `Start` begins a scan. A scan that shows the network leads to the
    /// association on the channel found; a scan that does not is repeated
    /// once, and after the second miss the radio associates without a hint.
    /// An accepted association waits for the lease, and the lease makes the
    /// link `Connected` and announces the address. A rejected association
    /// or a failed lease counts as a failed attempt: the attempt that
    /// reaches the ceiling is `Fatal`, any other asks for a `Restart`.
    /// Every other pairing of state and event is ignored.
    pub fn initial_wifi_connect(&mut self, event: LinkEvent) -> (action: LinkAction)
        ensures
            (final(self)@, action@) == connect_step(old(self)@, event@),
            valid(old(self)@),
            valid(final(self)@),
    {
        proof {
            use_type_invariant(&*self);
        }
        let action = match event {
            LinkEvent::Start => match self.state {
                LinkState::Disconnected => {
                    self.state = LinkState::Scanning;
                    self.scan_retried = false;
                    LinkAction::StartScan
                },
                _ => LinkAction::Ignore,
            },
            LinkEvent::ScanCompleted(aps) => match self.state {
                LinkState::Scanning => {
                    proof {
                        lemma_find_ssid(scan_view(aps@), self.credentials@.wifi_ssid);
                    }
                    match wifi_scan(&aps, &self.credentials.wifi_ssid) {
                        Ok(ap) => {
                            self.state = LinkState::Associating;
                            let auth_method = match ap.auth_method {
                                Some(method) => method,
                                None => AuthMethod::WPA2Personal,
                            };
                            LinkAction::Associate(
                                ClientConfiguration::for_network(
                                    &self.credentials,
                                    Some(ap.channel),
                                    auth_method,
                                ),
                            )
                        },
                        Err(_) => self.scan_missed(),
                    }
                },
                _ => LinkAction::Ignore,
            },
            LinkEvent::ScanFailed => match self.state {
                LinkState::Scanning => self.scan_missed(),
                _ => LinkAction::Ignore,
            },
            LinkEvent::AssociationAccepted => match self.state {
                LinkState::Associating => {
                    self.state = LinkState::WaitingForLease;
                    LinkAction::WaitForLease
                },
                _ => LinkAction::Ignore,
            },
            LinkEvent::AssociationRejected => match self.state {
                LinkState::Associating => self.fail_attempt(),
                _ => LinkAction::Ignore,
            },
            LinkEvent::LeaseObtained { address, now } => match self.state {
                LinkState::WaitingForLease => {
                    self.attempt_failures = 0;
                    self.cycle = 0;
                    self.state = LinkState::Connected { since: now, failure_count: 0 };
                    LinkAction::Announce(address)
                },
                _ => LinkAction::Ignore,
            },
            LinkEvent::LeaseFailed => match self.state {
                LinkState::WaitingForLease => self.fail_attempt(),
                _ => LinkAction::Ignore,
            },
            _ => LinkAction::Ignore,
        };
        proof {
            use_type_invariant(&*self);
        }
        action
    }

    /// One step of watching the link.
    ///
    /// While `Connected`, a report on the clock resets or raises the count
    /// of clock failures and is followed by a sleep. A cycle that has
    /// passed is counted; the cycle that completes the check interval
    /// either degrades the link, if it is down or the clock has failed
    /// often enough, or sleeps again; a cycle from the retry cycle on asks to
    /// set the clock again if it failed before. Once `Degraded` and
    /// stopped, the link is `Disconnected` and a `Restart` is asked for.
    /// Every other pairing of state and event is ignored.
    pub fn app_wifi_loop(&mut self, event: LinkEvent) -> (action: LinkAction)
        ensures
            (final(self)@, action@) == monitor_step(old(self)@, event@),
            valid(old(self)@),
            valid(final(self)@),
    {
        proof {
            use_type_invariant(&*self);
        }
        let action = match self.state {
            LinkState::Connected { since, failure_count } => match event {
                LinkEvent::ClockSynced => {
                    self.state = LinkState::Connected { since, failure_count: 0 };
                    LinkAction::Sleep(self.config.cycle_seconds)
                },
                LinkEvent::ClockSyncFailed => {
                    let raised: u8 = if failure_count < u8::MAX {
                        failure_count + 1
                    } else {
                        failure_count
                    };
                    self.state = LinkState::Connected { since, failure_count: raised };
                    LinkAction::Sleep(self.config.cycle_seconds)
                },
                LinkEvent::CycleElapsed { link_up } => {
                    let cycle: u8 = self.cycle + 1;
                    if cycle >= self.config.health_check_cycles {
                        self.cycle = 0;
                        if !link_up || failure_count >= self.config.clock_failure_threshold {
                            self.state = LinkState::Degraded { failure_count };
                            LinkAction::DisconnectAndStop
                        } else {
                            LinkAction::Sleep(self.config.cycle_seconds)
                        }
                    } else if cycle >= self.config.clock_sync_cycles && failure_count > 0 {
                        self.cycle = cycle;
                        LinkAction::SyncClock
                    } else {
                        self.cycle = cycle;
                        LinkAction::Sleep(self.config.cycle_seconds)
                    }
                },
                _ => LinkAction::Ignore,
            },
            LinkState::Degraded { failure_count } => match event {
                LinkEvent::LinkStopped => {
                    self.state = LinkState::Disconnected;
                    LinkAction::Restart
                },
                _ => LinkAction::Ignore,
            },
            _ => LinkAction::Ignore,
        };
        proof {
            use_type_invariant(&*self);
        }
        action
    }

    /// One step of the supervisor: the step of watching the link while it
    /// is `Connected` or `Degraded`, the step of joining otherwise.
    pub fn step(&mut self, event: LinkEvent) -> (action: LinkAction)
        ensures
            (final(self)@, action@) == step(old(self)@, event@),
            valid(old(self)@),
            valid(final(self)@),
    {
        match self.state {
            LinkState::Connected { .. } | LinkState::Degraded { .. } => self.app_wifi_loop(event),
            _ => self.initial_wifi_connect(event),
        }
    }
}

} // verus!
