use crate::store::copy_bytes;
use vstd::prelude::*;
use vstd::string::StringSliceAdditionalSpecFns;

verus! {

/// Pause after any failed step of the connect loop, and after the link drops.
pub const RETRY_BACKOFF_MS: u64 = 5000;

/// Interval at which link and address are polled during bring-up.
pub const LINK_POLL_MS: u64 = 500;

/// Pause before the address server runs again after an error.
pub const DHCP_RETRY_MS: u64 = 500;

/// Port on which the address server listens.
pub const DHCP_SERVER_PORT: u16 = 67;

/// Prefix length of the access point's subnet: sixteen addresses.
pub const AP_PREFIX_LEN: u8 = 28;

/// Network name the device announces as an access point.
pub const AP_SSID: &'static str = "esp-wifi";

/// How the radio joins a network: as a client of an existing one, or as its
/// own access point.
#[derive(Debug, Clone, Copy, PartialEq, Eq, Structural)]
pub enum WifiMode {
    Sta,
    Ap,
}

#[derive(Debug, Clone, Copy, PartialEq, Eq, Structural)]
pub struct Ipv4Address {
    pub a: u8,
    pub b: u8,
    pub c: u8,
    pub d: u8,
}

/// How the network stack gets its address.
#[derive(Debug, Clone, Copy, PartialEq, Eq, Structural)]
pub enum AddressConfig {
    Dhcp,
    Static { address: Ipv4Address, prefix_len: u8, gateway: Ipv4Address },
}

/// What bring-up does for a mode: the address configuration, whether the
/// address server is started, and the value of the client-mode flag.
#[derive(Debug, Clone, Copy, PartialEq, Eq, Structural)]
pub struct BringUpPlan {
    pub address: AddressConfig,
    pub start_dhcp_server: bool,
    pub client_mode: bool,
}

pub open spec fn spec_ap_gateway() -> Ipv4Address {
    Ipv4Address { a: 192, b: 168, c: 1, d: 1 }
}

/// The fixed subnet of the access point, rooted at its gateway.
pub open spec fn ap_subnet() -> AddressConfig {
    AddressConfig::Static {
        address: spec_ap_gateway(),
        prefix_len: AP_PREFIX_LEN,
        gateway: spec_ap_gateway(),
    }
}

/// The access point's own address, which is also the gateway it advertises.
pub fn ap_gateway() -> (r: Ipv4Address)
    ensures
        r == spec_ap_gateway(),
{
    Ipv4Address { a: 192, b: 168, c: 1, d: 1 }
}

/// What bring-up does in each mode.
pub open spec fn spec_bring_up_plan(mode: WifiMode) -> BringUpPlan {
    match mode {
        WifiMode::Sta => BringUpPlan {
            address: AddressConfig::Dhcp,
            start_dhcp_server: false,
            client_mode: true,
        },
        WifiMode::Ap => BringUpPlan { address: ap_subnet(), start_dhcp_server: true, client_mode: false },
    }
}

/// Plans the bring-up of the network stack. A client asks for its address by
/// DHCP and starts no address server; an access point uses the fixed subnet
/// and starts the address server on it.
pub fn bring_up_plan(mode: WifiMode) -> (r: BringUpPlan)
    ensures
        r == spec_bring_up_plan(mode),
{
    match mode {
        WifiMode::Sta => BringUpPlan {
            address: AddressConfig::Dhcp,
            start_dhcp_server: false,
            client_mode: true,
        },
        WifiMode::Ap => {
            let gw = ap_gateway();
            BringUpPlan {
                address: AddressConfig::Static { address: gw, prefix_len: AP_PREFIX_LEN, gateway: gw },
                start_dhcp_server: true,
                client_mode: false,
            }
        },
    }
}

/// An access point always advertises the fixed subnet and gateway, never a
/// negotiated address; a client never starts the address server.
pub proof fn lemma_bring_up_subnet(mode: WifiMode)
    ensures
        mode == WifiMode::Ap ==> spec_bring_up_plan(mode).address == ap_subnet(),
        spec_bring_up_plan(mode).address is Dhcp <==> mode == WifiMode::Sta,
        spec_bring_up_plan(mode).start_dhcp_server <==> mode == WifiMode::Ap,
        spec_bring_up_plan(mode).client_mode <==> mode == WifiMode::Sta,
{
}

/// Progress of the stack towards being usable.
#[derive(Debug, Clone, Copy, PartialEq, Eq, Structural)]
pub enum LinkState {
    Down,
    LinkUp,
    AddressAcquired,
}

pub open spec fn spec_observe_link(state: LinkState, link_up: bool, has_address: bool) -> LinkState {
    match state {
        LinkState::Down => if !link_up {
            LinkState::Down
        } else if has_address {
            LinkState::AddressAcquired
        } else {
            LinkState::LinkUp
        },
        LinkState::LinkUp => if has_address {
            LinkState::AddressAcquired
        } else {
            LinkState::LinkUp
        },
        LinkState::AddressAcquired => LinkState::AddressAcquired,
    }
}

/// Advances bring-up by one poll: first the link must come up, then an
/// address must be assigned; once assigned, the network is ready for good.
pub fn observe_link(state: LinkState, link_up: bool, has_address: bool) -> (r: LinkState)
    ensures
        r == spec_observe_link(state, link_up, has_address),
{
    match state {
        LinkState::Down => {
            if !link_up {
                LinkState::Down
            } else if has_address {
                LinkState::AddressAcquired
            } else {
                LinkState::LinkUp
            }
        },
        LinkState::LinkUp => {
            if has_address {
                LinkState::AddressAcquired
            } else {
                LinkState::LinkUp
            }
        },
        LinkState::AddressAcquired => LinkState::AddressAcquired,
    }
}

/// Whether the network may be declared ready to the rest of the system.
pub fn is_ready(state: LinkState) -> (r: bool)
    ensures
        r == (state == LinkState::AddressAcquired),
{
    match state {
        LinkState::AddressAcquired => true,
        _ => false,
    }
}

/// What the address server reports when it stops running.
#[derive(Debug, Clone, Copy, PartialEq, Eq, Structural)]
pub enum DhcpEvent {
    BindFailed,
    ServeFailed,
    ServeEnded,
}

#[derive(Debug, Clone, Copy, PartialEq, Eq, Structural)]
pub enum DhcpAction {
    Stop,
    RunAgainAfter(u64),
}

/// The address server is a one-shot service for its socket: when the socket
/// cannot be bound it stops for good; when serving ends, with or without an
/// error, it serves again after a short pause.
pub fn dhcp_next(event: DhcpEvent) -> (r: DhcpAction)
    ensures
        event == DhcpEvent::BindFailed ==> r == DhcpAction::Stop,
        event != DhcpEvent::BindFailed ==> r == DhcpAction::RunAgainAfter(DHCP_RETRY_MS),
{
    match event {
        DhcpEvent::BindFailed => DhcpAction::Stop,
        _ => DhcpAction::RunAgainAfter(DHCP_RETRY_MS),
    }
}

/// Where the connect loop stands.
#[derive(Debug, Clone, Copy, PartialEq, Eq, Structural)]
pub enum SupervisorState {
    Idle,
    Starting,
    Configuring,
    Connecting,
    Connected,
    ApActive,
    Backoff,
}

/// What the radio reported after the last action.
#[derive(Debug, Clone, Copy, PartialEq, Eq, Structural)]
pub enum SupervisorEvent {
    Boot,
    BackoffElapsed,
    RadioStarted,
    RadioStopped,
    QueryFailed,
    StartSucceeded,
    StartFailed,
    Connected,
    ConnectFailed,
    Disconnected,
    ApStopped,
}

/// What the caller does next with the radio.
#[derive(Debug, Clone, Copy, PartialEq, Eq, Structural)]
pub enum SupervisorAction {
    /// Ask whether the radio is started.
    QueryStarted,
    /// Apply the mode's radio configuration and start the radio.
    Configure,
    /// Associate with the configured network.
    Connect,
    /// Wait until the client loses its network.
    AwaitDisconnect,
    /// Wait until the access point stops.
    AwaitApStop,
    /// Sleep for the given number of milliseconds.
    Sleep(u64),
}

/// The state and action after the radio is known to be running.
pub open spec fn spec_after_start(mode: WifiMode) -> (SupervisorState, SupervisorAction) {
    match mode {
        WifiMode::Sta => (SupervisorState::Connecting, SupervisorAction::Connect),
        WifiMode::Ap => (SupervisorState::ApActive, SupervisorAction::AwaitApStop),
    }
}

pub open spec fn spec_backoff() -> (SupervisorState, SupervisorAction) {
    (SupervisorState::Backoff, SupervisorAction::Sleep(RETRY_BACKOFF_MS))
}

/// One transition of the connect loop. Every failure, a lost link and a
/// stopped access point lead to a pause and then a fresh check of the radio;
/// an event that does not belong to the state is handled as a failure.
pub open spec fn spec_step(state: SupervisorState, mode: WifiMode, event: SupervisorEvent) -> (
    SupervisorState,
    SupervisorAction,
) {
    match (state, event) {
        (SupervisorState::Idle, SupervisorEvent::Boot) => (
            SupervisorState::Starting,
            SupervisorAction::QueryStarted,
        ),
        (SupervisorState::Backoff, SupervisorEvent::BackoffElapsed) => (
            SupervisorState::Starting,
            SupervisorAction::QueryStarted,
        ),
        (SupervisorState::Starting, SupervisorEvent::RadioStarted) => spec_after_start(mode),
        (SupervisorState::Starting, SupervisorEvent::RadioStopped) => (
            SupervisorState::Configuring,
            SupervisorAction::Configure,
        ),
        (SupervisorState::Configuring, SupervisorEvent::StartSucceeded) => spec_after_start(mode),
        (SupervisorState::Connecting, SupervisorEvent::Connected) => (
            SupervisorState::Connected,
            SupervisorAction::AwaitDisconnect,
        ),
        _ => spec_backoff(),
    }
}

/// The radio configuration for a mode: a client joins the resolved network,
/// an access point announces its own name.
#[derive(Debug, Clone)]
pub enum RadioConfig {
    Client { ssid: Vec<u8>, password: Vec<u8> },
    AccessPoint { ssid: Vec<u8> },
}

/// The connect loop: started once, it never ends and never changes mode.
#[derive(Debug, Clone)]
pub struct Supervisor {
    pub mode: WifiMode,
    pub ssid: Vec<u8>,
    pub password: Vec<u8>,
    pub state: SupervisorState,
}

impl Supervisor {
    /// A loop that has not yet looked at the radio.
    pub fn new(mode: WifiMode, ssid: Vec<u8>, password: Vec<u8>) -> (r: Supervisor)
        ensures
            r.mode == mode,
            r.ssid@ == ssid@,
            r.password@ == password@,
            r.state == SupervisorState::Idle,
            fits_mode(r.state, r.mode),
    {
        Supervisor { mode, ssid, password, state: SupervisorState::Idle }
    }

    /// Takes the radio's report on the last action and returns the next one.
    pub fn step(&mut self, event: SupervisorEvent) -> (r: SupervisorAction)
        ensures
            (final(self).state, r) == spec_step(old(self).state, old(self).mode, event),
            final(self).mode == old(self).mode,
            final(self).ssid@ == old(self).ssid@,
            final(self).password@ == old(self).password@,
            fits_mode(old(self).state, old(self).mode) ==> fits_mode(
                final(self).state,
                final(self).mode,
            ),
    {
        let after_start = match self.mode {
            WifiMode::Sta => (SupervisorState::Connecting, SupervisorAction::Connect),
            WifiMode::Ap => (SupervisorState::ApActive, SupervisorAction::AwaitApStop),
        };
        let (next, action) = match (self.state, event) {
            (SupervisorState::Idle, SupervisorEvent::Boot) => (
                SupervisorState::Starting,
                SupervisorAction::QueryStarted,
            ),
            (SupervisorState::Backoff, SupervisorEvent::BackoffElapsed) => (
                SupervisorState::Starting,
                SupervisorAction::QueryStarted,
            ),
            (SupervisorState::Starting, SupervisorEvent::RadioStarted) => after_start,
            (SupervisorState::Starting, SupervisorEvent::RadioStopped) => (
                SupervisorState::Configuring,
                SupervisorAction::Configure,
            ),
            (SupervisorState::Configuring, SupervisorEvent::StartSucceeded) => after_start,
            (SupervisorState::Connecting, SupervisorEvent::Connected) => (
                SupervisorState::Connected,
                SupervisorAction::AwaitDisconnect,
            ),
            _ => (SupervisorState::Backoff, SupervisorAction::Sleep(RETRY_BACKOFF_MS)),
        };
        self.state = next;
        action
    }

    /// The configuration applied when the radio is started.
    pub fn radio_config(&self) -> (r: RadioConfig)
        ensures
            self.mode == WifiMode::Sta ==> (r matches RadioConfig::Client { ssid, password } && ssid@
                == self.ssid@ && password@ == self.password@),
            self.mode == WifiMode::Ap ==> (r matches RadioConfig::AccessPoint { ssid } && ssid@
                == AP_SSID.spec_bytes()),
    {
        match self.mode {
            WifiMode::Sta => RadioConfig::Client {
                ssid: copy_bytes(self.ssid.as_slice()),
                password: copy_bytes(self.password.as_slice()),
            },
            WifiMode::Ap => RadioConfig::AccessPoint { ssid: copy_bytes(AP_SSID.as_bytes()) },
        }
    }
}

/// States that a loop in the given mode can be in: only a client connects,
/// only an access point waits for its own stop.
pub open spec fn fits_mode(state: SupervisorState, mode: WifiMode) -> bool {
    &&& mode == WifiMode::Ap ==> state != SupervisorState::Connecting && state
        != SupervisorState::Connected
    &&& mode == WifiMode::Sta ==> state != SupervisorState::ApActive
}

/// The loop never ends and never leaves its mode: from every state and for
/// every report there is a next action, none of which stops the loop; an
/// access point never associates with a network, and a client never waits
/// for an access point to stop.
pub proof fn lemma_supervisor_modes(state: SupervisorState, mode: WifiMode, event: SupervisorEvent)
    requires
        fits_mode(state, mode),
    ensures
        fits_mode(spec_step(state, mode, event).0, mode),
        mode == WifiMode::Ap ==> spec_step(state, mode, event).1 != SupervisorAction::Connect,
        mode == WifiMode::Sta ==> spec_step(state, mode, event).1 != SupervisorAction::AwaitApStop,
        spec_step(state, mode, event).0 != SupervisorState::Idle,
{
}

/// A failed step is always followed by the fixed pause, and after the pause
/// the loop starts over by checking the radio.
pub proof fn lemma_failures_back_off(state: SupervisorState, mode: WifiMode, event: SupervisorEvent)
    requires
        event == SupervisorEvent::QueryFailed || event == SupervisorEvent::StartFailed
            || event == SupervisorEvent::ConnectFailed || event == SupervisorEvent::Disconnected
            || event == SupervisorEvent::ApStopped,
    ensures
        spec_step(state, mode, event) == spec_backoff(),
        spec_step(spec_step(state, mode, event).0, mode, SupervisorEvent::BackoffElapsed) == (
            SupervisorState::Starting,
            SupervisorAction::QueryStarted,
        ),
{
}

} // verus!
