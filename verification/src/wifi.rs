use vstd::prelude::*;

verus! {

/// What a wifi configuration asks for, as far as the wifi task decides on it.
#[derive(Copy, Clone, Debug, PartialEq, Eq, Structural)]
pub enum WifiConfigKind {
    /// No wifi.
    Disabled,
    /// An access point only.
    AccessPoint,
    /// A client, with or without an authentication method.
    Client { authenticated: bool },
    /// A client and an access point, the client with or without an
    /// authentication method.
    Mixed { authenticated: bool },
}

/// A step the wifi task carries out on the driver, in order.
#[derive(Copy, Clone, Debug, PartialEq, Eq, Structural)]
pub enum WifiStep {
    /// Stop the driver where it is started.
    StopIfStarted,
    /// Hand the configuration to the driver.
    SetConfiguration,
    /// Start the driver and wait until it is started.
    StartAndWait,
    /// Connect and wait until connected.
    ConnectAndWait,
}

/// Whether a configuration makes the device a client that connects.
pub open spec fn connects(kind: WifiConfigKind) -> bool {
    match kind {
        WifiConfigKind::Client { authenticated } => authenticated,
        WifiConfigKind::Mixed { authenticated } => authenticated,
        _ => false,
    }
}

/// The steps that carry out a new configuration: the driver is stopped and
/// configured, started unless the wifi is disabled, and connected where the
/// configuration is a client with an authentication method.
pub open spec fn spec_command_steps(kind: WifiConfigKind) -> Seq<WifiStep> {
    seq![WifiStep::StopIfStarted, WifiStep::SetConfiguration] + (if kind != WifiConfigKind::Disabled {
        seq![WifiStep::StartAndWait]
    } else {
        seq![]
    }) + (if connects(kind) {
        seq![WifiStep::ConnectAndWait]
    } else {
        seq![]
    })
}

/// The memory of the wifi task: whether it keeps the client connected.
#[derive(Copy, Clone, Debug, PartialEq, Eq, Structural)]
pub struct WifiControl {
    pub stay_connected: bool,
}

impl WifiControl {
    /// A task that keeps nothing connected yet.
    pub fn new() -> (c: Self)
        ensures
            !c.stay_connected,
    {
        WifiControl { stay_connected: false }
    }

    /// Takes a new configuration: gives the steps that carry it out. Once
    /// they are done, the connection is kept where the configuration
    /// connects, and dropped otherwise.
    pub fn on_command(&mut self, kind: WifiConfigKind) -> (steps: Vec<WifiStep>)
        ensures
            steps@ == spec_command_steps(kind),
            final(self).stay_connected == connects(kind),
    {
        let mut steps: Vec<WifiStep> = Vec::new();
        steps.push(WifiStep::StopIfStarted);
        self.stay_connected = false;
        steps.push(WifiStep::SetConfiguration);
        let disabled = match kind {
            WifiConfigKind::Disabled => true,
            _ => false,
        };
        if !disabled {
            steps.push(WifiStep::StartAndWait);
        }
        let connect = match kind {
            WifiConfigKind::Client { authenticated } => authenticated,
            WifiConfigKind::Mixed { authenticated } => authenticated,
            _ => false,
        };
        if connect {
            steps.push(WifiStep::ConnectAndWait);
            self.stay_connected = true;
        }
        assert(steps@ =~= spec_command_steps(kind));
        steps
    }

    /// On the periodic check: whether to reconnect, which is when the
    /// connection is kept and was lost.
    pub fn on_tick(&self, connected: bool) -> (reconnect: bool)
        ensures
            reconnect == spec_reconnects(*self, connected),
    {
        self.stay_connected && !connected
    }
}

/// Whether the periodic check reconnects.
pub open spec fn spec_reconnects(c: WifiControl, connected: bool) -> bool {
    c.stay_connected && !connected
}

/// Law: after a configuration that does not connect, neither its steps nor
/// any later check connects, whatever the connection does; after one that
/// does, a lost connection is always reconnected.
pub proof fn law_reconnect_only_for_clients(kind: WifiConfigKind, connected: bool)
    ensures
        !connects(kind) ==> !spec_reconnects(WifiControl { stay_connected: connects(kind) }, connected)
            && !spec_command_steps(kind).contains(WifiStep::ConnectAndWait),
        connects(kind) && !connected ==> spec_reconnects(
            WifiControl { stay_connected: connects(kind) },
            connected,
        ),
{
    let s = spec_command_steps(kind);
    if !connects(kind) {
        assert forall|i: int| 0 <= i < s.len() implies s[i] != WifiStep::ConnectAndWait by {}
    }
}

} // verus!
