use vstd::prelude::*;

use crate::battery::BatteryState;
use crate::valve::{ValveCommand, ValveState};
use crate::water_meter::{WaterMeterCommand, WaterMeterState};

verus! {

/// The most characters of a user name or a password.
pub const USERNAME_MAX_LEN: usize = 32;

/// The most characters of a password.
pub const PASSWORD_MAX_LEN: usize = 32;

/// What a web client may do: nothing, use the device, or administer it.
#[derive(Copy, Clone, Debug, PartialEq, Eq, Structural)]
pub enum Role {
    Anonymous,
    User,
    Admin,
}

/// The rank of a role: each role may do what the roles below it may.
pub open spec fn spec_rank(role: Role) -> int {
    match role {
        Role::Anonymous => 0,
        Role::User => 1,
        Role::Admin => 2,
    }
}

/// Whether a client with role `held` may do what needs role `needed`.
pub open spec fn spec_allows(needed: Role, held: Role) -> bool {
    spec_rank(needed) <= spec_rank(held)
}

/// Whether a client with role `held` may do what needs role `needed`.
pub fn allows(needed: Role, held: Role) -> (b: bool)
    ensures
        b == spec_allows(needed, held),
{
    let n: u8 = match needed {
        Role::Anonymous => 0,
        Role::User => 1,
        Role::Admin => 2,
    };
    let h: u8 = match held {
        Role::Anonymous => 0,
        Role::User => 1,
        Role::Admin => 2,
    };
    n <= h
}

/// A request of a web client.
#[derive(Clone, Debug)]
pub enum WebRequest {
    Authenticate(String, String),
    Logout,
    ValveCommand(ValveCommand),
    WaterMeterCommand(WaterMeterCommand),
}

/// The role a request needs.
pub open spec fn spec_request_role(request: WebRequest) -> Role {
    match request {
        WebRequest::Authenticate(_, _) => Role::Anonymous,
        WebRequest::Logout => Role::Anonymous,
        WebRequest::ValveCommand(_) => Role::User,
        WebRequest::WaterMeterCommand(_) => Role::User,
    }
}

impl WebRequest {
    /// The role a request needs: anyone may log in and out; commands need a user.
    pub fn role(&self) -> (r: Role)
        ensures
            r == spec_request_role(*self),
    {
        match self {
            WebRequest::Authenticate(_, _) => Role::Anonymous,
            WebRequest::Logout => Role::Anonymous,
            WebRequest::ValveCommand(_) => Role::User,
            WebRequest::WaterMeterCommand(_) => Role::User,
        }
    }
}

/// An event sent to a web client.
#[derive(Copy, Clone, Debug, PartialEq, Eq, Structural)]
pub enum WebEvent {
    NoPermissions,
    AuthenticationFailed,
    RoleState(Role),
    ValveState(Option<ValveState>),
    WaterMeterState(WaterMeterState),
    BatteryState(BatteryState),
}

/// The role a client needs to be sent an event.
pub open spec fn spec_event_role(event: WebEvent) -> Role {
    match event {
        WebEvent::NoPermissions => Role::Anonymous,
        WebEvent::AuthenticationFailed => Role::Anonymous,
        WebEvent::RoleState(_) => Role::Anonymous,
        WebEvent::ValveState(_) => Role::User,
        WebEvent::WaterMeterState(_) => Role::User,
        WebEvent::BatteryState(_) => Role::User,
    }
}

impl WebEvent {
    /// The role a client needs to be sent an event: news of the
    /// authentication goes to anyone, device states to users.
    pub fn role(&self) -> (r: Role)
        ensures
            r == spec_event_role(*self),
    {
        match self {
            WebEvent::NoPermissions => Role::Anonymous,
            WebEvent::AuthenticationFailed => Role::Anonymous,
            WebEvent::RoleState(_) => Role::Anonymous,
            WebEvent::ValveState(_) => Role::User,
            WebEvent::WaterMeterState(_) => Role::User,
            WebEvent::BatteryState(_) => Role::User,
        }
    }
}

/// A change of the authentication of a client.
#[derive(Copy, Clone, Debug, PartialEq, Eq, Structural)]
pub enum AuthEvent {
    Connected,
    Authenticated(Role),
    AuthenticationFailed,
    LoggedOut,
}

/// The role a client holds after an authentication change.
pub open spec fn spec_auth_role(event: AuthEvent) -> Role {
    match event {
        AuthEvent::Authenticated(role) => role,
        _ => Role::Anonymous,
    }
}

impl AuthEvent {
    /// The role a client holds after it: the one it authenticated with, else none.
    pub fn role(&self) -> (r: Role)
        ensures
            r == spec_auth_role(*self),
    {
        match self {
            AuthEvent::Authenticated(role) => *role,
            _ => Role::Anonymous,
        }
    }
}

/// The role that a user name and password grant. Every login is granted
/// the administrator role.
pub fn authenticate(username: &str, password: &str) -> (r: Option<Role>)
    ensures
        r == Some(Role::Admin),
{
    Some(Role::Admin)
}

/// What the web task does with a request of a client holding `role`.
#[derive(Copy, Clone, Debug, PartialEq, Eq, Structural)]
pub struct RequestAction {
    pub valve: Option<ValveCommand>,
    pub water_meter: Option<WaterMeterCommand>,
    pub auth: Option<AuthEvent>,
}

/// What the web task does with a request of a client holding `role`.
pub open spec fn spec_request_action(request: WebRequest, role: Role) -> RequestAction {
    if spec_allows(spec_request_role(request), role) {
        match request {
            WebRequest::ValveCommand(c) => RequestAction { valve: Some(c), water_meter: None, auth: None },
            WebRequest::WaterMeterCommand(c) => RequestAction {
                valve: None,
                water_meter: Some(c),
                auth: None,
            },
            WebRequest::Authenticate(_, _) => RequestAction {
                valve: None,
                water_meter: None,
                auth: Some(AuthEvent::Authenticated(Role::Admin)),
            },
            WebRequest::Logout => RequestAction { valve: None, water_meter: None, auth: Some(AuthEvent::LoggedOut) },
        }
    } else {
        RequestAction { valve: None, water_meter: None, auth: None }
    }
}

/// What the web task does with a request of a client holding `role`: a
/// request the role does not allow is dropped; commands go to the valve and
/// the meter; logging in and out changes the role of the client.
pub fn request_action(request: &WebRequest, role: Role) -> (a: RequestAction)
    ensures
        a == spec_request_action(*request, role),
{
    if allows(request.role(), role) {
        match request {
            WebRequest::ValveCommand(c) => RequestAction { valve: Some(*c), water_meter: None, auth: None },
            WebRequest::WaterMeterCommand(c) => RequestAction {
                valve: None,
                water_meter: Some(*c),
                auth: None,
            },
            WebRequest::Authenticate(username, password) => {
                let auth = match authenticate(username.as_str(), password.as_str()) {
                    Some(new_role) => AuthEvent::Authenticated(new_role),
                    None => AuthEvent::AuthenticationFailed,
                };
                RequestAction { valve: None, water_meter: None, auth: Some(auth) }
            },
            WebRequest::Logout => RequestAction { valve: None, water_meter: None, auth: Some(AuthEvent::LoggedOut) },
        }
    } else {
        RequestAction { valve: None, water_meter: None, auth: None }
    }
}

/// Whether an event goes out to a client holding `role`.
pub fn may_send(event: &WebEvent, role: Role) -> (b: bool)
    ensures
        b == spec_allows(spec_event_role(*event), role),
{
    allows(event.role(), role)
}

/// The events an authentication change sends, in order, to a client that
/// holds the role it gives: the new role, or the failure, then the states
/// of the valve, the meter and the battery, each where the role allows it.
pub open spec fn spec_auth_events(
    event: AuthEvent,
    valve: Option<ValveState>,
    wm: WaterMeterState,
    battery: BatteryState,
) -> Seq<WebEvent> {
    let role = spec_auth_role(event);
    let first = match event {
        AuthEvent::Authenticated(r) => WebEvent::RoleState(r),
        AuthEvent::AuthenticationFailed => WebEvent::AuthenticationFailed,
        _ => WebEvent::RoleState(Role::Anonymous),
    };
    seq![first, WebEvent::ValveState(valve), WebEvent::WaterMeterState(wm), WebEvent::BatteryState(battery)].filter(
        |e: WebEvent| spec_allows(spec_event_role(e), role),
    )
}

/// The events an authentication change sends, in order.
pub fn auth_events(
    event: AuthEvent,
    valve: Option<ValveState>,
    wm: WaterMeterState,
    battery: BatteryState,
) -> (es: Vec<WebEvent>)
    ensures
        es@ == spec_auth_events(event, valve, wm, battery),
{
    let role = event.role();
    let first = match event {
        AuthEvent::Authenticated(r) => WebEvent::RoleState(r),
        AuthEvent::AuthenticationFailed => WebEvent::AuthenticationFailed,
        _ => WebEvent::RoleState(Role::Anonymous),
    };
    let all = [first, WebEvent::ValveState(valve), WebEvent::WaterMeterState(wm), WebEvent::BatteryState(battery)];
    let ghost pred = |e: WebEvent| spec_allows(spec_event_role(e), role);
    let mut es: Vec<WebEvent> = Vec::new();
    let mut i: usize = 0;
    assert(all@ =~= seq![first, WebEvent::ValveState(valve), WebEvent::WaterMeterState(wm), WebEvent::BatteryState(battery)]);
    while i < 4
        invariant
            0 <= i <= 4,
            all@.len() == 4,
            role == spec_auth_role(event),
            pred == (|e: WebEvent| spec_allows(spec_event_role(e), role)),
            es@ == all@.subrange(0, i as int).filter(pred),
        decreases 4 - i,
    {
        let e = all[i];
        proof {
            reveal_with_fuel(Seq::<_>::filter, 1);
            assert(all@.subrange(0, i as int + 1).drop_last() =~= all@.subrange(0, i as int));
        }
        if may_send(&e, role) {
            es.push(e);
        }
        i = i + 1;
    }
    assert(all@.subrange(0, 4) =~= all@);
    es
}

/// Law: a client that has not authenticated is never sent a device state,
/// and its commands are never carried out.
pub proof fn law_unauthenticated_sees_no_state(event: WebEvent, request: WebRequest)
    requires
        !(request is Authenticate),
        !(request is Logout),
    ensures
        event is ValveState || event is WaterMeterState || event is BatteryState ==> !spec_allows(
            spec_event_role(event),
            Role::Anonymous,
        ),
        spec_request_action(request, Role::Anonymous) == (RequestAction {
            valve: None,
            water_meter: None,
            auth: None,
        }),
{
}

/// Law: logging out, or a failed login, leaves the client without a role;
/// it is then told so, and sent no device state.
pub proof fn law_logout_drops_role(valve: Option<ValveState>, wm: WaterMeterState, battery: BatteryState)
    ensures
        spec_auth_role(AuthEvent::LoggedOut) == Role::Anonymous,
        spec_auth_events(AuthEvent::LoggedOut, valve, wm, battery) == seq![WebEvent::RoleState(Role::Anonymous)],
        spec_auth_events(AuthEvent::AuthenticationFailed, valve, wm, battery) == seq![WebEvent::AuthenticationFailed],
{
    let pred = |e: WebEvent| spec_allows(spec_event_role(e), Role::Anonymous);
    let s1 = seq![WebEvent::RoleState(Role::Anonymous), WebEvent::ValveState(valve), WebEvent::WaterMeterState(wm), WebEvent::BatteryState(battery)];
    reveal_with_fuel(Seq::<_>::filter, 5);
    assert(s1.drop_last().drop_last().drop_last().drop_last() =~= Seq::<WebEvent>::empty());
    assert(s1.filter(pred) =~= seq![WebEvent::RoleState(Role::Anonymous)]);
    let s2 = seq![WebEvent::AuthenticationFailed, WebEvent::ValveState(valve), WebEvent::WaterMeterState(wm), WebEvent::BatteryState(battery)];
    assert(s2.drop_last().drop_last().drop_last().drop_last() =~= Seq::<WebEvent>::empty());
    assert(s2.filter(pred) =~= seq![WebEvent::AuthenticationFailed]);
}

} // verus!
