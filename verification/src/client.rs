//! The client-side session state machine. A single logical session moves
//! through `NotConnected -> Connecting -> Connected` and back, driven by
//! connect/disconnect intents and by transport signals. Every decision is a
//! pure step function here; performing transport work (resolving an address,
//! creating the transport client, disconnecting) is the caller's job, ordered
//! through the returned action.

use vstd::prelude::*;
use crate::login::{LoginData, LoginModel, spec_login_bytes};
use crate::packet::{PacketContainer, PacketKind, spec_decode};

verus! {

/// The client's connection state. Exactly one session is modeled at a time.
#[derive(Clone, Copy, Debug, PartialEq, Eq, Structural)]
pub enum NetworkState {
    NotConnected,
    Connecting,
    Connected,
}

/// A connect intent, after the target address has been looked up: whether
/// resolution succeeded, and the login data to attach to the handshake.
#[derive(Debug)]
pub struct ConnectRequest {
    pub address_resolved: bool,
    pub login_data: Option<LoginData>,
}

/// Mathematical image of a [`ConnectRequest`].
#[verifier::ext_equal]
pub struct ConnectRequestModel {
    pub address_resolved: bool,
    pub login_data: Option<LoginModel>,
}

impl View for ConnectRequest {
    type V = ConnectRequestModel;

    open spec fn view(&self) -> ConnectRequestModel {
        ConnectRequestModel {
            address_resolved: self.address_resolved,
            login_data: match self.login_data {
                Some(d) => Some(d@),
                None => None,
            },
        }
    }
}

/// One input to the state machine: an application intent or a transport
/// signal observed during the current polling cycle.
#[derive(Debug)]
pub enum ClientInput {
    /// A connect intent, with the outcome of address resolution.
    ConnectIntent(ConnectRequest),
    /// The transport reports the underlying link is established.
    TransportConnected,
    /// The transport reports the underlying link is gone.
    TransportDisconnected,
    /// An explicit application intent to disconnect.
    DisconnectIntent,
    /// Application shutdown: tear the session down without waiting.
    Shutdown,
}

/// Mathematical image of a [`ClientInput`].
#[verifier::ext_equal]
pub enum ClientInputModel {
    ConnectIntent(ConnectRequestModel),
    TransportConnected,
    TransportDisconnected,
    DisconnectIntent,
    Shutdown,
}

impl View for ClientInput {
    type V = ClientInputModel;

    open spec fn view(&self) -> ClientInputModel {
        match self {
            ClientInput::ConnectIntent(req) => ClientInputModel::ConnectIntent(req@),
            ClientInput::TransportConnected => ClientInputModel::TransportConnected,
            ClientInput::TransportDisconnected => ClientInputModel::TransportDisconnected,
            ClientInput::DisconnectIntent => ClientInputModel::DisconnectIntent,
            ClientInput::Shutdown => ClientInputModel::Shutdown,
        }
    }
}

/// A lifecycle notification surfaced to the application.
#[derive(Clone, Copy, Debug, PartialEq, Eq, Structural)]
pub enum ClientNotification {
    /// Address resolution failed, or the transport dropped mid-handshake.
    OnCouldNotConnectToServer,
    /// The transport handshake succeeded.
    OnConnectToServer,
    /// An established session ended.
    OnDisconnectFromServer,
    /// The application-level validation packet arrived.
    OnJoinedServer,
}

/// Transport work the caller must perform to carry out a step.
#[derive(Debug)]
pub enum ClientAction {
    /// Create a fresh transport client toward the resolved address, with
    /// these serialized login bytes attached as handshake user-data.
    CreateTransportClient { user_data: Option<Vec<u8>> },
    /// Tell the transport to disconnect, without waiting for confirmation.
    DisconnectTransport,
}

/// Mathematical image of a [`ClientAction`].
#[verifier::ext_equal]
pub enum ClientActionModel {
    CreateTransportClient { user_data: Option<Seq<u8>> },
    DisconnectTransport,
}

/// The image of an optional action.
pub open spec fn action_view(a: Option<ClientAction>) -> Option<ClientActionModel> {
    match a {
        Some(ClientAction::CreateTransportClient { user_data }) => Some(
            ClientActionModel::CreateTransportClient {
                user_data: match user_data {
                    Some(b) => Some(b@),
                    None => None,
                },
            },
        ),
        Some(ClientAction::DisconnectTransport) => Some(ClientActionModel::DisconnectTransport),
        None => None,
    }
}

/// The outcome of one step: the state after it, at most one lifecycle
/// notification, and at most one transport action.
#[derive(Debug)]
pub struct ClientStepResult {
    pub state: NetworkState,
    pub notification: Option<ClientNotification>,
    pub action: Option<ClientAction>,
}

/// The state after observing `i` in state `s`: the transition relation of
/// the session state machine. Every pair not listed is a no-op.
pub open spec fn spec_next_state(s: NetworkState, i: ClientInputModel) -> NetworkState {
    match (s, i) {
        (NetworkState::NotConnected, ClientInputModel::ConnectIntent(req)) => if req.address_resolved {
            NetworkState::Connecting
        } else {
            NetworkState::NotConnected
        },
        (NetworkState::Connecting, ClientInputModel::TransportConnected) => NetworkState::Connected,
        (NetworkState::Connecting, ClientInputModel::TransportDisconnected) => NetworkState::NotConnected,
        (NetworkState::Connecting, ClientInputModel::Shutdown) => NetworkState::NotConnected,
        (NetworkState::Connected, ClientInputModel::TransportDisconnected) => NetworkState::NotConnected,
        (NetworkState::Connected, ClientInputModel::DisconnectIntent) => NetworkState::NotConnected,
        (NetworkState::Connected, ClientInputModel::Shutdown) => NetworkState::NotConnected,
        _ => s,
    }
}

/// The notification a step emits. A transport disconnect is disambiguated by
/// the state it arrives in: mid-handshake it means the connection attempt
/// failed, after establishment it means the session ended. Shutdown emits
/// nothing: exit is not narrated.
pub open spec fn spec_step_notification(s: NetworkState, i: ClientInputModel) -> Option<
    ClientNotification,
> {
    match (s, i) {
        (NetworkState::NotConnected, ClientInputModel::ConnectIntent(req)) => if req.address_resolved {
            None
        } else {
            Some(ClientNotification::OnCouldNotConnectToServer)
        },
        (NetworkState::Connecting, ClientInputModel::TransportConnected) => Some(
            ClientNotification::OnConnectToServer,
        ),
        (NetworkState::Connecting, ClientInputModel::TransportDisconnected) => Some(
            ClientNotification::OnCouldNotConnectToServer,
        ),
        (NetworkState::Connected, ClientInputModel::TransportDisconnected) => Some(
            ClientNotification::OnDisconnectFromServer,
        ),
        (NetworkState::Connected, ClientInputModel::DisconnectIntent) => Some(
            ClientNotification::OnDisconnectFromServer,
        ),
        _ => None,
    }
}

/// The serialized handshake user-data of an optional login.
pub open spec fn spec_user_data(login: Option<LoginModel>) -> Option<Seq<u8>> {
    match login {
        Some(m) => Some(spec_login_bytes(m)),
        None => None,
    }
}

/// The transport action a step orders. A fresh transport client is created
/// on a resolved connect intent only; an explicit disconnect intent or a
/// shutdown tears the transport down (a transport-reported disconnect needs
/// no action: the link is already gone).
pub open spec fn spec_step_action(s: NetworkState, i: ClientInputModel) -> Option<
    ClientActionModel,
> {
    match (s, i) {
        (NetworkState::NotConnected, ClientInputModel::ConnectIntent(req)) => if req.address_resolved {
            Some(ClientActionModel::CreateTransportClient { user_data: spec_user_data(req.login_data) })
        } else {
            None
        },
        (NetworkState::Connecting, ClientInputModel::Shutdown) => Some(
            ClientActionModel::DisconnectTransport,
        ),
        (NetworkState::Connected, ClientInputModel::DisconnectIntent) => Some(
            ClientActionModel::DisconnectTransport,
        ),
        (NetworkState::Connected, ClientInputModel::Shutdown) => Some(
            ClientActionModel::DisconnectTransport,
        ),
        _ => None,
    }
}

/// Observes one input in state `state` and returns the state after it, the
/// notification to surface, and the transport work to perform.
pub fn client_step(state: NetworkState, input: ClientInput) -> (r: ClientStepResult)
    ensures
        r.state == spec_next_state(state, input@),
        r.notification == spec_step_notification(state, input@),
        action_view(r.action) == spec_step_action(state, input@),
{
    match (state, input) {
        (NetworkState::NotConnected, ClientInput::ConnectIntent(req)) => {
            if req.address_resolved {
                let user_data = match req.login_data {
                    Some(d) => Some(d.as_bytes()),
                    None => None,
                };
                ClientStepResult {
                    state: NetworkState::Connecting,
                    notification: None,
                    action: Some(ClientAction::CreateTransportClient { user_data }),
                }
            } else {
                ClientStepResult {
                    state: NetworkState::NotConnected,
                    notification: Some(ClientNotification::OnCouldNotConnectToServer),
                    action: None,
                }
            }
        },
        (NetworkState::Connecting, ClientInput::TransportConnected) => ClientStepResult {
            state: NetworkState::Connected,
            notification: Some(ClientNotification::OnConnectToServer),
            action: None,
        },
        (NetworkState::Connecting, ClientInput::TransportDisconnected) => ClientStepResult {
            state: NetworkState::NotConnected,
            notification: Some(ClientNotification::OnCouldNotConnectToServer),
            action: None,
        },
        (NetworkState::Connecting, ClientInput::Shutdown) => ClientStepResult {
            state: NetworkState::NotConnected,
            notification: None,
            action: Some(ClientAction::DisconnectTransport),
        },
        (NetworkState::Connected, ClientInput::TransportDisconnected) => ClientStepResult {
            state: NetworkState::NotConnected,
            notification: Some(ClientNotification::OnDisconnectFromServer),
            action: None,
        },
        (NetworkState::Connected, ClientInput::DisconnectIntent) => ClientStepResult {
            state: NetworkState::NotConnected,
            notification: Some(ClientNotification::OnDisconnectFromServer),
            action: Some(ClientAction::DisconnectTransport),
        },
        (NetworkState::Connected, ClientInput::Shutdown) => ClientStepResult {
            state: NetworkState::NotConnected,
            notification: None,
            action: Some(ClientAction::DisconnectTransport),
        },
        (s, _) => ClientStepResult { state: s, notification: None, action: None },
    }
}

/// The outcome of draining the connect-intent queue for one polling cycle.
#[verifier::ext_equal]
pub struct ConnectTickModel {
    pub state: NetworkState,
    pub notification: Option<ClientNotification>,
    pub action: Option<ClientActionModel>,
    pub deferred: Seq<ConnectRequestModel>,
}

/// Draining the connect-intent queue for one tick: in `NotConnected`, the
/// first queued intent is processed and the rest stay pending for a later
/// tick; in any other state nothing is processed and everything stays
/// pending. At most one intent is ever drained per tick.
pub open spec fn spec_process_connect_intents(
    state: NetworkState,
    intents: Seq<ConnectRequestModel>,
) -> ConnectTickModel {
    if state == NetworkState::NotConnected && intents.len() > 0 {
        ConnectTickModel {
            state: spec_next_state(state, ClientInputModel::ConnectIntent(intents[0])),
            notification: spec_step_notification(state, ClientInputModel::ConnectIntent(intents[0])),
            action: spec_step_action(state, ClientInputModel::ConnectIntent(intents[0])),
            deferred: intents.skip(1),
        }
    } else {
        ConnectTickModel { state, notification: None, action: None, deferred: intents }
    }
}

/// The image of a queue of connect requests.
pub open spec fn requests_view(s: Seq<ConnectRequest>) -> Seq<ConnectRequestModel> {
    s.map_values(|r: ConnectRequest| r@)
}

/// Drains the connect-intent queue for one polling cycle, honoring at most
/// one intent, and returns the step outcome together with the intents that
/// stay pending.
pub fn process_connect_intents(state: NetworkState, intents: Vec<ConnectRequest>) -> (r: (
    ClientStepResult,
    Vec<ConnectRequest>,
))
    ensures
        ({
            let t = spec_process_connect_intents(state, requests_view(intents@));
            &&& r.0.state == t.state
            &&& r.0.notification == t.notification
            &&& action_view(r.0.action) == t.action
            &&& requests_view(r.1@) == t.deferred
        }),
{
    let ghost t = spec_process_connect_intents(state, requests_view(intents@));
    if !matches!(state, NetworkState::NotConnected) || intents.len() == 0 {
        proof {
            assert(requests_view(intents@) =~= t.deferred);
        }
        return (ClientStepResult { state, notification: None, action: None }, intents);
    }
    let mut rest = intents;
    let first = rest.remove(0);
    let step = client_step(state, ClientInput::ConnectIntent(first));
    proof {
        assert(requests_view(rest@) =~= t.deferred);
    }
    (step, rest)
}

/// Watches one polling cycle's received containers for the application-level
/// validation signal: true exactly when some received container narrows to
/// the handshake packet, the seam between transport-level connectivity and
/// application-level readiness.
pub fn wait_for_validation(packets: &Vec<PacketContainer>) -> (joined: bool)
    ensures
        joined == exists|i: int|
            0 <= i < packets@.len() && spec_decode(PacketKind::Handshake, packets@[i]@) is Some,
{
    let mut k: usize = 0;
    while k < packets.len()
        invariant
            k <= packets@.len(),
            forall|i: int|
                0 <= i < k ==> !(spec_decode(PacketKind::Handshake, packets@[i]@) is Some),
        decreases packets@.len() - k,
    {
        if packets[k].decode(PacketKind::Handshake).is_some() {
            return true;
        }
        k += 1;
    }
    false
}

/// State machine totality: in each state, only that state's listed inputs
/// cause a transition; every other input leaves the state, emits nothing and
/// orders nothing. From `NotConnected` only a connect intent does anything;
/// from `Connecting` only the transport's connect/disconnect signals and a
/// shutdown; from `Connected` only a disconnect signal, a disconnect intent
/// or a shutdown.
pub proof fn lemma_state_machine_totality(s: NetworkState, i: ClientInputModel)
    ensures
        s == NetworkState::NotConnected && !(i is ConnectIntent) ==> spec_next_state(s, i) == s
            && spec_step_notification(s, i) is None && spec_step_action(s, i) is None,
        s == NetworkState::Connecting && !(i is TransportConnected) && !(i is TransportDisconnected)
            && !(i is Shutdown) ==> spec_next_state(s, i) == s && spec_step_notification(s, i) is None
            && spec_step_action(s, i) is None,
        s == NetworkState::Connected && !(i is TransportDisconnected) && !(i is DisconnectIntent)
            && !(i is Shutdown) ==> spec_next_state(s, i) == s && spec_step_notification(s, i) is None
            && spec_step_action(s, i) is None,
{
}

/// How many transport clients one tick's outcome creates.
pub open spec fn spec_clients_created(t: ConnectTickModel) -> nat {
    if t.action matches Some(ClientActionModel::CreateTransportClient { .. }) {
        1
    } else {
        0
    }
}

/// At-most-one-in-flight: a tick never creates more than one transport
/// client, however many connect intents are queued; and two intents issued
/// within the same tick in `NotConnected` with the first one resolvable
/// create exactly one, the second staying pending for a later tick.
pub proof fn lemma_at_most_one_in_flight(state: NetworkState, intents: Seq<ConnectRequestModel>)
    ensures
        spec_clients_created(spec_process_connect_intents(state, intents)) <= 1,
        state == NetworkState::NotConnected && intents.len() >= 2 && intents[0].address_resolved
            ==> spec_clients_created(spec_process_connect_intents(state, intents)) == 1
            && spec_process_connect_intents(state, intents).deferred == intents.skip(1),
{
}

/// Disconnect disambiguation: a transport disconnect delivered in
/// `Connecting` yields exactly the could-not-connect notification and no
/// disconnect notification; the same signal delivered in `Connected` yields
/// the reverse. The two outcomes are mutually exclusive.
pub proof fn lemma_disconnect_disambiguation()
    ensures
        spec_step_notification(NetworkState::Connecting, ClientInputModel::TransportDisconnected)
            == Some(ClientNotification::OnCouldNotConnectToServer),
        spec_step_notification(NetworkState::Connected, ClientInputModel::TransportDisconnected)
            == Some(ClientNotification::OnDisconnectFromServer),
{
}

} // verus!
