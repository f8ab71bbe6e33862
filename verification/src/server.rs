//! The server-side session coordinator: a registry of one `ClientConnection`
//! record per remote peer, keyed by the transport's client identifier, that
//! maps transport connect/disconnect notifications onto records and drives
//! the validation and kick flows. A disconnected record is marked, never
//! silently removed; reaping is the application's business.

use vstd::prelude::*;
use vstd::pervasive::VecAdditionalExecFns;
use crate::login::{LoginData, spec_login_from_bytes};
use crate::packet::{Packet, PacketContainer, PacketModel, spec_encode, spec_serialize};

verus! {

/// Server-side record tracking one remote peer's identity and lifecycle
/// state, independent of the transport's own bookkeeping.
#[derive(Clone, Copy, Debug)]
pub struct ClientConnection {
    client_id: u64,
    connected: bool,
}

/// Mathematical image of a [`ClientConnection`].
#[verifier::ext_equal]
pub struct ClientConnectionModel {
    pub client_id: u64,
    pub connected: bool,
}

impl View for ClientConnection {
    type V = ClientConnectionModel;

    closed spec fn view(&self) -> ClientConnectionModel {
        ClientConnectionModel { client_id: self.client_id, connected: self.connected }
    }
}

impl ClientConnection {
    /// A fresh record for a peer that just connected.
    pub fn new(client_id: u64) -> (r: ClientConnection)
        ensures
            r@ == (ClientConnectionModel { client_id, connected: true }),
    {
        ClientConnection { client_id, connected: true }
    }

    /// The stable client identifier assigned by the transport layer.
    pub fn client_id(&self) -> (r: u64)
        ensures
            r == self@.client_id,
    {
        self.client_id
    }

    /// Whether this peer is still connected.
    pub fn is_connected(&self) -> (r: bool)
        ensures
            r == self@.connected,
    {
        self.connected
    }

    /// Marks this record disconnected; identity is kept.
    pub fn disconnect(&mut self)
        ensures
            final(self)@ == (ClientConnectionModel {
                client_id: old(self)@.client_id,
                connected: false,
            }),
    {
        self.connected = false;
    }
}

/// Notification that a remote peer connected: its transport identifier, the
/// handle of its fresh registry record, and any login data decoded from the
/// handshake user-data.
#[derive(Debug)]
pub struct OnClientConnected {
    pub client_id: u64,
    pub handle: usize,
    pub login_data: Option<LoginData>,
}

/// Notification that a remote peer disconnected: its transport identifier
/// and the handle of its registry record.
#[derive(Clone, Copy, Debug)]
pub struct OnClientDisconnected {
    pub client_id: u64,
    pub handle: usize,
}

/// Intent to send one container to one connected peer.
#[derive(Debug)]
pub struct DoSendPacketToClient {
    pub packet: PacketContainer,
    pub client_id: u64,
}

/// Notification that one container arrived, tagged with the peer it came
/// from.
#[derive(Debug)]
pub struct OnReceivePacketFromClient {
    pub packet: PacketContainer,
    pub client_id: u64,
}

/// Intent to kick a peer: a courtesy reason, then a forced disconnect.
#[derive(Debug)]
pub struct DoKickPlayer {
    pub client_id: u64,
    pub reason: Vec<u8>,
}

/// Notification that a peer passed application-level validation.
#[derive(Clone, Copy, Debug)]
pub struct OnClientJoin {
    pub handle: usize,
}

/// Intent to tell a peer it is validated.
#[derive(Clone, Copy, Debug)]
pub struct DoValidateClient {
    pub client_id: u64,
}

/// Whether record `i` of `s` is a live record for peer `id`.
pub open spec fn is_connected_at(s: Seq<ClientConnectionModel>, i: int, id: u64) -> bool {
    0 <= i < s.len() && s[i].connected && s[i].client_id == id
}

/// Registry well-formedness: at most one live record per client identifier.
pub open spec fn registry_wf(s: Seq<ClientConnectionModel>) -> bool {
    forall|i: int, j: int|
        is_connected_at(s, i, #[trigger] s[i].client_id) && is_connected_at(
            s,
            j,
            #[trigger] s[j].client_id,
        ) && i != j ==> s[i].client_id != s[j].client_id
}

/// The set of client identifiers with a live record.
pub open spec fn connected_ids(s: Seq<ClientConnectionModel>) -> Set<u64>
    decreases s.len(),
{
    if s.len() == 0 {
        Set::empty()
    } else {
        let rest = connected_ids(s.drop_last());
        if s.last().connected {
            rest.insert(s.last().client_id)
        } else {
            rest
        }
    }
}

/// How many records are marked connected.
pub open spec fn connected_count(s: Seq<ClientConnectionModel>) -> nat
    decreases s.len(),
{
    if s.len() == 0 {
        0
    } else {
        connected_count(s.drop_last()) + if s.last().connected {
            1nat
        } else {
            0nat
        }
    }
}

/// `connected_ids` holds exactly the identifiers of live records.
pub proof fn lemma_connected_ids_contains(s: Seq<ClientConnectionModel>, id: u64)
    ensures
        connected_ids(s).contains(id) <==> exists|i: int| is_connected_at(s, i, id),
    decreases s.len(),
{
    if s.len() == 0 {
    } else {
        lemma_connected_ids_contains(s.drop_last(), id);
        if connected_ids(s).contains(id) {
            if s.last().connected && s.last().client_id == id {
                assert(is_connected_at(s, s.len() - 1, id));
            } else {
                let i = choose|i: int| is_connected_at(s.drop_last(), i, id);
                assert(is_connected_at(s, i, id));
            }
        }
        if exists|i: int| is_connected_at(s, i, id) {
            let i = choose|i: int| is_connected_at(s, i, id);
            if i == s.len() - 1 {
                assert(connected_ids(s).contains(id));
            } else {
                assert(is_connected_at(s.drop_last(), i, id));
            }
        }
    }
}

/// The set of live identifiers is finite.
pub proof fn lemma_connected_ids_finite(s: Seq<ClientConnectionModel>)
    ensures
        connected_ids(s).finite(),
    decreases s.len(),
{
    if s.len() == 0 {
    } else {
        lemma_connected_ids_finite(s.drop_last());
    }
}

/// A prefix of a well-formed registry is well-formed.
pub proof fn lemma_wf_drop_last(s: Seq<ClientConnectionModel>)
    requires
        registry_wf(s),
        s.len() > 0,
    ensures
        registry_wf(s.drop_last()),
{
    assert forall|i: int, j: int|
        is_connected_at(s.drop_last(), i, #[trigger] s.drop_last()[i].client_id)
            && is_connected_at(s.drop_last(), j, #[trigger] s.drop_last()[j].client_id) && i != j
        implies s.drop_last()[i].client_id != s.drop_last()[j].client_id by {
        assert(is_connected_at(s, i, s[i].client_id));
        assert(is_connected_at(s, j, s[j].client_id));
    }
}

/// In a well-formed registry, the count of live records is the number of
/// live identifiers.
pub proof fn lemma_count_is_cardinality(s: Seq<ClientConnectionModel>)
    requires
        registry_wf(s),
    ensures
        connected_count(s) == connected_ids(s).len(),
    decreases s.len(),
{
    broadcast use vstd::set::group_set_axioms;

    if s.len() == 0 {
        assert(connected_ids(s) =~= Set::<u64>::empty());
    } else {
        lemma_wf_drop_last(s);
        lemma_count_is_cardinality(s.drop_last());
        lemma_connected_ids_finite(s.drop_last());
        if s.last().connected {
            lemma_connected_ids_contains(s.drop_last(), s.last().client_id);
            assert forall|i: int| !is_connected_at(s.drop_last(), i, s.last().client_id) by {
                if is_connected_at(s.drop_last(), i, s.last().client_id) {
                    assert(is_connected_at(s, i, s[i].client_id));
                    assert(is_connected_at(s, s.len() - 1, s[s.len() - 1].client_id));
                }
            }
            assert(!connected_ids(s.drop_last()).contains(s.last().client_id));
        }
    }
}

/// Marking the (unique, in a well-formed registry) live record of peer `id`
/// disconnected; a registry without such a record is left as it is.
pub open spec fn spec_mark_disconnected(s: Seq<ClientConnectionModel>, id: u64) -> Seq<
    ClientConnectionModel,
> {
    if exists|i: int| is_connected_at(s, i, id) {
        let i = choose|i: int| is_connected_at(s, i, id);
        s.update(i, ClientConnectionModel { client_id: id, connected: false })
    } else {
        s
    }
}

/// Registering a fresh live record keeps the registry well-formed, adds the
/// identifier to the live set, and raises the live count by one.
pub proof fn lemma_connect_effects(s: Seq<ClientConnectionModel>, id: u64)
    requires
        registry_wf(s),
        !connected_ids(s).contains(id),
    ensures
        registry_wf(s.push(ClientConnectionModel { client_id: id, connected: true })),
        connected_ids(s.push(ClientConnectionModel { client_id: id, connected: true }))
            =~= connected_ids(s).insert(id),
        connected_count(s.push(ClientConnectionModel { client_id: id, connected: true }))
            == connected_count(s) + 1,
{
    let t = s.push(ClientConnectionModel { client_id: id, connected: true });
    assert(t.drop_last() =~= s);
    assert(t.drop_last() == s);
    lemma_connected_ids_contains(s, id);
    assert forall|i: int, j: int|
        is_connected_at(t, i, #[trigger] t[i].client_id) && is_connected_at(
            t,
            j,
            #[trigger] t[j].client_id,
        ) && i != j implies t[i].client_id != t[j].client_id by {
        if i < s.len() && j < s.len() {
            assert(is_connected_at(s, i, s[i].client_id));
            assert(is_connected_at(s, j, s[j].client_id));
        } else if i < s.len() {
            assert(is_connected_at(s, i, s[i].client_id));
        } else {
            assert(is_connected_at(s, j, s[j].client_id));
        }
    }
}

/// Marking the live record of a present identifier disconnected keeps the
/// registry well-formed, removes the identifier from the live set, and
/// lowers the live count by one.
pub proof fn lemma_mark_disconnected_effects(s: Seq<ClientConnectionModel>, id: u64)
    requires
        registry_wf(s),
        connected_ids(s).contains(id),
    ensures
        registry_wf(spec_mark_disconnected(s, id)),
        connected_ids(spec_mark_disconnected(s, id)) =~= connected_ids(s).remove(id),
        connected_count(spec_mark_disconnected(s, id)) + 1 == connected_count(s),
{
    broadcast use vstd::set::group_set_axioms;

    lemma_connected_ids_contains(s, id);
    let i = choose|i: int| is_connected_at(s, i, id);
    let t = s.update(i, ClientConnectionModel { client_id: id, connected: false });
    assert(spec_mark_disconnected(s, id) == t);
    assert forall|k: int, l: int|
        is_connected_at(t, k, #[trigger] t[k].client_id) && is_connected_at(
            t,
            l,
            #[trigger] t[l].client_id,
        ) && k != l implies t[k].client_id != t[l].client_id by {
        assert(is_connected_at(s, k, s[k].client_id));
        assert(is_connected_at(s, l, s[l].client_id));
    }
    assert forall|x: u64| connected_ids(t).contains(x) == connected_ids(s).remove(id).contains(x) by {
        lemma_connected_ids_contains(t, x);
        lemma_connected_ids_contains(s, x);
        if x == id {
            if connected_ids(t).contains(x) {
                let k = choose|k: int| is_connected_at(t, k, x);
                assert(is_connected_at(s, k, s[k].client_id));
                assert(is_connected_at(s, i, s[i].client_id));
                assert(false);
            }
        } else {
            if connected_ids(t).contains(x) {
                let k = choose|k: int| is_connected_at(t, k, x);
                assert(is_connected_at(s, k, x));
            }
            if connected_ids(s).contains(x) {
                let k = choose|k: int| is_connected_at(s, k, x);
                assert(is_connected_at(t, k, x));
            }
        }
    }
    assert(connected_ids(t) =~= connected_ids(s).remove(id));
    lemma_count_is_cardinality(s);
    lemma_count_is_cardinality(t);
    lemma_connected_ids_finite(s);
}

/// The server session coordinator's registry: one record per peer the
/// transport has ever reported connected, keyed by client identifier, with
/// the record's position as its stable handle.
#[derive(Debug)]
pub struct ClientRegistry {
    connections: Vec<ClientConnection>,
}

impl View for ClientRegistry {
    type V = Seq<ClientConnectionModel>;

    closed spec fn view(&self) -> Seq<ClientConnectionModel> {
        self.connections@.map_values(|c: ClientConnection| c@)
    }
}

impl ClientRegistry {
    /// An empty registry.
    pub fn new() -> (r: ClientRegistry)
        ensures
            r@ == Seq::<ClientConnectionModel>::empty(),
            registry_wf(r@),
    {
        let r = ClientRegistry { connections: Vec::new() };
        proof {
            assert(r@ =~= Seq::<ClientConnectionModel>::empty());
        }
        r
    }

    /// How many records the registry holds, live or not.
    pub fn len(&self) -> (r: usize)
        ensures
            r == self@.len(),
    {
        self.connections.len()
    }

    /// The record behind a handle.
    pub fn record(&self, handle: usize) -> (r: &ClientConnection)
        requires
            handle < self@.len(),
        ensures
            r@ == self@[handle as int],
    {
        &self.connections[handle]
    }

    /// How many records are marked connected.
    pub fn connected_client_count(&self) -> (r: usize)
        ensures
            r == connected_count(self@),
    {
        let mut count: usize = 0;
        let mut i: usize = 0;
        while i < self.connections.len()
            invariant
                i <= self@.len(),
                count <= i,
                count == connected_count(self@.take(i as int)),
            decreases self@.len() - i,
        {
            let ghost prefix = self@.take(i as int);
            if self.connections[i].is_connected() {
                count += 1;
            }
            i += 1;
            proof {
                assert(self@.take(i as int).drop_last() =~= prefix);
                assert(self@.take(i as int).last() == self@[i - 1]);
            }
        }
        proof {
            assert(self@.take(self@.len() as int) =~= self@);
        }
        count
    }

    /// Whether some record is live for this client identifier.
    pub fn has_live_client(&self, client_id: u64) -> (r: bool)
        ensures
            r == connected_ids(self@).contains(client_id),
    {
        let n = self.connections.len();
        let mut i: usize = 0;
        while i < n
            invariant
                i <= n,
                n == self@.len(),
                forall|j: int| 0 <= j < i ==> !is_connected_at(self@, j, client_id),
            decreases n - i,
        {
            if self.connections[i].is_connected() && self.connections[i].client_id() == client_id {
                proof {
                    lemma_connected_ids_contains(self@, client_id);
                    assert(is_connected_at(self@, i as int, client_id));
                }
                return true;
            }
            i += 1;
        }
        proof {
            lemma_connected_ids_contains(self@, client_id);
        }
        false
    }

    /// Handles the transport's connect notification for a fresh client
    /// identifier: creates a live record and reports its handle, together
    /// with any login data decoded from the handshake user-data. User-data
    /// that fails to decode is treated as no login data, not as an error:
    /// the connection proceeds unauthenticated.
    pub fn handle_client_connected(
        &mut self,
        client_id: u64,
        user_data: Option<&Vec<u8>>,
    ) -> (r: OnClientConnected)
        requires
            registry_wf(old(self)@),
            !connected_ids(old(self)@).contains(client_id),
        ensures
            final(self)@ == old(self)@.push(ClientConnectionModel { client_id, connected: true }),
            registry_wf(final(self)@),
            connected_ids(final(self)@) == connected_ids(old(self)@).insert(client_id),
            connected_count(final(self)@) == connected_count(old(self)@) + 1,
            r.client_id == client_id,
            r.handle == old(self)@.len(),
            match user_data {
                Some(b) => match r.login_data {
                    Some(d) => spec_login_from_bytes(b@) == Some(d@),
                    None => spec_login_from_bytes(b@) is None,
                },
                None => r.login_data is None,
            },
    {
        let login_data = match user_data {
            Some(b) => LoginData::from_bytes(b),
            None => None,
        };
        let handle = self.connections.len();
        self.connections.push(ClientConnection::new(client_id));
        proof {
            assert(self@ =~= old(self)@.push(
                ClientConnectionModel { client_id, connected: true },
            ));
            lemma_connect_effects(old(self)@, client_id);
        }
        OnClientConnected { client_id, handle, login_data }
    }

    /// Handles the transport's disconnect notification: locates the live
    /// record of that client identifier, marks it disconnected, and reports
    /// its handle. A disconnect for an identifier without a live record is a
    /// registry desynchronization, a programming invariant violation this
    /// handler refuses by precondition rather than absorbs.
    pub fn handle_client_disconnected(&mut self, client_id: u64) -> (r: OnClientDisconnected)
        requires
            registry_wf(old(self)@),
            connected_ids(old(self)@).contains(client_id),
        ensures
            final(self)@ == spec_mark_disconnected(old(self)@, client_id),
            registry_wf(final(self)@),
            connected_ids(final(self)@) == connected_ids(old(self)@).remove(client_id),
            connected_count(final(self)@) + 1 == connected_count(old(self)@),
            r.client_id == client_id,
            is_connected_at(old(self)@, r.handle as int, client_id),
    {
        proof {
            lemma_connected_ids_contains(self@, client_id);
        }
        let ghost s0 = self@;
        let n = self.connections.len();
        let mut i: usize = 0;
        while i < n
            invariant
                i <= n,
                n == s0.len(),
                s0 == old(self)@,
                registry_wf(s0),
                self@ == s0,
                self.connections@.len() == n,
                exists|k: int| is_connected_at(s0, k, client_id),
                forall|j: int| 0 <= j < i ==> !is_connected_at(s0, j, client_id),
            decreases n - i,
        {
            if self.connections[i].is_connected() && self.connections[i].client_id() == client_id {
                let mut rec = self.connections[i];
                rec.disconnect();
                self.connections.set(i, rec);
                proof {
                    assert(is_connected_at(s0, i as int, client_id));
                    let ci = choose|k: int| is_connected_at(s0, k, client_id);
                    assert(is_connected_at(s0, ci, s0[ci].client_id));
                    assert(is_connected_at(s0, i as int, s0[i as int].client_id));
                    assert(ci == i as int);
                    assert(self@ =~= s0.update(
                        i as int,
                        ClientConnectionModel { client_id, connected: false },
                    ));
                    assert(self@ == spec_mark_disconnected(s0, client_id));
                    lemma_connected_ids_contains(s0, client_id);
                    lemma_mark_disconnected_effects(s0, client_id);
                }
                return OnClientDisconnected { client_id, handle: i };
            }
            i += 1;
        }
        proof {
            let k = choose|k: int| is_connected_at(s0, k, client_id);
            assert(false);
        }
        unreached()
    }
}

/// Carrying out a kick intent: send these wire bytes to that client
/// identifier as a best-effort courtesy, then force the transport to
/// disconnect it. No acknowledgement is expected.
#[derive(Debug)]
pub struct KickDirective {
    pub client_id: u64,
    pub message: Vec<u8>,
}

/// Turns a kick intent into its directive: the serialized kick packet
/// carrying the human-readable reason, bound for the kicked client.
pub fn kick_player(intent: DoKickPlayer) -> (r: KickDirective)
    ensures
        r.client_id == intent.client_id,
        r.message@ == spec_serialize(spec_encode(PacketModel::Kick { reason: intent.reason@ })),
{
    let container = Packet::Kick { reason: intent.reason }.encode();
    let message = container.serialize();
    KickDirective { client_id: intent.client_id, message }
}

/// Turns a validation intent into the send intent for the designated
/// zero-payload handshake packet, the application-level "you are now
/// validated" signal.
pub fn validate_client_message(intent: &DoValidateClient) -> (r: DoSendPacketToClient)
    ensures
        r.client_id == intent.client_id,
        r.packet@ == spec_encode(PacketModel::Handshake),
{
    DoSendPacketToClient { packet: Packet::Handshake.encode(), client_id: intent.client_id }
}

/// A transport-level lifecycle notification, keyed by client identifier.
#[derive(Clone, Copy, Debug, PartialEq, Eq, Structural)]
pub enum ServerSignal {
    ClientConnected { client_id: u64 },
    ClientDisconnected { client_id: u64 },
}

/// The client identifiers the transport holds connected after a sequence of
/// its notifications.
pub open spec fn transport_ids_after(events: Seq<ServerSignal>) -> Set<u64>
    decreases events.len(),
{
    if events.len() == 0 {
        Set::empty()
    } else {
        let rest = transport_ids_after(events.drop_last());
        match events.last() {
            ServerSignal::ClientConnected { client_id } => rest.insert(client_id),
            ServerSignal::ClientDisconnected { client_id } => rest.remove(client_id),
        }
    }
}

/// Whether a notification sequence never desynchronizes: each connect is for
/// an identifier not currently connected, each disconnect for one that is.
pub open spec fn no_desync(events: Seq<ServerSignal>) -> bool
    decreases events.len(),
{
    if events.len() == 0 {
        true
    } else {
        no_desync(events.drop_last()) && match events.last() {
            ServerSignal::ClientConnected { client_id } => !transport_ids_after(
                events.drop_last(),
            ).contains(client_id),
            ServerSignal::ClientDisconnected { client_id } => transport_ids_after(
                events.drop_last(),
            ).contains(client_id),
        }
    }
}

/// The registry an empty coordinator reaches after handling a sequence of
/// transport notifications.
pub open spec fn registry_after(events: Seq<ServerSignal>) -> Seq<ClientConnectionModel>
    decreases events.len(),
{
    if events.len() == 0 {
        Seq::empty()
    } else {
        let rest = registry_after(events.drop_last());
        match events.last() {
            ServerSignal::ClientConnected { client_id } => rest.push(
                ClientConnectionModel { client_id, connected: true },
            ),
            ServerSignal::ClientDisconnected { client_id } => spec_mark_disconnected(
                rest,
                client_id,
            ),
        }
    }
}

/// Registry consistency: after any sequence of connect/disconnect
/// notifications with no desynchronization, the registry is well-formed, its
/// live identifiers are exactly the transport's currently-connected client
/// identifiers, and the number of records marked connected equals their
/// number.
pub proof fn lemma_registry_consistency(events: Seq<ServerSignal>)
    requires
        no_desync(events),
    ensures
        registry_wf(registry_after(events)),
        connected_ids(registry_after(events)) == transport_ids_after(events),
        connected_count(registry_after(events)) == transport_ids_after(events).len(),
    decreases events.len(),
{
    broadcast use vstd::set::group_set_axioms;

    if events.len() == 0 {
        assert(connected_ids(registry_after(events)) =~= transport_ids_after(events));
        assert(transport_ids_after(events) =~= Set::<u64>::empty());
    } else {
        lemma_registry_consistency(events.drop_last());
        let rest = registry_after(events.drop_last());
        lemma_connected_ids_finite(rest);
        match events.last() {
            ServerSignal::ClientConnected { client_id } => {
                lemma_connect_effects(rest, client_id);
                assert(connected_ids(registry_after(events)) =~= transport_ids_after(events));
            },
            ServerSignal::ClientDisconnected { client_id } => {
                lemma_mark_disconnected_effects(rest, client_id);
                assert(connected_ids(registry_after(events)) =~= transport_ids_after(events));
                lemma_count_is_cardinality(registry_after(events));
            },
        }
    }
}

} // verus!
