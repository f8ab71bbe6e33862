//! The typed packet container protocol: a self-describing envelope that
//! carries any supported application message as (kind discriminant, payload
//! bytes), so a receiver can reconstruct the concrete message without knowing
//! ahead of time which kind is coming. Narrowing a container by the wrong
//! kind fails cleanly; an unknown discriminant on the wire is rejected.

use vstd::prelude::*;

verus! {

/// Discriminant identifying the concrete application packet kind.
#[derive(Clone, Copy, Debug, PartialEq, Eq, Structural)]
pub enum PacketKind {
    /// Application-level validation signal; carries no payload.
    Handshake,
    /// Courtesy notice that the peer is being disconnected; the payload is
    /// the human-readable reason, as bytes.
    Kick,
    /// An opaque application message.
    Message,
}

/// A typed application packet: the pre-serialization form of a container.
#[derive(Debug)]
pub enum Packet {
    Handshake,
    Kick { reason: Vec<u8> },
    Message { data: Vec<u8> },
}

/// Mathematical image of a [`Packet`]: its kind and payload bytes.
#[verifier::ext_equal]
pub enum PacketModel {
    Handshake,
    Kick { reason: Seq<u8> },
    Message { data: Seq<u8> },
}

/// The envelope that travels over the wire: a kind discriminant plus the
/// serialized payload bytes of a packet of that kind.
#[derive(Debug)]
pub struct PacketContainer {
    pub kind: PacketKind,
    pub payload: Vec<u8>,
}

/// Mathematical image of a [`PacketContainer`].
#[verifier::ext_equal]
pub struct ContainerModel {
    pub kind: PacketKind,
    pub payload: Seq<u8>,
}

impl View for Packet {
    type V = PacketModel;

    open spec fn view(&self) -> PacketModel {
        match self {
            Packet::Handshake => PacketModel::Handshake,
            Packet::Kick { reason } => PacketModel::Kick { reason: reason@ },
            Packet::Message { data } => PacketModel::Message { data: data@ },
        }
    }
}

impl View for PacketContainer {
    type V = ContainerModel;

    open spec fn view(&self) -> ContainerModel {
        ContainerModel { kind: self.kind, payload: self.payload@ }
    }
}

/// The kind discriminant of a packet.
pub open spec fn kind_of(p: PacketModel) -> PacketKind {
    match p {
        PacketModel::Handshake => PacketKind::Handshake,
        PacketModel::Kick { .. } => PacketKind::Kick,
        PacketModel::Message { .. } => PacketKind::Message,
    }
}

/// The serialized payload bytes of a packet.
pub open spec fn payload_of(p: PacketModel) -> Seq<u8> {
    match p {
        PacketModel::Handshake => Seq::empty(),
        PacketModel::Kick { reason } => reason,
        PacketModel::Message { data } => data,
    }
}

/// Whether `payload` is a well-formed payload for a packet of kind `kind`.
/// The handshake packet is the designated zero-payload validation signal.
pub open spec fn payload_wf(kind: PacketKind, payload: Seq<u8>) -> bool {
    kind == PacketKind::Handshake ==> payload.len() == 0
}

/// Packing a typed packet into its container.
pub open spec fn spec_encode(p: PacketModel) -> ContainerModel {
    ContainerModel { kind: kind_of(p), payload: payload_of(p) }
}

/// Narrowing a container by kind `kind`: succeeds exactly when the container
/// carries that kind with a well-formed payload, and then reconstructs the
/// typed packet from the payload bytes.
pub open spec fn spec_decode(kind: PacketKind, c: ContainerModel) -> Option<PacketModel> {
    if c.kind == kind && payload_wf(kind, c.payload) {
        Some(
            match kind {
                PacketKind::Handshake => PacketModel::Handshake,
                PacketKind::Kick => PacketModel::Kick { reason: c.payload },
                PacketKind::Message => PacketModel::Message { data: c.payload },
            },
        )
    } else {
        None
    }
}

/// The wire byte standing for each packet kind.
pub open spec fn kind_byte(kind: PacketKind) -> u8 {
    match kind {
        PacketKind::Handshake => 0,
        PacketKind::Kick => 1,
        PacketKind::Message => 2,
    }
}

/// The packet kind a wire byte stands for; unknown discriminants have none.
pub open spec fn byte_kind(b: u8) -> Option<PacketKind> {
    if b == 0 {
        Some(PacketKind::Handshake)
    } else if b == 1 {
        Some(PacketKind::Kick)
    } else if b == 2 {
        Some(PacketKind::Message)
    } else {
        None
    }
}

/// A container on the wire: its kind byte followed by its payload bytes.
pub open spec fn spec_serialize(c: ContainerModel) -> Seq<u8> {
    seq![kind_byte(c.kind)] + c.payload
}

/// Reading a container back off the wire: the first byte names the kind
/// (an unknown or missing discriminant fails), the rest is the payload.
pub open spec fn spec_deserialize(bytes: Seq<u8>) -> Option<ContainerModel> {
    if bytes.len() == 0 {
        None
    } else {
        match byte_kind(bytes[0]) {
            Some(kind) => Some(ContainerModel { kind, payload: bytes.skip(1) }),
            None => None,
        }
    }
}

/// Byte-for-byte copy of a byte vector.
fn copy_bytes(src: &Vec<u8>) -> (r: Vec<u8>)
    ensures
        r@ == src@,
{
    let mut out: Vec<u8> = Vec::new();
    let mut i: usize = 0;
    while i < src.len()
        invariant
            i <= src.len(),
            out@ == src@.take(i as int),
        decreases src.len() - i,
    {
        out.push(src[i]);
        i += 1;
        proof {
            assert(out@ =~= src@.take(i as int));
        }
    }
    proof {
        assert(out@ =~= src@);
    }
    out
}

impl Packet {
    /// The kind discriminant of this packet.
    pub fn kind(&self) -> (k: PacketKind)
        ensures
            k == kind_of(self@),
    {
        match self {
            Packet::Handshake => PacketKind::Handshake,
            Packet::Kick { .. } => PacketKind::Kick,
            Packet::Message { .. } => PacketKind::Message,
        }
    }

    /// Packs this packet into a self-describing container, tagging the
    /// serialized payload with the packet's kind. Total and deterministic.
    pub fn encode(&self) -> (c: PacketContainer)
        ensures
            c@ == spec_encode(self@),
    {
        match self {
            Packet::Handshake => PacketContainer { kind: PacketKind::Handshake, payload: Vec::new() },
            Packet::Kick { reason } => PacketContainer {
                kind: PacketKind::Kick,
                payload: copy_bytes(reason),
            },
            Packet::Message { data } => PacketContainer {
                kind: PacketKind::Message,
                payload: copy_bytes(data),
            },
        }
    }
}

/// The wire byte for `kind`.
pub fn kind_to_byte(kind: PacketKind) -> (b: u8)
    ensures
        b == kind_byte(kind),
{
    match kind {
        PacketKind::Handshake => 0,
        PacketKind::Kick => 1,
        PacketKind::Message => 2,
    }
}

/// The kind named by wire byte `b`, if any.
pub fn byte_to_kind(b: u8) -> (k: Option<PacketKind>)
    ensures
        k == byte_kind(b),
{
    if b == 0 {
        Some(PacketKind::Handshake)
    } else if b == 1 {
        Some(PacketKind::Kick)
    } else if b == 2 {
        Some(PacketKind::Message)
    } else {
        None
    }
}

impl PacketContainer {
    /// Narrows this container by `kind`, reconstructing the typed packet.
    /// Fails cleanly (returns `None`) when the container carries a different
    /// kind, rather than producing garbage.
    pub fn decode(&self, kind: PacketKind) -> (r: Option<Packet>)
        ensures
            match r {
                Some(p) => spec_decode(kind, self@) == Some(p@),
                None => spec_decode(kind, self@) is None,
            },
    {
        if self.kind != kind {
            return None;
        }
        match kind {
            PacketKind::Handshake => {
                if self.payload.len() == 0 {
                    Some(Packet::Handshake)
                } else {
                    None
                }
            },
            PacketKind::Kick => Some(Packet::Kick { reason: copy_bytes(&self.payload) }),
            PacketKind::Message => Some(Packet::Message { data: copy_bytes(&self.payload) }),
        }
    }

    /// Serializes this container to wire bytes: the kind byte, then the
    /// payload. Total and deterministic.
    pub fn serialize(&self) -> (bytes: Vec<u8>)
        ensures
            bytes@ == spec_serialize(self@),
    {
        let mut out: Vec<u8> = Vec::new();
        out.push(kind_to_byte(self.kind));
        let mut i: usize = 0;
        while i < self.payload.len()
            invariant
                i <= self.payload.len(),
                out@ == seq![kind_byte(self.kind)] + self.payload@.take(i as int),
            decreases self.payload.len() - i,
        {
            out.push(self.payload[i]);
            i += 1;
            proof {
                assert(out@ =~= seq![kind_byte(self.kind)] + self.payload@.take(i as int));
            }
        }
        proof {
            assert(self.payload@.take(self.payload@.len() as int) =~= self.payload@);
            assert(out@ =~= spec_serialize(self@));
        }
        out
    }

    /// Reads a container back off the wire. Returns `None` on an empty
    /// message or an unknown kind discriminant, so one malformed message is
    /// dropped without affecting any other.
    pub fn deserialize(bytes: &Vec<u8>) -> (r: Option<PacketContainer>)
        ensures
            match r {
                Some(c) => spec_deserialize(bytes@) == Some(c@),
                None => spec_deserialize(bytes@) is None,
            },
    {
        if bytes.len() == 0 {
            return None;
        }
        let kind = match byte_to_kind(bytes[0]) {
            Some(kind) => kind,
            None => {
                return None;
            },
        };
        let mut payload: Vec<u8> = Vec::new();
        let mut i: usize = 1;
        while i < bytes.len()
            invariant
                1 <= i <= bytes.len(),
                payload@ == bytes@.subrange(1, i as int),
            decreases bytes.len() - i,
        {
            payload.push(bytes[i]);
            i += 1;
            proof {
                assert(payload@ =~= bytes@.subrange(1, i as int));
            }
        }
        proof {
            assert(payload@ =~= bytes@.skip(1));
        }
        Some(PacketContainer { kind, payload })
    }
}

/// Round trip: narrowing an encoded packet by its own kind yields the packet
/// back, for every supported packet kind and value.
pub proof fn lemma_encode_decode_round_trip(p: PacketModel)
    ensures
        spec_decode(kind_of(p), spec_encode(p)) == Some(p),
{
}

/// Wrong-kind narrowing: narrowing an encoded packet by any kind other than
/// its own fails cleanly.
pub proof fn lemma_decode_wrong_kind(p: PacketModel, kind: PacketKind)
    requires
        kind != kind_of(p),
    ensures
        spec_decode(kind, spec_encode(p)) is None,
{
}

/// Wire round trip: deserializing a serialized container yields the container
/// back, for every container.
pub proof fn lemma_serialize_deserialize_round_trip(c: ContainerModel)
    ensures
        spec_deserialize(spec_serialize(c)) == Some(c),
{
    let bytes = spec_serialize(c);
    assert(bytes[0] == kind_byte(c.kind));
    assert(byte_kind(kind_byte(c.kind)) == Some(c.kind));
    assert(bytes.skip(1) =~= c.payload);
}

/// Full round trip over the wire: encoding a packet, serializing the
/// container, deserializing the bytes and narrowing by the packet's kind
/// yields the original packet, for every supported packet kind and value.
pub proof fn lemma_wire_round_trip(p: PacketModel)
    ensures
        ({
            let bytes = spec_serialize(spec_encode(p));
            &&& spec_deserialize(bytes) == Some(spec_encode(p))
            &&& spec_decode(kind_of(p), spec_encode(p)) == Some(p)
        }),
{
    lemma_serialize_deserialize_round_trip(spec_encode(p));
    lemma_encode_decode_round_trip(p);
}

} // verus!
