//! The dispatch layer's computations, shared by client and server: encoding
//! outgoing containers to wire messages, and decoding a polling cycle's
//! drained wire messages back into containers. A message that fails to
//! decode is dropped on its own; it never blocks the messages after it.

use vstd::prelude::*;
use crate::packet::{ContainerModel, PacketContainer, spec_deserialize, spec_serialize};

verus! {

/// The image of a sequence of received wire messages.
pub open spec fn message_views(s: Seq<Vec<u8>>) -> Seq<Seq<u8>> {
    s.map_values(|m: Vec<u8>| m@)
}

/// The image of a sequence of containers.
pub open spec fn container_views(s: Seq<PacketContainer>) -> Seq<ContainerModel> {
    s.map_values(|c: PacketContainer| c@)
}

/// The containers obtained from a sequence of wire messages, in delivery
/// order, with each undecodable message dropped and the rest kept.
pub open spec fn spec_decoded_messages(msgs: Seq<Seq<u8>>) -> Seq<ContainerModel>
    decreases msgs.len(),
{
    if msgs.len() == 0 {
        Seq::empty()
    } else {
        let rest = spec_decoded_messages(msgs.drop_last());
        match spec_deserialize(msgs.last()) {
            Some(c) => rest.push(c),
            None => rest,
        }
    }
}

/// Decodes one polling cycle's drained messages into containers, keeping
/// delivery order and dropping each malformed message by itself.
pub fn decode_messages(messages: &Vec<Vec<u8>>) -> (r: Vec<PacketContainer>)
    ensures
        container_views(r@) == spec_decoded_messages(message_views(messages@)),
{
    let mut out: Vec<PacketContainer> = Vec::new();
    let mut i: usize = 0;
    while i < messages.len()
        invariant
            i <= messages@.len(),
            container_views(out@) == spec_decoded_messages(message_views(messages@).take(i as int)),
        decreases messages@.len() - i,
    {
        let ghost prefix = message_views(messages@).take(i as int);
        match PacketContainer::deserialize(&messages[i]) {
            Some(c) => {
                out.push(c);
            },
            None => {
            },
        }
        i += 1;
        proof {
            let next = message_views(messages@).take(i as int);
            assert(next.drop_last() =~= prefix);
            assert(next.last() == messages@[i - 1]@);
            assert(container_views(out@) =~= spec_decoded_messages(next));
        }
    }
    proof {
        assert(message_views(messages@).take(messages@.len() as int) =~= message_views(messages@));
    }
    out
}

/// Serializes a batch of outgoing containers to wire messages, in order.
pub fn encode_messages(packets: &Vec<PacketContainer>) -> (r: Vec<Vec<u8>>)
    ensures
        r@.len() == packets@.len(),
        forall|i: int| 0 <= i < r@.len() ==> r@[i]@ == spec_serialize(packets@[i]@),
{
    let mut out: Vec<Vec<u8>> = Vec::new();
    let mut i: usize = 0;
    while i < packets.len()
        invariant
            i <= packets@.len(),
            out@.len() == i,
            forall|j: int| 0 <= j < i ==> out@[j]@ == spec_serialize(packets@[j]@),
        decreases packets@.len() - i,
    {
        out.push(packets[i].serialize());
        i += 1;
    }
    out
}

} // verus!
