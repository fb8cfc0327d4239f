//! Handing gathered data to the network.
use vstd::prelude::*;

verus! {

/// Data to send, with the way to send it.
#[derive(Debug, PartialEq, Eq)]
pub struct Packet<D> {
    pub data: D,
    pub is_unreliable: bool,
}

/// What is sent of the data gathered: first what may get lost on the way, then
/// what must arrive.
pub open spec fn packets<D>(unreliable: Option<D>, reliable: Option<D>) -> Seq<Packet<D>> {
    (match unreliable {
        Some(data) => seq![Packet { data, is_unreliable: true }],
        None => seq![],
    }) + (match reliable {
        Some(data) => seq![Packet { data, is_unreliable: false }],
        None => seq![],
    })
}

/// Turns the data gathered in one pass into the packets to send, in the order
/// in which they are sent.
pub fn write_update_data<D>(unreliable: Option<D>, reliable: Option<D>) -> (sent: Vec<Packet<D>>)
    ensures
        sent@ == packets(unreliable, reliable),
{
    let mut sent: Vec<Packet<D>> = Vec::new();
    if let Some(data) = unreliable {
        sent.push(Packet { data, is_unreliable: true });
    }
    if let Some(data) = reliable {
        sent.push(Packet { data, is_unreliable: false });
    }
    assert(sent@ =~= packets(unreliable, reliable));
    sent
}

} // verus!
