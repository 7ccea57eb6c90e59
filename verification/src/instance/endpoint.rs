use vstd::prelude::*;

verus! {

/// A network address with a port, as plain numbers: where a datagram came
/// from, or where one is to go. Two endpoints are the same when they are of
/// the same family and agree in every field.
#[derive(Clone, Copy, Debug, PartialEq, Eq, Structural, Hash)]
pub enum Endpoint {
    /// An IPv4 address, its four octets read as one big-endian number.
    V4 { octets: u32, port: u16 },
    /// An IPv6 address, its sixteen octets read as one big-endian number.
    V6 { segments: u128, port: u16, flow_info: u32, scope_id: u32 },
}

} // verus!
