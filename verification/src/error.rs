use vstd::prelude::*;

verus! {

/// The two ways a call into this library can fail.
///
/// `Deserialization`: an inbound payload did not match the expected command
/// schema; nothing is disbursed. A query request fails with it too, since no
/// query matches any supported variant.
/// `Encoding`: a per-recipient token-transfer payload could not be serialized
/// into the chain's call-data format; the whole batch would be abandoned. The
/// chain's serializer never fails on this library's payloads, so this variant
/// is kept only for the propagation path.
#[derive(Clone, Copy, Debug, PartialEq, Eq, Structural)]
pub enum ContractError {
    Deserialization,
    Encoding,
}

} // verus!
