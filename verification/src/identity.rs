use vstd::prelude::*;

verus! {

/// A node's identity: an opaque byte string whose lowercase-hex encoding
/// yields the session-directory suffix. Only its first four bytes are ever
/// read, so any identity of at least four bytes is accepted; the identities
/// seen in practice are 32 bytes long.
pub struct NodeIdentity {
    bytes: Vec<u8>,
}

impl View for NodeIdentity {
    type V = Seq<u8>;

    closed spec fn view(&self) -> Seq<u8> {
        self.bytes@
    }
}

impl NodeIdentity {
    /// The four bytes of the session suffix must exist.
    pub open spec fn well_formed(&self) -> bool {
        self@.len() >= 4
    }

    /// Accepts any byte string of at least four bytes and rejects shorter
    /// ones, which could not supply a session suffix.
    pub fn new(bytes: Vec<u8>) -> (r: Option<NodeIdentity>)
        ensures
            r is Some <==> bytes@.len() >= 4,
            r matches Some(id) ==> id@ == bytes@ && id.well_formed(),
    {
        if bytes.len() >= 4 {
            Some(NodeIdentity { bytes })
        } else {
            None
        }
    }

    /// The identity's bytes, as given to `new`.
    pub fn as_bytes(&self) -> (r: &Vec<u8>)
        ensures
            r@ == self@,
    {
        &self.bytes
    }
}

} // verus!
