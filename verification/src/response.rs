//! The responses the core hands back to the host: a version advertisement
//! for an accepted handshake, and attribute-carrying responses for the
//! remaining callbacks.

use vstd::prelude::*;

verus! {

/// One observable key/value pair attached to a response.
#[derive(Debug)]
pub struct Attribute {
    pub key: String,
    pub value: String,
}

/// The response to an accepted channel-open: the version this gateway
/// agrees to speak.
#[derive(Debug)]
pub struct ChannelOpenResponse {
    pub version: String,
}

/// The response to a connect, close, acknowledgement or timeout callback:
/// no payload, only observable attributes.
#[derive(Debug)]
pub struct BasicResponse {
    pub attributes: Vec<Attribute>,
}

/// The response to an inbound packet. This gateway is send-only and never
/// builds one: packet-receive always fails.
#[derive(Debug)]
pub struct ReceiveResponse {
    pub acknowledgement: Vec<u8>,
    pub attributes: Vec<Attribute>,
}

impl BasicResponse {
    /// A response with no attributes.
    pub fn new() -> (r: BasicResponse)
        ensures
            r.attributes@ == Seq::<Attribute>::empty(),
    {
        BasicResponse { attributes: Vec::new() }
    }

    /// The response extended with one attribute.
    pub fn add_attribute(self, key: String, value: String) -> (r: BasicResponse)
        ensures
            r.attributes@ == self.attributes@.push((Attribute { key, value })),
    {
        let mut attributes = self.attributes;
        attributes.push(Attribute { key, value });
        BasicResponse { attributes }
    }
}

} // verus!
