//! The bodies of the requests that set a simulation up.

use vstd::prelude::*;

verus! {

/// A request to set configuration word `word_id` of a device to `value`.
pub struct SetConfigWordRequest {
    pub word_id: u32,
    pub value: u32,
}

/// A request to connect the output of link `link_id` to a device.
pub struct ConnectLinkOutputRequest {
    pub link_id: u16,
}

} // verus!
