//! What every device with a brightness can do.

use vstd::prelude::*;
use crate::device::{DevRes, HttpReply, SonoffDevice, Step, finishes, reply_envelope, sends};
use crate::error::SonoffError;
use crate::json::JsonModel;

verus! {

/// A device with a brightness.
pub trait SonoffDimmable {
    /// The handle of the device.
    spec fn dim_device(&self) -> SonoffDevice;

    /// The document that sets the brightness of a device of this kind to `br`.
    spec fn dim_json(br: u8) -> JsonModel;

    /// Sets the brightness (min=0, max=100): POSTs the document of this
    /// kind of device to `/dimmable`, then reads the reply's envelope.
    /// The brightness is sent as it is given, whatever its value.
    fn dim(&self, br: u8, replies: &[HttpReply]) -> (r: Result<Step<DevRes>, SonoffError>)
        ensures
            replies@.len() == 0 ==> sends(r, self.dim_device(), "/dimmable"@, Self::dim_json(br)),
            replies@.len() > 0 ==> finishes(r, reply_envelope(replies@[0])),
    ;
}

} // verus!
