//! The handler of the display control dynamic virtual channel.
use vstd::prelude::*;

use crate::error::RdpError;
use crate::pdu::{decode_display_control_pdu, decoded_display_control_pdu};

verus! {

/// The two display control PDUs.
#[derive(Clone, Copy, Debug, PartialEq, Eq)]
pub enum DisplayControlKind {
    /// The server's capabilities.
    Capabilities,
    /// A monitor layout, which the client sends.
    MonitorLayout,
}

/// Handles the complete messages of the display control channel; it
/// answers none of them.
pub struct Handler {}

impl Handler {
    pub fn new() -> (r: Self)
        ensures
            r == (Handler {}),
    {
        Self {}
    }

    /// Takes one complete message of the channel: the server's capabilities
    /// are accepted with no answer; a monitor layout, which only a client
    /// sends, and a message that does not decode are errors.
    pub fn process_complete_data(&mut self, complete_data: Vec<u8>) -> (r: Result<
        Option<Vec<u8>>,
        RdpError,
    >)
        ensures
            match decoded_display_control_pdu(complete_data@) {
                Ok(DisplayControlKind::Capabilities) => r == Ok::<Option<Vec<u8>>, RdpError>(None),
                Ok(DisplayControlKind::MonitorLayout) => r == Err::<Option<Vec<u8>>, RdpError>(
                    RdpError::UnexpectedDisplayControlPdu,
                ),
                Err(message) => r matches Err(RdpError::DisplayControlError(m)) && m@ == message,
            },
            *final(self) == *old(self),
    {
        match decode_display_control_pdu(complete_data.as_slice()) {
            Ok(DisplayControlKind::Capabilities) => Ok(None),
            Ok(DisplayControlKind::MonitorLayout) => Err(RdpError::UnexpectedDisplayControlPdu),
            Err(message) => Err(RdpError::DisplayControlError(message)),
        }
    }
}

} // verus!
