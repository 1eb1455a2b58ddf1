//! The errors of the connection sequence and of the channel handlers.
use vstd::prelude::*;

use crate::connection_sequence::{FinalizationOrder, McsResponse, FinalizationResponse};

verus! {

/// A well-formed answer of the server that the client cannot go on with.
#[derive(Clone, Copy, Debug, PartialEq, Eq)]
pub enum InvalidResponse {
    /// The server demands a security, while the client requested no security.
    ServerDemandsSecurity,
    /// The server demands a message channel or a multi-transport channel.
    ServerDemandsAdditionalChannels,
    /// A channel join confirm for another user or another channel.
    InvalidChannelJoinConfirm,
    /// A license PDU that is not the "no transition, no error info" alert.
    InvalidServerLicense,
}

/// The MCS PDU that the client was waiting for.
#[derive(Clone, Copy, Debug, PartialEq, Eq)]
pub enum McsExpectation {
    AttachUserConfirm,
    ChannelJoinConfirm,
}

/// What went wrong during the connection sequence or in a channel handler.
#[derive(Clone, Debug, PartialEq, Eq)]
#[allow(inconsistent_fields)]
pub enum RdpError {
    InvalidResponse(InvalidResponse),
    /// An MCS PDU other than the one expected arrived.
    UnexpectedMcsPdu { expected: McsExpectation, got: McsResponse },
    /// A share control PDU other than Server Demand Active arrived; `got`
    /// names it.
    UnexpectedShareControlPdu { got: String },
    /// A finalization PDU other than the one of step `expected` arrived.
    UnexpectedFinalizationPdu { expected: FinalizationOrder, got: FinalizationResponse },
    /// The MCS Connect Response could not be decoded; the decoder's message.
    McsConnectError(String),
    /// The server license PDU could not be decoded; the decoder's message.
    ServerLicenseError(String),
    /// A display control PDU could not be decoded; the decoder's message.
    DisplayControlError(String),
    /// The server sent a display control PDU that only a client sends (a
    /// monitor layout).
    UnexpectedDisplayControlPdu,
    /// The TLS peer presented no certificate.
    NoPeerCertificate,
}

} // verus!
