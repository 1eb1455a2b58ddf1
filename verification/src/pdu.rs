//! Decoding of server PDUs with the `ironrdp-pdu` and
//! `ironrdp-displaycontrol` crates.  The decoders themselves are not
//! verified: what they give back for given bytes is named by the
//! uninterpreted functions below, and the verified code is written over
//! those names.
use vstd::prelude::*;

use ironrdp_displaycontrol::pdu::DisplayControlPdu;
use ironrdp_pdu::mcs::ConnectResponse;
use ironrdp_pdu::rdp::server_license::{LicensePdu, LicensingStateTransition};

use crate::connection_sequence::{LicenseMessage, ServerConnectResponse, StateTransition};
use crate::display::DisplayControlKind;

verus! {

/// What `ironrdp_core::decode::<ironrdp_pdu::mcs::ConnectResponse>` makes of
/// `bytes`, reduced to the fields of the server's GCC blocks that the
/// connection sequence reads; where decoding fails, the message of the
/// decoder's error (its `to_string()`).
pub uninterp spec fn decoded_connect_response(bytes: Seq<u8>) -> Result<ServerConnectResponse, Seq<char>>;

/// What `ironrdp_core::decode::<ironrdp_pdu::rdp::server_license::LicensePdu>`
/// makes of `bytes`: a licensing error message with its state transition
/// and error info, or some other license PDU; where decoding fails, the
/// message of the decoder's error (its `to_string()`).
pub uninterp spec fn decoded_license_message(bytes: Seq<u8>) -> Result<LicenseMessage, Seq<char>>;

/// What `ironrdp_core::decode::<ironrdp_displaycontrol::pdu::DisplayControlPdu>`
/// makes of `bytes`: which of the two display control PDUs they hold; where
/// decoding fails, the message of the decoder's error (its `to_string()`).
pub uninterp spec fn decoded_display_control_pdu(bytes: Seq<u8>) -> Result<DisplayControlKind, Seq<char>>;

/// Decodes an MCS Connect Response with `ironrdp_core::decode` and copies out
/// the server's security data (encryption method bits, encryption level as
/// its protocol number, server random, server certificate), the message
/// channel id and multi-transport flags where present, the static channel
/// ids and the I/O channel id.  The contract names the result; the decoder
/// depends on the bytes alone.  Where decoding fails, the decoder's error is
/// handed on as its message; the contract names it too.
#[verifier::external_body]
pub(crate) fn decode_connect_response(bytes: &[u8]) -> (r: Result<ServerConnectResponse, String>)
    ensures
        match r {
            Ok(response) => decoded_connect_response(bytes@) == Ok::<ServerConnectResponse, Seq<char>>(response),
            Err(message) => decoded_connect_response(bytes@) == Err::<ServerConnectResponse, Seq<char>>(message@),
        },
{
    let response = match ironrdp_core::decode::<ConnectResponse>(bytes) {
        Ok(response) => response,
        Err(e) => return Err(e.to_string()),
    };
    let gcc = response.conference_create_response.into_gcc_blocks();
    Ok(ServerConnectResponse {
        encryption_method: gcc.security.encryption_method.bits(),
        encryption_level: gcc.security.encryption_level as u32,
        server_random: gcc.security.server_random,
        server_cert: gcc.security.server_cert,
        message_channel: gcc.message_channel.map(|c| c.mcs_message_channel_id),
        multi_transport_channel: gcc.multi_transport_channel.map(|c| c.flags.bits()),
        channel_ids: gcc.network.channel_ids,
        io_channel: gcc.network.io_channel,
    })
}

/// Decodes a server license PDU with `ironrdp_core::decode`.  A licensing
/// error message keeps its state transition and error info; every other
/// license PDU becomes `LicenseMessage::Other`.  The decoder keeps no blob
/// type of the error info, so none is handed on (the blob type is read from
/// the bytes by verified code).  The contract names the result; where
/// decoding fails, the decoder's error is handed on as its message; the
/// contract names it too.
#[verifier::external_body]
pub(crate) fn decode_license_message(bytes: &[u8]) -> (r: Result<LicenseMessage, String>)
    ensures
        match r {
            Ok(message) => decoded_license_message(bytes@) == Ok::<LicenseMessage, Seq<char>>(message),
            Err(message) => decoded_license_message(bytes@) == Err::<LicenseMessage, Seq<char>>(message@),
        },
{
    match ironrdp_core::decode::<LicensePdu>(bytes) {
        Ok(LicensePdu::LicensingErrorMessage(m)) => Ok(LicenseMessage::ErrorAlert {
            state_transition: match m.state_transition {
                LicensingStateTransition::TotalAbort => StateTransition::TotalAbort,
                LicensingStateTransition::NoTransition => StateTransition::NoTransition,
                LicensingStateTransition::ResetPhaseToStart => StateTransition::ResetPhaseToStart,
                LicensingStateTransition::ResendLastMessage => StateTransition::ResendLastMessage,
            },
            error_info: m.error_info,
        }),
        Ok(_) => Ok(LicenseMessage::Other),
        Err(e) => Err(e.to_string()),
    }
}

/// Decodes a display control PDU with `ironrdp_core::decode` (header, then
/// capabilities or monitor layout, with no trailing bytes) and tells which
/// of the two it is.  The contract names the result; where decoding fails,
/// the decoder's error is handed on as its message; the contract names it
/// too.
#[verifier::external_body]
pub(crate) fn decode_display_control_pdu(bytes: &[u8]) -> (r: Result<DisplayControlKind, String>)
    ensures
        match r {
            Ok(kind) => decoded_display_control_pdu(bytes@) == Ok::<DisplayControlKind, Seq<char>>(kind),
            Err(message) => decoded_display_control_pdu(bytes@) == Err::<DisplayControlKind, Seq<char>>(message@),
        },
{
    match ironrdp_core::decode::<DisplayControlPdu>(bytes) {
        Ok(DisplayControlPdu::Caps(_)) => Ok(DisplayControlKind::Capabilities),
        Ok(DisplayControlPdu::MonitorLayout(_)) => Ok(DisplayControlKind::MonitorLayout),
        Err(e) => Err(e.to_string()),
    }
}

} // verus!
