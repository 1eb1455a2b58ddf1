//! The decisions of the RDP connection sequence: what the client accepts
//! from the server at each step and what it sends next.  Reading and writing
//! the PDUs is left to the caller.
use vstd::prelude::*;

use crate::error::{InvalidResponse, McsExpectation, RdpError};
use crate::pdu::{
    decode_connect_response, decode_license_message, decoded_connect_response,
    decoded_license_message,
};
use crate::static_channels::{
    lemma_map_of_pairs_dom, lemma_map_of_pairs_last_occurrence, map_of_pairs, StaticChannels,
};

verus! {

// ---------------------------------------------------------------------------
// Channel names
// ---------------------------------------------------------------------------
/// The name under which the I/O channel of the server is kept.
pub open spec fn spec_global_channel_name() -> Seq<char> {
    seq!['G', 'L', 'O', 'B', 'A', 'L']
}

/// The name under which the channel of the client's MCS user is kept.
pub open spec fn spec_user_channel_name() -> Seq<char> {
    seq!['U', 'S', 'E', 'R']
}

/// `"GLOBAL"`.
pub fn global_channel_name() -> (r: String)
    ensures
        r@ == spec_global_channel_name(),
{
    proof {
        reveal_strlit("GLOBAL");
    }
    "GLOBAL".to_owned()
}

/// `"USER"`.
pub fn user_channel_name() -> (r: String)
    ensures
        r@ == spec_user_channel_name(),
{
    proof {
        reveal_strlit("USER");
    }
    "USER".to_owned()
}

// ---------------------------------------------------------------------------
// CredSSP
// ---------------------------------------------------------------------------
/// The certificate whose public key CredSSP binds to: the first one that the
/// TLS peer presented.
pub fn first_peer_certificate(certificates: Option<Vec<Vec<u8>>>) -> (r: Result<Vec<u8>, RdpError>)
    requires
        certificates matches Some(list) ==> list.len() > 0,
    ensures
        match certificates {
            None => r == Err::<Vec<u8>, RdpError>(RdpError::NoPeerCertificate),
            Some(list) => r matches Ok(certificate) && certificate@ == list[0]@,
        },
{
    match certificates {
        None => Err(RdpError::NoPeerCertificate),
        Some(list) => Ok(list[0].clone()),
    }
}

/// What the client does with a TSRequest that its CredSSP client produced.
#[derive(Clone, Copy, Debug, PartialEq, Eq)]
pub enum CredSspAction {
    /// Send it and read the server's next TSRequest.
    SendAndReceive,
    /// Send it; CredSSP is then over.
    SendAndFinish,
}

/// The client sends every TSRequest, and reads the server's answer unless
/// the request was the final message.
pub fn cred_ssp_action(final_message: bool) -> (r: CredSspAction)
    ensures
        r == (if final_message {
            CredSspAction::SendAndFinish
        } else {
            CredSspAction::SendAndReceive
        }),
{
    if final_message {
        CredSspAction::SendAndFinish
    } else {
        CredSspAction::SendAndReceive
    }
}

// ---------------------------------------------------------------------------
// MCS Connect Initial / Connect Response
// ---------------------------------------------------------------------------
/// The security data that the client sent in its Connect Initial.
#[derive(Clone, Copy, Debug, PartialEq, Eq)]
pub struct ClientSecurityData {
    pub encryption_methods: u32,
    pub ext_encryption_methods: u32,
}

impl ClientSecurityData {
    /// The client asks for no security: no encryption method at all.
    pub open spec fn spec_is_no_security(self) -> bool {
        self.encryption_methods == 0 && self.ext_encryption_methods == 0
    }

    pub fn is_no_security(&self) -> (r: bool)
        ensures
            r == self.spec_is_no_security(),
    {
        self.encryption_methods == 0 && self.ext_encryption_methods == 0
    }
}

/// The parts of the server's MCS Connect Response that the connection
/// sequence reads.
#[derive(Clone, Debug, PartialEq, Eq)]
pub struct ServerConnectResponse {
    /// Bits of the selected encryption method.
    pub encryption_method: u32,
    /// Protocol number of the encryption level (0 for none).
    pub encryption_level: u32,
    pub server_random: Option<[u8; 32]>,
    pub server_cert: Vec<u8>,
    /// Id of the message channel, where the server demands one.
    pub message_channel: Option<u16>,
    /// Flags of the multi-transport channel, where the server demands one.
    pub multi_transport_channel: Option<u32>,
    /// Ids of the static channels, in the order of the client's names.
    pub channel_ids: Vec<u16>,
    /// Id of the I/O channel.
    pub io_channel: u16,
}

impl ServerConnectResponse {
    /// The server's security data is that of no security: no method, level
    /// none, no server random, no certificate.
    pub open spec fn spec_security_is_none(self) -> bool {
        &&& self.encryption_method == 0
        &&& self.encryption_level == 0
        &&& self.server_random is None
        &&& self.server_cert@.len() == 0
    }

    pub fn security_is_none(&self) -> (r: bool)
        ensures
            r == self.spec_security_is_none(),
    {
        self.encryption_method == 0 && self.encryption_level == 0 && self.server_random.is_none()
            && self.server_cert.len() == 0
    }
}

/// The views of a list of strings.
pub open spec fn string_views(strings: Seq<String>) -> Seq<Seq<char>> {
    strings.map_values(|s: String| s@)
}

/// The client's channel names paired, in order, with the ids that the
/// server gave them; names or ids beyond the shorter list are dropped.
pub open spec fn channel_pairs(names: Seq<Seq<char>>, ids: Seq<u16>) -> Seq<(Seq<char>, u16)> {
    Seq::new(
        if names.len() <= ids.len() {
            names.len()
        } else {
            ids.len()
        },
        |i: int| (names[i], ids[i]),
    )
}

/// The static channels of a connection: each paired name with its id (a
/// later name wins), then the I/O channel under the global channel name.
pub open spec fn spec_static_channels(names: Seq<Seq<char>>, ids: Seq<u16>, io_channel: u16) -> Map<
    Seq<char>,
    u16,
> {
    map_of_pairs(channel_pairs(names, ids)).insert(spec_global_channel_name(), io_channel)
}

/// Builds the static channels from the client's channel names, the server's
/// channel ids and the server's I/O channel id.
pub fn static_channels_from(
    channel_names: &Vec<String>,
    channel_ids: &Vec<u16>,
    io_channel: u16,
) -> (r: StaticChannels)
    ensures
        r@ == spec_static_channels(string_views(channel_names@), channel_ids@, io_channel),
{
    let ghost pairs = channel_pairs(string_views(channel_names@), channel_ids@);
    let n: usize = if channel_names.len() <= channel_ids.len() {
        channel_names.len()
    } else {
        channel_ids.len()
    };
    let mut channels = StaticChannels::new();
    let mut i: usize = 0;
    assert(pairs.take(0) =~= Seq::<(Seq<char>, u16)>::empty());
    while i < n
        invariant
            n == pairs.len(),
            n <= channel_names.len(),
            n <= channel_ids.len(),
            pairs == channel_pairs(string_views(channel_names@), channel_ids@),
            i <= n,
            channels@ == map_of_pairs(pairs.take(i as int)),
        decreases n - i,
    {
        channels.insert(channel_names[i].clone(), channel_ids[i]);
        assert(pairs.take(i + 1).drop_last() =~= pairs.take(i as int));
        i += 1;
    }
    assert(pairs.take(n as int) =~= pairs);
    channels.insert(global_channel_name(), io_channel);
    channels
}

/// The reason for which the client refuses a Connect Response, if any.
pub open spec fn connect_response_error(
    client_security: ClientSecurityData,
    response: ServerConnectResponse,
) -> Option<InvalidResponse> {
    if client_security.spec_is_no_security() && !response.spec_security_is_none() {
        Some(InvalidResponse::ServerDemandsSecurity)
    } else if response.message_channel is Some || response.multi_transport_channel is Some {
        Some(InvalidResponse::ServerDemandsAdditionalChannels)
    } else {
        None
    }
}

/// What the client makes of a decoded Connect Response: the refusal, or the
/// static channels.
pub open spec fn connect_response_outcome(
    client_security: ClientSecurityData,
    channel_names: Seq<Seq<char>>,
    response: ServerConnectResponse,
    r: Result<StaticChannels, RdpError>,
) -> bool {
    match connect_response_error(client_security, response) {
        Some(e) => r == Err::<StaticChannels, RdpError>(RdpError::InvalidResponse(e)),
        None => r matches Ok(channels) && channels@ == spec_static_channels(
            channel_names,
            response.channel_ids@,
            response.io_channel,
        ),
    }
}

/// Checks the server's Connect Response against what the client asked for,
/// and builds the static channels from it.
pub fn check_connect_response(
    client_security: &ClientSecurityData,
    client_channel_names: &Vec<String>,
    response: &ServerConnectResponse,
) -> (r: Result<StaticChannels, RdpError>)
    ensures
        connect_response_outcome(
            *client_security,
            string_views(client_channel_names@),
            *response,
            r,
        ),
{
    if client_security.is_no_security() && !response.security_is_none() {
        return Err(RdpError::InvalidResponse(InvalidResponse::ServerDemandsSecurity));
    }
    if response.message_channel.is_some() || response.multi_transport_channel.is_some() {
        return Err(RdpError::InvalidResponse(InvalidResponse::ServerDemandsAdditionalChannels));
    }
    Ok(static_channels_from(client_channel_names, &response.channel_ids, response.io_channel))
}

/// Decodes the server's MCS Connect Response from `data` and checks it
/// against the client's security data and channel names.
pub fn process_mcs_connect_response(
    client_security: &ClientSecurityData,
    client_channel_names: &Vec<String>,
    data: &[u8],
) -> (r: Result<StaticChannels, RdpError>)
    ensures
        match decoded_connect_response(data@) {
            Err(message) => r matches Err(RdpError::McsConnectError(m)) && m@ == message,
            Ok(response) => connect_response_outcome(
                *client_security,
                string_views(client_channel_names@),
                response,
                r,
            ),
        },
{
    match decode_connect_response(data) {
        Err(message) => Err(RdpError::McsConnectError(message)),
        Ok(response) => check_connect_response(client_security, client_channel_names, &response),
    }
}

// ---------------------------------------------------------------------------
// MCS attach user and channel join
// ---------------------------------------------------------------------------
#[derive(Clone, Copy, Debug, PartialEq, Eq)]
pub struct AttachUserConfirm {
    pub result: u8,
    pub initiator_id: u16,
}

#[derive(Clone, Copy, Debug, PartialEq, Eq)]
pub struct ChannelJoinConfirm {
    pub result: u8,
    pub initiator_id: u16,
    pub requested_channel_id: u16,
    pub channel_id: u16,
}

/// An MCS PDU received from the server.
#[derive(Clone, Debug, PartialEq, Eq)]
pub enum McsResponse {
    AttachUserConfirm(AttachUserConfirm),
    ChannelJoinConfirm(ChannelJoinConfirm),
    /// Any other MCS PDU, by its short name.
    Other { name: String },
}

/// Takes the server's answer to the Attach User Request: on an Attach User
/// Confirm, the initiator id becomes the id of the user channel.
pub fn process_attach_user_confirm(response: McsResponse, static_channels: &mut StaticChannels) -> (r:
    Result<u16, RdpError>)
    ensures
        match response {
            McsResponse::AttachUserConfirm(confirm) => {
                &&& r == Ok::<u16, RdpError>(confirm.initiator_id)
                &&& final(static_channels)@ == old(static_channels)@.insert(
                    spec_user_channel_name(),
                    confirm.initiator_id,
                )
            },
            _ => {
                &&& r == Err::<u16, RdpError>(
                    RdpError::UnexpectedMcsPdu {
                        expected: McsExpectation::AttachUserConfirm,
                        got: response,
                    },
                )
                &&& final(static_channels)@ == old(static_channels)@
            },
        },
{
    match response {
        McsResponse::AttachUserConfirm(confirm) => {
            static_channels.insert(user_channel_name(), confirm.initiator_id);
            Ok(confirm.initiator_id)
        },
        other => Err(
            RdpError::UnexpectedMcsPdu { expected: McsExpectation::AttachUserConfirm, got: other },
        ),
    }
}

/// A channel join confirm confirms the join of `channel_id` by the user
/// `initiator_id`.
pub open spec fn channel_join_confirm_valid(
    initiator_id: u16,
    channel_id: u16,
    confirm: ChannelJoinConfirm,
) -> bool {
    &&& confirm.initiator_id == initiator_id
    &&& confirm.channel_id == confirm.requested_channel_id
    &&& confirm.channel_id == channel_id
}

/// Takes the server's answer to the Channel Join Request of `channel_id` by
/// the user `initiator_id`.
pub fn process_channel_join_confirm(initiator_id: u16, channel_id: u16, response: McsResponse) -> (r:
    Result<(), RdpError>)
    ensures
        r == spec_channel_join_outcome(initiator_id, channel_id, response),
{
    match response {
        McsResponse::ChannelJoinConfirm(confirm) => {
            if confirm.initiator_id != initiator_id || confirm.channel_id
                != confirm.requested_channel_id || confirm.channel_id != channel_id {
                Err(RdpError::InvalidResponse(InvalidResponse::InvalidChannelJoinConfirm))
            } else {
                Ok(())
            }
        },
        other => Err(
            RdpError::UnexpectedMcsPdu { expected: McsExpectation::ChannelJoinConfirm, got: other },
        ),
    }
}

/// A Channel Join Request of the client.
#[derive(Clone, Copy, Debug, PartialEq, Eq)]
pub struct ChannelJoinRequest {
    pub initiator_id: u16,
    pub channel_id: u16,
}

/// The joining of the static channels by the attached user: one request per
/// channel, in the order of `StaticChannels::to_vec`, each answered by the
/// server's confirm before the next one is sent.
pub struct ChannelJoinSequence {
    initiator_id: u16,
    channels: Vec<(String, u16)>,
    joined: usize,
}

impl ChannelJoinSequence {
    #[verifier::type_invariant]
    spec fn inv(self) -> bool {
        self.joined <= self.channels.len()
    }

    /// The id of the user that joins.
    pub closed spec fn spec_initiator_id(self) -> u16 {
        self.initiator_id
    }

    /// The ids of the channels to join, in the order of the requests.
    pub closed spec fn spec_channel_ids(self) -> Seq<u16> {
        self.channels@.map_values(|c: (String, u16)| c.1)
    }

    /// The names of the channels to join, in the order of the requests.
    pub closed spec fn spec_channel_names(self) -> Seq<Seq<char>> {
        self.channels@.map_values(|c: (String, u16)| c.0@)
    }

    /// How many channels the server has confirmed so far.
    pub closed spec fn spec_joined(self) -> nat {
        self.joined as nat
    }

    /// Starts joining every channel of `static_channels` as `initiator_id`.
    pub fn new(initiator_id: u16, static_channels: &StaticChannels) -> (r: Self)
        ensures
            r.spec_initiator_id() == initiator_id,
            r.spec_joined() == 0,
            r.spec_channel_ids().len() == static_channels@.dom().len(),
            r.spec_channel_names().len() == static_channels@.dom().len(),
            forall|i: int|
                0 <= i < r.spec_channel_ids().len() ==> static_channels@.contains_key(
                    #[trigger] r.spec_channel_names()[i],
                ) && static_channels@[r.spec_channel_names()[i]] == r.spec_channel_ids()[i],
            forall|i: int, j: int|
                0 <= i < r.spec_channel_names().len() && 0 <= j < r.spec_channel_names().len()
                    && i != j ==> #[trigger] r.spec_channel_names()[i]
                    != #[trigger] r.spec_channel_names()[j],
    {
        let channels = static_channels.to_vec();
        let r = ChannelJoinSequence { initiator_id, channels, joined: 0 };
        assert forall|i: int|
            0 <= i < r.spec_channel_ids().len() implies static_channels@.contains_key(
                #[trigger] r.spec_channel_names()[i],
            ) && static_channels@[r.spec_channel_names()[i]] == r.spec_channel_ids()[i] by {
            assert(r.spec_channel_names()[i] == r.channels@[i].0@);
        }
        assert forall|i: int, j: int|
            0 <= i < r.spec_channel_names().len() && 0 <= j < r.spec_channel_names().len() && i
                != j implies #[trigger] r.spec_channel_names()[i]
                != #[trigger] r.spec_channel_names()[j] by {
            assert(r.spec_channel_names()[i] == r.channels@[i].0@);
            assert(r.spec_channel_names()[j] == r.channels@[j].0@);
        }
        r
    }

    /// The request to send next, or `None` once every channel is joined.
    pub fn next_request(&self) -> (r: Option<ChannelJoinRequest>)
        ensures
            self.spec_joined() < self.spec_channel_ids().len() ==> r == Some(
                ChannelJoinRequest {
                    initiator_id: self.spec_initiator_id(),
                    channel_id: self.spec_channel_ids()[self.spec_joined() as int],
                },
            ),
            self.spec_joined() >= self.spec_channel_ids().len() ==> r is None,
    {
        proof {
            use_type_invariant(self);
        }
        if self.joined < self.channels.len() {
            Some(ChannelJoinRequest { initiator_id: self.initiator_id, channel_id: self.channels[self.joined].1 })
        } else {
            None
        }
    }

    /// Takes the server's answer to the last request: a valid confirm moves
    /// on to the next channel, anything else is an error and changes nothing.
    pub fn process_confirm(&mut self, response: McsResponse) -> (r: Result<(), RdpError>)
        requires
            old(self).spec_joined() < old(self).spec_channel_ids().len(),
        ensures
            r == spec_channel_join_outcome(
                old(self).spec_initiator_id(),
                old(self).spec_channel_ids()[old(self).spec_joined() as int],
                response,
            ),
            final(self).spec_initiator_id() == old(self).spec_initiator_id(),
            final(self).spec_channel_ids() == old(self).spec_channel_ids(),
            final(self).spec_channel_names() == old(self).spec_channel_names(),
            final(self).spec_joined() == if r is Ok {
                old(self).spec_joined() + 1
            } else {
                old(self).spec_joined()
            },
    {
        proof {
            use_type_invariant(&*self);
        }
        let channel_id = self.channels[self.joined].1;
        let r = process_channel_join_confirm(self.initiator_id, channel_id, response);
        if r.is_ok() {
            self.joined = self.joined + 1;
        }
        r
    }
}

/// What the client answers to the server's reply to the Channel Join
/// Request of `channel_id` by the user `initiator_id`.
pub open spec fn spec_channel_join_outcome(
    initiator_id: u16,
    channel_id: u16,
    response: McsResponse,
) -> Result<(), RdpError> {
    match response {
        McsResponse::ChannelJoinConfirm(confirm) => if channel_join_confirm_valid(
            initiator_id,
            channel_id,
            confirm,
        ) {
            Ok(())
        } else {
            Err(RdpError::InvalidResponse(InvalidResponse::InvalidChannelJoinConfirm))
        },
        _ => Err(
            RdpError::UnexpectedMcsPdu { expected: McsExpectation::ChannelJoinConfirm, got: response },
        ),
    }
}

// ---------------------------------------------------------------------------
// Licensing
// ---------------------------------------------------------------------------
/// The state transition of a licensing error message.
#[derive(Clone, Copy, Debug, PartialEq, Eq)]
pub enum StateTransition {
    TotalAbort,
    NoTransition,
    ResetPhaseToStart,
    ResendLastMessage,
}

/// A decoded server license PDU.
#[derive(Clone, Debug, PartialEq, Eq)]
pub enum LicenseMessage {
    /// A licensing error message (preamble type "error alert").
    ErrorAlert { state_transition: StateTransition, error_info: Vec<u8> },
    /// Any other license PDU.
    Other,
}

/// The blob type of the error info of a licensing error message.
pub const BLOB_TYPE_ERROR: u16 = 0x0004;

/// The blob type of the error info of a licensing error message in `pdu`:
/// the little-endian 16-bit value at offset 16, after the basic security
/// header (4 bytes), the license preamble (4 bytes), the error code (4
/// bytes) and the state transition (4 bytes); `None` where `pdu` is too
/// short to hold it.
pub open spec fn spec_error_info_blob_type(pdu: Seq<u8>) -> Option<u16> {
    if pdu.len() >= 18 {
        Some((pdu[16] + pdu[17] * 256) as u16)
    } else {
        None
    }
}

/// Reads the blob type of the error info of a licensing error message.
pub fn error_info_blob_type(pdu: &[u8]) -> (r: Option<u16>)
    ensures
        r == spec_error_info_blob_type(pdu@),
{
    if pdu.len() >= 18 {
        let low: u16 = pdu[16] as u16;
        let high: u16 = pdu[17] as u16;
        Some(low + high * 256)
    } else {
        None
    }
}

/// The server ends licensing: an error alert with no state transition and
/// an error info of blob type "error" with no data.
pub open spec fn license_accepted(message: LicenseMessage, blob_type: Option<u16>) -> bool {
    &&& message matches LicenseMessage::ErrorAlert { state_transition, error_info }
        && state_transition == StateTransition::NoTransition && error_info@.len() == 0
    &&& blob_type == Some(BLOB_TYPE_ERROR)
}

/// What the client answers to a decoded server license PDU whose error info
/// has the blob type `blob_type`.
pub open spec fn license_outcome(message: LicenseMessage, blob_type: Option<u16>) -> Result<
    (),
    RdpError,
> {
    if license_accepted(message, blob_type) {
        Ok(())
    } else {
        Err(RdpError::InvalidResponse(InvalidResponse::InvalidServerLicense))
    }
}

/// Accepts the license PDU that ends licensing and refuses every other;
/// `blob_type` is the blob type of the error info as the PDU holds it.
pub fn check_server_license(message: &LicenseMessage, blob_type: Option<u16>) -> (r: Result<
    (),
    RdpError,
>)
    ensures
        r == license_outcome(*message, blob_type),
{
    let error_blob = match blob_type {
        Some(t) => t == BLOB_TYPE_ERROR,
        None => false,
    };
    match message {
        LicenseMessage::ErrorAlert { state_transition: StateTransition::NoTransition, error_info }
            if error_info.len() == 0 && error_blob => Ok(()),
        _ => Err(RdpError::InvalidResponse(InvalidResponse::InvalidServerLicense)),
    }
}

/// Decodes the server license PDU in `pdu` and checks it.
pub fn process_server_license(pdu: &[u8]) -> (r: Result<(), RdpError>)
    ensures
        match decoded_license_message(pdu@) {
            Err(message) => r matches Err(RdpError::ServerLicenseError(m)) && m@ == message,
            Ok(message) => r == license_outcome(message, spec_error_info_blob_type(pdu@)),
        },
{
    match decode_license_message(pdu) {
        Err(message) => Err(RdpError::ServerLicenseError(message)),
        Ok(message) => check_server_license(&message, error_info_blob_type(pdu)),
    }
}

// ---------------------------------------------------------------------------
// Capability exchange
// ---------------------------------------------------------------------------
/// A share control PDU received from the server; `T` stands for the
/// capability sets of a Server Demand Active PDU.
pub enum ShareControlResponse<T> {
    ServerDemandActive(T),
    /// Any other share control PDU, by its short name.
    Other { name: String },
}

/// Takes the capability sets out of the server's Demand Active PDU, which is
/// the only share control PDU that the client accepts at this step.
pub fn process_server_demand_active<T>(response: ShareControlResponse<T>) -> (r: Result<T, RdpError>)
    ensures
        match response {
            ShareControlResponse::ServerDemandActive(capability_sets) => r == Ok::<T, RdpError>(
                capability_sets,
            ),
            ShareControlResponse::Other { name } => r == Err::<T, RdpError>(
                RdpError::UnexpectedShareControlPdu { got: name },
            ),
        },
{
    match response {
        ShareControlResponse::ServerDemandActive(capability_sets) => Ok(capability_sets),
        ShareControlResponse::Other { name } => Err(RdpError::UnexpectedShareControlPdu { got: name }),
    }
}

// ---------------------------------------------------------------------------
// Connection finalization
// ---------------------------------------------------------------------------
/// The MCS channel id of the server.
pub const SERVER_CHANNEL_ID: u16 = 0x03ea;

/// `FIRST | LAST` sequence flags of a font list.
pub const FONT_LIST_SEQUENCE_FLAGS: u16 = 0x0003;

/// The entry size of a font list.
pub const FONT_LIST_ENTRY_SIZE: u16 = 0x0032;

/// The step of connection finalization that the client is at.
#[derive(Clone, Copy, Debug, PartialEq, Eq)]
pub enum FinalizationOrder {
    Synchronize,
    ControlCooperate,
    RequestControl,
    Font,
    Finished,
}

#[derive(Clone, Copy, Debug, PartialEq, Eq)]
pub enum ControlAction {
    RequestControl,
    GrantedControl,
    Detach,
    Cooperate,
}

#[derive(Clone, Copy, Debug, PartialEq, Eq)]
pub struct ControlPdu {
    pub action: ControlAction,
    pub grant_id: u16,
    pub control_id: u32,
}

#[derive(Clone, Copy, Debug, PartialEq, Eq)]
pub struct FontPdu {
    pub number: u16,
    pub total_number: u16,
    /// Sequence flags bits.
    pub flags: u16,
    pub entry_size: u16,
}

/// A finalization PDU sent by the client.
#[derive(Clone, Copy, Debug, PartialEq, Eq)]
pub enum FinalizationRequest {
    Synchronize { target_user_id: u16 },
    Control(ControlPdu),
    FontList(FontPdu),
}

/// A share data PDU received from the server during finalization.
#[derive(Clone, Debug, PartialEq, Eq)]
pub enum FinalizationResponse {
    Synchronize { target_user_id: u16 },
    Control(ControlPdu),
    FontMap(FontPdu),
    /// Any other share data PDU, by its short name.
    Other { name: String },
}

/// Position of a step in the finalization order.
pub open spec fn order_rank(order: FinalizationOrder) -> int {
    match order {
        FinalizationOrder::Synchronize => 0,
        FinalizationOrder::ControlCooperate => 1,
        FinalizationOrder::RequestControl => 2,
        FinalizationOrder::Font => 3,
        FinalizationOrder::Finished => 4,
    }
}

/// The PDU that the client sends at step `order` (for every step but the
/// last).
pub open spec fn spec_finalization_request(order: FinalizationOrder, initiator_id: u16) -> FinalizationRequest {
    match order {
        FinalizationOrder::Synchronize => FinalizationRequest::Synchronize {
            target_user_id: initiator_id,
        },
        FinalizationOrder::ControlCooperate => FinalizationRequest::Control(
            ControlPdu { action: ControlAction::Cooperate, grant_id: 0, control_id: 0 },
        ),
        FinalizationOrder::RequestControl => FinalizationRequest::Control(
            ControlPdu { action: ControlAction::RequestControl, grant_id: 0, control_id: 0 },
        ),
        _ => FinalizationRequest::FontList(
            FontPdu {
                number: 0,
                total_number: 0,
                flags: FONT_LIST_SEQUENCE_FLAGS,
                entry_size: FONT_LIST_ENTRY_SIZE,
            },
        ),
    }
}

/// The step that follows `order` when the server answers with `response`,
/// or the refusal of the answer.
pub open spec fn spec_next_finalization_order(
    order: FinalizationOrder,
    response: FinalizationResponse,
    initiator_id: u16,
) -> Result<FinalizationOrder, RdpError> {
    let refused = Err(RdpError::UnexpectedFinalizationPdu { expected: order, got: response });
    match order {
        FinalizationOrder::Synchronize => if response is Synchronize {
            Ok(FinalizationOrder::ControlCooperate)
        } else {
            refused
        },
        FinalizationOrder::ControlCooperate => if response matches FinalizationResponse::Control(
            control,
        ) && control.action == ControlAction::Cooperate && control.grant_id == 0
            && control.control_id == 0 {
            Ok(FinalizationOrder::RequestControl)
        } else {
            refused
        },
        FinalizationOrder::RequestControl => if response matches FinalizationResponse::Control(
            control,
        ) && control.action == ControlAction::GrantedControl && control.grant_id == initiator_id
            && control.control_id == SERVER_CHANNEL_ID as u32 {
            Ok(FinalizationOrder::Font)
        } else {
            refused
        },
        FinalizationOrder::Font => if response is FontMap {
            Ok(FinalizationOrder::Finished)
        } else {
            refused
        },
        FinalizationOrder::Finished => refused,
    }
}

/// The PDU that the client sends at step `order`.
pub fn finalization_request(order: FinalizationOrder, initiator_id: u16) -> (r: FinalizationRequest)
    requires
        order != FinalizationOrder::Finished,
    ensures
        r == spec_finalization_request(order, initiator_id),
{
    match order {
        FinalizationOrder::Synchronize => FinalizationRequest::Synchronize {
            target_user_id: initiator_id,
        },
        FinalizationOrder::ControlCooperate => FinalizationRequest::Control(
            ControlPdu { action: ControlAction::Cooperate, grant_id: 0, control_id: 0 },
        ),
        FinalizationOrder::RequestControl => FinalizationRequest::Control(
            ControlPdu { action: ControlAction::RequestControl, grant_id: 0, control_id: 0 },
        ),
        _ => FinalizationRequest::FontList(
            FontPdu {
                number: 0,
                total_number: 0,
                flags: FONT_LIST_SEQUENCE_FLAGS,
                entry_size: FONT_LIST_ENTRY_SIZE,
            },
        ),
    }
}

/// Takes the server's answer at step `order` of finalization.
pub fn next_finalization_order(
    order: FinalizationOrder,
    response: FinalizationResponse,
    initiator_id: u16,
) -> (r: Result<FinalizationOrder, RdpError>)
    ensures
        r == spec_next_finalization_order(order, response, initiator_id),
{
    let accepted = match (order, &response) {
        (FinalizationOrder::Synchronize, FinalizationResponse::Synchronize { .. }) => Some(
            FinalizationOrder::ControlCooperate,
        ),
        (FinalizationOrder::ControlCooperate, FinalizationResponse::Control(control)) => {
            if matches!(control.action, ControlAction::Cooperate) && control.grant_id == 0
                && control.control_id == 0 {
                Some(FinalizationOrder::RequestControl)
            } else {
                None
            }
        },
        (FinalizationOrder::RequestControl, FinalizationResponse::Control(control)) => {
            if matches!(control.action, ControlAction::GrantedControl) && control.grant_id
                == initiator_id && control.control_id == SERVER_CHANNEL_ID as u32 {
                Some(FinalizationOrder::Font)
            } else {
                None
            }
        },
        (FinalizationOrder::Font, FinalizationResponse::FontMap(_)) => Some(
            FinalizationOrder::Finished,
        ),
        _ => None,
    };
    match accepted {
        Some(next) => Ok(next),
        None => Err(RdpError::UnexpectedFinalizationPdu { expected: order, got: response }),
    }
}

// ---------------------------------------------------------------------------
// Laws
// ---------------------------------------------------------------------------
/// Every accepted answer moves finalization exactly one step forward.
pub proof fn law_finalization_step_advances(
    order: FinalizationOrder,
    response: FinalizationResponse,
    initiator_id: u16,
)
    ensures
        spec_next_finalization_order(order, response, initiator_id) matches Ok(next) ==> order_rank(
            next,
        ) == order_rank(order) + 1,
{
}

/// Once finalization has finished, no answer is accepted any more.
pub proof fn law_finalization_finished_accepts_nothing(
    response: FinalizationResponse,
    initiator_id: u16,
)
    ensures
        spec_next_finalization_order(FinalizationOrder::Finished, response, initiator_id) is Err,
{
}

/// The server's Synchronize, Cooperate, Granted Control (to the client's
/// user, from the server channel) and Font Map lead finalization from its
/// first step to its end.
pub proof fn law_finalization_completes(
    initiator_id: u16,
    synchronize_user_id: u16,
    font_map: FontPdu,
)
    ensures
        ({
            let cooperate = FinalizationResponse::Control(
                ControlPdu { action: ControlAction::Cooperate, grant_id: 0, control_id: 0 },
            );
            let granted = FinalizationResponse::Control(
                ControlPdu {
                    action: ControlAction::GrantedControl,
                    grant_id: initiator_id,
                    control_id: SERVER_CHANNEL_ID as u32,
                },
            );
            &&& spec_next_finalization_order(
                FinalizationOrder::Synchronize,
                FinalizationResponse::Synchronize { target_user_id: synchronize_user_id },
                initiator_id,
            ) == Ok::<FinalizationOrder, RdpError>(FinalizationOrder::ControlCooperate)
            &&& spec_next_finalization_order(
                FinalizationOrder::ControlCooperate,
                cooperate,
                initiator_id,
            ) == Ok::<FinalizationOrder, RdpError>(FinalizationOrder::RequestControl)
            &&& spec_next_finalization_order(FinalizationOrder::RequestControl, granted, initiator_id)
                == Ok::<FinalizationOrder, RdpError>(FinalizationOrder::Font)
            &&& spec_next_finalization_order(
                FinalizationOrder::Font,
                FinalizationResponse::FontMap(font_map),
                initiator_id,
            ) == Ok::<FinalizationOrder, RdpError>(FinalizationOrder::Finished)
        }),
{
}

/// The static channels always hold the server's I/O channel under the
/// global channel name, and besides it exactly the client's names that the
/// server gave an id.
pub proof fn law_static_channels_keys(names: Seq<Seq<char>>, ids: Seq<u16>, io_channel: u16)
    ensures
        spec_static_channels(names, ids, io_channel).contains_key(spec_global_channel_name()),
        spec_static_channels(names, ids, io_channel)[spec_global_channel_name()] == io_channel,
        forall|k: Seq<char>|
            #[trigger] spec_static_channels(names, ids, io_channel).contains_key(k) <==> (k
                == spec_global_channel_name() || exists|i: int|
                0 <= i < names.len() && i < ids.len() && names[i] == k),
{
    let pairs = channel_pairs(names, ids);
    lemma_map_of_pairs_dom(pairs);
    assert forall|k: Seq<char>|
        #[trigger] spec_static_channels(names, ids, io_channel).contains_key(k) <==> (k
            == spec_global_channel_name() || exists|i: int|
            0 <= i < names.len() && i < ids.len() && names[i] == k) by {
        if exists|i: int| 0 <= i < names.len() && i < ids.len() && names[i] == k {
            let i = choose|i: int| 0 <= i < names.len() && i < ids.len() && names[i] == k;
            assert(pairs[i].0 == k);
        }
    }
}

/// The global channel is called "GLOBAL" and the user channel "USER".
pub proof fn law_channel_names()
    ensures
        spec_global_channel_name() =~= seq!['G', 'L', 'O', 'B', 'A', 'L'],
        spec_user_channel_name() =~= seq!['U', 'S', 'E', 'R'],
{
}

/// A Connect Response is refused for security exactly when the client asked
/// for no encryption method and the server chose a method, a level, a server
/// random or a certificate; otherwise it is refused for extra channels
/// exactly when the server demands a message channel or a multi-transport
/// channel; otherwise it is accepted.
pub proof fn law_connect_response_refusals(
    client_security: ClientSecurityData,
    response: ServerConnectResponse,
)
    ensures
        ({
            let client_none = client_security.encryption_methods == 0
                && client_security.ext_encryption_methods == 0;
            let server_none = response.encryption_method == 0 && response.encryption_level == 0
                && (response.server_random is None) && response.server_cert@.len() == 0;
            let extra = (response.message_channel is Some) || (
            response.multi_transport_channel is Some);
            &&& (client_none && !server_none) ==> connect_response_error(client_security, response)
                == Some(InvalidResponse::ServerDemandsSecurity)
            &&& (!(client_none && !server_none) && extra) ==> connect_response_error(
                client_security,
                response,
            ) == Some(InvalidResponse::ServerDemandsAdditionalChannels)
            &&& (!(client_none && !server_none) && !extra) ==> (connect_response_error(
                client_security,
                response,
            ) is None)
        }),
{
}

/// The blob type of a license PDU's error info is the little-endian u16 at
/// offset 16: its low byte is byte 16 and its high byte byte 17.
pub proof fn law_error_info_blob_type_little_endian(pdu: Seq<u8>)
    ensures
        pdu.len() < 18 ==> (spec_error_info_blob_type(pdu) is None),
        pdu.len() >= 18 ==> (spec_error_info_blob_type(pdu) matches Some(t) && t % 256 == pdu[16]
            && t / 256 == pdu[17]),
{
}

/// The client's channel names are paired with the server's ids position by
/// position: a paired name that no later paired name repeats, and that is
/// not the global channel name, maps to the id at its own position.
pub proof fn law_static_channels_pair_by_position(
    names: Seq<Seq<char>>,
    ids: Seq<u16>,
    io_channel: u16,
    i: int,
)
    requires
        0 <= i < names.len(),
        i < ids.len(),
        forall|j: int| i < j < names.len() && j < ids.len() ==> #[trigger] names[j] != names[i],
        names[i] != spec_global_channel_name(),
    ensures
        spec_static_channels(names, ids, io_channel).contains_key(names[i]),
        spec_static_channels(names, ids, io_channel)[names[i]] == ids[i],
{
    let pairs = channel_pairs(names, ids);
    assert forall|j: int| i < j < pairs.len() implies #[trigger] pairs[j].0 != pairs[i].0 by {
        assert(pairs[j].0 == names[j]);
        assert(names[j] != names[i]);
    }
    lemma_map_of_pairs_last_occurrence(pairs, i);
}

/// At each step of finalization, only the server's matching answer is
/// accepted: a Synchronize PDU at the Synchronize step, a Control Cooperate
/// with zero grant and control ids at the Cooperate step, a Control Granted
/// Control to this user from the server channel at the Request Control step,
/// and a Font Map at the Font step.
pub proof fn law_finalization_accepts_only_the_expected_answer(
    order: FinalizationOrder,
    response: FinalizationResponse,
    initiator_id: u16,
)
    ensures
        order == FinalizationOrder::Synchronize ==> (spec_next_finalization_order(
            order,
            response,
            initiator_id,
        ) is Ok <==> response is Synchronize),
        order == FinalizationOrder::ControlCooperate ==> (spec_next_finalization_order(
            order,
            response,
            initiator_id,
        ) is Ok <==> (response matches FinalizationResponse::Control(c) && c.action
            == ControlAction::Cooperate && c.grant_id == 0 && c.control_id == 0)),
        order == FinalizationOrder::RequestControl ==> (spec_next_finalization_order(
            order,
            response,
            initiator_id,
        ) is Ok <==> (response matches FinalizationResponse::Control(c) && c.action
            == ControlAction::GrantedControl && c.grant_id == initiator_id && c.control_id
            == 0x03ea)),
        order == FinalizationOrder::Font ==> (spec_next_finalization_order(
            order,
            response,
            initiator_id,
        ) is Ok <==> response is FontMap),
        spec_next_finalization_order(order, response, initiator_id) is Err
            ==> spec_next_finalization_order(order, response, initiator_id) == Err::<
            FinalizationOrder,
            RdpError,
        >(RdpError::UnexpectedFinalizationPdu { expected: order, got: response }),
{
}

/// The client sends, in order, Synchronize to its own user, Control
/// Cooperate, Control Request Control (both with zero grant and control
/// ids) and a Font List with the first and last flags and entry size 0x32.
pub proof fn law_finalization_requests(initiator_id: u16)
    ensures
        spec_finalization_request(FinalizationOrder::Synchronize, initiator_id)
            == (FinalizationRequest::Synchronize { target_user_id: initiator_id }),
        spec_finalization_request(FinalizationOrder::ControlCooperate, initiator_id)
            == FinalizationRequest::Control(
            ControlPdu { action: ControlAction::Cooperate, grant_id: 0, control_id: 0 },
        ),
        spec_finalization_request(FinalizationOrder::RequestControl, initiator_id)
            == FinalizationRequest::Control(
            ControlPdu { action: ControlAction::RequestControl, grant_id: 0, control_id: 0 },
        ),
        spec_finalization_request(FinalizationOrder::Font, initiator_id)
            == FinalizationRequest::FontList(
            FontPdu { number: 0, total_number: 0, flags: 0x0003, entry_size: 0x0032 },
        ),
{
}

/// A channel join answer is accepted exactly when it is a Channel Join
/// Confirm for this user whose requested channel and joined channel are both
/// the channel being joined; any other MCS PDU is unexpected.
pub proof fn law_channel_join_accepts_only_the_requested_channel(
    initiator_id: u16,
    channel_id: u16,
    response: McsResponse,
)
    ensures
        (spec_channel_join_outcome(initiator_id, channel_id, response) is Ok) <==> (
        response matches McsResponse::ChannelJoinConfirm(c) && c.initiator_id == initiator_id
            && c.requested_channel_id == channel_id && c.channel_id == channel_id),
        !(response is ChannelJoinConfirm) ==> (spec_channel_join_outcome(
            initiator_id,
            channel_id,
            response,
        ) == Err::<(), RdpError>(
            RdpError::UnexpectedMcsPdu { expected: McsExpectation::ChannelJoinConfirm, got: response },
        )),
        ((response is ChannelJoinConfirm) && (spec_channel_join_outcome(
            initiator_id,
            channel_id,
            response,
        ) is Err)) ==> (spec_channel_join_outcome(initiator_id, channel_id, response) == Err::<
            (),
            RdpError,
        >(RdpError::InvalidResponse(InvalidResponse::InvalidChannelJoinConfirm))),
{
}

/// Licensing is over exactly when the server sends an error alert with no
/// state transition and an empty error info of blob type "error" (4); every
/// other license PDU is an invalid response.
pub proof fn law_license_accepts_only_the_final_alert(message: LicenseMessage, blob_type: Option<u16>)
    ensures
        license_outcome(message, blob_type) is Ok <==> (message matches LicenseMessage::ErrorAlert {
            state_transition,
            error_info,
        } && state_transition == StateTransition::NoTransition && error_info@.len() == 0
            && blob_type == Some(4u16)),
        license_outcome(message, blob_type) is Err ==> license_outcome(message, blob_type) == Err::<
            (),
            RdpError,
        >(RdpError::InvalidResponse(InvalidResponse::InvalidServerLicense)),
{
}

/// After the user has attached, the static channels hold both the server's
/// I/O channel and the client's user channel, so that both are joined.
pub proof fn law_attached_channels_hold_global_and_user(
    names: Seq<Seq<char>>,
    ids: Seq<u16>,
    io_channel: u16,
    initiator_id: u16,
)
    ensures
        ({
            let channels = spec_static_channels(names, ids, io_channel).insert(
                spec_user_channel_name(),
                initiator_id,
            );
            &&& channels.contains_key(spec_global_channel_name())
            &&& channels[spec_global_channel_name()] == io_channel
            &&& channels.contains_key(spec_user_channel_name())
            &&& channels[spec_user_channel_name()] == initiator_id
        }),
{
    assert(spec_user_channel_name()[0] != spec_global_channel_name()[0]);
}

} // verus!
