//! Frame codec: turns a message into its wire frame and a received frame
//! back into a message.
//!
//! Payload serialization is the externally supplied flatbuffer capability:
//! each payload type is serialized and deserialized by the generated planus
//! code, reached through one trusted wrapper per variant. A wrapper's output
//! bytes, whether a buffer deserializes, and the value it deserializes to all
//! depend on the wrapper's arguments alone, so each is given a name that the
//! codec's contracts are exact over; the serializer's output is named as
//! parsing back to the value it came from, the schema layer's own round-trip
//! invariant. The framing around those calls — tag lookup, length field,
//! sentinel handling, unknown-tag rejection — is verified here.

use vstd::prelude::*;

use crate::packet::{known_tag, sentinel_tag, Packet, PacketParseError};
use crate::wire::{encode_frame, frame_bytes, frame_payload, frame_tag, frame_wf,
    lemma_frame_round_trip, MAX_PAYLOAD_LEN};
use rlbot_flat::planus::ReadAsRoot;

verus! {

/// The external builder tracks offsets in 32 bits and panics when a
/// serialization reaches this size, so the codec only serializes below it.
pub const MAX_SERIALIZED_LEN: u64 = 0x1_0000_0000;

/// Declares planus::Builder, the reusable flatbuffer scratch builder, for
/// Verus: opaque here, only ever handed to the serialization wrappers.
#[verifier::external_type_specification]
#[verifier::external_body]
pub struct ExBuilder(rlbot_flat::planus::Builder);

/// The bytes the external flatbuffer serializer produces for this value as
/// root object: a function of the value alone, since the builder is reset
/// before every use.
pub uninterp spec fn game_packet_bytes(x: rlbot_flat::flat::GamePacket) -> Seq<u8>;

/// The bytes the external flatbuffer serializer produces for this value as
/// root object: a function of the value alone, since the builder is reset
/// before every use.
pub uninterp spec fn field_info_bytes(x: rlbot_flat::flat::FieldInfo) -> Seq<u8>;

/// The bytes the external flatbuffer serializer produces for this value as
/// root object: a function of the value alone, since the builder is reset
/// before every use.
pub uninterp spec fn start_command_bytes(x: rlbot_flat::flat::StartCommand) -> Seq<u8>;

/// The bytes the external flatbuffer serializer produces for this value as
/// root object: a function of the value alone, since the builder is reset
/// before every use.
pub uninterp spec fn match_configuration_bytes(x: rlbot_flat::flat::MatchConfiguration) -> Seq<u8>;

/// The bytes the external flatbuffer serializer produces for this value as
/// root object: a function of the value alone, since the builder is reset
/// before every use.
pub uninterp spec fn player_input_bytes(x: rlbot_flat::flat::PlayerInput) -> Seq<u8>;

/// The bytes the external flatbuffer serializer produces for this value as
/// root object: a function of the value alone, since the builder is reset
/// before every use.
pub uninterp spec fn desired_game_state_bytes(x: rlbot_flat::flat::DesiredGameState) -> Seq<u8>;

/// The bytes the external flatbuffer serializer produces for this value as
/// root object: a function of the value alone, since the builder is reset
/// before every use.
pub uninterp spec fn render_group_bytes(x: rlbot_flat::flat::RenderGroup) -> Seq<u8>;

/// The bytes the external flatbuffer serializer produces for this value as
/// root object: a function of the value alone, since the builder is reset
/// before every use.
pub uninterp spec fn remove_render_group_bytes(x: rlbot_flat::flat::RemoveRenderGroup) -> Seq<u8>;

/// The bytes the external flatbuffer serializer produces for this value as
/// root object: a function of the value alone, since the builder is reset
/// before every use.
pub uninterp spec fn match_comm_bytes(x: rlbot_flat::flat::MatchComm) -> Seq<u8>;

/// The bytes the external flatbuffer serializer produces for this value as
/// root object: a function of the value alone, since the builder is reset
/// before every use.
pub uninterp spec fn ball_prediction_bytes(x: rlbot_flat::flat::BallPrediction) -> Seq<u8>;

/// The bytes the external flatbuffer serializer produces for this value as
/// root object: a function of the value alone, since the builder is reset
/// before every use.
pub uninterp spec fn connection_settings_bytes(x: rlbot_flat::flat::ConnectionSettings) -> Seq<u8>;

/// The bytes the external flatbuffer serializer produces for this value as
/// root object: a function of the value alone, since the builder is reset
/// before every use.
pub uninterp spec fn stop_command_bytes(x: rlbot_flat::flat::StopCommand) -> Seq<u8>;

/// The bytes the external flatbuffer serializer produces for this value as
/// root object: a function of the value alone, since the builder is reset
/// before every use.
pub uninterp spec fn set_loadout_bytes(x: rlbot_flat::flat::SetLoadout) -> Seq<u8>;

/// The bytes the external flatbuffer serializer produces for this value as
/// root object: a function of the value alone, since the builder is reset
/// before every use.
pub uninterp spec fn controllable_team_info_bytes(x: rlbot_flat::flat::ControllableTeamInfo) -> Seq<u8>;

/// Whether the external flatbuffer deserializer accepts these bytes as a
/// GamePacket: a function of the bytes alone.
pub uninterp spec fn game_packet_parses(payload: Seq<u8>) -> bool;

/// Whether the external flatbuffer deserializer accepts these bytes as a
/// FieldInfo: a function of the bytes alone.
pub uninterp spec fn field_info_parses(payload: Seq<u8>) -> bool;

/// Whether the external flatbuffer deserializer accepts these bytes as a
/// StartCommand: a function of the bytes alone.
pub uninterp spec fn start_command_parses(payload: Seq<u8>) -> bool;

/// Whether the external flatbuffer deserializer accepts these bytes as a
/// MatchConfiguration: a function of the bytes alone.
pub uninterp spec fn match_configuration_parses(payload: Seq<u8>) -> bool;

/// Whether the external flatbuffer deserializer accepts these bytes as a
/// PlayerInput: a function of the bytes alone.
pub uninterp spec fn player_input_parses(payload: Seq<u8>) -> bool;

/// Whether the external flatbuffer deserializer accepts these bytes as a
/// DesiredGameState: a function of the bytes alone.
pub uninterp spec fn desired_game_state_parses(payload: Seq<u8>) -> bool;

/// Whether the external flatbuffer deserializer accepts these bytes as a
/// RenderGroup: a function of the bytes alone.
pub uninterp spec fn render_group_parses(payload: Seq<u8>) -> bool;

/// Whether the external flatbuffer deserializer accepts these bytes as a
/// RemoveRenderGroup: a function of the bytes alone.
pub uninterp spec fn remove_render_group_parses(payload: Seq<u8>) -> bool;

/// Whether the external flatbuffer deserializer accepts these bytes as a
/// MatchComm: a function of the bytes alone.
pub uninterp spec fn match_comm_parses(payload: Seq<u8>) -> bool;

/// Whether the external flatbuffer deserializer accepts these bytes as a
/// BallPrediction: a function of the bytes alone.
pub uninterp spec fn ball_prediction_parses(payload: Seq<u8>) -> bool;

/// Whether the external flatbuffer deserializer accepts these bytes as a
/// ConnectionSettings: a function of the bytes alone.
pub uninterp spec fn connection_settings_parses(payload: Seq<u8>) -> bool;

/// Whether the external flatbuffer deserializer accepts these bytes as a
/// StopCommand: a function of the bytes alone.
pub uninterp spec fn stop_command_parses(payload: Seq<u8>) -> bool;

/// Whether the external flatbuffer deserializer accepts these bytes as a
/// SetLoadout: a function of the bytes alone.
pub uninterp spec fn set_loadout_parses(payload: Seq<u8>) -> bool;

/// Whether the external flatbuffer deserializer accepts these bytes as a
/// ControllableTeamInfo: a function of the bytes alone.
pub uninterp spec fn controllable_team_info_parses(payload: Seq<u8>) -> bool;

/// The GamePacket the external flatbuffer deserializer reads from these
/// bytes, when it accepts them: a function of the bytes alone.
pub uninterp spec fn game_packet_of(payload: Seq<u8>) -> rlbot_flat::flat::GamePacket;

/// The FieldInfo the external flatbuffer deserializer reads from these
/// bytes, when it accepts them: a function of the bytes alone.
pub uninterp spec fn field_info_of(payload: Seq<u8>) -> rlbot_flat::flat::FieldInfo;

/// The StartCommand the external flatbuffer deserializer reads from these
/// bytes, when it accepts them: a function of the bytes alone.
pub uninterp spec fn start_command_of(payload: Seq<u8>) -> rlbot_flat::flat::StartCommand;

/// The MatchConfiguration the external flatbuffer deserializer reads from these
/// bytes, when it accepts them: a function of the bytes alone.
pub uninterp spec fn match_configuration_of(payload: Seq<u8>) -> rlbot_flat::flat::MatchConfiguration;

/// The PlayerInput the external flatbuffer deserializer reads from these
/// bytes, when it accepts them: a function of the bytes alone.
pub uninterp spec fn player_input_of(payload: Seq<u8>) -> rlbot_flat::flat::PlayerInput;

/// The DesiredGameState the external flatbuffer deserializer reads from these
/// bytes, when it accepts them: a function of the bytes alone.
pub uninterp spec fn desired_game_state_of(payload: Seq<u8>) -> rlbot_flat::flat::DesiredGameState;

/// The RenderGroup the external flatbuffer deserializer reads from these
/// bytes, when it accepts them: a function of the bytes alone.
pub uninterp spec fn render_group_of(payload: Seq<u8>) -> rlbot_flat::flat::RenderGroup;

/// The RemoveRenderGroup the external flatbuffer deserializer reads from these
/// bytes, when it accepts them: a function of the bytes alone.
pub uninterp spec fn remove_render_group_of(payload: Seq<u8>) -> rlbot_flat::flat::RemoveRenderGroup;

/// The MatchComm the external flatbuffer deserializer reads from these
/// bytes, when it accepts them: a function of the bytes alone.
pub uninterp spec fn match_comm_of(payload: Seq<u8>) -> rlbot_flat::flat::MatchComm;

/// The BallPrediction the external flatbuffer deserializer reads from these
/// bytes, when it accepts them: a function of the bytes alone.
pub uninterp spec fn ball_prediction_of(payload: Seq<u8>) -> rlbot_flat::flat::BallPrediction;

/// The ConnectionSettings the external flatbuffer deserializer reads from these
/// bytes, when it accepts them: a function of the bytes alone.
pub uninterp spec fn connection_settings_of(payload: Seq<u8>) -> rlbot_flat::flat::ConnectionSettings;

/// The StopCommand the external flatbuffer deserializer reads from these
/// bytes, when it accepts them: a function of the bytes alone.
pub uninterp spec fn stop_command_of(payload: Seq<u8>) -> rlbot_flat::flat::StopCommand;

/// The SetLoadout the external flatbuffer deserializer reads from these
/// bytes, when it accepts them: a function of the bytes alone.
pub uninterp spec fn set_loadout_of(payload: Seq<u8>) -> rlbot_flat::flat::SetLoadout;

/// The ControllableTeamInfo the external flatbuffer deserializer reads from these
/// bytes, when it accepts them: a function of the bytes alone.
pub uninterp spec fn controllable_team_info_of(payload: Seq<u8>) -> rlbot_flat::flat::ControllableTeamInfo;

/// Relies on planus::Builder::clear and planus::Builder::finish: resets the
/// builder, serializes the value as a flatbuffer root, and copies the bytes
/// out; the result depends on the value alone. The requires excludes the
/// serializations at which the builder's 32-bit offsets overflow and it
/// panics. That the output parses back to the same value is the generated
/// schema code's round-trip invariant: every field written by finish is read
/// back by GamePacketRef and the generated TryFrom, and omitted
/// default-valued fields are read back as those defaults.
#[verifier::external_body]
fn build_game_packet(
    builder: &mut rlbot_flat::planus::Builder,
    x: rlbot_flat::flat::GamePacket,
) -> (r: Vec<u8>)
    requires
        game_packet_bytes(x).len() < MAX_SERIALIZED_LEN,
    ensures
        r@ == game_packet_bytes(x),
        game_packet_parses(r@),
        game_packet_of(r@) == x,
{
    builder.clear();
    builder.finish(x, None).to_vec()
}

/// Relies on planus::Builder::clear and planus::Builder::finish: resets the
/// builder, serializes the value as a flatbuffer root, and copies the bytes
/// out; the result depends on the value alone. The requires excludes the
/// serializations at which the builder's 32-bit offsets overflow and it
/// panics. That the output parses back to the same value is the generated
/// schema code's round-trip invariant: every field written by finish is read
/// back by FieldInfoRef and the generated TryFrom, and omitted
/// default-valued fields are read back as those defaults.
#[verifier::external_body]
fn build_field_info(
    builder: &mut rlbot_flat::planus::Builder,
    x: rlbot_flat::flat::FieldInfo,
) -> (r: Vec<u8>)
    requires
        field_info_bytes(x).len() < MAX_SERIALIZED_LEN,
    ensures
        r@ == field_info_bytes(x),
        field_info_parses(r@),
        field_info_of(r@) == x,
{
    builder.clear();
    builder.finish(x, None).to_vec()
}

/// Relies on planus::Builder::clear and planus::Builder::finish: resets the
/// builder, serializes the value as a flatbuffer root, and copies the bytes
/// out; the result depends on the value alone. The requires excludes the
/// serializations at which the builder's 32-bit offsets overflow and it
/// panics. That the output parses back to the same value is the generated
/// schema code's round-trip invariant: every field written by finish is read
/// back by StartCommandRef and the generated TryFrom, and omitted
/// default-valued fields are read back as those defaults.
#[verifier::external_body]
fn build_start_command(
    builder: &mut rlbot_flat::planus::Builder,
    x: rlbot_flat::flat::StartCommand,
) -> (r: Vec<u8>)
    requires
        start_command_bytes(x).len() < MAX_SERIALIZED_LEN,
    ensures
        r@ == start_command_bytes(x),
        start_command_parses(r@),
        start_command_of(r@) == x,
{
    builder.clear();
    builder.finish(x, None).to_vec()
}

/// Relies on planus::Builder::clear and planus::Builder::finish: resets the
/// builder, serializes the value as a flatbuffer root, and copies the bytes
/// out; the result depends on the value alone. The requires excludes the
/// serializations at which the builder's 32-bit offsets overflow and it
/// panics. That the output parses back to the same value is the generated
/// schema code's round-trip invariant: every field written by finish is read
/// back by MatchConfigurationRef and the generated TryFrom, and omitted
/// default-valued fields are read back as those defaults.
#[verifier::external_body]
fn build_match_configuration(
    builder: &mut rlbot_flat::planus::Builder,
    x: rlbot_flat::flat::MatchConfiguration,
) -> (r: Vec<u8>)
    requires
        match_configuration_bytes(x).len() < MAX_SERIALIZED_LEN,
    ensures
        r@ == match_configuration_bytes(x),
        match_configuration_parses(r@),
        match_configuration_of(r@) == x,
{
    builder.clear();
    builder.finish(x, None).to_vec()
}

/// Relies on planus::Builder::clear and planus::Builder::finish: resets the
/// builder, serializes the value as a flatbuffer root, and copies the bytes
/// out; the result depends on the value alone. The requires excludes the
/// serializations at which the builder's 32-bit offsets overflow and it
/// panics. That the output parses back to the same value is the generated
/// schema code's round-trip invariant: every field written by finish is read
/// back by PlayerInputRef and the generated TryFrom, and omitted
/// default-valued fields are read back as those defaults.
#[verifier::external_body]
fn build_player_input(
    builder: &mut rlbot_flat::planus::Builder,
    x: rlbot_flat::flat::PlayerInput,
) -> (r: Vec<u8>)
    requires
        player_input_bytes(x).len() < MAX_SERIALIZED_LEN,
    ensures
        r@ == player_input_bytes(x),
        player_input_parses(r@),
        player_input_of(r@) == x,
{
    builder.clear();
    builder.finish(x, None).to_vec()
}

/// Relies on planus::Builder::clear and planus::Builder::finish: resets the
/// builder, serializes the value as a flatbuffer root, and copies the bytes
/// out; the result depends on the value alone. The requires excludes the
/// serializations at which the builder's 32-bit offsets overflow and it
/// panics. That the output parses back to the same value is the generated
/// schema code's round-trip invariant: every field written by finish is read
/// back by DesiredGameStateRef and the generated TryFrom, and omitted
/// default-valued fields are read back as those defaults.
#[verifier::external_body]
fn build_desired_game_state(
    builder: &mut rlbot_flat::planus::Builder,
    x: rlbot_flat::flat::DesiredGameState,
) -> (r: Vec<u8>)
    requires
        desired_game_state_bytes(x).len() < MAX_SERIALIZED_LEN,
    ensures
        r@ == desired_game_state_bytes(x),
        desired_game_state_parses(r@),
        desired_game_state_of(r@) == x,
{
    builder.clear();
    builder.finish(x, None).to_vec()
}

/// Relies on planus::Builder::clear and planus::Builder::finish: resets the
/// builder, serializes the value as a flatbuffer root, and copies the bytes
/// out; the result depends on the value alone. The requires excludes the
/// serializations at which the builder's 32-bit offsets overflow and it
/// panics. That the output parses back to the same value is the generated
/// schema code's round-trip invariant: every field written by finish is read
/// back by RenderGroupRef and the generated TryFrom, and omitted
/// default-valued fields are read back as those defaults.
#[verifier::external_body]
fn build_render_group(
    builder: &mut rlbot_flat::planus::Builder,
    x: rlbot_flat::flat::RenderGroup,
) -> (r: Vec<u8>)
    requires
        render_group_bytes(x).len() < MAX_SERIALIZED_LEN,
    ensures
        r@ == render_group_bytes(x),
        render_group_parses(r@),
        render_group_of(r@) == x,
{
    builder.clear();
    builder.finish(x, None).to_vec()
}

/// Relies on planus::Builder::clear and planus::Builder::finish: resets the
/// builder, serializes the value as a flatbuffer root, and copies the bytes
/// out; the result depends on the value alone. The requires excludes the
/// serializations at which the builder's 32-bit offsets overflow and it
/// panics. That the output parses back to the same value is the generated
/// schema code's round-trip invariant: every field written by finish is read
/// back by RemoveRenderGroupRef and the generated TryFrom, and omitted
/// default-valued fields are read back as those defaults.
#[verifier::external_body]
fn build_remove_render_group(
    builder: &mut rlbot_flat::planus::Builder,
    x: rlbot_flat::flat::RemoveRenderGroup,
) -> (r: Vec<u8>)
    requires
        remove_render_group_bytes(x).len() < MAX_SERIALIZED_LEN,
    ensures
        r@ == remove_render_group_bytes(x),
        remove_render_group_parses(r@),
        remove_render_group_of(r@) == x,
{
    builder.clear();
    builder.finish(x, None).to_vec()
}

/// Relies on planus::Builder::clear and planus::Builder::finish: resets the
/// builder, serializes the value as a flatbuffer root, and copies the bytes
/// out; the result depends on the value alone. The requires excludes the
/// serializations at which the builder's 32-bit offsets overflow and it
/// panics. That the output parses back to the same value is the generated
/// schema code's round-trip invariant: every field written by finish is read
/// back by MatchCommRef and the generated TryFrom, and omitted
/// default-valued fields are read back as those defaults.
#[verifier::external_body]
fn build_match_comm(
    builder: &mut rlbot_flat::planus::Builder,
    x: rlbot_flat::flat::MatchComm,
) -> (r: Vec<u8>)
    requires
        match_comm_bytes(x).len() < MAX_SERIALIZED_LEN,
    ensures
        r@ == match_comm_bytes(x),
        match_comm_parses(r@),
        match_comm_of(r@) == x,
{
    builder.clear();
    builder.finish(x, None).to_vec()
}

/// Relies on planus::Builder::clear and planus::Builder::finish: resets the
/// builder, serializes the value as a flatbuffer root, and copies the bytes
/// out; the result depends on the value alone. The requires excludes the
/// serializations at which the builder's 32-bit offsets overflow and it
/// panics. That the output parses back to the same value is the generated
/// schema code's round-trip invariant: every field written by finish is read
/// back by BallPredictionRef and the generated TryFrom, and omitted
/// default-valued fields are read back as those defaults.
#[verifier::external_body]
fn build_ball_prediction(
    builder: &mut rlbot_flat::planus::Builder,
    x: rlbot_flat::flat::BallPrediction,
) -> (r: Vec<u8>)
    requires
        ball_prediction_bytes(x).len() < MAX_SERIALIZED_LEN,
    ensures
        r@ == ball_prediction_bytes(x),
        ball_prediction_parses(r@),
        ball_prediction_of(r@) == x,
{
    builder.clear();
    builder.finish(x, None).to_vec()
}

/// Relies on planus::Builder::clear and planus::Builder::finish: resets the
/// builder, serializes the value as a flatbuffer root, and copies the bytes
/// out; the result depends on the value alone. The requires excludes the
/// serializations at which the builder's 32-bit offsets overflow and it
/// panics. That the output parses back to the same value is the generated
/// schema code's round-trip invariant: every field written by finish is read
/// back by ConnectionSettingsRef and the generated TryFrom, and omitted
/// default-valued fields are read back as those defaults.
#[verifier::external_body]
fn build_connection_settings(
    builder: &mut rlbot_flat::planus::Builder,
    x: rlbot_flat::flat::ConnectionSettings,
) -> (r: Vec<u8>)
    requires
        connection_settings_bytes(x).len() < MAX_SERIALIZED_LEN,
    ensures
        r@ == connection_settings_bytes(x),
        connection_settings_parses(r@),
        connection_settings_of(r@) == x,
{
    builder.clear();
    builder.finish(x, None).to_vec()
}

/// Relies on planus::Builder::clear and planus::Builder::finish: resets the
/// builder, serializes the value as a flatbuffer root, and copies the bytes
/// out; the result depends on the value alone. The requires excludes the
/// serializations at which the builder's 32-bit offsets overflow and it
/// panics. That the output parses back to the same value is the generated
/// schema code's round-trip invariant: every field written by finish is read
/// back by StopCommandRef and the generated TryFrom, and omitted
/// default-valued fields are read back as those defaults.
#[verifier::external_body]
fn build_stop_command(
    builder: &mut rlbot_flat::planus::Builder,
    x: rlbot_flat::flat::StopCommand,
) -> (r: Vec<u8>)
    requires
        stop_command_bytes(x).len() < MAX_SERIALIZED_LEN,
    ensures
        r@ == stop_command_bytes(x),
        stop_command_parses(r@),
        stop_command_of(r@) == x,
{
    builder.clear();
    builder.finish(x, None).to_vec()
}

/// Relies on planus::Builder::clear and planus::Builder::finish: resets the
/// builder, serializes the value as a flatbuffer root, and copies the bytes
/// out; the result depends on the value alone. The requires excludes the
/// serializations at which the builder's 32-bit offsets overflow and it
/// panics. That the output parses back to the same value is the generated
/// schema code's round-trip invariant: every field written by finish is read
/// back by SetLoadoutRef and the generated TryFrom, and omitted
/// default-valued fields are read back as those defaults.
#[verifier::external_body]
fn build_set_loadout(
    builder: &mut rlbot_flat::planus::Builder,
    x: rlbot_flat::flat::SetLoadout,
) -> (r: Vec<u8>)
    requires
        set_loadout_bytes(x).len() < MAX_SERIALIZED_LEN,
    ensures
        r@ == set_loadout_bytes(x),
        set_loadout_parses(r@),
        set_loadout_of(r@) == x,
{
    builder.clear();
    builder.finish(x, None).to_vec()
}

/// Relies on planus::Builder::clear and planus::Builder::finish: resets the
/// builder, serializes the value as a flatbuffer root, and copies the bytes
/// out; the result depends on the value alone. The requires excludes the
/// serializations at which the builder's 32-bit offsets overflow and it
/// panics. That the output parses back to the same value is the generated
/// schema code's round-trip invariant: every field written by finish is read
/// back by ControllableTeamInfoRef and the generated TryFrom, and omitted
/// default-valued fields are read back as those defaults.
#[verifier::external_body]
fn build_controllable_team_info(
    builder: &mut rlbot_flat::planus::Builder,
    x: rlbot_flat::flat::ControllableTeamInfo,
) -> (r: Vec<u8>)
    requires
        controllable_team_info_bytes(x).len() < MAX_SERIALIZED_LEN,
    ensures
        r@ == controllable_team_info_bytes(x),
        controllable_team_info_parses(r@),
        controllable_team_info_of(r@) == x,
{
    builder.clear();
    builder.finish(x, None).to_vec()
}

/// Relies on GamePacketRef::read_as_root and the generated TryFrom: together they
/// validate the buffer field by field and build the owned value; whether they
/// accept, and what value they build, depend on the bytes alone, and any
/// malformation comes back as the planus error, never a panic.
#[verifier::external_body]
fn parse_game_packet(payload: &[u8]) -> (r: Result<
    rlbot_flat::flat::GamePacket,
    rlbot_flat::planus::Error,
>)
    ensures
        r is Ok <==> game_packet_parses(payload@),
        r matches Ok(v) ==> v == game_packet_of(payload@),
{
    Ok(rlbot_flat::flat::GamePacketRef::read_as_root(payload)?.try_into()?)
}

/// Relies on FieldInfoRef::read_as_root and the generated TryFrom: together they
/// validate the buffer field by field and build the owned value; whether they
/// accept, and what value they build, depend on the bytes alone, and any
/// malformation comes back as the planus error, never a panic.
#[verifier::external_body]
fn parse_field_info(payload: &[u8]) -> (r: Result<
    rlbot_flat::flat::FieldInfo,
    rlbot_flat::planus::Error,
>)
    ensures
        r is Ok <==> field_info_parses(payload@),
        r matches Ok(v) ==> v == field_info_of(payload@),
{
    Ok(rlbot_flat::flat::FieldInfoRef::read_as_root(payload)?.try_into()?)
}

/// Relies on StartCommandRef::read_as_root and the generated TryFrom: together they
/// validate the buffer field by field and build the owned value; whether they
/// accept, and what value they build, depend on the bytes alone, and any
/// malformation comes back as the planus error, never a panic.
#[verifier::external_body]
fn parse_start_command(payload: &[u8]) -> (r: Result<
    rlbot_flat::flat::StartCommand,
    rlbot_flat::planus::Error,
>)
    ensures
        r is Ok <==> start_command_parses(payload@),
        r matches Ok(v) ==> v == start_command_of(payload@),
{
    Ok(rlbot_flat::flat::StartCommandRef::read_as_root(payload)?.try_into()?)
}

/// Relies on MatchConfigurationRef::read_as_root and the generated TryFrom: together they
/// validate the buffer field by field and build the owned value; whether they
/// accept, and what value they build, depend on the bytes alone, and any
/// malformation comes back as the planus error, never a panic.
#[verifier::external_body]
fn parse_match_configuration(payload: &[u8]) -> (r: Result<
    rlbot_flat::flat::MatchConfiguration,
    rlbot_flat::planus::Error,
>)
    ensures
        r is Ok <==> match_configuration_parses(payload@),
        r matches Ok(v) ==> v == match_configuration_of(payload@),
{
    Ok(rlbot_flat::flat::MatchConfigurationRef::read_as_root(payload)?.try_into()?)
}

/// Relies on PlayerInputRef::read_as_root and the generated TryFrom: together they
/// validate the buffer field by field and build the owned value; whether they
/// accept, and what value they build, depend on the bytes alone, and any
/// malformation comes back as the planus error, never a panic.
#[verifier::external_body]
fn parse_player_input(payload: &[u8]) -> (r: Result<
    rlbot_flat::flat::PlayerInput,
    rlbot_flat::planus::Error,
>)
    ensures
        r is Ok <==> player_input_parses(payload@),
        r matches Ok(v) ==> v == player_input_of(payload@),
{
    Ok(rlbot_flat::flat::PlayerInputRef::read_as_root(payload)?.try_into()?)
}

/// Relies on DesiredGameStateRef::read_as_root and the generated TryFrom: together they
/// validate the buffer field by field and build the owned value; whether they
/// accept, and what value they build, depend on the bytes alone, and any
/// malformation comes back as the planus error, never a panic.
#[verifier::external_body]
fn parse_desired_game_state(payload: &[u8]) -> (r: Result<
    rlbot_flat::flat::DesiredGameState,
    rlbot_flat::planus::Error,
>)
    ensures
        r is Ok <==> desired_game_state_parses(payload@),
        r matches Ok(v) ==> v == desired_game_state_of(payload@),
{
    Ok(rlbot_flat::flat::DesiredGameStateRef::read_as_root(payload)?.try_into()?)
}

/// Relies on RenderGroupRef::read_as_root and the generated TryFrom: together they
/// validate the buffer field by field and build the owned value; whether they
/// accept, and what value they build, depend on the bytes alone, and any
/// malformation comes back as the planus error, never a panic.
#[verifier::external_body]
fn parse_render_group(payload: &[u8]) -> (r: Result<
    rlbot_flat::flat::RenderGroup,
    rlbot_flat::planus::Error,
>)
    ensures
        r is Ok <==> render_group_parses(payload@),
        r matches Ok(v) ==> v == render_group_of(payload@),
{
    Ok(rlbot_flat::flat::RenderGroupRef::read_as_root(payload)?.try_into()?)
}

/// Relies on RemoveRenderGroupRef::read_as_root and the generated TryFrom: together they
/// validate the buffer field by field and build the owned value; whether they
/// accept, and what value they build, depend on the bytes alone, and any
/// malformation comes back as the planus error, never a panic.
#[verifier::external_body]
fn parse_remove_render_group(payload: &[u8]) -> (r: Result<
    rlbot_flat::flat::RemoveRenderGroup,
    rlbot_flat::planus::Error,
>)
    ensures
        r is Ok <==> remove_render_group_parses(payload@),
        r matches Ok(v) ==> v == remove_render_group_of(payload@),
{
    Ok(rlbot_flat::flat::RemoveRenderGroupRef::read_as_root(payload)?.try_into()?)
}

/// Relies on MatchCommRef::read_as_root and the generated TryFrom: together they
/// validate the buffer field by field and build the owned value; whether they
/// accept, and what value they build, depend on the bytes alone, and any
/// malformation comes back as the planus error, never a panic.
#[verifier::external_body]
fn parse_match_comm(payload: &[u8]) -> (r: Result<
    rlbot_flat::flat::MatchComm,
    rlbot_flat::planus::Error,
>)
    ensures
        r is Ok <==> match_comm_parses(payload@),
        r matches Ok(v) ==> v == match_comm_of(payload@),
{
    Ok(rlbot_flat::flat::MatchCommRef::read_as_root(payload)?.try_into()?)
}

/// Relies on BallPredictionRef::read_as_root and the generated TryFrom: together they
/// validate the buffer field by field and build the owned value; whether they
/// accept, and what value they build, depend on the bytes alone, and any
/// malformation comes back as the planus error, never a panic.
#[verifier::external_body]
fn parse_ball_prediction(payload: &[u8]) -> (r: Result<
    rlbot_flat::flat::BallPrediction,
    rlbot_flat::planus::Error,
>)
    ensures
        r is Ok <==> ball_prediction_parses(payload@),
        r matches Ok(v) ==> v == ball_prediction_of(payload@),
{
    Ok(rlbot_flat::flat::BallPredictionRef::read_as_root(payload)?.try_into()?)
}

/// Relies on ConnectionSettingsRef::read_as_root and the generated TryFrom: together they
/// validate the buffer field by field and build the owned value; whether they
/// accept, and what value they build, depend on the bytes alone, and any
/// malformation comes back as the planus error, never a panic.
#[verifier::external_body]
fn parse_connection_settings(payload: &[u8]) -> (r: Result<
    rlbot_flat::flat::ConnectionSettings,
    rlbot_flat::planus::Error,
>)
    ensures
        r is Ok <==> connection_settings_parses(payload@),
        r matches Ok(v) ==> v == connection_settings_of(payload@),
{
    Ok(rlbot_flat::flat::ConnectionSettingsRef::read_as_root(payload)?.try_into()?)
}

/// Relies on StopCommandRef::read_as_root and the generated TryFrom: together they
/// validate the buffer field by field and build the owned value; whether they
/// accept, and what value they build, depend on the bytes alone, and any
/// malformation comes back as the planus error, never a panic.
#[verifier::external_body]
fn parse_stop_command(payload: &[u8]) -> (r: Result<
    rlbot_flat::flat::StopCommand,
    rlbot_flat::planus::Error,
>)
    ensures
        r is Ok <==> stop_command_parses(payload@),
        r matches Ok(v) ==> v == stop_command_of(payload@),
{
    Ok(rlbot_flat::flat::StopCommandRef::read_as_root(payload)?.try_into()?)
}

/// Relies on SetLoadoutRef::read_as_root and the generated TryFrom: together they
/// validate the buffer field by field and build the owned value; whether they
/// accept, and what value they build, depend on the bytes alone, and any
/// malformation comes back as the planus error, never a panic.
#[verifier::external_body]
fn parse_set_loadout(payload: &[u8]) -> (r: Result<
    rlbot_flat::flat::SetLoadout,
    rlbot_flat::planus::Error,
>)
    ensures
        r is Ok <==> set_loadout_parses(payload@),
        r matches Ok(v) ==> v == set_loadout_of(payload@),
{
    Ok(rlbot_flat::flat::SetLoadoutRef::read_as_root(payload)?.try_into()?)
}

/// Relies on ControllableTeamInfoRef::read_as_root and the generated TryFrom: together they
/// validate the buffer field by field and build the owned value; whether they
/// accept, and what value they build, depend on the bytes alone, and any
/// malformation comes back as the planus error, never a panic.
#[verifier::external_body]
fn parse_controllable_team_info(payload: &[u8]) -> (r: Result<
    rlbot_flat::flat::ControllableTeamInfo,
    rlbot_flat::planus::Error,
>)
    ensures
        r is Ok <==> controllable_team_info_parses(payload@),
        r matches Ok(v) ==> v == controllable_team_info_of(payload@),
{
    Ok(rlbot_flat::flat::ControllableTeamInfoRef::read_as_root(payload)?.try_into()?)
}

/// Whether `payload` deserializes under `tag`: a sentinel tag accepts any
/// payload, a payload-carrying tag defers to its variant's deserializer, and
/// an unknown tag accepts nothing.
pub open spec fn payload_parses(tag: u16, payload: Seq<u8>) -> bool {
    match tag {
        0 => true,
        1 => game_packet_parses(payload),
        2 => field_info_parses(payload),
        3 => start_command_parses(payload),
        4 => match_configuration_parses(payload),
        5 => player_input_parses(payload),
        6 => desired_game_state_parses(payload),
        7 => render_group_parses(payload),
        8 => remove_render_group_parses(payload),
        9 => match_comm_parses(payload),
        10 => ball_prediction_parses(payload),
        11 => connection_settings_parses(payload),
        12 => stop_command_parses(payload),
        13 => set_loadout_parses(payload),
        14 => true,
        15 => controllable_team_info_parses(payload),
        _ => false,
    }
}

/// The message that `payload` decodes to under `tag`: the sentinel for a
/// sentinel tag, the deserialized value in its variant otherwise. Meaningful
/// only for known tags on payloads they accept.
pub open spec fn decoded_packet(tag: u16, payload: Seq<u8>) -> Packet
    recommends
        known_tag(tag),
        payload_parses(tag, payload),
{
    match tag {
        0 => Packet::NonePacket,
        1 => Packet::GamePacket(game_packet_of(payload)),
        2 => Packet::FieldInfo(field_info_of(payload)),
        3 => Packet::StartCommand(start_command_of(payload)),
        4 => Packet::MatchConfiguration(match_configuration_of(payload)),
        5 => Packet::PlayerInput(player_input_of(payload)),
        6 => Packet::DesiredGameState(desired_game_state_of(payload)),
        7 => Packet::RenderGroup(render_group_of(payload)),
        8 => Packet::RemoveRenderGroup(remove_render_group_of(payload)),
        9 => Packet::MatchComm(match_comm_of(payload)),
        10 => Packet::BallPrediction(ball_prediction_of(payload)),
        11 => Packet::ConnectionSettings(connection_settings_of(payload)),
        12 => Packet::StopCommand(stop_command_of(payload)),
        13 => Packet::SetLoadout(set_loadout_of(payload)),
        14 => Packet::InitComplete,
        15 => Packet::ControllableTeamInfo(controllable_team_info_of(payload)),
        _ => Packet::NonePacket,
    }
}

impl Packet {
    /// The payload bytes this message serializes to: empty for a sentinel,
    /// the external serializer's output for the wrapped value otherwise.
    pub open spec fn payload_bytes(&self) -> Seq<u8> {
        match self {
            Packet::NonePacket => Seq::empty(),
            Packet::GamePacket(x) => game_packet_bytes(*x),
            Packet::FieldInfo(x) => field_info_bytes(*x),
            Packet::StartCommand(x) => start_command_bytes(*x),
            Packet::MatchConfiguration(x) => match_configuration_bytes(*x),
            Packet::PlayerInput(x) => player_input_bytes(*x),
            Packet::DesiredGameState(x) => desired_game_state_bytes(*x),
            Packet::RenderGroup(x) => render_group_bytes(*x),
            Packet::RemoveRenderGroup(x) => remove_render_group_bytes(*x),
            Packet::MatchComm(x) => match_comm_bytes(*x),
            Packet::BallPrediction(x) => ball_prediction_bytes(*x),
            Packet::ConnectionSettings(x) => connection_settings_bytes(*x),
            Packet::StopCommand(x) => stop_command_bytes(*x),
            Packet::SetLoadout(x) => set_loadout_bytes(*x),
            Packet::InitComplete => Seq::empty(),
            Packet::ControllableTeamInfo(x) => controllable_team_info_bytes(*x),
        }
    }

    /// Serializes this message's payload into `builder` and returns exactly
    /// the payload bytes: empty for a sentinel, the flatbuffer encoding of
    /// the wrapped value otherwise; decoding them under this message's tag
    /// gives this message back. The builder is reset before each use, so the
    /// bytes depend on the message alone and repeated calls do not grow the
    /// builder without bound; a sentinel leaves it untouched. The requires
    /// excludes the messages at which the external serializer itself panics,
    /// far beyond any frameable size.
    pub fn build(self, builder: &mut rlbot_flat::planus::Builder) -> (r: Vec<u8>)
        requires
            self.payload_bytes().len() < MAX_SERIALIZED_LEN,
        ensures
            r@ == self.payload_bytes(),
            payload_parses(self.tag(), r@),
            decoded_packet(self.tag(), r@) == self,
            self.is_sentinel() ==> r@ == Seq::<u8>::empty(),
            self.is_sentinel() ==> *final(builder) == *old(builder),
    {
        match self {
            Packet::NonePacket => Vec::new(),
            Packet::GamePacket(x) => build_game_packet(builder, x),
            Packet::FieldInfo(x) => build_field_info(builder, x),
            Packet::StartCommand(x) => build_start_command(builder, x),
            Packet::MatchConfiguration(x) => build_match_configuration(builder, x),
            Packet::PlayerInput(x) => build_player_input(builder, x),
            Packet::DesiredGameState(x) => build_desired_game_state(builder, x),
            Packet::RenderGroup(x) => build_render_group(builder, x),
            Packet::RemoveRenderGroup(x) => build_remove_render_group(builder, x),
            Packet::MatchComm(x) => build_match_comm(builder, x),
            Packet::BallPrediction(x) => build_ball_prediction(builder, x),
            Packet::ConnectionSettings(x) => build_connection_settings(builder, x),
            Packet::StopCommand(x) => build_stop_command(builder, x),
            Packet::SetLoadout(x) => build_set_loadout(builder, x),
            Packet::InitComplete => Vec::new(),
            Packet::ControllableTeamInfo(x) => build_controllable_team_info(builder, x),
        }
    }

    /// Reconstructs a message from a received tag and payload bytes.
    ///
    /// An unknown tag is rejected before any payload interpretation, a
    /// sentinel tag yields its sentinel whatever the payload holds, and any
    /// other known tag succeeds exactly when its variant's deserializer
    /// accepts the payload, with exactly the value it decodes to.
    pub fn from_payload(data_type: u16, payload: &[u8]) -> (r: Result<Packet, PacketParseError>)
        ensures
            !known_tag(data_type) <==> r == Err::<Packet, PacketParseError>(
                PacketParseError::InvalidDataType(data_type),
            ),
            r is Ok <==> payload_parses(data_type, payload@),
            r matches Ok(p) ==> p == decoded_packet(data_type, payload@),
            data_type == 0 ==> r == Ok::<Packet, PacketParseError>(Packet::NonePacket),
            data_type == 14 ==> r == Ok::<Packet, PacketParseError>(Packet::InitComplete),
            r matches Ok(p) ==> p.tag() == data_type,
            r matches Ok(p) ==> (p.is_sentinel() <==> sentinel_tag(data_type)),
            known_tag(data_type) ==> (r matches Err(e) ==> e is InvalidFlatbuffer
                && !sentinel_tag(data_type)),
    {
        match data_type {
            0 => Ok(Packet::NonePacket),
            1 => match parse_game_packet(payload) {
                Ok(x) => Ok(Packet::GamePacket(x)),
                Err(e) => Err(PacketParseError::InvalidFlatbuffer(e)),
            },
            2 => match parse_field_info(payload) {
                Ok(x) => Ok(Packet::FieldInfo(x)),
                Err(e) => Err(PacketParseError::InvalidFlatbuffer(e)),
            },
            3 => match parse_start_command(payload) {
                Ok(x) => Ok(Packet::StartCommand(x)),
                Err(e) => Err(PacketParseError::InvalidFlatbuffer(e)),
            },
            4 => match parse_match_configuration(payload) {
                Ok(x) => Ok(Packet::MatchConfiguration(x)),
                Err(e) => Err(PacketParseError::InvalidFlatbuffer(e)),
            },
            5 => match parse_player_input(payload) {
                Ok(x) => Ok(Packet::PlayerInput(x)),
                Err(e) => Err(PacketParseError::InvalidFlatbuffer(e)),
            },
            6 => match parse_desired_game_state(payload) {
                Ok(x) => Ok(Packet::DesiredGameState(x)),
                Err(e) => Err(PacketParseError::InvalidFlatbuffer(e)),
            },
            7 => match parse_render_group(payload) {
                Ok(x) => Ok(Packet::RenderGroup(x)),
                Err(e) => Err(PacketParseError::InvalidFlatbuffer(e)),
            },
            8 => match parse_remove_render_group(payload) {
                Ok(x) => Ok(Packet::RemoveRenderGroup(x)),
                Err(e) => Err(PacketParseError::InvalidFlatbuffer(e)),
            },
            9 => match parse_match_comm(payload) {
                Ok(x) => Ok(Packet::MatchComm(x)),
                Err(e) => Err(PacketParseError::InvalidFlatbuffer(e)),
            },
            10 => match parse_ball_prediction(payload) {
                Ok(x) => Ok(Packet::BallPrediction(x)),
                Err(e) => Err(PacketParseError::InvalidFlatbuffer(e)),
            },
            11 => match parse_connection_settings(payload) {
                Ok(x) => Ok(Packet::ConnectionSettings(x)),
                Err(e) => Err(PacketParseError::InvalidFlatbuffer(e)),
            },
            12 => match parse_stop_command(payload) {
                Ok(x) => Ok(Packet::StopCommand(x)),
                Err(e) => Err(PacketParseError::InvalidFlatbuffer(e)),
            },
            13 => match parse_set_loadout(payload) {
                Ok(x) => Ok(Packet::SetLoadout(x)),
                Err(e) => Err(PacketParseError::InvalidFlatbuffer(e)),
            },
            14 => Ok(Packet::InitComplete),
            15 => match parse_controllable_team_info(payload) {
                Ok(x) => Ok(Packet::ControllableTeamInfo(x)),
                Err(e) => Err(PacketParseError::InvalidFlatbuffer(e)),
            },
            _ => Err(PacketParseError::InvalidDataType(data_type)),
        }
    }

    /// Encodes this message as one complete frame: its tag and the payload
    /// length, big-endian, followed by exactly the serialized payload bytes,
    /// which decode back to this message. Returns `Some` exactly when the
    /// serialized payload fits the 16-bit length field; an oversize payload
    /// is refused, never truncated. A sentinel always frames, with an empty
    /// payload, a zero length field, and the builder untouched. The requires
    /// excludes the messages at which the external serializer itself panics,
    /// far beyond any frameable size.
    pub fn frame(self, builder: &mut rlbot_flat::planus::Builder) -> (r: Option<Vec<u8>>)
        requires
            self.payload_bytes().len() < MAX_SERIALIZED_LEN,
        ensures
            r is Some <==> self.payload_bytes().len() <= MAX_PAYLOAD_LEN,
            r matches Some(f) ==> f@ == frame_bytes(self.tag(), self.payload_bytes()),
            r matches Some(f) ==> frame_wf(f@) && frame_tag(f@) == self.tag(),
            r matches Some(f) ==> payload_parses(self.tag(), frame_payload(f@))
                && decoded_packet(self.tag(), frame_payload(f@)) == self,
            self.is_sentinel() ==> (r matches Some(f) && f@ == frame_bytes(
                self.tag(),
                Seq::<u8>::empty(),
            )),
            self.is_sentinel() ==> *final(builder) == *old(builder),
    {
        let tag = self.data_type();
        let payload = self.build(builder);
        if payload.len() > MAX_PAYLOAD_LEN {
            return None;
        }
        let frame = encode_frame(tag, payload.as_slice());
        proof {
            lemma_frame_round_trip(tag, payload@);
        }
        Some(frame)
    }
}

} // verus!
