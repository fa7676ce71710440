//! The message variant registry: the closed set of wire-level message kinds
//! and the stable numeric tag assigned to each.
//!
//! Tags are part of the wire contract and are never reassigned: tag 0 is the
//! "no message" sentinel, tag 14 the "init complete" sentinel, and tags
//! 1 through 13 and 15 each carry one externally defined payload type.

use vstd::prelude::*;

verus! {

/// Declares the externally defined payload type flat::GamePacket for Verus:
/// opaque here, carried through untouched.
#[verifier::external_type_specification]
#[verifier::external_body]
pub struct ExGamePacket(rlbot_flat::flat::GamePacket);

/// Declares the externally defined payload type flat::FieldInfo for Verus:
/// opaque here, carried through untouched.
#[verifier::external_type_specification]
#[verifier::external_body]
pub struct ExFieldInfo(rlbot_flat::flat::FieldInfo);

/// Declares the externally defined payload type flat::StartCommand for Verus:
/// opaque here, carried through untouched.
#[verifier::external_type_specification]
#[verifier::external_body]
pub struct ExStartCommand(rlbot_flat::flat::StartCommand);

/// Declares the externally defined payload type flat::MatchConfiguration for Verus:
/// opaque here, carried through untouched.
#[verifier::external_type_specification]
#[verifier::external_body]
pub struct ExMatchConfiguration(rlbot_flat::flat::MatchConfiguration);

/// Declares the externally defined payload type flat::PlayerInput for Verus:
/// opaque here, carried through untouched.
#[verifier::external_type_specification]
#[verifier::external_body]
pub struct ExPlayerInput(rlbot_flat::flat::PlayerInput);

/// Declares the externally defined payload type flat::DesiredGameState for Verus:
/// opaque here, carried through untouched.
#[verifier::external_type_specification]
#[verifier::external_body]
pub struct ExDesiredGameState(rlbot_flat::flat::DesiredGameState);

/// Declares the externally defined payload type flat::RenderGroup for Verus:
/// opaque here, carried through untouched.
#[verifier::external_type_specification]
#[verifier::external_body]
pub struct ExRenderGroup(rlbot_flat::flat::RenderGroup);

/// Declares the externally defined payload type flat::RemoveRenderGroup for Verus:
/// opaque here, carried through untouched.
#[verifier::external_type_specification]
#[verifier::external_body]
pub struct ExRemoveRenderGroup(rlbot_flat::flat::RemoveRenderGroup);

/// Declares the externally defined payload type flat::MatchComm for Verus:
/// opaque here, carried through untouched.
#[verifier::external_type_specification]
#[verifier::external_body]
pub struct ExMatchComm(rlbot_flat::flat::MatchComm);

/// Declares the externally defined payload type flat::BallPrediction for Verus:
/// opaque here, carried through untouched.
#[verifier::external_type_specification]
#[verifier::external_body]
pub struct ExBallPrediction(rlbot_flat::flat::BallPrediction);

/// Declares the externally defined payload type flat::ConnectionSettings for Verus:
/// opaque here, carried through untouched.
#[verifier::external_type_specification]
#[verifier::external_body]
pub struct ExConnectionSettings(rlbot_flat::flat::ConnectionSettings);

/// Declares the externally defined payload type flat::StopCommand for Verus:
/// opaque here, carried through untouched.
#[verifier::external_type_specification]
#[verifier::external_body]
pub struct ExStopCommand(rlbot_flat::flat::StopCommand);

/// Declares the externally defined payload type flat::SetLoadout for Verus:
/// opaque here, carried through untouched.
#[verifier::external_type_specification]
#[verifier::external_body]
pub struct ExSetLoadout(rlbot_flat::flat::SetLoadout);

/// Declares the externally defined payload type flat::ControllableTeamInfo for Verus:
/// opaque here, carried through untouched.
#[verifier::external_type_specification]
#[verifier::external_body]
pub struct ExControllableTeamInfo(rlbot_flat::flat::ControllableTeamInfo);

/// Declares planus::Error, the planus deserialization error, for Verus:
/// opaque here, carried through untouched.
#[verifier::external_type_specification]
#[verifier::external_body]
pub struct ExPlanusError(rlbot_flat::planus::Error);

/// One wire-level message: a closed tagged union over the externally defined
/// payload types, plus the two payload-free sentinels.
#[derive(Debug)]
pub enum Packet {
    NonePacket,
    GamePacket(rlbot_flat::flat::GamePacket),
    FieldInfo(rlbot_flat::flat::FieldInfo),
    StartCommand(rlbot_flat::flat::StartCommand),
    MatchConfiguration(rlbot_flat::flat::MatchConfiguration),
    PlayerInput(rlbot_flat::flat::PlayerInput),
    DesiredGameState(rlbot_flat::flat::DesiredGameState),
    RenderGroup(rlbot_flat::flat::RenderGroup),
    RemoveRenderGroup(rlbot_flat::flat::RemoveRenderGroup),
    MatchComm(rlbot_flat::flat::MatchComm),
    BallPrediction(rlbot_flat::flat::BallPrediction),
    ConnectionSettings(rlbot_flat::flat::ConnectionSettings),
    StopCommand(rlbot_flat::flat::StopCommand),
    SetLoadout(rlbot_flat::flat::SetLoadout),
    InitComplete,
    ControllableTeamInfo(rlbot_flat::flat::ControllableTeamInfo),
}

/// Failure to turn a received frame back into a message.
#[derive(Debug)]
pub enum PacketParseError {
    /// The received tag has no known variant mapping.
    InvalidDataType(u16),
    /// The payload bytes failed structural deserialization.
    InvalidFlatbuffer(rlbot_flat::planus::Error),
}

/// Holds exactly of the tags that map to a known variant.
pub open spec fn known_tag(tag: u16) -> bool {
    tag <= 15
}

/// Holds of the tags whose variant carries no payload bytes.
pub open spec fn sentinel_tag(tag: u16) -> bool {
    tag == 0 || tag == 14
}

impl Packet {
    /// The stable numeric tag of this variant: the wire contract's tag table.
    pub open spec fn tag(&self) -> u16 {
        match self {
            Packet::NonePacket => 0,
            Packet::GamePacket(_) => 1,
            Packet::FieldInfo(_) => 2,
            Packet::StartCommand(_) => 3,
            Packet::MatchConfiguration(_) => 4,
            Packet::PlayerInput(_) => 5,
            Packet::DesiredGameState(_) => 6,
            Packet::RenderGroup(_) => 7,
            Packet::RemoveRenderGroup(_) => 8,
            Packet::MatchComm(_) => 9,
            Packet::BallPrediction(_) => 10,
            Packet::ConnectionSettings(_) => 11,
            Packet::StopCommand(_) => 12,
            Packet::SetLoadout(_) => 13,
            Packet::InitComplete => 14,
            Packet::ControllableTeamInfo(_) => 15,
        }
    }

    /// Whether this variant is one of the two payload-free sentinels.
    pub open spec fn is_sentinel(&self) -> bool {
        self is NonePacket || self is InitComplete
    }

    /// Looks up this variant's tag. Total: every variant has exactly one tag.
    pub fn data_type(&self) -> (r: u16)
        ensures
            r == self.tag(),
            known_tag(r),
            sentinel_tag(r) <==> self.is_sentinel(),
    {
        match self {
            Packet::NonePacket => 0,
            Packet::GamePacket(_) => 1,
            Packet::FieldInfo(_) => 2,
            Packet::StartCommand(_) => 3,
            Packet::MatchConfiguration(_) => 4,
            Packet::PlayerInput(_) => 5,
            Packet::DesiredGameState(_) => 6,
            Packet::RenderGroup(_) => 7,
            Packet::RemoveRenderGroup(_) => 8,
            Packet::MatchComm(_) => 9,
            Packet::BallPrediction(_) => 10,
            Packet::ConnectionSettings(_) => 11,
            Packet::StopCommand(_) => 12,
            Packet::SetLoadout(_) => 13,
            Packet::InitComplete => 14,
            Packet::ControllableTeamInfo(_) => 15,
        }
    }
}

/// No two variants share a tag: equal tags mean the same variant, so the tag
/// table is a bijection between variants and the known tags.
pub proof fn lemma_tag_unique(a: Packet, b: Packet)
    requires
        a.tag() == b.tag(),
    ensures
        a is NonePacket <==> b is NonePacket,
        a is GamePacket <==> b is GamePacket,
        a is FieldInfo <==> b is FieldInfo,
        a is StartCommand <==> b is StartCommand,
        a is MatchConfiguration <==> b is MatchConfiguration,
        a is PlayerInput <==> b is PlayerInput,
        a is DesiredGameState <==> b is DesiredGameState,
        a is RenderGroup <==> b is RenderGroup,
        a is RemoveRenderGroup <==> b is RemoveRenderGroup,
        a is MatchComm <==> b is MatchComm,
        a is BallPrediction <==> b is BallPrediction,
        a is ConnectionSettings <==> b is ConnectionSettings,
        a is StopCommand <==> b is StopCommand,
        a is SetLoadout <==> b is SetLoadout,
        a is InitComplete <==> b is InitComplete,
        a is ControllableTeamInfo <==> b is ControllableTeamInfo,
{
}

impl From<rlbot_flat::flat::GamePacket> for Packet {
    /// Wraps the payload in its variant, unconditionally.
    fn from(x: rlbot_flat::flat::GamePacket) -> (r: Packet) {
        Packet::GamePacket(x)
    }
}

impl vstd::std_specs::convert::FromSpecImpl<rlbot_flat::flat::GamePacket> for Packet {
    open spec fn obeys_from_spec() -> bool {
        true
    }

    open spec fn from_spec(x: rlbot_flat::flat::GamePacket) -> Packet {
        Packet::GamePacket(x)
    }
}

impl From<rlbot_flat::flat::FieldInfo> for Packet {
    /// Wraps the payload in its variant, unconditionally.
    fn from(x: rlbot_flat::flat::FieldInfo) -> (r: Packet) {
        Packet::FieldInfo(x)
    }
}

impl vstd::std_specs::convert::FromSpecImpl<rlbot_flat::flat::FieldInfo> for Packet {
    open spec fn obeys_from_spec() -> bool {
        true
    }

    open spec fn from_spec(x: rlbot_flat::flat::FieldInfo) -> Packet {
        Packet::FieldInfo(x)
    }
}

impl From<rlbot_flat::flat::StartCommand> for Packet {
    /// Wraps the payload in its variant, unconditionally.
    fn from(x: rlbot_flat::flat::StartCommand) -> (r: Packet) {
        Packet::StartCommand(x)
    }
}

impl vstd::std_specs::convert::FromSpecImpl<rlbot_flat::flat::StartCommand> for Packet {
    open spec fn obeys_from_spec() -> bool {
        true
    }

    open spec fn from_spec(x: rlbot_flat::flat::StartCommand) -> Packet {
        Packet::StartCommand(x)
    }
}

impl From<rlbot_flat::flat::MatchConfiguration> for Packet {
    /// Wraps the payload in its variant, unconditionally.
    fn from(x: rlbot_flat::flat::MatchConfiguration) -> (r: Packet) {
        Packet::MatchConfiguration(x)
    }
}

impl vstd::std_specs::convert::FromSpecImpl<rlbot_flat::flat::MatchConfiguration> for Packet {
    open spec fn obeys_from_spec() -> bool {
        true
    }

    open spec fn from_spec(x: rlbot_flat::flat::MatchConfiguration) -> Packet {
        Packet::MatchConfiguration(x)
    }
}

impl From<rlbot_flat::flat::PlayerInput> for Packet {
    /// Wraps the payload in its variant, unconditionally.
    fn from(x: rlbot_flat::flat::PlayerInput) -> (r: Packet) {
        Packet::PlayerInput(x)
    }
}

impl vstd::std_specs::convert::FromSpecImpl<rlbot_flat::flat::PlayerInput> for Packet {
    open spec fn obeys_from_spec() -> bool {
        true
    }

    open spec fn from_spec(x: rlbot_flat::flat::PlayerInput) -> Packet {
        Packet::PlayerInput(x)
    }
}

impl From<rlbot_flat::flat::DesiredGameState> for Packet {
    /// Wraps the payload in its variant, unconditionally.
    fn from(x: rlbot_flat::flat::DesiredGameState) -> (r: Packet) {
        Packet::DesiredGameState(x)
    }
}

impl vstd::std_specs::convert::FromSpecImpl<rlbot_flat::flat::DesiredGameState> for Packet {
    open spec fn obeys_from_spec() -> bool {
        true
    }

    open spec fn from_spec(x: rlbot_flat::flat::DesiredGameState) -> Packet {
        Packet::DesiredGameState(x)
    }
}

impl From<rlbot_flat::flat::RenderGroup> for Packet {
    /// Wraps the payload in its variant, unconditionally.
    fn from(x: rlbot_flat::flat::RenderGroup) -> (r: Packet) {
        Packet::RenderGroup(x)
    }
}

impl vstd::std_specs::convert::FromSpecImpl<rlbot_flat::flat::RenderGroup> for Packet {
    open spec fn obeys_from_spec() -> bool {
        true
    }

    open spec fn from_spec(x: rlbot_flat::flat::RenderGroup) -> Packet {
        Packet::RenderGroup(x)
    }
}

impl From<rlbot_flat::flat::RemoveRenderGroup> for Packet {
    /// Wraps the payload in its variant, unconditionally.
    fn from(x: rlbot_flat::flat::RemoveRenderGroup) -> (r: Packet) {
        Packet::RemoveRenderGroup(x)
    }
}

impl vstd::std_specs::convert::FromSpecImpl<rlbot_flat::flat::RemoveRenderGroup> for Packet {
    open spec fn obeys_from_spec() -> bool {
        true
    }

    open spec fn from_spec(x: rlbot_flat::flat::RemoveRenderGroup) -> Packet {
        Packet::RemoveRenderGroup(x)
    }
}

impl From<rlbot_flat::flat::MatchComm> for Packet {
    /// Wraps the payload in its variant, unconditionally.
    fn from(x: rlbot_flat::flat::MatchComm) -> (r: Packet) {
        Packet::MatchComm(x)
    }
}

impl vstd::std_specs::convert::FromSpecImpl<rlbot_flat::flat::MatchComm> for Packet {
    open spec fn obeys_from_spec() -> bool {
        true
    }

    open spec fn from_spec(x: rlbot_flat::flat::MatchComm) -> Packet {
        Packet::MatchComm(x)
    }
}

impl From<rlbot_flat::flat::BallPrediction> for Packet {
    /// Wraps the payload in its variant, unconditionally.
    fn from(x: rlbot_flat::flat::BallPrediction) -> (r: Packet) {
        Packet::BallPrediction(x)
    }
}

impl vstd::std_specs::convert::FromSpecImpl<rlbot_flat::flat::BallPrediction> for Packet {
    open spec fn obeys_from_spec() -> bool {
        true
    }

    open spec fn from_spec(x: rlbot_flat::flat::BallPrediction) -> Packet {
        Packet::BallPrediction(x)
    }
}

impl From<rlbot_flat::flat::ConnectionSettings> for Packet {
    /// Wraps the payload in its variant, unconditionally.
    fn from(x: rlbot_flat::flat::ConnectionSettings) -> (r: Packet) {
        Packet::ConnectionSettings(x)
    }
}

impl vstd::std_specs::convert::FromSpecImpl<rlbot_flat::flat::ConnectionSettings> for Packet {
    open spec fn obeys_from_spec() -> bool {
        true
    }

    open spec fn from_spec(x: rlbot_flat::flat::ConnectionSettings) -> Packet {
        Packet::ConnectionSettings(x)
    }
}

impl From<rlbot_flat::flat::StopCommand> for Packet {
    /// Wraps the payload in its variant, unconditionally.
    fn from(x: rlbot_flat::flat::StopCommand) -> (r: Packet) {
        Packet::StopCommand(x)
    }
}

impl vstd::std_specs::convert::FromSpecImpl<rlbot_flat::flat::StopCommand> for Packet {
    open spec fn obeys_from_spec() -> bool {
        true
    }

    open spec fn from_spec(x: rlbot_flat::flat::StopCommand) -> Packet {
        Packet::StopCommand(x)
    }
}

impl From<rlbot_flat::flat::SetLoadout> for Packet {
    /// Wraps the payload in its variant, unconditionally.
    fn from(x: rlbot_flat::flat::SetLoadout) -> (r: Packet) {
        Packet::SetLoadout(x)
    }
}

impl vstd::std_specs::convert::FromSpecImpl<rlbot_flat::flat::SetLoadout> for Packet {
    open spec fn obeys_from_spec() -> bool {
        true
    }

    open spec fn from_spec(x: rlbot_flat::flat::SetLoadout) -> Packet {
        Packet::SetLoadout(x)
    }
}

impl From<rlbot_flat::flat::ControllableTeamInfo> for Packet {
    /// Wraps the payload in its variant, unconditionally.
    fn from(x: rlbot_flat::flat::ControllableTeamInfo) -> (r: Packet) {
        Packet::ControllableTeamInfo(x)
    }
}

impl vstd::std_specs::convert::FromSpecImpl<rlbot_flat::flat::ControllableTeamInfo> for Packet {
    open spec fn obeys_from_spec() -> bool {
        true
    }

    open spec fn from_spec(x: rlbot_flat::flat::ControllableTeamInfo) -> Packet {
        Packet::ControllableTeamInfo(x)
    }
}

} // verus!
