use rlbot::packet::{Packet, PacketParseError};
use rlbot::wire::read_header;
use rlbot_flat::flat::{
    BallPrediction, ConnectionSettings, ControllableTeamInfo, DesiredGameState, FieldInfo,
    GamePacket, MatchComm, MatchConfiguration, PlayerInput, RemoveRenderGroup, RenderGroup,
    SetLoadout, StartCommand, StopCommand,
};

fn new_builder() -> rlbot_flat::planus::Builder {
    rlbot_flat::planus::Builder::with_capacity(1024)
}

fn all_variants() -> Vec<Packet> {
    vec![
        Packet::NonePacket,
        Packet::GamePacket(GamePacket::default()),
        Packet::FieldInfo(FieldInfo::default()),
        Packet::StartCommand(StartCommand::default()),
        Packet::MatchConfiguration(MatchConfiguration::default()),
        Packet::PlayerInput(PlayerInput::default()),
        Packet::DesiredGameState(DesiredGameState::default()),
        Packet::RenderGroup(RenderGroup::default()),
        Packet::RemoveRenderGroup(RemoveRenderGroup::default()),
        Packet::MatchComm(MatchComm::default()),
        Packet::BallPrediction(BallPrediction::default()),
        Packet::ConnectionSettings(ConnectionSettings::default()),
        Packet::StopCommand(StopCommand::default()),
        Packet::SetLoadout(SetLoadout::default()),
        Packet::InitComplete,
        Packet::ControllableTeamInfo(ControllableTeamInfo::default()),
    ]
}

#[test]
fn tag_table_matches_wire_contract() {
    let expected: Vec<u16> = (0..16).collect();
    let tags: Vec<u16> = all_variants().iter().map(|p| p.data_type()).collect();
    assert_eq!(tags, expected);
}

#[test]
fn tag_bytes_stable_across_encodings() {
    let mut builder = new_builder();
    let first = Packet::StopCommand(StopCommand {
        shutdown_server: true,
    })
    .frame(&mut builder)
    .unwrap();
    let second = Packet::StopCommand(StopCommand {
        shutdown_server: false,
    })
    .frame(&mut builder)
    .unwrap();
    assert_eq!(&first[0..2], &[0, 12]);
    assert_eq!(&second[0..2], &[0, 12]);
}

#[test]
fn sentinel_frames_are_empty() {
    let mut builder = new_builder();
    let none_frame = Packet::NonePacket.frame(&mut builder).unwrap();
    assert_eq!(none_frame, vec![0, 0, 0, 0]);
    let init_frame = Packet::InitComplete.frame(&mut builder).unwrap();
    assert_eq!(init_frame, vec![0, 14, 0, 0]);
}

#[test]
fn sentinel_decode_ignores_payload() {
    assert!(matches!(
        Packet::from_payload(0, &[1, 2, 3]),
        Ok(Packet::NonePacket)
    ));
    assert!(matches!(Packet::from_payload(0, &[]), Ok(Packet::NonePacket)));
    assert!(matches!(
        Packet::from_payload(14, &[9, 9, 9, 9, 9]),
        Ok(Packet::InitComplete)
    ));
    assert!(matches!(
        Packet::from_payload(14, &[]),
        Ok(Packet::InitComplete)
    ));
}

#[test]
fn unknown_tag_is_rejected() {
    assert!(matches!(
        Packet::from_payload(9999, &[1, 2, 3]),
        Err(PacketParseError::InvalidDataType(9999))
    ));
    assert!(matches!(
        Packet::from_payload(16, &[]),
        Err(PacketParseError::InvalidDataType(16))
    ));
    assert!(matches!(
        Packet::from_payload(65535, &[0; 64]),
        Err(PacketParseError::InvalidDataType(65535))
    ));
}

#[test]
fn malformed_payload_is_a_flatbuffer_error() {
    assert!(matches!(
        Packet::from_payload(1, &[0xff, 0xff, 0xff]),
        Err(PacketParseError::InvalidFlatbuffer(_))
    ));
    assert!(matches!(
        Packet::from_payload(11, &[]),
        Err(PacketParseError::InvalidFlatbuffer(_))
    ));
}

#[test]
fn interior_malformation_is_an_error_not_a_panic() {
    // A buffer whose root table and vtable are valid, but whose one field
    // offset points far outside the buffer: the root read succeeds and only
    // the field walk can catch it.
    let crafted: Vec<u8> = vec![
        4, 0, 0, 0, // root offset: table at byte 4
        0xf8, 0xff, 0xff, 0xff, // table: vtable is 8 bytes ahead, at byte 12
        0xff, 0xff, 0, 0, // field slot: offset 65535, out of bounds
        6, 0, // vtable: 6 bytes long
        8, 0, // table: 8 bytes long
        4, 0, // field stored at table offset 4
    ];
    // Both variants whose first field is a string must follow the bad offset
    // and fail; a variant whose first field is an in-range scalar may accept
    // the buffer, which is planus's call, not this library's.
    assert!(matches!(
        Packet::from_payload(3, &crafted),
        Err(PacketParseError::InvalidFlatbuffer(_))
    ));
    assert!(matches!(
        Packet::from_payload(11, &crafted),
        Err(PacketParseError::InvalidFlatbuffer(_))
    ));
}

fn frame_and_decode(packet: Packet) -> Packet {
    let mut builder = new_builder();
    let frame = packet.frame(&mut builder).unwrap();
    let header: [u8; 4] = frame[0..4].try_into().unwrap();
    let (tag, len) = read_header(&header);
    assert_eq!(frame.len(), 4 + len as usize);
    Packet::from_payload(tag, &frame[4..]).unwrap()
}

#[test]
fn round_trip_every_variant() {
    for packet in all_variants() {
        let tag = packet.data_type();
        let decoded = frame_and_decode(packet);
        assert_eq!(decoded.data_type(), tag);
    }
}

#[test]
fn round_trip_keeps_payload_values() {
    let settings = ConnectionSettings {
        agent_id: "team/bot".to_string(),
        wants_ball_predictions: true,
        wants_comms: false,
        close_between_matches: true,
    };
    match frame_and_decode(Packet::ConnectionSettings(settings.clone())) {
        Packet::ConnectionSettings(decoded) => assert_eq!(decoded, settings),
        other => panic!("wrong variant: {:?}", other.data_type()),
    }

    let comm = MatchComm {
        index: 3,
        team: 1,
        team_only: true,
        display: Some("hello".to_string()),
        content: vec![1, 2, 3, 4, 5],
    };
    match frame_and_decode(Packet::MatchComm(comm.clone())) {
        Packet::MatchComm(decoded) => assert_eq!(decoded, comm),
        other => panic!("wrong variant: {:?}", other.data_type()),
    }

    let stop = StopCommand {
        shutdown_server: true,
    };
    match frame_and_decode(Packet::StopCommand(stop.clone())) {
        Packet::StopCommand(decoded) => assert_eq!(decoded, stop),
        other => panic!("wrong variant: {:?}", other.data_type()),
    }

    let start = StartCommand {
        config_path: "match.toml".to_string(),
    };
    match frame_and_decode(Packet::StartCommand(start.clone())) {
        Packet::StartCommand(decoded) => assert_eq!(decoded, start),
        other => panic!("wrong variant: {:?}", other.data_type()),
    }

    let remove = RemoveRenderGroup { id: -7 };
    match frame_and_decode(Packet::RemoveRenderGroup(remove.clone())) {
        Packet::RemoveRenderGroup(decoded) => assert_eq!(decoded, remove),
        other => panic!("wrong variant: {:?}", other.data_type()),
    }
}

#[test]
fn oversize_payload_does_not_frame() {
    let mut builder = new_builder();
    let comm = MatchComm {
        index: 0,
        team: 0,
        team_only: false,
        display: None,
        content: vec![0xab; 70000],
    };
    assert!(Packet::MatchComm(comm).frame(&mut builder).is_none());
}

#[test]
fn client_exchange_over_a_byte_wire() {
    // Client side: frame a payload-carrying message and put it on the wire.
    let mut client_builder = new_builder();
    let sent = ConnectionSettings {
        agent_id: "team/bot".to_string(),
        wants_ball_predictions: true,
        wants_comms: true,
        close_between_matches: false,
    };
    let wire: Vec<u8> = Packet::ConnectionSettings(sent.clone())
        .frame(&mut client_builder)
        .unwrap();

    // Server side: read the header, then exactly the declared payload.
    let header: [u8; 4] = wire[0..4].try_into().unwrap();
    let (tag, len) = read_header(&header);
    assert_eq!(tag, 11);
    assert_eq!(wire.len(), 4 + len as usize);
    let received = Packet::from_payload(tag, &wire[4..4 + len as usize]).unwrap();
    match received {
        Packet::ConnectionSettings(decoded) => assert_eq!(decoded, sent),
        other => panic!("wrong variant: {:?}", other.data_type()),
    }

    // Server replies with the init-complete sentinel; the client observes a
    // zero-length payload on the wire and decodes the sentinel.
    let mut server_builder = new_builder();
    let reply: Vec<u8> = Packet::InitComplete.frame(&mut server_builder).unwrap();
    assert_eq!(reply, vec![0, 14, 0, 0]);
    let reply_header: [u8; 4] = reply[0..4].try_into().unwrap();
    let (reply_tag, reply_len) = read_header(&reply_header);
    assert_eq!(reply_len, 0);
    assert!(matches!(
        Packet::from_payload(reply_tag, &reply[4..]),
        Ok(Packet::InitComplete)
    ));
}

#[test]
fn from_wraps_each_payload_type() {
    assert!(matches!(
        Packet::from(StopCommand::default()),
        Packet::StopCommand(_)
    ));
    assert!(matches!(
        Packet::from(GamePacket::default()),
        Packet::GamePacket(_)
    ));
    let p: Packet = ConnectionSettings::default().into();
    assert!(matches!(p, Packet::ConnectionSettings(_)));
}
