use mcproto_rs::protocol::{Packet, PacketErr, RawPacket};
use mcproto_rs::types::{
    Angle, BytesSerializer, Double, Float, IntPosition, JsonText, NamedNbtTag, Slot, VarInt,
    VarLong,
};
use mcproto_rs::uuid::UUID4;
use mcproto_rs::v1_15_2::{
    BlockChangeHorizontalPosition, BossBarAction, BossBarAddSpec, BossBarColor, BossBarDivision,
    BossBarFlags, ChunkData, CombatEndSpec, CombatEvent, Dimension, GameChange, GameMode,
    HandshakeNextState, HandshakeSpec, Id, InteractAtSpec, InteractKind, LoginPluginRequestSpec,
    MapColumns, MapColumnsSpec, Packet578, PacketDirection, PlayBlockChangeSpec,
    PlayChangeGameStateSpec, PlayChunkDataWrapper, PlayDeclareRecipesSpec, PlayJoinGameSpec,
    PlayPlayerInfoSpec, PlayerInfoAction, PlayerInfoActionList, PositionAndLookFlags, Recipe,
    RecipeCraftingShapedSpec, RecipeIngredient, RecipeSmeltingSpec, RecipeSpec, RemainingBytes,
    ScoreboardObjectiveAction, ScoreboardPosition, State, StatusRequestSpec, StatusPingSpec,
    VarIntCountedArray, WorldBorderAction, WorldBorderLerpSizeSpec,
};
use mcproto_rs::{Deserialize, DeserializeErr, Serialize};
use std::fmt::Debug;

fn encode<S: Serialize>(value: &S) -> Vec<u8> {
    let mut out = BytesSerializer::default();
    value.mc_serialize(&mut out).expect("serialization should succeed");
    out.into_bytes()
}

fn round_trip<S: Serialize + Deserialize + PartialEq + Debug>(value: S) {
    let bytes = encode(&value);
    let decoded = S::mc_deserialize(bytes.as_slice()).expect("deserialization should succeed");
    assert!(decoded.data.is_empty());
    assert_eq!(decoded.value, value);
}

fn decode_err<S: Deserialize + Debug>(bytes: &[u8]) -> DeserializeErr {
    match S::mc_deserialize(bytes) {
        Ok(d) => panic!("decoded {:?}", d.value),
        Err(e) => e,
    }
}

fn message(e: DeserializeErr) -> String {
    match e {
        DeserializeErr::CannotUnderstandValue(text) => text,
        other => panic!("unexpected {:?}", other),
    }
}

fn packet_round_trip(packet: Packet578) {
    let raw = RawPacket { id: packet.id(), data: encode(&packet) };
    let back = Packet578::mc_deserialize(raw).expect("deserialize succeeds");
    assert_eq!(back, packet);
}

fn handshake() -> HandshakeSpec {
    HandshakeSpec {
        version: VarInt(578),
        server_address: String::from("localhost"),
        server_port: 25565,
        next_state: HandshakeNextState::Login,
    }
}

#[test]
fn directions_and_states() {
    assert_eq!(PacketDirection::ClientBound.opposite(), PacketDirection::ServerBound);
    assert_eq!(PacketDirection::ServerBound.opposite(), PacketDirection::ClientBound);
    assert_eq!(State::Handshaking.name(), "Handshaking");
    assert_eq!(State::Status.name(), "Status");
    assert_eq!(State::Login.name(), "Login");
    assert_eq!(State::Play.name(), "Play");
}

#[test]
fn record_is_its_fields_in_order() {
    let mut expected = vec![0xc2, 0x04, 0x09];
    expected.extend_from_slice(b"localhost");
    expected.extend_from_slice(&[0x63, 0xdd, 0x02]);
    assert_eq!(encode(&handshake()), expected);
    round_trip(handshake());
    assert_eq!(encode(&StatusRequestSpec), Vec::<u8>::new());
    round_trip(StatusRequestSpec);
    let decoded = StatusRequestSpec::mc_deserialize(&[1, 2]).expect("decodes");
    assert_eq!(decoded.data, &[1, 2]);
}

#[test]
fn record_fails_as_its_first_failing_field() {
    assert!(matches!(decode_err::<HandshakeSpec>(&[0xc2, 0x04, 0x09, b'l']), DeserializeErr::Eof));
    let mut bytes = encode(&handshake());
    let last = bytes.len() - 1;
    bytes[last] = 0x07;
    assert_eq!(message(decode_err::<HandshakeSpec>(&bytes)), "invalid HandshakeNextState 7");
}

#[test]
fn closed_value_sets() {
    assert_eq!(HandshakeNextState::from_byte(1), Some(HandshakeNextState::Status));
    assert_eq!(HandshakeNextState::from_byte(0), None);
    assert_eq!(HandshakeNextState::Login.as_byte(), 2);
    assert_eq!(HandshakeNextState::Login.name(), "Login");
    assert_eq!(BossBarColor::from_varint(VarInt(6)), Some(BossBarColor::White));
    assert_eq!(BossBarColor::from_varint(VarInt(7)), None);
    assert_eq!(BossBarColor::Red.as_varint(), VarInt(2));
    assert_eq!(Dimension::from_int(-1), Some(Dimension::Nether));
    assert_eq!(Dimension::End.as_int(), 1);
    assert_eq!(encode(&Dimension::Nether), vec![0xff, 0xff, 0xff, 0xff]);
    round_trip(Dimension::Overworld);
    round_trip(BossBarColor::Purple);
    round_trip(GameMode::Spectator);
    assert_eq!(message(decode_err::<BossBarColor>(&[0x07])), "invalid BossBarColor VarInt(7)");
    assert_eq!(message(decode_err::<Dimension>(&[0xff, 0xff, 0xff, 0xfe])), "invalid Dimension -2");
    assert_eq!(message(decode_err::<GameMode>(&[200])), "invalid GameMode 200");
}

#[test]
fn flag_bytes() {
    let mut flags = BossBarFlags::default();
    assert!(!flags.is_darken_sky());
    flags.set_darken_sky(true);
    flags.set_create_fog(true);
    assert_eq!(flags.0, 0x05);
    assert!(flags.is_darken_sky() && flags.is_create_fog() && !flags.is_dragon_bar());
    flags.set_darken_sky(false);
    assert_eq!(flags.0, 0x04);
    flags.set_darken_sky(false);
    assert_eq!(flags.0, 0x04);
    let flags = PositionAndLookFlags(0xff).with_x_rotation(false).with_x(false);
    assert_eq!(flags.0, 0xee);
    assert!(flags.is_y() && !flags.is_x());
    assert_eq!(encode(&flags), vec![0xee]);
    round_trip(flags);
}

#[test]
fn tagged_forms() {
    assert_eq!(encode(&BossBarAction::Remove), vec![0x01]);
    round_trip(BossBarAction::Remove);
    round_trip(BossBarAction::Add(BossBarAddSpec {
        title: JsonText { json: String::from("{\"text\":\"boss\"}") },
        health: Float { bits: 1.0f32.to_bits() },
        color: BossBarColor::Red,
        division: BossBarDivision::TenNotches,
        flags: BossBarFlags(3),
    }));
    assert_eq!(message(decode_err::<BossBarAction>(&[0x1f])), "invalid boss bar action id 1f");
    assert_eq!(
        message(decode_err::<BossBarAction>(&[0xff, 0xff, 0xff, 0xff, 0x0f])),
        "invalid boss bar action id ffffffff"
    );
    let end = CombatEvent::End(CombatEndSpec { duration_ticks: VarInt(20), entity_id: -1 });
    assert_eq!(encode(&end), vec![0x01, 0x14, 0xff, 0xff, 0xff, 0xff]);
    round_trip(end);
    round_trip(CombatEvent::Enter);
    assert_eq!(message(decode_err::<CombatEvent>(&[0x03])), "invalid combat event id 3");
    let lerp = WorldBorderAction::LerpSize(WorldBorderLerpSizeSpec {
        old_diameter: Double { bits: 1.5f64.to_bits() },
        new_diameter: Double { bits: 3.0f64.to_bits() },
        speed: VarLong(-5),
    });
    assert_eq!(lerp.id(), VarInt(1));
    round_trip(lerp);
    assert_eq!(message(decode_err::<WorldBorderAction>(&[0x06])), "invalid world border action id 6");
    assert_eq!(ScoreboardObjectiveAction::Remove.id(), 1);
    round_trip(ScoreboardObjectiveAction::Remove);
    assert_eq!(
        message(decode_err::<ScoreboardObjectiveAction>(&[0xff])),
        "invalid scoreboard objective action id -1"
    );
    assert_eq!(InteractKind::Attack.id(), VarInt(1));
    round_trip(InteractKind::InteractAt(InteractAtSpec {
        target_x: Float { bits: 0 },
        target_y: Float { bits: 1 },
        target_z: Float { bits: 2 },
        hand: mcproto_rs::v1_15_2::Hand::OffHand,
    }));
    assert_eq!(message(decode_err::<InteractKind>(&[0x09])), "invalid entity interact kind id 9");
}

#[test]
fn scoreboard_positions() {
    assert_eq!(ScoreboardPosition::List.id(), 0);
    assert_eq!(ScoreboardPosition::TeamSpecific(4).id(), 7);
    assert_eq!(ScoreboardPosition::TeamSpecific(127).id(), -126);
    assert_eq!(encode(&ScoreboardPosition::TeamSpecific(9)), vec![12]);
    round_trip(ScoreboardPosition::BelowName);
    round_trip(ScoreboardPosition::TeamSpecific(0));
    let decoded = ScoreboardPosition::mc_deserialize(&[12]).expect("decodes");
    assert_eq!(decoded.value, ScoreboardPosition::TeamSpecific(9));
    assert_eq!(message(decode_err::<ScoreboardPosition>(&[13])), "invalid scoreboard position id 13");
    assert_eq!(message(decode_err::<ScoreboardPosition>(&[0xff])), "invalid scoreboard position id -1");
}

#[test]
fn nibbles_and_map_columns() {
    let at = BlockChangeHorizontalPosition { rel_x: 0xa, rel_y: 0x5 };
    assert_eq!(encode(&at), vec![0xa5]);
    round_trip(at);
    assert_eq!(encode(&BlockChangeHorizontalPosition { rel_x: 0x1f, rel_y: 0x23 }), vec![0xf3]);
    assert_eq!(encode(&MapColumns::NoUpdates), vec![0x00]);
    round_trip(MapColumns::NoUpdates);
    let updated = MapColumns::Updated(MapColumnsSpec {
        columns: 2,
        rows: 1,
        x: 0,
        z: 7,
        data: VarIntCountedArray { data: vec![1, 2] },
    });
    assert_eq!(encode(&updated), vec![2, 1, 0, 7, 2, 1, 2]);
    round_trip(updated);
    let from: MapColumns = None.into();
    assert_eq!(from, MapColumns::NoUpdates);
    let back: Option<MapColumnsSpec> = MapColumns::NoUpdates.into();
    assert_eq!(back, None);
}

#[test]
fn player_info_lists() {
    let list = PlayerInfoActionList::UpdateLatency(vec![
        PlayerInfoAction { uuid: UUID4::from(1), action: VarInt(30) },
        PlayerInfoAction { uuid: UUID4::from(2), action: VarInt(300) },
    ]);
    assert_eq!(list.id(), VarInt(2));
    assert_eq!(list.len(), 2);
    assert_eq!(list.player_ids(), vec![UUID4::from(1), UUID4::from(2)]);
    let bytes = encode(&list);
    assert_eq!(&bytes[..2], &[0x02, 0x02]);
    assert_eq!(bytes.len(), 2 + 16 + 1 + 16 + 2);
    round_trip(list);
    let removed = PlayerInfoActionList::Remove(vec![UUID4::from(7)]);
    assert_eq!(removed.player_ids(), vec![UUID4::from(7)]);
    round_trip(removed);
    round_trip(PlayerInfoActionList::UpdateDisplayName(vec![PlayerInfoAction {
        uuid: UUID4::from(3),
        action: Some(JsonText { json: String::from("{}") }),
    }]));
    round_trip(PlayerInfoActionList::UpdateGameMode(vec![]));
    assert_eq!(
        message(decode_err::<PlayerInfoActionList>(&[0x05, 0x00])),
        "invalid player info action id 5"
    );
    assert!(matches!(decode_err::<PlayerInfoActionList>(&[0x05]), DeserializeErr::Eof));
    assert!(matches!(
        decode_err::<PlayerInfoActionList>(&[0x04, 0xff, 0xff, 0xff, 0xff, 0x0f]),
        DeserializeErr::NegativeLength(VarInt(-1))
    ));
}

fn ingredient() -> RecipeIngredient {
    RecipeIngredient {
        items: VarIntCountedArray {
            data: vec![Some(Slot { item_id: VarInt(1), item_count: 1, nbt: None }), None],
        },
    }
}

#[test]
fn recipes() {
    assert_eq!(Recipe::CraftingMapCloning.id(), "minecraft:crafting_special_mapcloning");
    let cloning = RecipeSpec { recipe: Recipe::CraftingBookCloning, id: String::from("book") };
    let mut expected = vec![38u8];
    expected.extend_from_slice(b"minecraft:crafting_special_bookcloning");
    expected.extend_from_slice(&[4, b'b', b'o', b'o', b'k']);
    assert_eq!(encode(&cloning), expected);
    round_trip(cloning);
    round_trip(RecipeSpec {
        recipe: Recipe::Smoking(RecipeSmeltingSpec {
            group: String::from("g"),
            ingredient: ingredient(),
            result: None,
            experience: Float { bits: 0.5f32.to_bits() },
            cooking_time: VarInt(200),
        }),
        id: String::from("smoke"),
    });
    let shaped = RecipeCraftingShapedSpec {
        width: VarInt(2),
        height: VarInt(1),
        group: String::new(),
        ingredients: vec![ingredient(), ingredient()],
        result: Some(Slot { item_id: VarInt(9), item_count: 2, nbt: None }),
    };
    round_trip(shaped.clone());
    round_trip(RecipeSpec { recipe: Recipe::CraftingShaped(shaped), id: String::from("shaped") });
    let mut unknown = vec![3u8, b'a', b'"', b'b', 0];
    assert_eq!(
        message(decode_err::<RecipeSpec>(&unknown)),
        "invalid crafting recipe kind \"a\\\"b\""
    );
    unknown.truncate(4);
    assert!(matches!(decode_err::<RecipeSpec>(&unknown), DeserializeErr::Eof));
    assert!(matches!(
        decode_err::<RecipeCraftingShapedSpec>(&[0xff, 0xff, 0xff, 0xff, 0x0f, 0x01, 0x00]),
        DeserializeErr::NegativeLength(VarInt(-1))
    ));
}

fn tree() -> NamedNbtTag {
    NamedNbtTag::from_bytes(vec![0x0a, 0x00, 0x00, 0x00]).expect("is a tree")
}

#[test]
fn chunk_data() {
    let plain = ChunkData {
        chunk_x: 1,
        chunk_z: -1,
        primary_bit_mask: VarInt(3),
        heightmaps: tree(),
        biomes: None,
        data: VarIntCountedArray { data: vec![7, 8, 9] },
        block_entities: vec![tree(), tree()],
    };
    let bytes = encode(&plain);
    assert_eq!(
        bytes,
        vec![
            0, 0, 0, 1, 0xff, 0xff, 0xff, 0xff, 0, 3, 0x0a, 0, 0, 0, 3, 7, 8, 9, 2, 0x0a, 0, 0, 0,
            0x0a, 0, 0, 0
        ]
    );
    round_trip(plain);
    let mut biomes = [0i32; 1024];
    for (i, b) in biomes.iter_mut().enumerate() {
        *b = i as i32 - 512;
    }
    let full = ChunkData {
        chunk_x: 0,
        chunk_z: 0,
        primary_bit_mask: VarInt(0),
        heightmaps: tree(),
        biomes: Some(biomes),
        data: VarIntCountedArray { data: vec![] },
        block_entities: vec![],
    };
    assert_eq!(encode(&full).len(), 4 + 4 + 1 + 1 + 4 + 4096 + 1 + 1);
    round_trip(full);
    assert!(matches!(
        decode_err::<ChunkData>(&[0, 0, 0, 1, 0, 0, 0, 1, 1, 0, 0x0a, 0, 0, 0, 0, 0]),
        DeserializeErr::Eof
    ));
}

#[test]
fn packets_round_trip() {
    packet_round_trip(Packet578::Handshake(handshake()));
    packet_round_trip(Packet578::StatusRequest(StatusRequestSpec));
    packet_round_trip(Packet578::StatusPing(StatusPingSpec { payload: -99 }));
    packet_round_trip(Packet578::LoginPluginRequest(LoginPluginRequestSpec {
        message_id: VarInt(1),
        channel: String::from("chan"),
        data: RemainingBytes { data: vec![1, 2, 3] },
    }));
    packet_round_trip(Packet578::PlayBlockChange(PlayBlockChangeSpec {
        location: IntPosition { x: -5, y: 70, z: 12 },
        block_id: VarInt(33),
    }));
    packet_round_trip(Packet578::PlayChangeGameState(PlayChangeGameStateSpec {
        reason: GameChange { reason: 3, value: Float { bits: 1.0f32.to_bits() } },
    }));
    packet_round_trip(Packet578::PlayJoinGame(PlayJoinGameSpec {
        entity_id: 1,
        gamemode: GameMode::Creative,
        dimension: Dimension::End,
        hashed_seed: 5,
        max_players: 20,
        level_type: String::from("default"),
        view_distance: VarInt(10),
        reduced_debug_info: false,
        enable_respawn_screen: true,
    }));
    packet_round_trip(Packet578::PlayPlayerInfo(PlayPlayerInfoSpec {
        actions: PlayerInfoActionList::Remove(vec![UUID4::from(5)]),
    }));
    packet_round_trip(Packet578::PlayDeclareRecipes(PlayDeclareRecipesSpec {
        recipes: VarIntCountedArray {
            data: vec![RecipeSpec { recipe: Recipe::CraftingRepairItem, id: String::from("r") }],
        },
    }));
    packet_round_trip(Packet578::PlayChunkData(PlayChunkDataWrapper {
        data: ChunkData {
            chunk_x: 0,
            chunk_z: 0,
            primary_bit_mask: VarInt(0),
            heightmaps: tree(),
            biomes: None,
            data: VarIntCountedArray { data: vec![] },
            block_entities: vec![],
        },
    }));
    let spawn = mcproto_rs::v1_15_2::PlaySpawnPlayerSpec {
        entity_id: VarInt(4),
        uuid: UUID4::from(9),
        x: Double { bits: 1.0f64.to_bits() },
        y: Double { bits: 2.0f64.to_bits() },
        z: Double { bits: 3.0f64.to_bits() },
        yaw: Angle { value: 1 },
        pitch: Angle { value: 2 },
    };
    packet_round_trip(Packet578::PlaySpawnPlayer(spawn));
}

#[test]
fn packet_identity_is_number_state_and_direction() {
    let ping = Packet578::StatusPing(StatusPingSpec { payload: 1 });
    assert_eq!(ping.id(), Id { id: 1, state: State::Status, direction: PacketDirection::ServerBound });
    assert_eq!(encode(&ping.id()), vec![0x01]);
    let id: Id = (0x5c, State::Play, PacketDirection::ClientBound).into();
    assert_eq!(id, Id { id: 0x5c, state: State::Play, direction: PacketDirection::ClientBound });
    let same_number = RawPacket {
        id: Id { id: 0, state: State::Status, direction: PacketDirection::ServerBound },
        data: vec![],
    };
    assert_eq!(
        Packet578::mc_deserialize(same_number).expect("decodes"),
        Packet578::StatusRequest(StatusRequestSpec)
    );
    let same_number = RawPacket {
        id: Id { id: 0, state: State::Play, direction: PacketDirection::ServerBound },
        data: vec![0x05],
    };
    assert!(matches!(
        Packet578::mc_deserialize(same_number).expect("decodes"),
        Packet578::PlayTeleportConfirm(_)
    ));
}

fn unknown(id: i32, state: State, direction: PacketDirection) {
    let raw = RawPacket { id: Id { id, state, direction }, data: vec![0; 64] };
    match Packet578::mc_deserialize(raw) {
        Err(PacketErr::UnknownId(n)) => assert_eq!(n, id),
        other => panic!("unexpected {:?}", other),
    }
}

#[test]
fn unknown_packet_identity_carries_its_number() {
    unknown(0x00, State::Handshaking, PacketDirection::ClientBound);
    unknown(0x01, State::Handshaking, PacketDirection::ServerBound);
    unknown(0x02, State::Status, PacketDirection::ServerBound);
    unknown(0x02, State::Status, PacketDirection::ClientBound);
    unknown(0x05, State::Login, PacketDirection::ClientBound);
    unknown(0x03, State::Login, PacketDirection::ServerBound);
    unknown(0x4c, State::Play, PacketDirection::ClientBound);
    unknown(0x4d, State::Play, PacketDirection::ClientBound);
    unknown(0x50, State::Play, PacketDirection::ClientBound);
    unknown(0x53, State::Play, PacketDirection::ClientBound);
    unknown(0x5d, State::Play, PacketDirection::ClientBound);
    unknown(0x1d, State::Play, PacketDirection::ServerBound);
    unknown(0x20, State::Play, PacketDirection::ServerBound);
    unknown(0x2e, State::Play, PacketDirection::ServerBound);
    unknown(-1, State::Play, PacketDirection::ServerBound);
    unknown(i32::MAX, State::Play, PacketDirection::ClientBound);
    for id in 0x5d..0x200 {
        unknown(id, State::Play, PacketDirection::ClientBound);
    }
}

#[test]
fn packet_body_failure_is_handed_on() {
    let raw = RawPacket {
        id: Id { id: 0, state: State::Handshaking, direction: PacketDirection::ServerBound },
        data: vec![0xc2],
    };
    assert!(matches!(
        Packet578::mc_deserialize(raw),
        Err(PacketErr::DeserializeFailed(DeserializeErr::Eof))
    ));
    let raw = RawPacket {
        id: Id { id: 0x0e, state: State::Play, direction: PacketDirection::ClientBound },
        data: vec![0x09, 0x00],
    };
    match Packet578::mc_deserialize(raw) {
        Err(PacketErr::DeserializeFailed(DeserializeErr::CannotUnderstandValue(text))) => {
            assert_eq!(text, "invalid Difficulty 9")
        }
        other => panic!("unexpected {:?}", other),
    }
}

#[test]
fn packet_body_may_be_followed_by_more() {
    let raw = RawPacket {
        id: Id { id: 1, state: State::Status, direction: PacketDirection::ClientBound },
        data: vec![0, 0, 0, 0, 0, 0, 0, 5, 0xaa],
    };
    assert!(matches!(
        Packet578::mc_deserialize(raw),
        Ok(Packet578::StatusPong(mcproto_rs::v1_15_2::StatusPongSpec { payload: 5 }))
    ));
}

#[test]
fn registry_description() {
    let spec = Packet578::describe();
    assert_eq!(spec.name, "Packet578");
    assert_eq!(spec.packets.len(), 146);
    let first = &spec.packets[0];
    assert_eq!(
        (first.state.as_str(), first.direction.as_str(), first.id, first.name.as_str()),
        ("Handshaking", "ServerBound", 0, "Handshake")
    );
    let fields: Vec<(&str, &str)> =
        first.fields.iter().map(|f| (f.name.as_str(), f.kind.as_str())).collect();
    assert_eq!(
        fields,
        vec![
            ("version", "VarInt"),
            ("server_address", "String"),
            ("server_port", "u16"),
            ("next_state", "HandshakeNextState")
        ]
    );
    assert!(spec.packets[1].fields.is_empty());
    let last = &spec.packets[145];
    assert_eq!(
        (last.state.as_str(), last.direction.as_str(), last.id, last.name.as_str()),
        ("Play", "ServerBound", 0x2d, "PlayUseItem")
    );
    for packet in &spec.packets {
        let state = match packet.state.as_str() {
            "Handshaking" => State::Handshaking,
            "Status" => State::Status,
            "Login" => State::Login,
            "Play" => State::Play,
            other => panic!("unexpected state {}", other),
        };
        let direction = match packet.direction.as_str() {
            "ClientBound" => PacketDirection::ClientBound,
            "ServerBound" => PacketDirection::ServerBound,
            other => panic!("unexpected direction {}", other),
        };
        let raw = RawPacket { id: Id { id: packet.id, state, direction }, data: vec![] };
        assert!(!matches!(Packet578::mc_deserialize(raw), Err(PacketErr::UnknownId(_))));
    }
}
