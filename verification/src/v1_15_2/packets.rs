use crate::deserialize::{Deserialize, Fault};
use crate::protocol::{
    fault_of, Packet, PacketErr, ProtocolPacketField, ProtocolPacketSpec, ProtocolSpec, RawPacket,
};
use crate::serialize::{Serialize, SerializeResult, Serializer};
use crate::types::VarInt;
use crate::v1_15_2::bodies::{
    HandshakeSpec, LoginDisconnectSpec, LoginEncryptionRequestSpec, LoginEncryptionResponseSpec,
    LoginPluginRequestSpec, LoginPluginResponseSpec, LoginSetCompressionSpec, LoginStartSpec,
    LoginSuccessSpec, PlayAcknowledgePlayerDiggingSpec, PlayAdvancementsSpec,
    PlayAttachEntitySpec, PlayBlockActionSpec, PlayBlockBreakAnimationSpec, PlayBlockChangeSpec,
    PlayBlockEntityDataSpec, PlayBlockPlacementSpec, PlayBossBarSpec, PlayCameraSpec,
    PlayChangeGameStateSpec, PlayChunkDataWrapper, PlayClickWindowButtonSpec, PlayClickWindowSpec,
    PlayClientAnimationSpec, PlayClientChatMessageSpec, PlayClientCloseWindowSpec,
    PlayClientHeldItemChangeSpec, PlayClientKeepAliveSpec, PlayClientPlayerAbilitiesSpec,
    PlayClientPlayerPositionAndRotationSpec, PlayClientPluginMessageSpec, PlayClientSettingsSpec,
    PlayClientStatusSpec, PlayClientTabCompleteSpec, PlayClientVehicleMoveSpec,
    PlayClientWindowConfirmationSpec, PlayCollectItemSpec, PlayCombatEventSpec,
    PlayCraftRecipeRequestSpec, PlayCraftRecipeResponseSpec, PlayCreativeInventoryActionSpec,
    PlayDeclareCommandsSpec, PlayDeclareRecipesSpec, PlayDestroyEntitiesSpec, PlayDisconnectSpec,
    PlayDisplayScoreboardSpec, PlayEditBookSpec, PlayEffectSpec, PlayEntityActionSpec,
    PlayEntityAnimationSpec, PlayEntityEffectSpec, PlayEntityEquiptmentSpec,
    PlayEntityHeadLookSpec, PlayEntityMetadataSpec, PlayEntityMovementSpec,
    PlayEntityPositionAndRotationSpec, PlayEntityPositionSpec, PlayEntityPropertiesSpec,
    PlayEntityRotationSpec, PlayEntitySoundEffectSpec, PlayEntityStatusSpec,
    PlayEntityTeleportSpec, PlayEntityVehicleMoveSpec, PlayEntityVelocitySpec, PlayExposionSpec,
    PlayFacePlayerSpec, PlayInteractEntitySpec, PlayJoinGameSpec, PlayLockDifficultySpec,
    PlayMapDataSpec, PlayMultiBlockChangeSpec, PlayNameItemSpec, PlayNamedSoundEffectSpec,
    PlayNbtQueryResponseSpec, PlayOpenBookSpec, PlayOpenHorseWindowSpec, PlayOpenSignEditorSpec,
    PlayOpenWindowSpec, PlayParticleSpec, PlayPickItemSpec, PlayPlayerDiggingSpec,
    PlayPlayerInfoSpec, PlayPlayerListHeaderAndFooterSpec, PlayPlayerMovementSpec,
    PlayPlayerPositionSpec, PlayPlayerRotationSpec, PlayQueryBlockNbtSpec, PlayQueryEntityNbtSpec,
    PlayRemoveEntityEffectSpec, PlayResourcePackSendSpec, PlayResourcePackStatusSpec,
    PlayRespawnSpec, PlayScoreboardObjectiveSpec, PlaySelectAdvancementTabSpec,
    PlaySelectTradeSpec, PlayServerChatMessageSpec, PlayServerCloseWindowSpec,
    PlayServerDifficultySpec, PlayServerHeldItemChangeSpec, PlayServerKeepAliveSpec,
    PlayServerPlayerAbilitiesSpec, PlayServerPlayerPositionAndLookSpec,
    PlayServerPluginMessageSpec, PlayServerWindowConfirmationSpec, PlaySetBeaconEffectSpec,
    PlaySetCooldownSpec, PlaySetDifficultySpec, PlaySetExperienceSpec, PlaySetPassengersSpec,
    PlaySetSlotSpec, PlaySoundEffectSpec, PlaySpawnEntitySpec, PlaySpawnExperienceOrbSpec,
    PlaySpawnLivingEntitySpec, PlaySpawnPaintingSpec, PlaySpawnPlayerSpec, PlaySpawnPositionSpec,
    PlaySpawnWeatherEntitySpec, PlaySpectateSpec, PlayStatisticsSpec, PlaySteerBoatSpec,
    PlaySteerVehicleSpec, PlayTabCompleteSpec, PlayTagsSpec, PlayTeleportConfirmSpec,
    PlayTimeUpdateSpec, PlayTradeListSpec, PlayUnloadChunkSpec, PlayUnlockRecipesSpec,
    PlayUpdateCommandBlockMinecartSpec, PlayUpdateCommandBlockSpec, PlayUpdateHealthSpec,
    PlayUpdateJigsawBlockSpec, PlayUpdateLoightSpec, PlayUpdateSignSpec,
    PlayUpdateStructureBlockSpec, PlayUpdateViewDistanceSpec, PlayUpdateViewPositionSpec,
    PlayUseItemSpec, PlayWindowItemsSpec, PlayWindowPropertySpec, PlayWorldBorderSpec,
    StatusPingSpec, StatusPongSpec, StatusRequestSpec, StatusResponseSpec,
};
use crate::v1_15_2::{PacketDirection, State};
use vstd::prelude::*;

verus! {

/// The identity of a packet: its number, and the state and the direction in
/// which the number is to be read. Two packets may share a number where they
/// differ in state or direction.
#[derive(Debug, PartialEq, Eq, Clone, Copy)]
pub struct Id {
    pub id: i32,
    pub state: State,
    pub direction: PacketDirection,
}

impl Serialize for Id {
    /// Only the number travels; state and direction are known to both ends.
    open spec fn wire(&self) -> Seq<u8> {
        VarInt(self.id).wire()
    }

    fn mc_serialize<S: Serializer>(&self, to: &mut S) -> (res: SerializeResult) {
        VarInt(self.id).mc_serialize(to)
    }
}

impl From<(i32, State, PacketDirection)> for Id {
    fn from(tuple: (i32, State, PacketDirection)) -> (res: Self) {
        let (id, state, direction) = tuple;
        Id { id, state, direction }
    }
}

impl vstd::std_specs::convert::FromSpecImpl<(i32, State, PacketDirection)> for Id {
    open spec fn obeys_from_spec() -> bool {
        true
    }

    open spec fn from_spec(tuple: (i32, State, PacketDirection)) -> Self {
        Id { id: tuple.0, state: tuple.1, direction: tuple.2 }
    }
}

/// Every packet of protocol version 578, each with its body.
#[derive(Debug, PartialEq, Clone)]
pub enum Packet578 {
    Handshake(HandshakeSpec),
    StatusRequest(StatusRequestSpec),
    StatusPing(StatusPingSpec),
    StatusResponse(StatusResponseSpec),
    StatusPong(StatusPongSpec),
    LoginDisconnect(LoginDisconnectSpec),
    LoginEncryptionRequest(LoginEncryptionRequestSpec),
    LoginSuccess(LoginSuccessSpec),
    LoginSetCompression(LoginSetCompressionSpec),
    LoginPluginRequest(LoginPluginRequestSpec),
    LoginStart(LoginStartSpec),
    LoginEncryptionResponse(LoginEncryptionResponseSpec),
    LoginPluginResponse(LoginPluginResponseSpec),
    PlaySpawnEntity(PlaySpawnEntitySpec),
    PlaySpawnExperienceOrb(PlaySpawnExperienceOrbSpec),
    PlaySpawnWeatherEntity(PlaySpawnWeatherEntitySpec),
    PlaySpawnLivingEntity(PlaySpawnLivingEntitySpec),
    PlaySpawnPainting(PlaySpawnPaintingSpec),
    PlaySpawnPlayer(PlaySpawnPlayerSpec),
    PlayEntityAnimation(PlayEntityAnimationSpec),
    PlayStatistics(PlayStatisticsSpec),
    PlayAcknowledgePlayerDigging(PlayAcknowledgePlayerDiggingSpec),
    PlayBlockBreakAnimation(PlayBlockBreakAnimationSpec),
    PlayBlockEntityData(PlayBlockEntityDataSpec),
    PlayBlockAction(PlayBlockActionSpec),
    PlayBlockChange(PlayBlockChangeSpec),
    PlayBossBar(PlayBossBarSpec),
    PlayServerDifficulty(PlayServerDifficultySpec),
    PlayServerChatMessage(PlayServerChatMessageSpec),
    PlayMultiBlockChange(PlayMultiBlockChangeSpec),
    PlayTabComplete(PlayTabCompleteSpec),
    PlayDeclareCommands(PlayDeclareCommandsSpec),
    PlayServerWindowConfirmation(PlayServerWindowConfirmationSpec),
    PlayServerCloseWindow(PlayServerCloseWindowSpec),
    PlayWindowItems(PlayWindowItemsSpec),
    PlayWindowProperty(PlayWindowPropertySpec),
    PlaySetSlot(PlaySetSlotSpec),
    PlaySetCooldown(PlaySetCooldownSpec),
    PlayServerPluginMessage(PlayServerPluginMessageSpec),
    PlayNamedSoundEffect(PlayNamedSoundEffectSpec),
    PlayDisconnect(PlayDisconnectSpec),
    PlayEntityStatus(PlayEntityStatusSpec),
    PlayExposion(PlayExposionSpec),
    PlayUnloadChunk(PlayUnloadChunkSpec),
    PlayChangeGameState(PlayChangeGameStateSpec),
    PlayOpenHorseWindow(PlayOpenHorseWindowSpec),
    PlayServerKeepAlive(PlayServerKeepAliveSpec),
    PlayChunkData(PlayChunkDataWrapper),
    PlayEffect(PlayEffectSpec),
    PlayParticle(PlayParticleSpec),
    PlayUpdateLight(PlayUpdateLoightSpec),
    PlayJoinGame(PlayJoinGameSpec),
    PlayMapData(PlayMapDataSpec),
    PlayTradeList(PlayTradeListSpec),
    PlayEntityPosition(PlayEntityPositionSpec),
    PlayEntityPositionAndRotation(PlayEntityPositionAndRotationSpec),
    PlayEntityRotation(PlayEntityRotationSpec),
    PlayEntityMovement(PlayEntityMovementSpec),
    PlayServerVehicleMove(PlayEntityVehicleMoveSpec),
    PlayOpenBook(PlayOpenBookSpec),
    PlayOpenWindow(PlayOpenWindowSpec),
    PlayOpenSignEditor(PlayOpenSignEditorSpec),
    PlayCraftRecipeResponse(PlayCraftRecipeResponseSpec),
    PlayServerPlayerAbilities(PlayServerPlayerAbilitiesSpec),
    PlayCombatEvent(PlayCombatEventSpec),
    PlayPlayerInfo(PlayPlayerInfoSpec),
    PlayFacePlayer(PlayFacePlayerSpec),
    PlayServerPlayerPositionAndLook(PlayServerPlayerPositionAndLookSpec),
    PlayUnlockRecipes(PlayUnlockRecipesSpec),
    PlayDestroyEntities(PlayDestroyEntitiesSpec),
    PlayRemoveEntityEffect(PlayRemoveEntityEffectSpec),
    PlayResourcePackSend(PlayResourcePackSendSpec),
    PlayRespawn(PlayRespawnSpec),
    PlayEntityHeadLook(PlayEntityHeadLookSpec),
    PlaySelectAdvancementTab(PlaySelectAdvancementTabSpec),
    PlayWorldBorder(PlayWorldBorderSpec),
    PlayCamera(PlayCameraSpec),
    PlayServerHeldItemChange(PlayServerHeldItemChangeSpec),
    PlayUpdateViewPosition(PlayUpdateViewPositionSpec),
    PlayUpdateViewDistance(PlayUpdateViewDistanceSpec),
    PlayDisplayScoreboard(PlayDisplayScoreboardSpec),
    PlayEntityMetadata(PlayEntityMetadataSpec),
    PlayAttachEntity(PlayAttachEntitySpec),
    PlayEntityVelocity(PlayEntityVelocitySpec),
    PlayEntityEquipment(PlayEntityEquiptmentSpec),
    PlaySetExperience(PlaySetExperienceSpec),
    PlayUpdatehealth(PlayUpdateHealthSpec),
    PlayScoreboardObjective(PlayScoreboardObjectiveSpec),
    PlaySetPassengers(PlaySetPassengersSpec),
    PlaySpawnPosition(PlaySpawnPositionSpec),
    PlayTimeUpdate(PlayTimeUpdateSpec),
    PlayEntitySoundEffect(PlayEntitySoundEffectSpec),
    PlaySoundEffect(PlaySoundEffectSpec),
    PlayerPlayerListHeaderAndFooter(PlayPlayerListHeaderAndFooterSpec),
    PlayNbtQueryResponse(PlayNbtQueryResponseSpec),
    PlayCollectItem(PlayCollectItemSpec),
    PlayEntityTeleport(PlayEntityTeleportSpec),
    PlayAdvancements(PlayAdvancementsSpec),
    PlayEntityProperties(PlayEntityPropertiesSpec),
    PlayEntityEffect(PlayEntityEffectSpec),
    PlayDeclareRecipes(PlayDeclareRecipesSpec),
    PlayTags(PlayTagsSpec),
    PlayTeleportConfirm(PlayTeleportConfirmSpec),
    PlayQueryBlockNbt(PlayQueryBlockNbtSpec),
    PlayQueryEntityNbt(PlayQueryEntityNbtSpec),
    PlaySetDifficulty(PlaySetDifficultySpec),
    PlayClientChatMessage(PlayClientChatMessageSpec),
    PlayClientStatus(PlayClientStatusSpec),
    PlayClientSettings(PlayClientSettingsSpec),
    PlayClientTabComplete(PlayClientTabCompleteSpec),
    PlayClientWindowConfirmation(PlayClientWindowConfirmationSpec),
    PlayClickWindowButton(PlayClickWindowButtonSpec),
    PlayClickWindow(PlayClickWindowSpec),
    PlayClientCloseWindow(PlayClientCloseWindowSpec),
    PlayClientPluginMessage(PlayClientPluginMessageSpec),
    PlayEditBook(PlayEditBookSpec),
    PlayInteractEntity(PlayInteractEntitySpec),
    PlayClientKeepAlive(PlayClientKeepAliveSpec),
    PlayLockDifficulty(PlayLockDifficultySpec),
    PlayPlayerPosition(PlayPlayerPositionSpec),
    PlayClientPlayerPositionAndRotation(PlayClientPlayerPositionAndRotationSpec),
    PlayPlayerRotation(PlayPlayerRotationSpec),
    PlayPlayerMovement(PlayPlayerMovementSpec),
    PlayClientVehicleMove(PlayClientVehicleMoveSpec),
    PlaySteerBoat(PlaySteerBoatSpec),
    PlayPickItem(PlayPickItemSpec),
    PlayCraftRecipeRequest(PlayCraftRecipeRequestSpec),
    PlayClientPlayerAbilities(PlayClientPlayerAbilitiesSpec),
    PlayPlayerDigging(PlayPlayerDiggingSpec),
    PlayEntityAction(PlayEntityActionSpec),
    PlaySteerVehicle(PlaySteerVehicleSpec),
    PlayNameItem(PlayNameItemSpec),
    PlayResourcePackStatus(PlayResourcePackStatusSpec),
    PlaySelectTrade(PlaySelectTradeSpec),
    PlaySetBeaconEffect(PlaySetBeaconEffectSpec),
    PlayClientHeldItemChange(PlayClientHeldItemChangeSpec),
    PlayUpdateCommandBlock(PlayUpdateCommandBlockSpec),
    PlayUpdateCommandBlockMinecart(PlayUpdateCommandBlockMinecartSpec),
    PlayCreativeInventoryAction(PlayCreativeInventoryActionSpec),
    PlayUpdateJigsawBlock(PlayUpdateJigsawBlockSpec),
    PlayUpdateStructureBlock(PlayUpdateStructureBlockSpec),
    PlayUpdateSign(PlayUpdateSignSpec),
    PlayClientAnimation(PlayClientAnimationSpec),
    PlaySpectate(PlaySpectateSpec),
    PlayBlockPlacement(PlayBlockPlacementSpec),
    PlayUseItem(PlayUseItemSpec),
}

/// The numbers of the packets that may be sent to the server in state `Handshaking`.
pub open spec fn registered_handshaking_server_bound(number: i32) -> bool {
    number == 0x00
}

/// Why `data` is not the body of the packet of that number, if it is not.
pub open spec fn body_fault_handshaking_server_bound(number: i32, data: Seq<u8>) -> Option<Fault> {
    if number == 0x00 {
        fault_of(<HandshakeSpec>::decoding(data))
    } else {
        None
    }
}

fn read_handshaking_server_bound(number: i32, data: &[u8]) -> (res: Result<Packet578, PacketErr>)
    ensures
        match res {
            Ok(packet) => registered_handshaking_server_bound(number) && packet.spec_id() == (Id {
                id: number,
                state: State::Handshaking,
                direction: PacketDirection::ServerBound,
            }) && packet.is_body(data@),
            Err(PacketErr::UnknownId(n)) => {
                !registered_handshaking_server_bound(number) && n == number
            },
            Err(PacketErr::DeserializeFailed(e)) => registered_handshaking_server_bound(number)
                && body_fault_handshaking_server_bound(
                number,
                data@,
            ) == Some(e@),
        },
{
    match number {
        0x00 => match <HandshakeSpec>::mc_deserialize(data) {
            Ok(body) => Ok(Packet578::Handshake(body.value)),
            Err(e) => Err(PacketErr::DeserializeFailed(e)),
        },
        other => Err(PacketErr::UnknownId(other)),
    }
}

/// The numbers of the packets that may be sent to the server in state `Status`.
pub open spec fn registered_status_server_bound(number: i32) -> bool {
    ||| number == 0x00
    ||| number == 0x01
}

/// Why `data` is not the body of the packet of that number, if it is not.
pub open spec fn body_fault_status_server_bound(number: i32, data: Seq<u8>) -> Option<Fault> {
    if number == 0x00 {
        fault_of(<StatusRequestSpec>::decoding(data))
    } else if number == 0x01 {
        fault_of(<StatusPingSpec>::decoding(data))
    } else {
        None
    }
}

fn read_status_server_bound(number: i32, data: &[u8]) -> (res: Result<Packet578, PacketErr>)
    ensures
        match res {
            Ok(packet) => registered_status_server_bound(number) && packet.spec_id() == (Id {
                id: number,
                state: State::Status,
                direction: PacketDirection::ServerBound,
            }) && packet.is_body(data@),
            Err(PacketErr::UnknownId(n)) => !registered_status_server_bound(number) && n == number,
            Err(PacketErr::DeserializeFailed(e)) => registered_status_server_bound(number)
                && body_fault_status_server_bound(
                number,
                data@,
            ) == Some(e@),
        },
{
    match number {
        0x00 => match <StatusRequestSpec>::mc_deserialize(data) {
            Ok(body) => Ok(Packet578::StatusRequest(body.value)),
            Err(e) => Err(PacketErr::DeserializeFailed(e)),
        },
        0x01 => match <StatusPingSpec>::mc_deserialize(data) {
            Ok(body) => Ok(Packet578::StatusPing(body.value)),
            Err(e) => Err(PacketErr::DeserializeFailed(e)),
        },
        other => Err(PacketErr::UnknownId(other)),
    }
}

/// The numbers of the packets that may be sent to the client in state `Status`.
pub open spec fn registered_status_client_bound(number: i32) -> bool {
    ||| number == 0x00
    ||| number == 0x01
}

/// Why `data` is not the body of the packet of that number, if it is not.
pub open spec fn body_fault_status_client_bound(number: i32, data: Seq<u8>) -> Option<Fault> {
    if number == 0x00 {
        fault_of(<StatusResponseSpec>::decoding(data))
    } else if number == 0x01 {
        fault_of(<StatusPongSpec>::decoding(data))
    } else {
        None
    }
}

fn read_status_client_bound(number: i32, data: &[u8]) -> (res: Result<Packet578, PacketErr>)
    ensures
        match res {
            Ok(packet) => registered_status_client_bound(number) && packet.spec_id() == (Id {
                id: number,
                state: State::Status,
                direction: PacketDirection::ClientBound,
            }) && packet.is_body(data@),
            Err(PacketErr::UnknownId(n)) => !registered_status_client_bound(number) && n == number,
            Err(PacketErr::DeserializeFailed(e)) => registered_status_client_bound(number)
                && body_fault_status_client_bound(
                number,
                data@,
            ) == Some(e@),
        },
{
    match number {
        0x00 => match <StatusResponseSpec>::mc_deserialize(data) {
            Ok(body) => Ok(Packet578::StatusResponse(body.value)),
            Err(e) => Err(PacketErr::DeserializeFailed(e)),
        },
        0x01 => match <StatusPongSpec>::mc_deserialize(data) {
            Ok(body) => Ok(Packet578::StatusPong(body.value)),
            Err(e) => Err(PacketErr::DeserializeFailed(e)),
        },
        other => Err(PacketErr::UnknownId(other)),
    }
}

/// The numbers of the packets that may be sent to the client in state `Login`.
pub open spec fn registered_login_client_bound(number: i32) -> bool {
    ||| number == 0x00
    ||| number == 0x01
    ||| number == 0x02
    ||| number == 0x03
    ||| number == 0x04
}

/// Why `data` is not the body of the packet of that number, if it is not.
pub open spec fn body_fault_login_client_bound(number: i32, data: Seq<u8>) -> Option<Fault> {
    if number == 0x00 {
        fault_of(<LoginDisconnectSpec>::decoding(data))
    } else if number == 0x01 {
        fault_of(<LoginEncryptionRequestSpec>::decoding(data))
    } else if number == 0x02 {
        fault_of(<LoginSuccessSpec>::decoding(data))
    } else if number == 0x03 {
        fault_of(<LoginSetCompressionSpec>::decoding(data))
    } else if number == 0x04 {
        fault_of(<LoginPluginRequestSpec>::decoding(data))
    } else {
        None
    }
}

fn read_login_client_bound(number: i32, data: &[u8]) -> (res: Result<Packet578, PacketErr>)
    ensures
        match res {
            Ok(packet) => registered_login_client_bound(number) && packet.spec_id() == (Id {
                id: number,
                state: State::Login,
                direction: PacketDirection::ClientBound,
            }) && packet.is_body(data@),
            Err(PacketErr::UnknownId(n)) => !registered_login_client_bound(number) && n == number,
            Err(PacketErr::DeserializeFailed(e)) => registered_login_client_bound(number)
                && body_fault_login_client_bound(
                number,
                data@,
            ) == Some(e@),
        },
{
    match number {
        0x00 => match <LoginDisconnectSpec>::mc_deserialize(data) {
            Ok(body) => Ok(Packet578::LoginDisconnect(body.value)),
            Err(e) => Err(PacketErr::DeserializeFailed(e)),
        },
        0x01 => match <LoginEncryptionRequestSpec>::mc_deserialize(data) {
            Ok(body) => Ok(Packet578::LoginEncryptionRequest(body.value)),
            Err(e) => Err(PacketErr::DeserializeFailed(e)),
        },
        0x02 => match <LoginSuccessSpec>::mc_deserialize(data) {
            Ok(body) => Ok(Packet578::LoginSuccess(body.value)),
            Err(e) => Err(PacketErr::DeserializeFailed(e)),
        },
        0x03 => match <LoginSetCompressionSpec>::mc_deserialize(data) {
            Ok(body) => Ok(Packet578::LoginSetCompression(body.value)),
            Err(e) => Err(PacketErr::DeserializeFailed(e)),
        },
        0x04 => match <LoginPluginRequestSpec>::mc_deserialize(data) {
            Ok(body) => Ok(Packet578::LoginPluginRequest(body.value)),
            Err(e) => Err(PacketErr::DeserializeFailed(e)),
        },
        other => Err(PacketErr::UnknownId(other)),
    }
}

/// The numbers of the packets that may be sent to the server in state `Login`.
pub open spec fn registered_login_server_bound(number: i32) -> bool {
    ||| number == 0x00
    ||| number == 0x01
    ||| number == 0x02
}

/// Why `data` is not the body of the packet of that number, if it is not.
pub open spec fn body_fault_login_server_bound(number: i32, data: Seq<u8>) -> Option<Fault> {
    if number == 0x00 {
        fault_of(<LoginStartSpec>::decoding(data))
    } else if number == 0x01 {
        fault_of(<LoginEncryptionResponseSpec>::decoding(data))
    } else if number == 0x02 {
        fault_of(<LoginPluginResponseSpec>::decoding(data))
    } else {
        None
    }
}

fn read_login_server_bound(number: i32, data: &[u8]) -> (res: Result<Packet578, PacketErr>)
    ensures
        match res {
            Ok(packet) => registered_login_server_bound(number) && packet.spec_id() == (Id {
                id: number,
                state: State::Login,
                direction: PacketDirection::ServerBound,
            }) && packet.is_body(data@),
            Err(PacketErr::UnknownId(n)) => !registered_login_server_bound(number) && n == number,
            Err(PacketErr::DeserializeFailed(e)) => registered_login_server_bound(number)
                && body_fault_login_server_bound(
                number,
                data@,
            ) == Some(e@),
        },
{
    match number {
        0x00 => match <LoginStartSpec>::mc_deserialize(data) {
            Ok(body) => Ok(Packet578::LoginStart(body.value)),
            Err(e) => Err(PacketErr::DeserializeFailed(e)),
        },
        0x01 => match <LoginEncryptionResponseSpec>::mc_deserialize(data) {
            Ok(body) => Ok(Packet578::LoginEncryptionResponse(body.value)),
            Err(e) => Err(PacketErr::DeserializeFailed(e)),
        },
        0x02 => match <LoginPluginResponseSpec>::mc_deserialize(data) {
            Ok(body) => Ok(Packet578::LoginPluginResponse(body.value)),
            Err(e) => Err(PacketErr::DeserializeFailed(e)),
        },
        other => Err(PacketErr::UnknownId(other)),
    }
}

/// The numbers of the packets that may be sent to the client in state `Play`.
pub open spec fn registered_play_client_bound(number: i32) -> bool {
    ||| number == 0x00
    ||| number == 0x01
    ||| number == 0x02
    ||| number == 0x03
    ||| number == 0x04
    ||| number == 0x05
    ||| number == 0x06
    ||| number == 0x07
    ||| number == 0x08
    ||| number == 0x09
    ||| number == 0x0A
    ||| number == 0x0B
    ||| number == 0x0C
    ||| number == 0x0D
    ||| number == 0x0E
    ||| number == 0x0F
    ||| number == 0x10
    ||| number == 0x11
    ||| number == 0x12
    ||| number == 0x13
    ||| number == 0x14
    ||| number == 0x15
    ||| number == 0x16
    ||| number == 0x17
    ||| number == 0x18
    ||| number == 0x19
    ||| number == 0x1A
    ||| number == 0x1B
    ||| number == 0x1C
    ||| number == 0x1D
    ||| number == 0x1E
    ||| number == 0x1F
    ||| number == 0x20
    ||| number == 0x21
    ||| number == 0x22
    ||| number == 0x23
    ||| number == 0x24
    ||| number == 0x25
    ||| number == 0x26
    ||| number == 0x27
    ||| number == 0x28
    ||| number == 0x29
    ||| number == 0x2A
    ||| number == 0x2B
    ||| number == 0x2C
    ||| number == 0x2D
    ||| number == 0x2E
    ||| number == 0x2F
    ||| number == 0x30
    ||| number == 0x31
    ||| number == 0x32
    ||| number == 0x33
    ||| number == 0x34
    ||| number == 0x35
    ||| number == 0x36
    ||| number == 0x37
    ||| number == 0x38
    ||| number == 0x39
    ||| number == 0x3A
    ||| number == 0x3B
    ||| number == 0x3C
    ||| number == 0x3D
    ||| number == 0x3E
    ||| number == 0x3F
    ||| number == 0x40
    ||| number == 0x41
    ||| number == 0x42
    ||| number == 0x43
    ||| number == 0x44
    ||| number == 0x45
    ||| number == 0x46
    ||| number == 0x47
    ||| number == 0x48
    ||| number == 0x49
    ||| number == 0x4A
    ||| number == 0x4B
    ||| number == 0x4E
    ||| number == 0x4F
    ||| number == 0x51
    ||| number == 0x52
    ||| number == 0x54
    ||| number == 0x55
    ||| number == 0x56
    ||| number == 0x57
    ||| number == 0x58
    ||| number == 0x59
    ||| number == 0x5A
    ||| number == 0x5B
    ||| number == 0x5C
}

/// Why `data` is not the body of the packet of that number, if it is not.
pub open spec fn body_fault_play_client_bound(number: i32, data: Seq<u8>) -> Option<Fault> {
    if number == 0x00 {
        fault_of(<PlaySpawnEntitySpec>::decoding(data))
    } else if number == 0x01 {
        fault_of(<PlaySpawnExperienceOrbSpec>::decoding(data))
    } else if number == 0x02 {
        fault_of(<PlaySpawnWeatherEntitySpec>::decoding(data))
    } else if number == 0x03 {
        fault_of(<PlaySpawnLivingEntitySpec>::decoding(data))
    } else if number == 0x04 {
        fault_of(<PlaySpawnPaintingSpec>::decoding(data))
    } else if number == 0x05 {
        fault_of(<PlaySpawnPlayerSpec>::decoding(data))
    } else if number == 0x06 {
        fault_of(<PlayEntityAnimationSpec>::decoding(data))
    } else if number == 0x07 {
        fault_of(<PlayStatisticsSpec>::decoding(data))
    } else if number == 0x08 {
        fault_of(<PlayAcknowledgePlayerDiggingSpec>::decoding(data))
    } else if number == 0x09 {
        fault_of(<PlayBlockBreakAnimationSpec>::decoding(data))
    } else if number == 0x0A {
        fault_of(<PlayBlockEntityDataSpec>::decoding(data))
    } else if number == 0x0B {
        fault_of(<PlayBlockActionSpec>::decoding(data))
    } else if number == 0x0C {
        fault_of(<PlayBlockChangeSpec>::decoding(data))
    } else if number == 0x0D {
        fault_of(<PlayBossBarSpec>::decoding(data))
    } else if number == 0x0E {
        fault_of(<PlayServerDifficultySpec>::decoding(data))
    } else if number == 0x0F {
        fault_of(<PlayServerChatMessageSpec>::decoding(data))
    } else if number == 0x10 {
        fault_of(<PlayMultiBlockChangeSpec>::decoding(data))
    } else if number == 0x11 {
        fault_of(<PlayTabCompleteSpec>::decoding(data))
    } else if number == 0x12 {
        fault_of(<PlayDeclareCommandsSpec>::decoding(data))
    } else if number == 0x13 {
        fault_of(<PlayServerWindowConfirmationSpec>::decoding(data))
    } else if number == 0x14 {
        fault_of(<PlayServerCloseWindowSpec>::decoding(data))
    } else if number == 0x15 {
        fault_of(<PlayWindowItemsSpec>::decoding(data))
    } else if number == 0x16 {
        fault_of(<PlayWindowPropertySpec>::decoding(data))
    } else if number == 0x17 {
        fault_of(<PlaySetSlotSpec>::decoding(data))
    } else if number == 0x18 {
        fault_of(<PlaySetCooldownSpec>::decoding(data))
    } else if number == 0x19 {
        fault_of(<PlayServerPluginMessageSpec>::decoding(data))
    } else if number == 0x1A {
        fault_of(<PlayNamedSoundEffectSpec>::decoding(data))
    } else if number == 0x1B {
        fault_of(<PlayDisconnectSpec>::decoding(data))
    } else if number == 0x1C {
        fault_of(<PlayEntityStatusSpec>::decoding(data))
    } else if number == 0x1D {
        fault_of(<PlayExposionSpec>::decoding(data))
    } else if number == 0x1E {
        fault_of(<PlayUnloadChunkSpec>::decoding(data))
    } else if number == 0x1F {
        fault_of(<PlayChangeGameStateSpec>::decoding(data))
    } else if number == 0x20 {
        fault_of(<PlayOpenHorseWindowSpec>::decoding(data))
    } else if number == 0x21 {
        fault_of(<PlayServerKeepAliveSpec>::decoding(data))
    } else if number == 0x22 {
        fault_of(<PlayChunkDataWrapper>::decoding(data))
    } else if number == 0x23 {
        fault_of(<PlayEffectSpec>::decoding(data))
    } else if number == 0x24 {
        fault_of(<PlayParticleSpec>::decoding(data))
    } else if number == 0x25 {
        fault_of(<PlayUpdateLoightSpec>::decoding(data))
    } else if number == 0x26 {
        fault_of(<PlayJoinGameSpec>::decoding(data))
    } else if number == 0x27 {
        fault_of(<PlayMapDataSpec>::decoding(data))
    } else if number == 0x28 {
        fault_of(<PlayTradeListSpec>::decoding(data))
    } else if number == 0x29 {
        fault_of(<PlayEntityPositionSpec>::decoding(data))
    } else if number == 0x2A {
        fault_of(<PlayEntityPositionAndRotationSpec>::decoding(data))
    } else if number == 0x2B {
        fault_of(<PlayEntityRotationSpec>::decoding(data))
    } else if number == 0x2C {
        fault_of(<PlayEntityMovementSpec>::decoding(data))
    } else if number == 0x2D {
        fault_of(<PlayEntityVehicleMoveSpec>::decoding(data))
    } else if number == 0x2E {
        fault_of(<PlayOpenBookSpec>::decoding(data))
    } else if number == 0x2F {
        fault_of(<PlayOpenWindowSpec>::decoding(data))
    } else if number == 0x30 {
        fault_of(<PlayOpenSignEditorSpec>::decoding(data))
    } else if number == 0x31 {
        fault_of(<PlayCraftRecipeResponseSpec>::decoding(data))
    } else if number == 0x32 {
        fault_of(<PlayServerPlayerAbilitiesSpec>::decoding(data))
    } else if number == 0x33 {
        fault_of(<PlayCombatEventSpec>::decoding(data))
    } else if number == 0x34 {
        fault_of(<PlayPlayerInfoSpec>::decoding(data))
    } else if number == 0x35 {
        fault_of(<PlayFacePlayerSpec>::decoding(data))
    } else if number == 0x36 {
        fault_of(<PlayServerPlayerPositionAndLookSpec>::decoding(data))
    } else if number == 0x37 {
        fault_of(<PlayUnlockRecipesSpec>::decoding(data))
    } else if number == 0x38 {
        fault_of(<PlayDestroyEntitiesSpec>::decoding(data))
    } else if number == 0x39 {
        fault_of(<PlayRemoveEntityEffectSpec>::decoding(data))
    } else if number == 0x3A {
        fault_of(<PlayResourcePackSendSpec>::decoding(data))
    } else if number == 0x3B {
        fault_of(<PlayRespawnSpec>::decoding(data))
    } else if number == 0x3C {
        fault_of(<PlayEntityHeadLookSpec>::decoding(data))
    } else if number == 0x3D {
        fault_of(<PlaySelectAdvancementTabSpec>::decoding(data))
    } else if number == 0x3E {
        fault_of(<PlayWorldBorderSpec>::decoding(data))
    } else if number == 0x3F {
        fault_of(<PlayCameraSpec>::decoding(data))
    } else if number == 0x40 {
        fault_of(<PlayServerHeldItemChangeSpec>::decoding(data))
    } else if number == 0x41 {
        fault_of(<PlayUpdateViewPositionSpec>::decoding(data))
    } else if number == 0x42 {
        fault_of(<PlayUpdateViewDistanceSpec>::decoding(data))
    } else if number == 0x43 {
        fault_of(<PlayDisplayScoreboardSpec>::decoding(data))
    } else if number == 0x44 {
        fault_of(<PlayEntityMetadataSpec>::decoding(data))
    } else if number == 0x45 {
        fault_of(<PlayAttachEntitySpec>::decoding(data))
    } else if number == 0x46 {
        fault_of(<PlayEntityVelocitySpec>::decoding(data))
    } else if number == 0x47 {
        fault_of(<PlayEntityEquiptmentSpec>::decoding(data))
    } else if number == 0x48 {
        fault_of(<PlaySetExperienceSpec>::decoding(data))
    } else if number == 0x49 {
        fault_of(<PlayUpdateHealthSpec>::decoding(data))
    } else if number == 0x4A {
        fault_of(<PlayScoreboardObjectiveSpec>::decoding(data))
    } else if number == 0x4B {
        fault_of(<PlaySetPassengersSpec>::decoding(data))
    } else if number == 0x4E {
        fault_of(<PlaySpawnPositionSpec>::decoding(data))
    } else if number == 0x4F {
        fault_of(<PlayTimeUpdateSpec>::decoding(data))
    } else if number == 0x51 {
        fault_of(<PlayEntitySoundEffectSpec>::decoding(data))
    } else if number == 0x52 {
        fault_of(<PlaySoundEffectSpec>::decoding(data))
    } else if number == 0x54 {
        fault_of(<PlayPlayerListHeaderAndFooterSpec>::decoding(data))
    } else if number == 0x55 {
        fault_of(<PlayNbtQueryResponseSpec>::decoding(data))
    } else if number == 0x56 {
        fault_of(<PlayCollectItemSpec>::decoding(data))
    } else if number == 0x57 {
        fault_of(<PlayEntityTeleportSpec>::decoding(data))
    } else if number == 0x58 {
        fault_of(<PlayAdvancementsSpec>::decoding(data))
    } else if number == 0x59 {
        fault_of(<PlayEntityPropertiesSpec>::decoding(data))
    } else if number == 0x5A {
        fault_of(<PlayEntityEffectSpec>::decoding(data))
    } else if number == 0x5B {
        fault_of(<PlayDeclareRecipesSpec>::decoding(data))
    } else if number == 0x5C {
        fault_of(<PlayTagsSpec>::decoding(data))
    } else {
        None
    }
}

fn read_play_client_bound_1(number: i32, data: &[u8]) -> (res: Result<Packet578, PacketErr>)
    requires
        number < 0x0C,
    ensures
        match res {
            Ok(packet) => registered_play_client_bound(number) && packet.spec_id() == (Id {
                id: number,
                state: State::Play,
                direction: PacketDirection::ClientBound,
            }) && packet.is_body(data@),
            Err(PacketErr::UnknownId(n)) => !registered_play_client_bound(number) && n == number,
            Err(PacketErr::DeserializeFailed(e)) => registered_play_client_bound(number)
                && body_fault_play_client_bound(
                number,
                data@,
            ) == Some(e@),
        },
{
    match number {
        0x00 => match <PlaySpawnEntitySpec>::mc_deserialize(data) {
            Ok(body) => Ok(Packet578::PlaySpawnEntity(body.value)),
            Err(e) => Err(PacketErr::DeserializeFailed(e)),
        },
        0x01 => match <PlaySpawnExperienceOrbSpec>::mc_deserialize(data) {
            Ok(body) => Ok(Packet578::PlaySpawnExperienceOrb(body.value)),
            Err(e) => Err(PacketErr::DeserializeFailed(e)),
        },
        0x02 => match <PlaySpawnWeatherEntitySpec>::mc_deserialize(data) {
            Ok(body) => Ok(Packet578::PlaySpawnWeatherEntity(body.value)),
            Err(e) => Err(PacketErr::DeserializeFailed(e)),
        },
        0x03 => match <PlaySpawnLivingEntitySpec>::mc_deserialize(data) {
            Ok(body) => Ok(Packet578::PlaySpawnLivingEntity(body.value)),
            Err(e) => Err(PacketErr::DeserializeFailed(e)),
        },
        0x04 => match <PlaySpawnPaintingSpec>::mc_deserialize(data) {
            Ok(body) => Ok(Packet578::PlaySpawnPainting(body.value)),
            Err(e) => Err(PacketErr::DeserializeFailed(e)),
        },
        0x05 => match <PlaySpawnPlayerSpec>::mc_deserialize(data) {
            Ok(body) => Ok(Packet578::PlaySpawnPlayer(body.value)),
            Err(e) => Err(PacketErr::DeserializeFailed(e)),
        },
        0x06 => match <PlayEntityAnimationSpec>::mc_deserialize(data) {
            Ok(body) => Ok(Packet578::PlayEntityAnimation(body.value)),
            Err(e) => Err(PacketErr::DeserializeFailed(e)),
        },
        0x07 => match <PlayStatisticsSpec>::mc_deserialize(data) {
            Ok(body) => Ok(Packet578::PlayStatistics(body.value)),
            Err(e) => Err(PacketErr::DeserializeFailed(e)),
        },
        0x08 => match <PlayAcknowledgePlayerDiggingSpec>::mc_deserialize(data) {
            Ok(body) => Ok(Packet578::PlayAcknowledgePlayerDigging(body.value)),
            Err(e) => Err(PacketErr::DeserializeFailed(e)),
        },
        0x09 => match <PlayBlockBreakAnimationSpec>::mc_deserialize(data) {
            Ok(body) => Ok(Packet578::PlayBlockBreakAnimation(body.value)),
            Err(e) => Err(PacketErr::DeserializeFailed(e)),
        },
        0x0A => match <PlayBlockEntityDataSpec>::mc_deserialize(data) {
            Ok(body) => Ok(Packet578::PlayBlockEntityData(body.value)),
            Err(e) => Err(PacketErr::DeserializeFailed(e)),
        },
        0x0B => match <PlayBlockActionSpec>::mc_deserialize(data) {
            Ok(body) => Ok(Packet578::PlayBlockAction(body.value)),
            Err(e) => Err(PacketErr::DeserializeFailed(e)),
        },
        other => Err(PacketErr::UnknownId(other)),
    }
}

fn read_play_client_bound_2(number: i32, data: &[u8]) -> (res: Result<Packet578, PacketErr>)
    requires
        0x0C <= number,
        number < 0x18,
    ensures
        match res {
            Ok(packet) => registered_play_client_bound(number) && packet.spec_id() == (Id {
                id: number,
                state: State::Play,
                direction: PacketDirection::ClientBound,
            }) && packet.is_body(data@),
            Err(PacketErr::UnknownId(n)) => !registered_play_client_bound(number) && n == number,
            Err(PacketErr::DeserializeFailed(e)) => registered_play_client_bound(number)
                && body_fault_play_client_bound(
                number,
                data@,
            ) == Some(e@),
        },
{
    match number {
        0x0C => match <PlayBlockChangeSpec>::mc_deserialize(data) {
            Ok(body) => Ok(Packet578::PlayBlockChange(body.value)),
            Err(e) => Err(PacketErr::DeserializeFailed(e)),
        },
        0x0D => match <PlayBossBarSpec>::mc_deserialize(data) {
            Ok(body) => Ok(Packet578::PlayBossBar(body.value)),
            Err(e) => Err(PacketErr::DeserializeFailed(e)),
        },
        0x0E => match <PlayServerDifficultySpec>::mc_deserialize(data) {
            Ok(body) => Ok(Packet578::PlayServerDifficulty(body.value)),
            Err(e) => Err(PacketErr::DeserializeFailed(e)),
        },
        0x0F => match <PlayServerChatMessageSpec>::mc_deserialize(data) {
            Ok(body) => Ok(Packet578::PlayServerChatMessage(body.value)),
            Err(e) => Err(PacketErr::DeserializeFailed(e)),
        },
        0x10 => match <PlayMultiBlockChangeSpec>::mc_deserialize(data) {
            Ok(body) => Ok(Packet578::PlayMultiBlockChange(body.value)),
            Err(e) => Err(PacketErr::DeserializeFailed(e)),
        },
        0x11 => match <PlayTabCompleteSpec>::mc_deserialize(data) {
            Ok(body) => Ok(Packet578::PlayTabComplete(body.value)),
            Err(e) => Err(PacketErr::DeserializeFailed(e)),
        },
        0x12 => match <PlayDeclareCommandsSpec>::mc_deserialize(data) {
            Ok(body) => Ok(Packet578::PlayDeclareCommands(body.value)),
            Err(e) => Err(PacketErr::DeserializeFailed(e)),
        },
        0x13 => match <PlayServerWindowConfirmationSpec>::mc_deserialize(data) {
            Ok(body) => Ok(Packet578::PlayServerWindowConfirmation(body.value)),
            Err(e) => Err(PacketErr::DeserializeFailed(e)),
        },
        0x14 => match <PlayServerCloseWindowSpec>::mc_deserialize(data) {
            Ok(body) => Ok(Packet578::PlayServerCloseWindow(body.value)),
            Err(e) => Err(PacketErr::DeserializeFailed(e)),
        },
        0x15 => match <PlayWindowItemsSpec>::mc_deserialize(data) {
            Ok(body) => Ok(Packet578::PlayWindowItems(body.value)),
            Err(e) => Err(PacketErr::DeserializeFailed(e)),
        },
        0x16 => match <PlayWindowPropertySpec>::mc_deserialize(data) {
            Ok(body) => Ok(Packet578::PlayWindowProperty(body.value)),
            Err(e) => Err(PacketErr::DeserializeFailed(e)),
        },
        0x17 => match <PlaySetSlotSpec>::mc_deserialize(data) {
            Ok(body) => Ok(Packet578::PlaySetSlot(body.value)),
            Err(e) => Err(PacketErr::DeserializeFailed(e)),
        },
        other => Err(PacketErr::UnknownId(other)),
    }
}

fn read_play_client_bound_3(number: i32, data: &[u8]) -> (res: Result<Packet578, PacketErr>)
    requires
        0x18 <= number,
        number < 0x24,
    ensures
        match res {
            Ok(packet) => registered_play_client_bound(number) && packet.spec_id() == (Id {
                id: number,
                state: State::Play,
                direction: PacketDirection::ClientBound,
            }) && packet.is_body(data@),
            Err(PacketErr::UnknownId(n)) => !registered_play_client_bound(number) && n == number,
            Err(PacketErr::DeserializeFailed(e)) => registered_play_client_bound(number)
                && body_fault_play_client_bound(
                number,
                data@,
            ) == Some(e@),
        },
{
    match number {
        0x18 => match <PlaySetCooldownSpec>::mc_deserialize(data) {
            Ok(body) => Ok(Packet578::PlaySetCooldown(body.value)),
            Err(e) => Err(PacketErr::DeserializeFailed(e)),
        },
        0x19 => match <PlayServerPluginMessageSpec>::mc_deserialize(data) {
            Ok(body) => Ok(Packet578::PlayServerPluginMessage(body.value)),
            Err(e) => Err(PacketErr::DeserializeFailed(e)),
        },
        0x1A => match <PlayNamedSoundEffectSpec>::mc_deserialize(data) {
            Ok(body) => Ok(Packet578::PlayNamedSoundEffect(body.value)),
            Err(e) => Err(PacketErr::DeserializeFailed(e)),
        },
        0x1B => match <PlayDisconnectSpec>::mc_deserialize(data) {
            Ok(body) => Ok(Packet578::PlayDisconnect(body.value)),
            Err(e) => Err(PacketErr::DeserializeFailed(e)),
        },
        0x1C => match <PlayEntityStatusSpec>::mc_deserialize(data) {
            Ok(body) => Ok(Packet578::PlayEntityStatus(body.value)),
            Err(e) => Err(PacketErr::DeserializeFailed(e)),
        },
        0x1D => match <PlayExposionSpec>::mc_deserialize(data) {
            Ok(body) => Ok(Packet578::PlayExposion(body.value)),
            Err(e) => Err(PacketErr::DeserializeFailed(e)),
        },
        0x1E => match <PlayUnloadChunkSpec>::mc_deserialize(data) {
            Ok(body) => Ok(Packet578::PlayUnloadChunk(body.value)),
            Err(e) => Err(PacketErr::DeserializeFailed(e)),
        },
        0x1F => match <PlayChangeGameStateSpec>::mc_deserialize(data) {
            Ok(body) => Ok(Packet578::PlayChangeGameState(body.value)),
            Err(e) => Err(PacketErr::DeserializeFailed(e)),
        },
        0x20 => match <PlayOpenHorseWindowSpec>::mc_deserialize(data) {
            Ok(body) => Ok(Packet578::PlayOpenHorseWindow(body.value)),
            Err(e) => Err(PacketErr::DeserializeFailed(e)),
        },
        0x21 => match <PlayServerKeepAliveSpec>::mc_deserialize(data) {
            Ok(body) => Ok(Packet578::PlayServerKeepAlive(body.value)),
            Err(e) => Err(PacketErr::DeserializeFailed(e)),
        },
        0x22 => match <PlayChunkDataWrapper>::mc_deserialize(data) {
            Ok(body) => Ok(Packet578::PlayChunkData(body.value)),
            Err(e) => Err(PacketErr::DeserializeFailed(e)),
        },
        0x23 => match <PlayEffectSpec>::mc_deserialize(data) {
            Ok(body) => Ok(Packet578::PlayEffect(body.value)),
            Err(e) => Err(PacketErr::DeserializeFailed(e)),
        },
        other => Err(PacketErr::UnknownId(other)),
    }
}

fn read_play_client_bound_4(number: i32, data: &[u8]) -> (res: Result<Packet578, PacketErr>)
    requires
        0x24 <= number,
        number < 0x30,
    ensures
        match res {
            Ok(packet) => registered_play_client_bound(number) && packet.spec_id() == (Id {
                id: number,
                state: State::Play,
                direction: PacketDirection::ClientBound,
            }) && packet.is_body(data@),
            Err(PacketErr::UnknownId(n)) => !registered_play_client_bound(number) && n == number,
            Err(PacketErr::DeserializeFailed(e)) => registered_play_client_bound(number)
                && body_fault_play_client_bound(
                number,
                data@,
            ) == Some(e@),
        },
{
    match number {
        0x24 => match <PlayParticleSpec>::mc_deserialize(data) {
            Ok(body) => Ok(Packet578::PlayParticle(body.value)),
            Err(e) => Err(PacketErr::DeserializeFailed(e)),
        },
        0x25 => match <PlayUpdateLoightSpec>::mc_deserialize(data) {
            Ok(body) => Ok(Packet578::PlayUpdateLight(body.value)),
            Err(e) => Err(PacketErr::DeserializeFailed(e)),
        },
        0x26 => match <PlayJoinGameSpec>::mc_deserialize(data) {
            Ok(body) => Ok(Packet578::PlayJoinGame(body.value)),
            Err(e) => Err(PacketErr::DeserializeFailed(e)),
        },
        0x27 => match <PlayMapDataSpec>::mc_deserialize(data) {
            Ok(body) => Ok(Packet578::PlayMapData(body.value)),
            Err(e) => Err(PacketErr::DeserializeFailed(e)),
        },
        0x28 => match <PlayTradeListSpec>::mc_deserialize(data) {
            Ok(body) => Ok(Packet578::PlayTradeList(body.value)),
            Err(e) => Err(PacketErr::DeserializeFailed(e)),
        },
        0x29 => match <PlayEntityPositionSpec>::mc_deserialize(data) {
            Ok(body) => Ok(Packet578::PlayEntityPosition(body.value)),
            Err(e) => Err(PacketErr::DeserializeFailed(e)),
        },
        0x2A => match <PlayEntityPositionAndRotationSpec>::mc_deserialize(data) {
            Ok(body) => Ok(Packet578::PlayEntityPositionAndRotation(body.value)),
            Err(e) => Err(PacketErr::DeserializeFailed(e)),
        },
        0x2B => match <PlayEntityRotationSpec>::mc_deserialize(data) {
            Ok(body) => Ok(Packet578::PlayEntityRotation(body.value)),
            Err(e) => Err(PacketErr::DeserializeFailed(e)),
        },
        0x2C => match <PlayEntityMovementSpec>::mc_deserialize(data) {
            Ok(body) => Ok(Packet578::PlayEntityMovement(body.value)),
            Err(e) => Err(PacketErr::DeserializeFailed(e)),
        },
        0x2D => match <PlayEntityVehicleMoveSpec>::mc_deserialize(data) {
            Ok(body) => Ok(Packet578::PlayServerVehicleMove(body.value)),
            Err(e) => Err(PacketErr::DeserializeFailed(e)),
        },
        0x2E => match <PlayOpenBookSpec>::mc_deserialize(data) {
            Ok(body) => Ok(Packet578::PlayOpenBook(body.value)),
            Err(e) => Err(PacketErr::DeserializeFailed(e)),
        },
        0x2F => match <PlayOpenWindowSpec>::mc_deserialize(data) {
            Ok(body) => Ok(Packet578::PlayOpenWindow(body.value)),
            Err(e) => Err(PacketErr::DeserializeFailed(e)),
        },
        other => Err(PacketErr::UnknownId(other)),
    }
}

fn read_play_client_bound_5(number: i32, data: &[u8]) -> (res: Result<Packet578, PacketErr>)
    requires
        0x30 <= number,
        number < 0x3C,
    ensures
        match res {
            Ok(packet) => registered_play_client_bound(number) && packet.spec_id() == (Id {
                id: number,
                state: State::Play,
                direction: PacketDirection::ClientBound,
            }) && packet.is_body(data@),
            Err(PacketErr::UnknownId(n)) => !registered_play_client_bound(number) && n == number,
            Err(PacketErr::DeserializeFailed(e)) => registered_play_client_bound(number)
                && body_fault_play_client_bound(
                number,
                data@,
            ) == Some(e@),
        },
{
    match number {
        0x30 => match <PlayOpenSignEditorSpec>::mc_deserialize(data) {
            Ok(body) => Ok(Packet578::PlayOpenSignEditor(body.value)),
            Err(e) => Err(PacketErr::DeserializeFailed(e)),
        },
        0x31 => match <PlayCraftRecipeResponseSpec>::mc_deserialize(data) {
            Ok(body) => Ok(Packet578::PlayCraftRecipeResponse(body.value)),
            Err(e) => Err(PacketErr::DeserializeFailed(e)),
        },
        0x32 => match <PlayServerPlayerAbilitiesSpec>::mc_deserialize(data) {
            Ok(body) => Ok(Packet578::PlayServerPlayerAbilities(body.value)),
            Err(e) => Err(PacketErr::DeserializeFailed(e)),
        },
        0x33 => match <PlayCombatEventSpec>::mc_deserialize(data) {
            Ok(body) => Ok(Packet578::PlayCombatEvent(body.value)),
            Err(e) => Err(PacketErr::DeserializeFailed(e)),
        },
        0x34 => match <PlayPlayerInfoSpec>::mc_deserialize(data) {
            Ok(body) => Ok(Packet578::PlayPlayerInfo(body.value)),
            Err(e) => Err(PacketErr::DeserializeFailed(e)),
        },
        0x35 => match <PlayFacePlayerSpec>::mc_deserialize(data) {
            Ok(body) => Ok(Packet578::PlayFacePlayer(body.value)),
            Err(e) => Err(PacketErr::DeserializeFailed(e)),
        },
        0x36 => match <PlayServerPlayerPositionAndLookSpec>::mc_deserialize(data) {
            Ok(body) => Ok(Packet578::PlayServerPlayerPositionAndLook(body.value)),
            Err(e) => Err(PacketErr::DeserializeFailed(e)),
        },
        0x37 => match <PlayUnlockRecipesSpec>::mc_deserialize(data) {
            Ok(body) => Ok(Packet578::PlayUnlockRecipes(body.value)),
            Err(e) => Err(PacketErr::DeserializeFailed(e)),
        },
        0x38 => match <PlayDestroyEntitiesSpec>::mc_deserialize(data) {
            Ok(body) => Ok(Packet578::PlayDestroyEntities(body.value)),
            Err(e) => Err(PacketErr::DeserializeFailed(e)),
        },
        0x39 => match <PlayRemoveEntityEffectSpec>::mc_deserialize(data) {
            Ok(body) => Ok(Packet578::PlayRemoveEntityEffect(body.value)),
            Err(e) => Err(PacketErr::DeserializeFailed(e)),
        },
        0x3A => match <PlayResourcePackSendSpec>::mc_deserialize(data) {
            Ok(body) => Ok(Packet578::PlayResourcePackSend(body.value)),
            Err(e) => Err(PacketErr::DeserializeFailed(e)),
        },
        0x3B => match <PlayRespawnSpec>::mc_deserialize(data) {
            Ok(body) => Ok(Packet578::PlayRespawn(body.value)),
            Err(e) => Err(PacketErr::DeserializeFailed(e)),
        },
        other => Err(PacketErr::UnknownId(other)),
    }
}

fn read_play_client_bound_6(number: i32, data: &[u8]) -> (res: Result<Packet578, PacketErr>)
    requires
        0x3C <= number,
        number < 0x48,
    ensures
        match res {
            Ok(packet) => registered_play_client_bound(number) && packet.spec_id() == (Id {
                id: number,
                state: State::Play,
                direction: PacketDirection::ClientBound,
            }) && packet.is_body(data@),
            Err(PacketErr::UnknownId(n)) => !registered_play_client_bound(number) && n == number,
            Err(PacketErr::DeserializeFailed(e)) => registered_play_client_bound(number)
                && body_fault_play_client_bound(
                number,
                data@,
            ) == Some(e@),
        },
{
    match number {
        0x3C => match <PlayEntityHeadLookSpec>::mc_deserialize(data) {
            Ok(body) => Ok(Packet578::PlayEntityHeadLook(body.value)),
            Err(e) => Err(PacketErr::DeserializeFailed(e)),
        },
        0x3D => match <PlaySelectAdvancementTabSpec>::mc_deserialize(data) {
            Ok(body) => Ok(Packet578::PlaySelectAdvancementTab(body.value)),
            Err(e) => Err(PacketErr::DeserializeFailed(e)),
        },
        0x3E => match <PlayWorldBorderSpec>::mc_deserialize(data) {
            Ok(body) => Ok(Packet578::PlayWorldBorder(body.value)),
            Err(e) => Err(PacketErr::DeserializeFailed(e)),
        },
        0x3F => match <PlayCameraSpec>::mc_deserialize(data) {
            Ok(body) => Ok(Packet578::PlayCamera(body.value)),
            Err(e) => Err(PacketErr::DeserializeFailed(e)),
        },
        0x40 => match <PlayServerHeldItemChangeSpec>::mc_deserialize(data) {
            Ok(body) => Ok(Packet578::PlayServerHeldItemChange(body.value)),
            Err(e) => Err(PacketErr::DeserializeFailed(e)),
        },
        0x41 => match <PlayUpdateViewPositionSpec>::mc_deserialize(data) {
            Ok(body) => Ok(Packet578::PlayUpdateViewPosition(body.value)),
            Err(e) => Err(PacketErr::DeserializeFailed(e)),
        },
        0x42 => match <PlayUpdateViewDistanceSpec>::mc_deserialize(data) {
            Ok(body) => Ok(Packet578::PlayUpdateViewDistance(body.value)),
            Err(e) => Err(PacketErr::DeserializeFailed(e)),
        },
        0x43 => match <PlayDisplayScoreboardSpec>::mc_deserialize(data) {
            Ok(body) => Ok(Packet578::PlayDisplayScoreboard(body.value)),
            Err(e) => Err(PacketErr::DeserializeFailed(e)),
        },
        0x44 => match <PlayEntityMetadataSpec>::mc_deserialize(data) {
            Ok(body) => Ok(Packet578::PlayEntityMetadata(body.value)),
            Err(e) => Err(PacketErr::DeserializeFailed(e)),
        },
        0x45 => match <PlayAttachEntitySpec>::mc_deserialize(data) {
            Ok(body) => Ok(Packet578::PlayAttachEntity(body.value)),
            Err(e) => Err(PacketErr::DeserializeFailed(e)),
        },
        0x46 => match <PlayEntityVelocitySpec>::mc_deserialize(data) {
            Ok(body) => Ok(Packet578::PlayEntityVelocity(body.value)),
            Err(e) => Err(PacketErr::DeserializeFailed(e)),
        },
        0x47 => match <PlayEntityEquiptmentSpec>::mc_deserialize(data) {
            Ok(body) => Ok(Packet578::PlayEntityEquipment(body.value)),
            Err(e) => Err(PacketErr::DeserializeFailed(e)),
        },
        other => Err(PacketErr::UnknownId(other)),
    }
}

fn read_play_client_bound_7(number: i32, data: &[u8]) -> (res: Result<Packet578, PacketErr>)
    requires
        0x48 <= number,
        number < 0x58,
    ensures
        match res {
            Ok(packet) => registered_play_client_bound(number) && packet.spec_id() == (Id {
                id: number,
                state: State::Play,
                direction: PacketDirection::ClientBound,
            }) && packet.is_body(data@),
            Err(PacketErr::UnknownId(n)) => !registered_play_client_bound(number) && n == number,
            Err(PacketErr::DeserializeFailed(e)) => registered_play_client_bound(number)
                && body_fault_play_client_bound(
                number,
                data@,
            ) == Some(e@),
        },
{
    match number {
        0x48 => match <PlaySetExperienceSpec>::mc_deserialize(data) {
            Ok(body) => Ok(Packet578::PlaySetExperience(body.value)),
            Err(e) => Err(PacketErr::DeserializeFailed(e)),
        },
        0x49 => match <PlayUpdateHealthSpec>::mc_deserialize(data) {
            Ok(body) => Ok(Packet578::PlayUpdatehealth(body.value)),
            Err(e) => Err(PacketErr::DeserializeFailed(e)),
        },
        0x4A => match <PlayScoreboardObjectiveSpec>::mc_deserialize(data) {
            Ok(body) => Ok(Packet578::PlayScoreboardObjective(body.value)),
            Err(e) => Err(PacketErr::DeserializeFailed(e)),
        },
        0x4B => match <PlaySetPassengersSpec>::mc_deserialize(data) {
            Ok(body) => Ok(Packet578::PlaySetPassengers(body.value)),
            Err(e) => Err(PacketErr::DeserializeFailed(e)),
        },
        0x4E => match <PlaySpawnPositionSpec>::mc_deserialize(data) {
            Ok(body) => Ok(Packet578::PlaySpawnPosition(body.value)),
            Err(e) => Err(PacketErr::DeserializeFailed(e)),
        },
        0x4F => match <PlayTimeUpdateSpec>::mc_deserialize(data) {
            Ok(body) => Ok(Packet578::PlayTimeUpdate(body.value)),
            Err(e) => Err(PacketErr::DeserializeFailed(e)),
        },
        0x51 => match <PlayEntitySoundEffectSpec>::mc_deserialize(data) {
            Ok(body) => Ok(Packet578::PlayEntitySoundEffect(body.value)),
            Err(e) => Err(PacketErr::DeserializeFailed(e)),
        },
        0x52 => match <PlaySoundEffectSpec>::mc_deserialize(data) {
            Ok(body) => Ok(Packet578::PlaySoundEffect(body.value)),
            Err(e) => Err(PacketErr::DeserializeFailed(e)),
        },
        0x54 => match <PlayPlayerListHeaderAndFooterSpec>::mc_deserialize(data) {
            Ok(body) => Ok(Packet578::PlayerPlayerListHeaderAndFooter(body.value)),
            Err(e) => Err(PacketErr::DeserializeFailed(e)),
        },
        0x55 => match <PlayNbtQueryResponseSpec>::mc_deserialize(data) {
            Ok(body) => Ok(Packet578::PlayNbtQueryResponse(body.value)),
            Err(e) => Err(PacketErr::DeserializeFailed(e)),
        },
        0x56 => match <PlayCollectItemSpec>::mc_deserialize(data) {
            Ok(body) => Ok(Packet578::PlayCollectItem(body.value)),
            Err(e) => Err(PacketErr::DeserializeFailed(e)),
        },
        0x57 => match <PlayEntityTeleportSpec>::mc_deserialize(data) {
            Ok(body) => Ok(Packet578::PlayEntityTeleport(body.value)),
            Err(e) => Err(PacketErr::DeserializeFailed(e)),
        },
        other => Err(PacketErr::UnknownId(other)),
    }
}

fn read_play_client_bound_8(number: i32, data: &[u8]) -> (res: Result<Packet578, PacketErr>)
    requires
        0x58 <= number,
    ensures
        match res {
            Ok(packet) => registered_play_client_bound(number) && packet.spec_id() == (Id {
                id: number,
                state: State::Play,
                direction: PacketDirection::ClientBound,
            }) && packet.is_body(data@),
            Err(PacketErr::UnknownId(n)) => !registered_play_client_bound(number) && n == number,
            Err(PacketErr::DeserializeFailed(e)) => registered_play_client_bound(number)
                && body_fault_play_client_bound(
                number,
                data@,
            ) == Some(e@),
        },
{
    match number {
        0x58 => match <PlayAdvancementsSpec>::mc_deserialize(data) {
            Ok(body) => Ok(Packet578::PlayAdvancements(body.value)),
            Err(e) => Err(PacketErr::DeserializeFailed(e)),
        },
        0x59 => match <PlayEntityPropertiesSpec>::mc_deserialize(data) {
            Ok(body) => Ok(Packet578::PlayEntityProperties(body.value)),
            Err(e) => Err(PacketErr::DeserializeFailed(e)),
        },
        0x5A => match <PlayEntityEffectSpec>::mc_deserialize(data) {
            Ok(body) => Ok(Packet578::PlayEntityEffect(body.value)),
            Err(e) => Err(PacketErr::DeserializeFailed(e)),
        },
        0x5B => match <PlayDeclareRecipesSpec>::mc_deserialize(data) {
            Ok(body) => Ok(Packet578::PlayDeclareRecipes(body.value)),
            Err(e) => Err(PacketErr::DeserializeFailed(e)),
        },
        0x5C => match <PlayTagsSpec>::mc_deserialize(data) {
            Ok(body) => Ok(Packet578::PlayTags(body.value)),
            Err(e) => Err(PacketErr::DeserializeFailed(e)),
        },
        other => Err(PacketErr::UnknownId(other)),
    }
}

fn read_play_client_bound(number: i32, data: &[u8]) -> (res: Result<Packet578, PacketErr>)
    ensures
        match res {
            Ok(packet) => registered_play_client_bound(number) && packet.spec_id() == (Id {
                id: number,
                state: State::Play,
                direction: PacketDirection::ClientBound,
            }) && packet.is_body(data@),
            Err(PacketErr::UnknownId(n)) => !registered_play_client_bound(number) && n == number,
            Err(PacketErr::DeserializeFailed(e)) => registered_play_client_bound(number)
                && body_fault_play_client_bound(
                number,
                data@,
            ) == Some(e@),
        },
{

    if number < 0x0C {
        read_play_client_bound_1(number, data)
    } else if number < 0x18 {
        read_play_client_bound_2(number, data)
    } else if number < 0x24 {
        read_play_client_bound_3(number, data)
    } else if number < 0x30 {
        read_play_client_bound_4(number, data)
    } else if number < 0x3C {
        read_play_client_bound_5(number, data)
    } else if number < 0x48 {
        read_play_client_bound_6(number, data)
    } else if number < 0x58 {
        read_play_client_bound_7(number, data)
    } else {
        read_play_client_bound_8(number, data)
    }
}

/// The numbers of the packets that may be sent to the server in state `Play`.
pub open spec fn registered_play_server_bound(number: i32) -> bool {
    ||| number == 0x00
    ||| number == 0x01
    ||| number == 0x02
    ||| number == 0x03
    ||| number == 0x04
    ||| number == 0x05
    ||| number == 0x06
    ||| number == 0x07
    ||| number == 0x08
    ||| number == 0x09
    ||| number == 0x0A
    ||| number == 0x0B
    ||| number == 0x0C
    ||| number == 0x0D
    ||| number == 0x0E
    ||| number == 0x0F
    ||| number == 0x10
    ||| number == 0x11
    ||| number == 0x12
    ||| number == 0x13
    ||| number == 0x14
    ||| number == 0x15
    ||| number == 0x16
    ||| number == 0x17
    ||| number == 0x18
    ||| number == 0x19
    ||| number == 0x1A
    ||| number == 0x1B
    ||| number == 0x1C
    ||| number == 0x1E
    ||| number == 0x1F
    ||| number == 0x21
    ||| number == 0x22
    ||| number == 0x23
    ||| number == 0x24
    ||| number == 0x25
    ||| number == 0x26
    ||| number == 0x27
    ||| number == 0x28
    ||| number == 0x29
    ||| number == 0x2A
    ||| number == 0x2B
    ||| number == 0x2C
    ||| number == 0x2D
}

/// Why `data` is not the body of the packet of that number, if it is not.
pub open spec fn body_fault_play_server_bound(number: i32, data: Seq<u8>) -> Option<Fault> {
    if number == 0x00 {
        fault_of(<PlayTeleportConfirmSpec>::decoding(data))
    } else if number == 0x01 {
        fault_of(<PlayQueryBlockNbtSpec>::decoding(data))
    } else if number == 0x02 {
        fault_of(<PlaySetDifficultySpec>::decoding(data))
    } else if number == 0x03 {
        fault_of(<PlayClientChatMessageSpec>::decoding(data))
    } else if number == 0x04 {
        fault_of(<PlayClientStatusSpec>::decoding(data))
    } else if number == 0x05 {
        fault_of(<PlayClientSettingsSpec>::decoding(data))
    } else if number == 0x06 {
        fault_of(<PlayClientTabCompleteSpec>::decoding(data))
    } else if number == 0x07 {
        fault_of(<PlayClientWindowConfirmationSpec>::decoding(data))
    } else if number == 0x08 {
        fault_of(<PlayClickWindowButtonSpec>::decoding(data))
    } else if number == 0x09 {
        fault_of(<PlayClickWindowSpec>::decoding(data))
    } else if number == 0x0A {
        fault_of(<PlayClientCloseWindowSpec>::decoding(data))
    } else if number == 0x0B {
        fault_of(<PlayClientPluginMessageSpec>::decoding(data))
    } else if number == 0x0C {
        fault_of(<PlayEditBookSpec>::decoding(data))
    } else if number == 0x0D {
        fault_of(<PlayQueryEntityNbtSpec>::decoding(data))
    } else if number == 0x0E {
        fault_of(<PlayInteractEntitySpec>::decoding(data))
    } else if number == 0x0F {
        fault_of(<PlayClientKeepAliveSpec>::decoding(data))
    } else if number == 0x10 {
        fault_of(<PlayLockDifficultySpec>::decoding(data))
    } else if number == 0x11 {
        fault_of(<PlayPlayerPositionSpec>::decoding(data))
    } else if number == 0x12 {
        fault_of(<PlayClientPlayerPositionAndRotationSpec>::decoding(data))
    } else if number == 0x13 {
        fault_of(<PlayPlayerRotationSpec>::decoding(data))
    } else if number == 0x14 {
        fault_of(<PlayPlayerMovementSpec>::decoding(data))
    } else if number == 0x15 {
        fault_of(<PlayClientVehicleMoveSpec>::decoding(data))
    } else if number == 0x16 {
        fault_of(<PlaySteerBoatSpec>::decoding(data))
    } else if number == 0x17 {
        fault_of(<PlayPickItemSpec>::decoding(data))
    } else if number == 0x18 {
        fault_of(<PlayCraftRecipeRequestSpec>::decoding(data))
    } else if number == 0x19 {
        fault_of(<PlayClientPlayerAbilitiesSpec>::decoding(data))
    } else if number == 0x1A {
        fault_of(<PlayPlayerDiggingSpec>::decoding(data))
    } else if number == 0x1B {
        fault_of(<PlayEntityActionSpec>::decoding(data))
    } else if number == 0x1C {
        fault_of(<PlaySteerVehicleSpec>::decoding(data))
    } else if number == 0x1E {
        fault_of(<PlayNameItemSpec>::decoding(data))
    } else if number == 0x1F {
        fault_of(<PlayResourcePackStatusSpec>::decoding(data))
    } else if number == 0x21 {
        fault_of(<PlaySelectTradeSpec>::decoding(data))
    } else if number == 0x22 {
        fault_of(<PlaySetBeaconEffectSpec>::decoding(data))
    } else if number == 0x23 {
        fault_of(<PlayClientHeldItemChangeSpec>::decoding(data))
    } else if number == 0x24 {
        fault_of(<PlayUpdateCommandBlockSpec>::decoding(data))
    } else if number == 0x25 {
        fault_of(<PlayUpdateCommandBlockMinecartSpec>::decoding(data))
    } else if number == 0x26 {
        fault_of(<PlayCreativeInventoryActionSpec>::decoding(data))
    } else if number == 0x27 {
        fault_of(<PlayUpdateJigsawBlockSpec>::decoding(data))
    } else if number == 0x28 {
        fault_of(<PlayUpdateStructureBlockSpec>::decoding(data))
    } else if number == 0x29 {
        fault_of(<PlayUpdateSignSpec>::decoding(data))
    } else if number == 0x2A {
        fault_of(<PlayClientAnimationSpec>::decoding(data))
    } else if number == 0x2B {
        fault_of(<PlaySpectateSpec>::decoding(data))
    } else if number == 0x2C {
        fault_of(<PlayBlockPlacementSpec>::decoding(data))
    } else if number == 0x2D {
        fault_of(<PlayUseItemSpec>::decoding(data))
    } else {
        None
    }
}

fn read_play_server_bound_1(number: i32, data: &[u8]) -> (res: Result<Packet578, PacketErr>)
    requires
        number < 0x0C,
    ensures
        match res {
            Ok(packet) => registered_play_server_bound(number) && packet.spec_id() == (Id {
                id: number,
                state: State::Play,
                direction: PacketDirection::ServerBound,
            }) && packet.is_body(data@),
            Err(PacketErr::UnknownId(n)) => !registered_play_server_bound(number) && n == number,
            Err(PacketErr::DeserializeFailed(e)) => registered_play_server_bound(number)
                && body_fault_play_server_bound(
                number,
                data@,
            ) == Some(e@),
        },
{
    match number {
        0x00 => match <PlayTeleportConfirmSpec>::mc_deserialize(data) {
            Ok(body) => Ok(Packet578::PlayTeleportConfirm(body.value)),
            Err(e) => Err(PacketErr::DeserializeFailed(e)),
        },
        0x01 => match <PlayQueryBlockNbtSpec>::mc_deserialize(data) {
            Ok(body) => Ok(Packet578::PlayQueryBlockNbt(body.value)),
            Err(e) => Err(PacketErr::DeserializeFailed(e)),
        },
        0x02 => match <PlaySetDifficultySpec>::mc_deserialize(data) {
            Ok(body) => Ok(Packet578::PlaySetDifficulty(body.value)),
            Err(e) => Err(PacketErr::DeserializeFailed(e)),
        },
        0x03 => match <PlayClientChatMessageSpec>::mc_deserialize(data) {
            Ok(body) => Ok(Packet578::PlayClientChatMessage(body.value)),
            Err(e) => Err(PacketErr::DeserializeFailed(e)),
        },
        0x04 => match <PlayClientStatusSpec>::mc_deserialize(data) {
            Ok(body) => Ok(Packet578::PlayClientStatus(body.value)),
            Err(e) => Err(PacketErr::DeserializeFailed(e)),
        },
        0x05 => match <PlayClientSettingsSpec>::mc_deserialize(data) {
            Ok(body) => Ok(Packet578::PlayClientSettings(body.value)),
            Err(e) => Err(PacketErr::DeserializeFailed(e)),
        },
        0x06 => match <PlayClientTabCompleteSpec>::mc_deserialize(data) {
            Ok(body) => Ok(Packet578::PlayClientTabComplete(body.value)),
            Err(e) => Err(PacketErr::DeserializeFailed(e)),
        },
        0x07 => match <PlayClientWindowConfirmationSpec>::mc_deserialize(data) {
            Ok(body) => Ok(Packet578::PlayClientWindowConfirmation(body.value)),
            Err(e) => Err(PacketErr::DeserializeFailed(e)),
        },
        0x08 => match <PlayClickWindowButtonSpec>::mc_deserialize(data) {
            Ok(body) => Ok(Packet578::PlayClickWindowButton(body.value)),
            Err(e) => Err(PacketErr::DeserializeFailed(e)),
        },
        0x09 => match <PlayClickWindowSpec>::mc_deserialize(data) {
            Ok(body) => Ok(Packet578::PlayClickWindow(body.value)),
            Err(e) => Err(PacketErr::DeserializeFailed(e)),
        },
        0x0A => match <PlayClientCloseWindowSpec>::mc_deserialize(data) {
            Ok(body) => Ok(Packet578::PlayClientCloseWindow(body.value)),
            Err(e) => Err(PacketErr::DeserializeFailed(e)),
        },
        0x0B => match <PlayClientPluginMessageSpec>::mc_deserialize(data) {
            Ok(body) => Ok(Packet578::PlayClientPluginMessage(body.value)),
            Err(e) => Err(PacketErr::DeserializeFailed(e)),
        },
        other => Err(PacketErr::UnknownId(other)),
    }
}

fn read_play_server_bound_2(number: i32, data: &[u8]) -> (res: Result<Packet578, PacketErr>)
    requires
        0x0C <= number,
        number < 0x18,
    ensures
        match res {
            Ok(packet) => registered_play_server_bound(number) && packet.spec_id() == (Id {
                id: number,
                state: State::Play,
                direction: PacketDirection::ServerBound,
            }) && packet.is_body(data@),
            Err(PacketErr::UnknownId(n)) => !registered_play_server_bound(number) && n == number,
            Err(PacketErr::DeserializeFailed(e)) => registered_play_server_bound(number)
                && body_fault_play_server_bound(
                number,
                data@,
            ) == Some(e@),
        },
{
    match number {
        0x0C => match <PlayEditBookSpec>::mc_deserialize(data) {
            Ok(body) => Ok(Packet578::PlayEditBook(body.value)),
            Err(e) => Err(PacketErr::DeserializeFailed(e)),
        },
        0x0D => match <PlayQueryEntityNbtSpec>::mc_deserialize(data) {
            Ok(body) => Ok(Packet578::PlayQueryEntityNbt(body.value)),
            Err(e) => Err(PacketErr::DeserializeFailed(e)),
        },
        0x0E => match <PlayInteractEntitySpec>::mc_deserialize(data) {
            Ok(body) => Ok(Packet578::PlayInteractEntity(body.value)),
            Err(e) => Err(PacketErr::DeserializeFailed(e)),
        },
        0x0F => match <PlayClientKeepAliveSpec>::mc_deserialize(data) {
            Ok(body) => Ok(Packet578::PlayClientKeepAlive(body.value)),
            Err(e) => Err(PacketErr::DeserializeFailed(e)),
        },
        0x10 => match <PlayLockDifficultySpec>::mc_deserialize(data) {
            Ok(body) => Ok(Packet578::PlayLockDifficulty(body.value)),
            Err(e) => Err(PacketErr::DeserializeFailed(e)),
        },
        0x11 => match <PlayPlayerPositionSpec>::mc_deserialize(data) {
            Ok(body) => Ok(Packet578::PlayPlayerPosition(body.value)),
            Err(e) => Err(PacketErr::DeserializeFailed(e)),
        },
        0x12 => match <PlayClientPlayerPositionAndRotationSpec>::mc_deserialize(data) {
            Ok(body) => Ok(Packet578::PlayClientPlayerPositionAndRotation(body.value)),
            Err(e) => Err(PacketErr::DeserializeFailed(e)),
        },
        0x13 => match <PlayPlayerRotationSpec>::mc_deserialize(data) {
            Ok(body) => Ok(Packet578::PlayPlayerRotation(body.value)),
            Err(e) => Err(PacketErr::DeserializeFailed(e)),
        },
        0x14 => match <PlayPlayerMovementSpec>::mc_deserialize(data) {
            Ok(body) => Ok(Packet578::PlayPlayerMovement(body.value)),
            Err(e) => Err(PacketErr::DeserializeFailed(e)),
        },
        0x15 => match <PlayClientVehicleMoveSpec>::mc_deserialize(data) {
            Ok(body) => Ok(Packet578::PlayClientVehicleMove(body.value)),
            Err(e) => Err(PacketErr::DeserializeFailed(e)),
        },
        0x16 => match <PlaySteerBoatSpec>::mc_deserialize(data) {
            Ok(body) => Ok(Packet578::PlaySteerBoat(body.value)),
            Err(e) => Err(PacketErr::DeserializeFailed(e)),
        },
        0x17 => match <PlayPickItemSpec>::mc_deserialize(data) {
            Ok(body) => Ok(Packet578::PlayPickItem(body.value)),
            Err(e) => Err(PacketErr::DeserializeFailed(e)),
        },
        other => Err(PacketErr::UnknownId(other)),
    }
}

fn read_play_server_bound_3(number: i32, data: &[u8]) -> (res: Result<Packet578, PacketErr>)
    requires
        0x18 <= number,
        number < 0x26,
    ensures
        match res {
            Ok(packet) => registered_play_server_bound(number) && packet.spec_id() == (Id {
                id: number,
                state: State::Play,
                direction: PacketDirection::ServerBound,
            }) && packet.is_body(data@),
            Err(PacketErr::UnknownId(n)) => !registered_play_server_bound(number) && n == number,
            Err(PacketErr::DeserializeFailed(e)) => registered_play_server_bound(number)
                && body_fault_play_server_bound(
                number,
                data@,
            ) == Some(e@),
        },
{
    match number {
        0x18 => match <PlayCraftRecipeRequestSpec>::mc_deserialize(data) {
            Ok(body) => Ok(Packet578::PlayCraftRecipeRequest(body.value)),
            Err(e) => Err(PacketErr::DeserializeFailed(e)),
        },
        0x19 => match <PlayClientPlayerAbilitiesSpec>::mc_deserialize(data) {
            Ok(body) => Ok(Packet578::PlayClientPlayerAbilities(body.value)),
            Err(e) => Err(PacketErr::DeserializeFailed(e)),
        },
        0x1A => match <PlayPlayerDiggingSpec>::mc_deserialize(data) {
            Ok(body) => Ok(Packet578::PlayPlayerDigging(body.value)),
            Err(e) => Err(PacketErr::DeserializeFailed(e)),
        },
        0x1B => match <PlayEntityActionSpec>::mc_deserialize(data) {
            Ok(body) => Ok(Packet578::PlayEntityAction(body.value)),
            Err(e) => Err(PacketErr::DeserializeFailed(e)),
        },
        0x1C => match <PlaySteerVehicleSpec>::mc_deserialize(data) {
            Ok(body) => Ok(Packet578::PlaySteerVehicle(body.value)),
            Err(e) => Err(PacketErr::DeserializeFailed(e)),
        },
        0x1E => match <PlayNameItemSpec>::mc_deserialize(data) {
            Ok(body) => Ok(Packet578::PlayNameItem(body.value)),
            Err(e) => Err(PacketErr::DeserializeFailed(e)),
        },
        0x1F => match <PlayResourcePackStatusSpec>::mc_deserialize(data) {
            Ok(body) => Ok(Packet578::PlayResourcePackStatus(body.value)),
            Err(e) => Err(PacketErr::DeserializeFailed(e)),
        },
        0x21 => match <PlaySelectTradeSpec>::mc_deserialize(data) {
            Ok(body) => Ok(Packet578::PlaySelectTrade(body.value)),
            Err(e) => Err(PacketErr::DeserializeFailed(e)),
        },
        0x22 => match <PlaySetBeaconEffectSpec>::mc_deserialize(data) {
            Ok(body) => Ok(Packet578::PlaySetBeaconEffect(body.value)),
            Err(e) => Err(PacketErr::DeserializeFailed(e)),
        },
        0x23 => match <PlayClientHeldItemChangeSpec>::mc_deserialize(data) {
            Ok(body) => Ok(Packet578::PlayClientHeldItemChange(body.value)),
            Err(e) => Err(PacketErr::DeserializeFailed(e)),
        },
        0x24 => match <PlayUpdateCommandBlockSpec>::mc_deserialize(data) {
            Ok(body) => Ok(Packet578::PlayUpdateCommandBlock(body.value)),
            Err(e) => Err(PacketErr::DeserializeFailed(e)),
        },
        0x25 => match <PlayUpdateCommandBlockMinecartSpec>::mc_deserialize(data) {
            Ok(body) => Ok(Packet578::PlayUpdateCommandBlockMinecart(body.value)),
            Err(e) => Err(PacketErr::DeserializeFailed(e)),
        },
        other => Err(PacketErr::UnknownId(other)),
    }
}

fn read_play_server_bound_4(number: i32, data: &[u8]) -> (res: Result<Packet578, PacketErr>)
    requires
        0x26 <= number,
    ensures
        match res {
            Ok(packet) => registered_play_server_bound(number) && packet.spec_id() == (Id {
                id: number,
                state: State::Play,
                direction: PacketDirection::ServerBound,
            }) && packet.is_body(data@),
            Err(PacketErr::UnknownId(n)) => !registered_play_server_bound(number) && n == number,
            Err(PacketErr::DeserializeFailed(e)) => registered_play_server_bound(number)
                && body_fault_play_server_bound(
                number,
                data@,
            ) == Some(e@),
        },
{
    match number {
        0x26 => match <PlayCreativeInventoryActionSpec>::mc_deserialize(data) {
            Ok(body) => Ok(Packet578::PlayCreativeInventoryAction(body.value)),
            Err(e) => Err(PacketErr::DeserializeFailed(e)),
        },
        0x27 => match <PlayUpdateJigsawBlockSpec>::mc_deserialize(data) {
            Ok(body) => Ok(Packet578::PlayUpdateJigsawBlock(body.value)),
            Err(e) => Err(PacketErr::DeserializeFailed(e)),
        },
        0x28 => match <PlayUpdateStructureBlockSpec>::mc_deserialize(data) {
            Ok(body) => Ok(Packet578::PlayUpdateStructureBlock(body.value)),
            Err(e) => Err(PacketErr::DeserializeFailed(e)),
        },
        0x29 => match <PlayUpdateSignSpec>::mc_deserialize(data) {
            Ok(body) => Ok(Packet578::PlayUpdateSign(body.value)),
            Err(e) => Err(PacketErr::DeserializeFailed(e)),
        },
        0x2A => match <PlayClientAnimationSpec>::mc_deserialize(data) {
            Ok(body) => Ok(Packet578::PlayClientAnimation(body.value)),
            Err(e) => Err(PacketErr::DeserializeFailed(e)),
        },
        0x2B => match <PlaySpectateSpec>::mc_deserialize(data) {
            Ok(body) => Ok(Packet578::PlaySpectate(body.value)),
            Err(e) => Err(PacketErr::DeserializeFailed(e)),
        },
        0x2C => match <PlayBlockPlacementSpec>::mc_deserialize(data) {
            Ok(body) => Ok(Packet578::PlayBlockPlacement(body.value)),
            Err(e) => Err(PacketErr::DeserializeFailed(e)),
        },
        0x2D => match <PlayUseItemSpec>::mc_deserialize(data) {
            Ok(body) => Ok(Packet578::PlayUseItem(body.value)),
            Err(e) => Err(PacketErr::DeserializeFailed(e)),
        },
        other => Err(PacketErr::UnknownId(other)),
    }
}

fn read_play_server_bound(number: i32, data: &[u8]) -> (res: Result<Packet578, PacketErr>)
    ensures
        match res {
            Ok(packet) => registered_play_server_bound(number) && packet.spec_id() == (Id {
                id: number,
                state: State::Play,
                direction: PacketDirection::ServerBound,
            }) && packet.is_body(data@),
            Err(PacketErr::UnknownId(n)) => !registered_play_server_bound(number) && n == number,
            Err(PacketErr::DeserializeFailed(e)) => registered_play_server_bound(number)
                && body_fault_play_server_bound(
                number,
                data@,
            ) == Some(e@),
        },
{

    if number < 0x0C {
        read_play_server_bound_1(number, data)
    } else if number < 0x18 {
        read_play_server_bound_2(number, data)
    } else if number < 0x26 {
        read_play_server_bound_3(number, data)
    } else {
        read_play_server_bound_4(number, data)
    }
}

impl Packet<Id> for Packet578 {
    open spec fn spec_id(&self) -> Id {
        match self {
            Packet578::Handshake(_) => Id {
                id: 0x00,
                state: State::Handshaking,
                direction: PacketDirection::ServerBound,
            },
            Packet578::StatusRequest(_) => Id {
                id: 0x00,
                state: State::Status,
                direction: PacketDirection::ServerBound,
            },
            Packet578::StatusPing(_) => Id {
                id: 0x01,
                state: State::Status,
                direction: PacketDirection::ServerBound,
            },
            Packet578::StatusResponse(_) => Id {
                id: 0x00,
                state: State::Status,
                direction: PacketDirection::ClientBound,
            },
            Packet578::StatusPong(_) => Id {
                id: 0x01,
                state: State::Status,
                direction: PacketDirection::ClientBound,
            },
            Packet578::LoginDisconnect(_) => Id {
                id: 0x00,
                state: State::Login,
                direction: PacketDirection::ClientBound,
            },
            Packet578::LoginEncryptionRequest(_) => Id {
                id: 0x01,
                state: State::Login,
                direction: PacketDirection::ClientBound,
            },
            Packet578::LoginSuccess(_) => Id {
                id: 0x02,
                state: State::Login,
                direction: PacketDirection::ClientBound,
            },
            Packet578::LoginSetCompression(_) => Id {
                id: 0x03,
                state: State::Login,
                direction: PacketDirection::ClientBound,
            },
            Packet578::LoginPluginRequest(_) => Id {
                id: 0x04,
                state: State::Login,
                direction: PacketDirection::ClientBound,
            },
            Packet578::LoginStart(_) => Id {
                id: 0x00,
                state: State::Login,
                direction: PacketDirection::ServerBound,
            },
            Packet578::LoginEncryptionResponse(_) => Id {
                id: 0x01,
                state: State::Login,
                direction: PacketDirection::ServerBound,
            },
            Packet578::LoginPluginResponse(_) => Id {
                id: 0x02,
                state: State::Login,
                direction: PacketDirection::ServerBound,
            },
            Packet578::PlaySpawnEntity(_) => Id {
                id: 0x00,
                state: State::Play,
                direction: PacketDirection::ClientBound,
            },
            Packet578::PlaySpawnExperienceOrb(_) => Id {
                id: 0x01,
                state: State::Play,
                direction: PacketDirection::ClientBound,
            },
            Packet578::PlaySpawnWeatherEntity(_) => Id {
                id: 0x02,
                state: State::Play,
                direction: PacketDirection::ClientBound,
            },
            Packet578::PlaySpawnLivingEntity(_) => Id {
                id: 0x03,
                state: State::Play,
                direction: PacketDirection::ClientBound,
            },
            Packet578::PlaySpawnPainting(_) => Id {
                id: 0x04,
                state: State::Play,
                direction: PacketDirection::ClientBound,
            },
            Packet578::PlaySpawnPlayer(_) => Id {
                id: 0x05,
                state: State::Play,
                direction: PacketDirection::ClientBound,
            },
            Packet578::PlayEntityAnimation(_) => Id {
                id: 0x06,
                state: State::Play,
                direction: PacketDirection::ClientBound,
            },
            Packet578::PlayStatistics(_) => Id {
                id: 0x07,
                state: State::Play,
                direction: PacketDirection::ClientBound,
            },
            Packet578::PlayAcknowledgePlayerDigging(_) => Id {
                id: 0x08,
                state: State::Play,
                direction: PacketDirection::ClientBound,
            },
            Packet578::PlayBlockBreakAnimation(_) => Id {
                id: 0x09,
                state: State::Play,
                direction: PacketDirection::ClientBound,
            },
            Packet578::PlayBlockEntityData(_) => Id {
                id: 0x0A,
                state: State::Play,
                direction: PacketDirection::ClientBound,
            },
            Packet578::PlayBlockAction(_) => Id {
                id: 0x0B,
                state: State::Play,
                direction: PacketDirection::ClientBound,
            },
            Packet578::PlayBlockChange(_) => Id {
                id: 0x0C,
                state: State::Play,
                direction: PacketDirection::ClientBound,
            },
            Packet578::PlayBossBar(_) => Id {
                id: 0x0D,
                state: State::Play,
                direction: PacketDirection::ClientBound,
            },
            Packet578::PlayServerDifficulty(_) => Id {
                id: 0x0E,
                state: State::Play,
                direction: PacketDirection::ClientBound,
            },
            Packet578::PlayServerChatMessage(_) => Id {
                id: 0x0F,
                state: State::Play,
                direction: PacketDirection::ClientBound,
            },
            Packet578::PlayMultiBlockChange(_) => Id {
                id: 0x10,
                state: State::Play,
                direction: PacketDirection::ClientBound,
            },
            Packet578::PlayTabComplete(_) => Id {
                id: 0x11,
                state: State::Play,
                direction: PacketDirection::ClientBound,
            },
            Packet578::PlayDeclareCommands(_) => Id {
                id: 0x12,
                state: State::Play,
                direction: PacketDirection::ClientBound,
            },
            Packet578::PlayServerWindowConfirmation(_) => Id {
                id: 0x13,
                state: State::Play,
                direction: PacketDirection::ClientBound,
            },
            Packet578::PlayServerCloseWindow(_) => Id {
                id: 0x14,
                state: State::Play,
                direction: PacketDirection::ClientBound,
            },
            Packet578::PlayWindowItems(_) => Id {
                id: 0x15,
                state: State::Play,
                direction: PacketDirection::ClientBound,
            },
            Packet578::PlayWindowProperty(_) => Id {
                id: 0x16,
                state: State::Play,
                direction: PacketDirection::ClientBound,
            },
            Packet578::PlaySetSlot(_) => Id {
                id: 0x17,
                state: State::Play,
                direction: PacketDirection::ClientBound,
            },
            Packet578::PlaySetCooldown(_) => Id {
                id: 0x18,
                state: State::Play,
                direction: PacketDirection::ClientBound,
            },
            Packet578::PlayServerPluginMessage(_) => Id {
                id: 0x19,
                state: State::Play,
                direction: PacketDirection::ClientBound,
            },
            Packet578::PlayNamedSoundEffect(_) => Id {
                id: 0x1A,
                state: State::Play,
                direction: PacketDirection::ClientBound,
            },
            Packet578::PlayDisconnect(_) => Id {
                id: 0x1B,
                state: State::Play,
                direction: PacketDirection::ClientBound,
            },
            Packet578::PlayEntityStatus(_) => Id {
                id: 0x1C,
                state: State::Play,
                direction: PacketDirection::ClientBound,
            },
            Packet578::PlayExposion(_) => Id {
                id: 0x1D,
                state: State::Play,
                direction: PacketDirection::ClientBound,
            },
            Packet578::PlayUnloadChunk(_) => Id {
                id: 0x1E,
                state: State::Play,
                direction: PacketDirection::ClientBound,
            },
            Packet578::PlayChangeGameState(_) => Id {
                id: 0x1F,
                state: State::Play,
                direction: PacketDirection::ClientBound,
            },
            Packet578::PlayOpenHorseWindow(_) => Id {
                id: 0x20,
                state: State::Play,
                direction: PacketDirection::ClientBound,
            },
            Packet578::PlayServerKeepAlive(_) => Id {
                id: 0x21,
                state: State::Play,
                direction: PacketDirection::ClientBound,
            },
            Packet578::PlayChunkData(_) => Id {
                id: 0x22,
                state: State::Play,
                direction: PacketDirection::ClientBound,
            },
            Packet578::PlayEffect(_) => Id {
                id: 0x23,
                state: State::Play,
                direction: PacketDirection::ClientBound,
            },
            Packet578::PlayParticle(_) => Id {
                id: 0x24,
                state: State::Play,
                direction: PacketDirection::ClientBound,
            },
            Packet578::PlayUpdateLight(_) => Id {
                id: 0x25,
                state: State::Play,
                direction: PacketDirection::ClientBound,
            },
            Packet578::PlayJoinGame(_) => Id {
                id: 0x26,
                state: State::Play,
                direction: PacketDirection::ClientBound,
            },
            Packet578::PlayMapData(_) => Id {
                id: 0x27,
                state: State::Play,
                direction: PacketDirection::ClientBound,
            },
            Packet578::PlayTradeList(_) => Id {
                id: 0x28,
                state: State::Play,
                direction: PacketDirection::ClientBound,
            },
            Packet578::PlayEntityPosition(_) => Id {
                id: 0x29,
                state: State::Play,
                direction: PacketDirection::ClientBound,
            },
            Packet578::PlayEntityPositionAndRotation(_) => Id {
                id: 0x2A,
                state: State::Play,
                direction: PacketDirection::ClientBound,
            },
            Packet578::PlayEntityRotation(_) => Id {
                id: 0x2B,
                state: State::Play,
                direction: PacketDirection::ClientBound,
            },
            Packet578::PlayEntityMovement(_) => Id {
                id: 0x2C,
                state: State::Play,
                direction: PacketDirection::ClientBound,
            },
            Packet578::PlayServerVehicleMove(_) => Id {
                id: 0x2D,
                state: State::Play,
                direction: PacketDirection::ClientBound,
            },
            Packet578::PlayOpenBook(_) => Id {
                id: 0x2E,
                state: State::Play,
                direction: PacketDirection::ClientBound,
            },
            Packet578::PlayOpenWindow(_) => Id {
                id: 0x2F,
                state: State::Play,
                direction: PacketDirection::ClientBound,
            },
            Packet578::PlayOpenSignEditor(_) => Id {
                id: 0x30,
                state: State::Play,
                direction: PacketDirection::ClientBound,
            },
            Packet578::PlayCraftRecipeResponse(_) => Id {
                id: 0x31,
                state: State::Play,
                direction: PacketDirection::ClientBound,
            },
            Packet578::PlayServerPlayerAbilities(_) => Id {
                id: 0x32,
                state: State::Play,
                direction: PacketDirection::ClientBound,
            },
            Packet578::PlayCombatEvent(_) => Id {
                id: 0x33,
                state: State::Play,
                direction: PacketDirection::ClientBound,
            },
            Packet578::PlayPlayerInfo(_) => Id {
                id: 0x34,
                state: State::Play,
                direction: PacketDirection::ClientBound,
            },
            Packet578::PlayFacePlayer(_) => Id {
                id: 0x35,
                state: State::Play,
                direction: PacketDirection::ClientBound,
            },
            Packet578::PlayServerPlayerPositionAndLook(_) => Id {
                id: 0x36,
                state: State::Play,
                direction: PacketDirection::ClientBound,
            },
            Packet578::PlayUnlockRecipes(_) => Id {
                id: 0x37,
                state: State::Play,
                direction: PacketDirection::ClientBound,
            },
            Packet578::PlayDestroyEntities(_) => Id {
                id: 0x38,
                state: State::Play,
                direction: PacketDirection::ClientBound,
            },
            Packet578::PlayRemoveEntityEffect(_) => Id {
                id: 0x39,
                state: State::Play,
                direction: PacketDirection::ClientBound,
            },
            Packet578::PlayResourcePackSend(_) => Id {
                id: 0x3A,
                state: State::Play,
                direction: PacketDirection::ClientBound,
            },
            Packet578::PlayRespawn(_) => Id {
                id: 0x3B,
                state: State::Play,
                direction: PacketDirection::ClientBound,
            },
            Packet578::PlayEntityHeadLook(_) => Id {
                id: 0x3C,
                state: State::Play,
                direction: PacketDirection::ClientBound,
            },
            Packet578::PlaySelectAdvancementTab(_) => Id {
                id: 0x3D,
                state: State::Play,
                direction: PacketDirection::ClientBound,
            },
            Packet578::PlayWorldBorder(_) => Id {
                id: 0x3E,
                state: State::Play,
                direction: PacketDirection::ClientBound,
            },
            Packet578::PlayCamera(_) => Id {
                id: 0x3F,
                state: State::Play,
                direction: PacketDirection::ClientBound,
            },
            Packet578::PlayServerHeldItemChange(_) => Id {
                id: 0x40,
                state: State::Play,
                direction: PacketDirection::ClientBound,
            },
            Packet578::PlayUpdateViewPosition(_) => Id {
                id: 0x41,
                state: State::Play,
                direction: PacketDirection::ClientBound,
            },
            Packet578::PlayUpdateViewDistance(_) => Id {
                id: 0x42,
                state: State::Play,
                direction: PacketDirection::ClientBound,
            },
            Packet578::PlayDisplayScoreboard(_) => Id {
                id: 0x43,
                state: State::Play,
                direction: PacketDirection::ClientBound,
            },
            Packet578::PlayEntityMetadata(_) => Id {
                id: 0x44,
                state: State::Play,
                direction: PacketDirection::ClientBound,
            },
            Packet578::PlayAttachEntity(_) => Id {
                id: 0x45,
                state: State::Play,
                direction: PacketDirection::ClientBound,
            },
            Packet578::PlayEntityVelocity(_) => Id {
                id: 0x46,
                state: State::Play,
                direction: PacketDirection::ClientBound,
            },
            Packet578::PlayEntityEquipment(_) => Id {
                id: 0x47,
                state: State::Play,
                direction: PacketDirection::ClientBound,
            },
            Packet578::PlaySetExperience(_) => Id {
                id: 0x48,
                state: State::Play,
                direction: PacketDirection::ClientBound,
            },
            Packet578::PlayUpdatehealth(_) => Id {
                id: 0x49,
                state: State::Play,
                direction: PacketDirection::ClientBound,
            },
            Packet578::PlayScoreboardObjective(_) => Id {
                id: 0x4A,
                state: State::Play,
                direction: PacketDirection::ClientBound,
            },
            Packet578::PlaySetPassengers(_) => Id {
                id: 0x4B,
                state: State::Play,
                direction: PacketDirection::ClientBound,
            },
            Packet578::PlaySpawnPosition(_) => Id {
                id: 0x4E,
                state: State::Play,
                direction: PacketDirection::ClientBound,
            },
            Packet578::PlayTimeUpdate(_) => Id {
                id: 0x4F,
                state: State::Play,
                direction: PacketDirection::ClientBound,
            },
            Packet578::PlayEntitySoundEffect(_) => Id {
                id: 0x51,
                state: State::Play,
                direction: PacketDirection::ClientBound,
            },
            Packet578::PlaySoundEffect(_) => Id {
                id: 0x52,
                state: State::Play,
                direction: PacketDirection::ClientBound,
            },
            Packet578::PlayerPlayerListHeaderAndFooter(_) => Id {
                id: 0x54,
                state: State::Play,
                direction: PacketDirection::ClientBound,
            },
            Packet578::PlayNbtQueryResponse(_) => Id {
                id: 0x55,
                state: State::Play,
                direction: PacketDirection::ClientBound,
            },
            Packet578::PlayCollectItem(_) => Id {
                id: 0x56,
                state: State::Play,
                direction: PacketDirection::ClientBound,
            },
            Packet578::PlayEntityTeleport(_) => Id {
                id: 0x57,
                state: State::Play,
                direction: PacketDirection::ClientBound,
            },
            Packet578::PlayAdvancements(_) => Id {
                id: 0x58,
                state: State::Play,
                direction: PacketDirection::ClientBound,
            },
            Packet578::PlayEntityProperties(_) => Id {
                id: 0x59,
                state: State::Play,
                direction: PacketDirection::ClientBound,
            },
            Packet578::PlayEntityEffect(_) => Id {
                id: 0x5A,
                state: State::Play,
                direction: PacketDirection::ClientBound,
            },
            Packet578::PlayDeclareRecipes(_) => Id {
                id: 0x5B,
                state: State::Play,
                direction: PacketDirection::ClientBound,
            },
            Packet578::PlayTags(_) => Id {
                id: 0x5C,
                state: State::Play,
                direction: PacketDirection::ClientBound,
            },
            Packet578::PlayTeleportConfirm(_) => Id {
                id: 0x00,
                state: State::Play,
                direction: PacketDirection::ServerBound,
            },
            Packet578::PlayQueryBlockNbt(_) => Id {
                id: 0x01,
                state: State::Play,
                direction: PacketDirection::ServerBound,
            },
            Packet578::PlayQueryEntityNbt(_) => Id {
                id: 0x0D,
                state: State::Play,
                direction: PacketDirection::ServerBound,
            },
            Packet578::PlaySetDifficulty(_) => Id {
                id: 0x02,
                state: State::Play,
                direction: PacketDirection::ServerBound,
            },
            Packet578::PlayClientChatMessage(_) => Id {
                id: 0x03,
                state: State::Play,
                direction: PacketDirection::ServerBound,
            },
            Packet578::PlayClientStatus(_) => Id {
                id: 0x04,
                state: State::Play,
                direction: PacketDirection::ServerBound,
            },
            Packet578::PlayClientSettings(_) => Id {
                id: 0x05,
                state: State::Play,
                direction: PacketDirection::ServerBound,
            },
            Packet578::PlayClientTabComplete(_) => Id {
                id: 0x06,
                state: State::Play,
                direction: PacketDirection::ServerBound,
            },
            Packet578::PlayClientWindowConfirmation(_) => Id {
                id: 0x07,
                state: State::Play,
                direction: PacketDirection::ServerBound,
            },
            Packet578::PlayClickWindowButton(_) => Id {
                id: 0x08,
                state: State::Play,
                direction: PacketDirection::ServerBound,
            },
            Packet578::PlayClickWindow(_) => Id {
                id: 0x09,
                state: State::Play,
                direction: PacketDirection::ServerBound,
            },
            Packet578::PlayClientCloseWindow(_) => Id {
                id: 0x0A,
                state: State::Play,
                direction: PacketDirection::ServerBound,
            },
            Packet578::PlayClientPluginMessage(_) => Id {
                id: 0x0B,
                state: State::Play,
                direction: PacketDirection::ServerBound,
            },
            Packet578::PlayEditBook(_) => Id {
                id: 0x0C,
                state: State::Play,
                direction: PacketDirection::ServerBound,
            },
            Packet578::PlayInteractEntity(_) => Id {
                id: 0x0E,
                state: State::Play,
                direction: PacketDirection::ServerBound,
            },
            Packet578::PlayClientKeepAlive(_) => Id {
                id: 0x0F,
                state: State::Play,
                direction: PacketDirection::ServerBound,
            },
            Packet578::PlayLockDifficulty(_) => Id {
                id: 0x10,
                state: State::Play,
                direction: PacketDirection::ServerBound,
            },
            Packet578::PlayPlayerPosition(_) => Id {
                id: 0x11,
                state: State::Play,
                direction: PacketDirection::ServerBound,
            },
            Packet578::PlayClientPlayerPositionAndRotation(_) => Id {
                id: 0x12,
                state: State::Play,
                direction: PacketDirection::ServerBound,
            },
            Packet578::PlayPlayerRotation(_) => Id {
                id: 0x13,
                state: State::Play,
                direction: PacketDirection::ServerBound,
            },
            Packet578::PlayPlayerMovement(_) => Id {
                id: 0x14,
                state: State::Play,
                direction: PacketDirection::ServerBound,
            },
            Packet578::PlayClientVehicleMove(_) => Id {
                id: 0x15,
                state: State::Play,
                direction: PacketDirection::ServerBound,
            },
            Packet578::PlaySteerBoat(_) => Id {
                id: 0x16,
                state: State::Play,
                direction: PacketDirection::ServerBound,
            },
            Packet578::PlayPickItem(_) => Id {
                id: 0x17,
                state: State::Play,
                direction: PacketDirection::ServerBound,
            },
            Packet578::PlayCraftRecipeRequest(_) => Id {
                id: 0x18,
                state: State::Play,
                direction: PacketDirection::ServerBound,
            },
            Packet578::PlayClientPlayerAbilities(_) => Id {
                id: 0x19,
                state: State::Play,
                direction: PacketDirection::ServerBound,
            },
            Packet578::PlayPlayerDigging(_) => Id {
                id: 0x1A,
                state: State::Play,
                direction: PacketDirection::ServerBound,
            },
            Packet578::PlayEntityAction(_) => Id {
                id: 0x1B,
                state: State::Play,
                direction: PacketDirection::ServerBound,
            },
            Packet578::PlaySteerVehicle(_) => Id {
                id: 0x1C,
                state: State::Play,
                direction: PacketDirection::ServerBound,
            },
            Packet578::PlayNameItem(_) => Id {
                id: 0x1E,
                state: State::Play,
                direction: PacketDirection::ServerBound,
            },
            Packet578::PlayResourcePackStatus(_) => Id {
                id: 0x1F,
                state: State::Play,
                direction: PacketDirection::ServerBound,
            },
            Packet578::PlaySelectTrade(_) => Id {
                id: 0x21,
                state: State::Play,
                direction: PacketDirection::ServerBound,
            },
            Packet578::PlaySetBeaconEffect(_) => Id {
                id: 0x22,
                state: State::Play,
                direction: PacketDirection::ServerBound,
            },
            Packet578::PlayClientHeldItemChange(_) => Id {
                id: 0x23,
                state: State::Play,
                direction: PacketDirection::ServerBound,
            },
            Packet578::PlayUpdateCommandBlock(_) => Id {
                id: 0x24,
                state: State::Play,
                direction: PacketDirection::ServerBound,
            },
            Packet578::PlayUpdateCommandBlockMinecart(_) => Id {
                id: 0x25,
                state: State::Play,
                direction: PacketDirection::ServerBound,
            },
            Packet578::PlayCreativeInventoryAction(_) => Id {
                id: 0x26,
                state: State::Play,
                direction: PacketDirection::ServerBound,
            },
            Packet578::PlayUpdateJigsawBlock(_) => Id {
                id: 0x27,
                state: State::Play,
                direction: PacketDirection::ServerBound,
            },
            Packet578::PlayUpdateStructureBlock(_) => Id {
                id: 0x28,
                state: State::Play,
                direction: PacketDirection::ServerBound,
            },
            Packet578::PlayUpdateSign(_) => Id {
                id: 0x29,
                state: State::Play,
                direction: PacketDirection::ServerBound,
            },
            Packet578::PlayClientAnimation(_) => Id {
                id: 0x2A,
                state: State::Play,
                direction: PacketDirection::ServerBound,
            },
            Packet578::PlaySpectate(_) => Id {
                id: 0x2B,
                state: State::Play,
                direction: PacketDirection::ServerBound,
            },
            Packet578::PlayBlockPlacement(_) => Id {
                id: 0x2C,
                state: State::Play,
                direction: PacketDirection::ServerBound,
            },
            Packet578::PlayUseItem(_) => Id {
                id: 0x2D,
                state: State::Play,
                direction: PacketDirection::ServerBound,
            },
        }
    }

    /// The registry: which numbers stand for a packet, by state and direction.
    open spec fn registered(id: Id) -> bool {
        match (id.state, id.direction) {
            (State::Handshaking, PacketDirection::ServerBound) => {
                registered_handshaking_server_bound(id.id)
            },
            (State::Status, PacketDirection::ServerBound) => registered_status_server_bound(id.id),
            (State::Status, PacketDirection::ClientBound) => registered_status_client_bound(id.id),
            (State::Login, PacketDirection::ClientBound) => registered_login_client_bound(id.id),
            (State::Login, PacketDirection::ServerBound) => registered_login_server_bound(id.id),
            (State::Play, PacketDirection::ClientBound) => registered_play_client_bound(id.id),
            (State::Play, PacketDirection::ServerBound) => registered_play_server_bound(id.id),
            _ => false,
        }
    }

    open spec fn number(id: Id) -> i32 {
        id.id
    }

    open spec fn body_fault(id: Id, data: Seq<u8>) -> Option<Fault> {
        match (id.state, id.direction) {
            (State::Handshaking, PacketDirection::ServerBound) => {
                body_fault_handshaking_server_bound(id.id, data)
            },
            (State::Status, PacketDirection::ServerBound) => body_fault_status_server_bound(
                id.id,
                data,
            ),
            (State::Status, PacketDirection::ClientBound) => body_fault_status_client_bound(
                id.id,
                data,
            ),
            (State::Login, PacketDirection::ClientBound) => body_fault_login_client_bound(
                id.id,
                data,
            ),
            (State::Login, PacketDirection::ServerBound) => body_fault_login_server_bound(
                id.id,
                data,
            ),
            (State::Play, PacketDirection::ClientBound) => body_fault_play_client_bound(
                id.id,
                data,
            ),
            (State::Play, PacketDirection::ServerBound) => body_fault_play_server_bound(
                id.id,
                data,
            ),
            _ => None,
        }
    }

    open spec fn is_body(&self, data: Seq<u8>) -> bool {
        match self {
            Packet578::Handshake(body) => {
                <HandshakeSpec>::decoding(data) matches Ok((model, _)) && model == body.model()
            },
            Packet578::StatusRequest(body) => {
                <StatusRequestSpec>::decoding(data) matches Ok((model, _)) && model == body.model()
            },
            Packet578::StatusPing(body) => {
                <StatusPingSpec>::decoding(data) matches Ok((model, _)) && model == body.model()
            },
            Packet578::StatusResponse(body) => {
                <StatusResponseSpec>::decoding(data) matches Ok((model, _)) && model == body.model()
            },
            Packet578::StatusPong(body) => {
                <StatusPongSpec>::decoding(data) matches Ok((model, _)) && model == body.model()
            },
            Packet578::LoginDisconnect(body) => {
                <LoginDisconnectSpec>::decoding(data) matches Ok((model, _))
                    && model == body.model()
            },
            Packet578::LoginEncryptionRequest(body) => {
                <LoginEncryptionRequestSpec>::decoding(data) matches Ok((model, _))
                    && model == body.model()
            },
            Packet578::LoginSuccess(body) => {
                <LoginSuccessSpec>::decoding(data) matches Ok((model, _)) && model == body.model()
            },
            Packet578::LoginSetCompression(body) => {
                <LoginSetCompressionSpec>::decoding(data) matches Ok((model, _))
                    && model == body.model()
            },
            Packet578::LoginPluginRequest(body) => {
                <LoginPluginRequestSpec>::decoding(data) matches Ok((model, _))
                    && model == body.model()
            },
            Packet578::LoginStart(body) => {
                <LoginStartSpec>::decoding(data) matches Ok((model, _)) && model == body.model()
            },
            Packet578::LoginEncryptionResponse(body) => {
                <LoginEncryptionResponseSpec>::decoding(data) matches Ok((model, _))
                    && model == body.model()
            },
            Packet578::LoginPluginResponse(body) => {
                <LoginPluginResponseSpec>::decoding(data) matches Ok((model, _))
                    && model == body.model()
            },
            Packet578::PlaySpawnEntity(body) => {
                <PlaySpawnEntitySpec>::decoding(data) matches Ok((model, _))
                    && model == body.model()
            },
            Packet578::PlaySpawnExperienceOrb(body) => {
                <PlaySpawnExperienceOrbSpec>::decoding(data) matches Ok((model, _))
                    && model == body.model()
            },
            Packet578::PlaySpawnWeatherEntity(body) => {
                <PlaySpawnWeatherEntitySpec>::decoding(data) matches Ok((model, _))
                    && model == body.model()
            },
            Packet578::PlaySpawnLivingEntity(body) => {
                <PlaySpawnLivingEntitySpec>::decoding(data) matches Ok((model, _))
                    && model == body.model()
            },
            Packet578::PlaySpawnPainting(body) => {
                <PlaySpawnPaintingSpec>::decoding(data) matches Ok((model, _))
                    && model == body.model()
            },
            Packet578::PlaySpawnPlayer(body) => {
                <PlaySpawnPlayerSpec>::decoding(data) matches Ok((model, _))
                    && model == body.model()
            },
            Packet578::PlayEntityAnimation(body) => {
                <PlayEntityAnimationSpec>::decoding(data) matches Ok((model, _))
                    && model == body.model()
            },
            Packet578::PlayStatistics(body) => {
                <PlayStatisticsSpec>::decoding(data) matches Ok((model, _)) && model == body.model()
            },
            Packet578::PlayAcknowledgePlayerDigging(body) => {
                <PlayAcknowledgePlayerDiggingSpec>::decoding(data) matches Ok((model, _))
                    && model == body.model()
            },
            Packet578::PlayBlockBreakAnimation(body) => {
                <PlayBlockBreakAnimationSpec>::decoding(data) matches Ok((model, _))
                    && model == body.model()
            },
            Packet578::PlayBlockEntityData(body) => {
                <PlayBlockEntityDataSpec>::decoding(data) matches Ok((model, _))
                    && model == body.model()
            },
            Packet578::PlayBlockAction(body) => {
                <PlayBlockActionSpec>::decoding(data) matches Ok((model, _))
                    && model == body.model()
            },
            Packet578::PlayBlockChange(body) => {
                <PlayBlockChangeSpec>::decoding(data) matches Ok((model, _))
                    && model == body.model()
            },
            Packet578::PlayBossBar(body) => {
                <PlayBossBarSpec>::decoding(data) matches Ok((model, _)) && model == body.model()
            },
            Packet578::PlayServerDifficulty(body) => {
                <PlayServerDifficultySpec>::decoding(data) matches Ok((model, _))
                    && model == body.model()
            },
            Packet578::PlayServerChatMessage(body) => {
                <PlayServerChatMessageSpec>::decoding(data) matches Ok((model, _))
                    && model == body.model()
            },
            Packet578::PlayMultiBlockChange(body) => {
                <PlayMultiBlockChangeSpec>::decoding(data) matches Ok((model, _))
                    && model == body.model()
            },
            Packet578::PlayTabComplete(body) => {
                <PlayTabCompleteSpec>::decoding(data) matches Ok((model, _))
                    && model == body.model()
            },
            Packet578::PlayDeclareCommands(body) => {
                <PlayDeclareCommandsSpec>::decoding(data) matches Ok((model, _))
                    && model == body.model()
            },
            Packet578::PlayServerWindowConfirmation(body) => {
                <PlayServerWindowConfirmationSpec>::decoding(data) matches Ok((model, _))
                    && model == body.model()
            },
            Packet578::PlayServerCloseWindow(body) => {
                <PlayServerCloseWindowSpec>::decoding(data) matches Ok((model, _))
                    && model == body.model()
            },
            Packet578::PlayWindowItems(body) => {
                <PlayWindowItemsSpec>::decoding(data) matches Ok((model, _))
                    && model == body.model()
            },
            Packet578::PlayWindowProperty(body) => {
                <PlayWindowPropertySpec>::decoding(data) matches Ok((model, _))
                    && model == body.model()
            },
            Packet578::PlaySetSlot(body) => {
                <PlaySetSlotSpec>::decoding(data) matches Ok((model, _)) && model == body.model()
            },
            Packet578::PlaySetCooldown(body) => {
                <PlaySetCooldownSpec>::decoding(data) matches Ok((model, _))
                    && model == body.model()
            },
            Packet578::PlayServerPluginMessage(body) => {
                <PlayServerPluginMessageSpec>::decoding(data) matches Ok((model, _))
                    && model == body.model()
            },
            Packet578::PlayNamedSoundEffect(body) => {
                <PlayNamedSoundEffectSpec>::decoding(data) matches Ok((model, _))
                    && model == body.model()
            },
            Packet578::PlayDisconnect(body) => {
                <PlayDisconnectSpec>::decoding(data) matches Ok((model, _)) && model == body.model()
            },
            Packet578::PlayEntityStatus(body) => {
                <PlayEntityStatusSpec>::decoding(data) matches Ok((model, _))
                    && model == body.model()
            },
            Packet578::PlayExposion(body) => {
                <PlayExposionSpec>::decoding(data) matches Ok((model, _)) && model == body.model()
            },
            Packet578::PlayUnloadChunk(body) => {
                <PlayUnloadChunkSpec>::decoding(data) matches Ok((model, _))
                    && model == body.model()
            },
            Packet578::PlayChangeGameState(body) => {
                <PlayChangeGameStateSpec>::decoding(data) matches Ok((model, _))
                    && model == body.model()
            },
            Packet578::PlayOpenHorseWindow(body) => {
                <PlayOpenHorseWindowSpec>::decoding(data) matches Ok((model, _))
                    && model == body.model()
            },
            Packet578::PlayServerKeepAlive(body) => {
                <PlayServerKeepAliveSpec>::decoding(data) matches Ok((model, _))
                    && model == body.model()
            },
            Packet578::PlayChunkData(body) => {
                <PlayChunkDataWrapper>::decoding(data) matches Ok((model, _))
                    && model == body.model()
            },
            Packet578::PlayEffect(body) => {
                <PlayEffectSpec>::decoding(data) matches Ok((model, _)) && model == body.model()
            },
            Packet578::PlayParticle(body) => {
                <PlayParticleSpec>::decoding(data) matches Ok((model, _)) && model == body.model()
            },
            Packet578::PlayUpdateLight(body) => {
                <PlayUpdateLoightSpec>::decoding(data) matches Ok((model, _))
                    && model == body.model()
            },
            Packet578::PlayJoinGame(body) => {
                <PlayJoinGameSpec>::decoding(data) matches Ok((model, _)) && model == body.model()
            },
            Packet578::PlayMapData(body) => {
                <PlayMapDataSpec>::decoding(data) matches Ok((model, _)) && model == body.model()
            },
            Packet578::PlayTradeList(body) => {
                <PlayTradeListSpec>::decoding(data) matches Ok((model, _)) && model == body.model()
            },
            Packet578::PlayEntityPosition(body) => {
                <PlayEntityPositionSpec>::decoding(data) matches Ok((model, _))
                    && model == body.model()
            },
            Packet578::PlayEntityPositionAndRotation(body) => {
                <PlayEntityPositionAndRotationSpec>::decoding(data) matches Ok((model, _))
                    && model == body.model()
            },
            Packet578::PlayEntityRotation(body) => {
                <PlayEntityRotationSpec>::decoding(data) matches Ok((model, _))
                    && model == body.model()
            },
            Packet578::PlayEntityMovement(body) => {
                <PlayEntityMovementSpec>::decoding(data) matches Ok((model, _))
                    && model == body.model()
            },
            Packet578::PlayServerVehicleMove(body) => {
                <PlayEntityVehicleMoveSpec>::decoding(data) matches Ok((model, _))
                    && model == body.model()
            },
            Packet578::PlayOpenBook(body) => {
                <PlayOpenBookSpec>::decoding(data) matches Ok((model, _)) && model == body.model()
            },
            Packet578::PlayOpenWindow(body) => {
                <PlayOpenWindowSpec>::decoding(data) matches Ok((model, _)) && model == body.model()
            },
            Packet578::PlayOpenSignEditor(body) => {
                <PlayOpenSignEditorSpec>::decoding(data) matches Ok((model, _))
                    && model == body.model()
            },
            Packet578::PlayCraftRecipeResponse(body) => {
                <PlayCraftRecipeResponseSpec>::decoding(data) matches Ok((model, _))
                    && model == body.model()
            },
            Packet578::PlayServerPlayerAbilities(body) => {
                <PlayServerPlayerAbilitiesSpec>::decoding(data) matches Ok((model, _))
                    && model == body.model()
            },
            Packet578::PlayCombatEvent(body) => {
                <PlayCombatEventSpec>::decoding(data) matches Ok((model, _))
                    && model == body.model()
            },
            Packet578::PlayPlayerInfo(body) => {
                <PlayPlayerInfoSpec>::decoding(data) matches Ok((model, _)) && model == body.model()
            },
            Packet578::PlayFacePlayer(body) => {
                <PlayFacePlayerSpec>::decoding(data) matches Ok((model, _)) && model == body.model()
            },
            Packet578::PlayServerPlayerPositionAndLook(body) => {
                <PlayServerPlayerPositionAndLookSpec>::decoding(data) matches Ok((model, _))
                    && model == body.model()
            },
            Packet578::PlayUnlockRecipes(body) => {
                <PlayUnlockRecipesSpec>::decoding(data) matches Ok((model, _))
                    && model == body.model()
            },
            Packet578::PlayDestroyEntities(body) => {
                <PlayDestroyEntitiesSpec>::decoding(data) matches Ok((model, _))
                    && model == body.model()
            },
            Packet578::PlayRemoveEntityEffect(body) => {
                <PlayRemoveEntityEffectSpec>::decoding(data) matches Ok((model, _))
                    && model == body.model()
            },
            Packet578::PlayResourcePackSend(body) => {
                <PlayResourcePackSendSpec>::decoding(data) matches Ok((model, _))
                    && model == body.model()
            },
            Packet578::PlayRespawn(body) => {
                <PlayRespawnSpec>::decoding(data) matches Ok((model, _)) && model == body.model()
            },
            Packet578::PlayEntityHeadLook(body) => {
                <PlayEntityHeadLookSpec>::decoding(data) matches Ok((model, _))
                    && model == body.model()
            },
            Packet578::PlaySelectAdvancementTab(body) => {
                <PlaySelectAdvancementTabSpec>::decoding(data) matches Ok((model, _))
                    && model == body.model()
            },
            Packet578::PlayWorldBorder(body) => {
                <PlayWorldBorderSpec>::decoding(data) matches Ok((model, _))
                    && model == body.model()
            },
            Packet578::PlayCamera(body) => {
                <PlayCameraSpec>::decoding(data) matches Ok((model, _)) && model == body.model()
            },
            Packet578::PlayServerHeldItemChange(body) => {
                <PlayServerHeldItemChangeSpec>::decoding(data) matches Ok((model, _))
                    && model == body.model()
            },
            Packet578::PlayUpdateViewPosition(body) => {
                <PlayUpdateViewPositionSpec>::decoding(data) matches Ok((model, _))
                    && model == body.model()
            },
            Packet578::PlayUpdateViewDistance(body) => {
                <PlayUpdateViewDistanceSpec>::decoding(data) matches Ok((model, _))
                    && model == body.model()
            },
            Packet578::PlayDisplayScoreboard(body) => {
                <PlayDisplayScoreboardSpec>::decoding(data) matches Ok((model, _))
                    && model == body.model()
            },
            Packet578::PlayEntityMetadata(body) => {
                <PlayEntityMetadataSpec>::decoding(data) matches Ok((model, _))
                    && model == body.model()
            },
            Packet578::PlayAttachEntity(body) => {
                <PlayAttachEntitySpec>::decoding(data) matches Ok((model, _))
                    && model == body.model()
            },
            Packet578::PlayEntityVelocity(body) => {
                <PlayEntityVelocitySpec>::decoding(data) matches Ok((model, _))
                    && model == body.model()
            },
            Packet578::PlayEntityEquipment(body) => {
                <PlayEntityEquiptmentSpec>::decoding(data) matches Ok((model, _))
                    && model == body.model()
            },
            Packet578::PlaySetExperience(body) => {
                <PlaySetExperienceSpec>::decoding(data) matches Ok((model, _))
                    && model == body.model()
            },
            Packet578::PlayUpdatehealth(body) => {
                <PlayUpdateHealthSpec>::decoding(data) matches Ok((model, _))
                    && model == body.model()
            },
            Packet578::PlayScoreboardObjective(body) => {
                <PlayScoreboardObjectiveSpec>::decoding(data) matches Ok((model, _))
                    && model == body.model()
            },
            Packet578::PlaySetPassengers(body) => {
                <PlaySetPassengersSpec>::decoding(data) matches Ok((model, _))
                    && model == body.model()
            },
            Packet578::PlaySpawnPosition(body) => {
                <PlaySpawnPositionSpec>::decoding(data) matches Ok((model, _))
                    && model == body.model()
            },
            Packet578::PlayTimeUpdate(body) => {
                <PlayTimeUpdateSpec>::decoding(data) matches Ok((model, _)) && model == body.model()
            },
            Packet578::PlayEntitySoundEffect(body) => {
                <PlayEntitySoundEffectSpec>::decoding(data) matches Ok((model, _))
                    && model == body.model()
            },
            Packet578::PlaySoundEffect(body) => {
                <PlaySoundEffectSpec>::decoding(data) matches Ok((model, _))
                    && model == body.model()
            },
            Packet578::PlayerPlayerListHeaderAndFooter(body) => {
                <PlayPlayerListHeaderAndFooterSpec>::decoding(data) matches Ok((model, _))
                    && model == body.model()
            },
            Packet578::PlayNbtQueryResponse(body) => {
                <PlayNbtQueryResponseSpec>::decoding(data) matches Ok((model, _))
                    && model == body.model()
            },
            Packet578::PlayCollectItem(body) => {
                <PlayCollectItemSpec>::decoding(data) matches Ok((model, _))
                    && model == body.model()
            },
            Packet578::PlayEntityTeleport(body) => {
                <PlayEntityTeleportSpec>::decoding(data) matches Ok((model, _))
                    && model == body.model()
            },
            Packet578::PlayAdvancements(body) => {
                <PlayAdvancementsSpec>::decoding(data) matches Ok((model, _))
                    && model == body.model()
            },
            Packet578::PlayEntityProperties(body) => {
                <PlayEntityPropertiesSpec>::decoding(data) matches Ok((model, _))
                    && model == body.model()
            },
            Packet578::PlayEntityEffect(body) => {
                <PlayEntityEffectSpec>::decoding(data) matches Ok((model, _))
                    && model == body.model()
            },
            Packet578::PlayDeclareRecipes(body) => {
                <PlayDeclareRecipesSpec>::decoding(data) matches Ok((model, _))
                    && model == body.model()
            },
            Packet578::PlayTags(body) => {
                <PlayTagsSpec>::decoding(data) matches Ok((model, _)) && model == body.model()
            },
            Packet578::PlayTeleportConfirm(body) => {
                <PlayTeleportConfirmSpec>::decoding(data) matches Ok((model, _))
                    && model == body.model()
            },
            Packet578::PlayQueryBlockNbt(body) => {
                <PlayQueryBlockNbtSpec>::decoding(data) matches Ok((model, _))
                    && model == body.model()
            },
            Packet578::PlayQueryEntityNbt(body) => {
                <PlayQueryEntityNbtSpec>::decoding(data) matches Ok((model, _))
                    && model == body.model()
            },
            Packet578::PlaySetDifficulty(body) => {
                <PlaySetDifficultySpec>::decoding(data) matches Ok((model, _))
                    && model == body.model()
            },
            Packet578::PlayClientChatMessage(body) => {
                <PlayClientChatMessageSpec>::decoding(data) matches Ok((model, _))
                    && model == body.model()
            },
            Packet578::PlayClientStatus(body) => {
                <PlayClientStatusSpec>::decoding(data) matches Ok((model, _))
                    && model == body.model()
            },
            Packet578::PlayClientSettings(body) => {
                <PlayClientSettingsSpec>::decoding(data) matches Ok((model, _))
                    && model == body.model()
            },
            Packet578::PlayClientTabComplete(body) => {
                <PlayClientTabCompleteSpec>::decoding(data) matches Ok((model, _))
                    && model == body.model()
            },
            Packet578::PlayClientWindowConfirmation(body) => {
                <PlayClientWindowConfirmationSpec>::decoding(data) matches Ok((model, _))
                    && model == body.model()
            },
            Packet578::PlayClickWindowButton(body) => {
                <PlayClickWindowButtonSpec>::decoding(data) matches Ok((model, _))
                    && model == body.model()
            },
            Packet578::PlayClickWindow(body) => {
                <PlayClickWindowSpec>::decoding(data) matches Ok((model, _))
                    && model == body.model()
            },
            Packet578::PlayClientCloseWindow(body) => {
                <PlayClientCloseWindowSpec>::decoding(data) matches Ok((model, _))
                    && model == body.model()
            },
            Packet578::PlayClientPluginMessage(body) => {
                <PlayClientPluginMessageSpec>::decoding(data) matches Ok((model, _))
                    && model == body.model()
            },
            Packet578::PlayEditBook(body) => {
                <PlayEditBookSpec>::decoding(data) matches Ok((model, _)) && model == body.model()
            },
            Packet578::PlayInteractEntity(body) => {
                <PlayInteractEntitySpec>::decoding(data) matches Ok((model, _))
                    && model == body.model()
            },
            Packet578::PlayClientKeepAlive(body) => {
                <PlayClientKeepAliveSpec>::decoding(data) matches Ok((model, _))
                    && model == body.model()
            },
            Packet578::PlayLockDifficulty(body) => {
                <PlayLockDifficultySpec>::decoding(data) matches Ok((model, _))
                    && model == body.model()
            },
            Packet578::PlayPlayerPosition(body) => {
                <PlayPlayerPositionSpec>::decoding(data) matches Ok((model, _))
                    && model == body.model()
            },
            Packet578::PlayClientPlayerPositionAndRotation(body) => {
                <PlayClientPlayerPositionAndRotationSpec>::decoding(data) matches Ok((model, _))
                    && model == body.model()
            },
            Packet578::PlayPlayerRotation(body) => {
                <PlayPlayerRotationSpec>::decoding(data) matches Ok((model, _))
                    && model == body.model()
            },
            Packet578::PlayPlayerMovement(body) => {
                <PlayPlayerMovementSpec>::decoding(data) matches Ok((model, _))
                    && model == body.model()
            },
            Packet578::PlayClientVehicleMove(body) => {
                <PlayClientVehicleMoveSpec>::decoding(data) matches Ok((model, _))
                    && model == body.model()
            },
            Packet578::PlaySteerBoat(body) => {
                <PlaySteerBoatSpec>::decoding(data) matches Ok((model, _)) && model == body.model()
            },
            Packet578::PlayPickItem(body) => {
                <PlayPickItemSpec>::decoding(data) matches Ok((model, _)) && model == body.model()
            },
            Packet578::PlayCraftRecipeRequest(body) => {
                <PlayCraftRecipeRequestSpec>::decoding(data) matches Ok((model, _))
                    && model == body.model()
            },
            Packet578::PlayClientPlayerAbilities(body) => {
                <PlayClientPlayerAbilitiesSpec>::decoding(data) matches Ok((model, _))
                    && model == body.model()
            },
            Packet578::PlayPlayerDigging(body) => {
                <PlayPlayerDiggingSpec>::decoding(data) matches Ok((model, _))
                    && model == body.model()
            },
            Packet578::PlayEntityAction(body) => {
                <PlayEntityActionSpec>::decoding(data) matches Ok((model, _))
                    && model == body.model()
            },
            Packet578::PlaySteerVehicle(body) => {
                <PlaySteerVehicleSpec>::decoding(data) matches Ok((model, _))
                    && model == body.model()
            },
            Packet578::PlayNameItem(body) => {
                <PlayNameItemSpec>::decoding(data) matches Ok((model, _)) && model == body.model()
            },
            Packet578::PlayResourcePackStatus(body) => {
                <PlayResourcePackStatusSpec>::decoding(data) matches Ok((model, _))
                    && model == body.model()
            },
            Packet578::PlaySelectTrade(body) => {
                <PlaySelectTradeSpec>::decoding(data) matches Ok((model, _))
                    && model == body.model()
            },
            Packet578::PlaySetBeaconEffect(body) => {
                <PlaySetBeaconEffectSpec>::decoding(data) matches Ok((model, _))
                    && model == body.model()
            },
            Packet578::PlayClientHeldItemChange(body) => {
                <PlayClientHeldItemChangeSpec>::decoding(data) matches Ok((model, _))
                    && model == body.model()
            },
            Packet578::PlayUpdateCommandBlock(body) => {
                <PlayUpdateCommandBlockSpec>::decoding(data) matches Ok((model, _))
                    && model == body.model()
            },
            Packet578::PlayUpdateCommandBlockMinecart(body) => {
                <PlayUpdateCommandBlockMinecartSpec>::decoding(data) matches Ok((model, _))
                    && model == body.model()
            },
            Packet578::PlayCreativeInventoryAction(body) => {
                <PlayCreativeInventoryActionSpec>::decoding(data) matches Ok((model, _))
                    && model == body.model()
            },
            Packet578::PlayUpdateJigsawBlock(body) => {
                <PlayUpdateJigsawBlockSpec>::decoding(data) matches Ok((model, _))
                    && model == body.model()
            },
            Packet578::PlayUpdateStructureBlock(body) => {
                <PlayUpdateStructureBlockSpec>::decoding(data) matches Ok((model, _))
                    && model == body.model()
            },
            Packet578::PlayUpdateSign(body) => {
                <PlayUpdateSignSpec>::decoding(data) matches Ok((model, _)) && model == body.model()
            },
            Packet578::PlayClientAnimation(body) => {
                <PlayClientAnimationSpec>::decoding(data) matches Ok((model, _))
                    && model == body.model()
            },
            Packet578::PlaySpectate(body) => {
                <PlaySpectateSpec>::decoding(data) matches Ok((model, _)) && model == body.model()
            },
            Packet578::PlayBlockPlacement(body) => {
                <PlayBlockPlacementSpec>::decoding(data) matches Ok((model, _))
                    && model == body.model()
            },
            Packet578::PlayUseItem(body) => {
                <PlayUseItemSpec>::decoding(data) matches Ok((model, _)) && model == body.model()
            },
        }
    }

    fn id(&self) -> (res: Id) {
        match self {
            Packet578::Handshake(_) => Id {
                id: 0x00,
                state: State::Handshaking,
                direction: PacketDirection::ServerBound,
            },
            Packet578::StatusRequest(_) => Id {
                id: 0x00,
                state: State::Status,
                direction: PacketDirection::ServerBound,
            },
            Packet578::StatusPing(_) => Id {
                id: 0x01,
                state: State::Status,
                direction: PacketDirection::ServerBound,
            },
            Packet578::StatusResponse(_) => Id {
                id: 0x00,
                state: State::Status,
                direction: PacketDirection::ClientBound,
            },
            Packet578::StatusPong(_) => Id {
                id: 0x01,
                state: State::Status,
                direction: PacketDirection::ClientBound,
            },
            Packet578::LoginDisconnect(_) => Id {
                id: 0x00,
                state: State::Login,
                direction: PacketDirection::ClientBound,
            },
            Packet578::LoginEncryptionRequest(_) => Id {
                id: 0x01,
                state: State::Login,
                direction: PacketDirection::ClientBound,
            },
            Packet578::LoginSuccess(_) => Id {
                id: 0x02,
                state: State::Login,
                direction: PacketDirection::ClientBound,
            },
            Packet578::LoginSetCompression(_) => Id {
                id: 0x03,
                state: State::Login,
                direction: PacketDirection::ClientBound,
            },
            Packet578::LoginPluginRequest(_) => Id {
                id: 0x04,
                state: State::Login,
                direction: PacketDirection::ClientBound,
            },
            Packet578::LoginStart(_) => Id {
                id: 0x00,
                state: State::Login,
                direction: PacketDirection::ServerBound,
            },
            Packet578::LoginEncryptionResponse(_) => Id {
                id: 0x01,
                state: State::Login,
                direction: PacketDirection::ServerBound,
            },
            Packet578::LoginPluginResponse(_) => Id {
                id: 0x02,
                state: State::Login,
                direction: PacketDirection::ServerBound,
            },
            Packet578::PlaySpawnEntity(_) => Id {
                id: 0x00,
                state: State::Play,
                direction: PacketDirection::ClientBound,
            },
            Packet578::PlaySpawnExperienceOrb(_) => Id {
                id: 0x01,
                state: State::Play,
                direction: PacketDirection::ClientBound,
            },
            Packet578::PlaySpawnWeatherEntity(_) => Id {
                id: 0x02,
                state: State::Play,
                direction: PacketDirection::ClientBound,
            },
            Packet578::PlaySpawnLivingEntity(_) => Id {
                id: 0x03,
                state: State::Play,
                direction: PacketDirection::ClientBound,
            },
            Packet578::PlaySpawnPainting(_) => Id {
                id: 0x04,
                state: State::Play,
                direction: PacketDirection::ClientBound,
            },
            Packet578::PlaySpawnPlayer(_) => Id {
                id: 0x05,
                state: State::Play,
                direction: PacketDirection::ClientBound,
            },
            Packet578::PlayEntityAnimation(_) => Id {
                id: 0x06,
                state: State::Play,
                direction: PacketDirection::ClientBound,
            },
            Packet578::PlayStatistics(_) => Id {
                id: 0x07,
                state: State::Play,
                direction: PacketDirection::ClientBound,
            },
            Packet578::PlayAcknowledgePlayerDigging(_) => Id {
                id: 0x08,
                state: State::Play,
                direction: PacketDirection::ClientBound,
            },
            Packet578::PlayBlockBreakAnimation(_) => Id {
                id: 0x09,
                state: State::Play,
                direction: PacketDirection::ClientBound,
            },
            Packet578::PlayBlockEntityData(_) => Id {
                id: 0x0A,
                state: State::Play,
                direction: PacketDirection::ClientBound,
            },
            Packet578::PlayBlockAction(_) => Id {
                id: 0x0B,
                state: State::Play,
                direction: PacketDirection::ClientBound,
            },
            Packet578::PlayBlockChange(_) => Id {
                id: 0x0C,
                state: State::Play,
                direction: PacketDirection::ClientBound,
            },
            Packet578::PlayBossBar(_) => Id {
                id: 0x0D,
                state: State::Play,
                direction: PacketDirection::ClientBound,
            },
            Packet578::PlayServerDifficulty(_) => Id {
                id: 0x0E,
                state: State::Play,
                direction: PacketDirection::ClientBound,
            },
            Packet578::PlayServerChatMessage(_) => Id {
                id: 0x0F,
                state: State::Play,
                direction: PacketDirection::ClientBound,
            },
            Packet578::PlayMultiBlockChange(_) => Id {
                id: 0x10,
                state: State::Play,
                direction: PacketDirection::ClientBound,
            },
            Packet578::PlayTabComplete(_) => Id {
                id: 0x11,
                state: State::Play,
                direction: PacketDirection::ClientBound,
            },
            Packet578::PlayDeclareCommands(_) => Id {
                id: 0x12,
                state: State::Play,
                direction: PacketDirection::ClientBound,
            },
            Packet578::PlayServerWindowConfirmation(_) => Id {
                id: 0x13,
                state: State::Play,
                direction: PacketDirection::ClientBound,
            },
            Packet578::PlayServerCloseWindow(_) => Id {
                id: 0x14,
                state: State::Play,
                direction: PacketDirection::ClientBound,
            },
            Packet578::PlayWindowItems(_) => Id {
                id: 0x15,
                state: State::Play,
                direction: PacketDirection::ClientBound,
            },
            Packet578::PlayWindowProperty(_) => Id {
                id: 0x16,
                state: State::Play,
                direction: PacketDirection::ClientBound,
            },
            Packet578::PlaySetSlot(_) => Id {
                id: 0x17,
                state: State::Play,
                direction: PacketDirection::ClientBound,
            },
            Packet578::PlaySetCooldown(_) => Id {
                id: 0x18,
                state: State::Play,
                direction: PacketDirection::ClientBound,
            },
            Packet578::PlayServerPluginMessage(_) => Id {
                id: 0x19,
                state: State::Play,
                direction: PacketDirection::ClientBound,
            },
            Packet578::PlayNamedSoundEffect(_) => Id {
                id: 0x1A,
                state: State::Play,
                direction: PacketDirection::ClientBound,
            },
            Packet578::PlayDisconnect(_) => Id {
                id: 0x1B,
                state: State::Play,
                direction: PacketDirection::ClientBound,
            },
            Packet578::PlayEntityStatus(_) => Id {
                id: 0x1C,
                state: State::Play,
                direction: PacketDirection::ClientBound,
            },
            Packet578::PlayExposion(_) => Id {
                id: 0x1D,
                state: State::Play,
                direction: PacketDirection::ClientBound,
            },
            Packet578::PlayUnloadChunk(_) => Id {
                id: 0x1E,
                state: State::Play,
                direction: PacketDirection::ClientBound,
            },
            Packet578::PlayChangeGameState(_) => Id {
                id: 0x1F,
                state: State::Play,
                direction: PacketDirection::ClientBound,
            },
            Packet578::PlayOpenHorseWindow(_) => Id {
                id: 0x20,
                state: State::Play,
                direction: PacketDirection::ClientBound,
            },
            Packet578::PlayServerKeepAlive(_) => Id {
                id: 0x21,
                state: State::Play,
                direction: PacketDirection::ClientBound,
            },
            Packet578::PlayChunkData(_) => Id {
                id: 0x22,
                state: State::Play,
                direction: PacketDirection::ClientBound,
            },
            Packet578::PlayEffect(_) => Id {
                id: 0x23,
                state: State::Play,
                direction: PacketDirection::ClientBound,
            },
            Packet578::PlayParticle(_) => Id {
                id: 0x24,
                state: State::Play,
                direction: PacketDirection::ClientBound,
            },
            Packet578::PlayUpdateLight(_) => Id {
                id: 0x25,
                state: State::Play,
                direction: PacketDirection::ClientBound,
            },
            Packet578::PlayJoinGame(_) => Id {
                id: 0x26,
                state: State::Play,
                direction: PacketDirection::ClientBound,
            },
            Packet578::PlayMapData(_) => Id {
                id: 0x27,
                state: State::Play,
                direction: PacketDirection::ClientBound,
            },
            Packet578::PlayTradeList(_) => Id {
                id: 0x28,
                state: State::Play,
                direction: PacketDirection::ClientBound,
            },
            Packet578::PlayEntityPosition(_) => Id {
                id: 0x29,
                state: State::Play,
                direction: PacketDirection::ClientBound,
            },
            Packet578::PlayEntityPositionAndRotation(_) => Id {
                id: 0x2A,
                state: State::Play,
                direction: PacketDirection::ClientBound,
            },
            Packet578::PlayEntityRotation(_) => Id {
                id: 0x2B,
                state: State::Play,
                direction: PacketDirection::ClientBound,
            },
            Packet578::PlayEntityMovement(_) => Id {
                id: 0x2C,
                state: State::Play,
                direction: PacketDirection::ClientBound,
            },
            Packet578::PlayServerVehicleMove(_) => Id {
                id: 0x2D,
                state: State::Play,
                direction: PacketDirection::ClientBound,
            },
            Packet578::PlayOpenBook(_) => Id {
                id: 0x2E,
                state: State::Play,
                direction: PacketDirection::ClientBound,
            },
            Packet578::PlayOpenWindow(_) => Id {
                id: 0x2F,
                state: State::Play,
                direction: PacketDirection::ClientBound,
            },
            Packet578::PlayOpenSignEditor(_) => Id {
                id: 0x30,
                state: State::Play,
                direction: PacketDirection::ClientBound,
            },
            Packet578::PlayCraftRecipeResponse(_) => Id {
                id: 0x31,
                state: State::Play,
                direction: PacketDirection::ClientBound,
            },
            Packet578::PlayServerPlayerAbilities(_) => Id {
                id: 0x32,
                state: State::Play,
                direction: PacketDirection::ClientBound,
            },
            Packet578::PlayCombatEvent(_) => Id {
                id: 0x33,
                state: State::Play,
                direction: PacketDirection::ClientBound,
            },
            Packet578::PlayPlayerInfo(_) => Id {
                id: 0x34,
                state: State::Play,
                direction: PacketDirection::ClientBound,
            },
            Packet578::PlayFacePlayer(_) => Id {
                id: 0x35,
                state: State::Play,
                direction: PacketDirection::ClientBound,
            },
            Packet578::PlayServerPlayerPositionAndLook(_) => Id {
                id: 0x36,
                state: State::Play,
                direction: PacketDirection::ClientBound,
            },
            Packet578::PlayUnlockRecipes(_) => Id {
                id: 0x37,
                state: State::Play,
                direction: PacketDirection::ClientBound,
            },
            Packet578::PlayDestroyEntities(_) => Id {
                id: 0x38,
                state: State::Play,
                direction: PacketDirection::ClientBound,
            },
            Packet578::PlayRemoveEntityEffect(_) => Id {
                id: 0x39,
                state: State::Play,
                direction: PacketDirection::ClientBound,
            },
            Packet578::PlayResourcePackSend(_) => Id {
                id: 0x3A,
                state: State::Play,
                direction: PacketDirection::ClientBound,
            },
            Packet578::PlayRespawn(_) => Id {
                id: 0x3B,
                state: State::Play,
                direction: PacketDirection::ClientBound,
            },
            Packet578::PlayEntityHeadLook(_) => Id {
                id: 0x3C,
                state: State::Play,
                direction: PacketDirection::ClientBound,
            },
            Packet578::PlaySelectAdvancementTab(_) => Id {
                id: 0x3D,
                state: State::Play,
                direction: PacketDirection::ClientBound,
            },
            Packet578::PlayWorldBorder(_) => Id {
                id: 0x3E,
                state: State::Play,
                direction: PacketDirection::ClientBound,
            },
            Packet578::PlayCamera(_) => Id {
                id: 0x3F,
                state: State::Play,
                direction: PacketDirection::ClientBound,
            },
            Packet578::PlayServerHeldItemChange(_) => Id {
                id: 0x40,
                state: State::Play,
                direction: PacketDirection::ClientBound,
            },
            Packet578::PlayUpdateViewPosition(_) => Id {
                id: 0x41,
                state: State::Play,
                direction: PacketDirection::ClientBound,
            },
            Packet578::PlayUpdateViewDistance(_) => Id {
                id: 0x42,
                state: State::Play,
                direction: PacketDirection::ClientBound,
            },
            Packet578::PlayDisplayScoreboard(_) => Id {
                id: 0x43,
                state: State::Play,
                direction: PacketDirection::ClientBound,
            },
            Packet578::PlayEntityMetadata(_) => Id {
                id: 0x44,
                state: State::Play,
                direction: PacketDirection::ClientBound,
            },
            Packet578::PlayAttachEntity(_) => Id {
                id: 0x45,
                state: State::Play,
                direction: PacketDirection::ClientBound,
            },
            Packet578::PlayEntityVelocity(_) => Id {
                id: 0x46,
                state: State::Play,
                direction: PacketDirection::ClientBound,
            },
            Packet578::PlayEntityEquipment(_) => Id {
                id: 0x47,
                state: State::Play,
                direction: PacketDirection::ClientBound,
            },
            Packet578::PlaySetExperience(_) => Id {
                id: 0x48,
                state: State::Play,
                direction: PacketDirection::ClientBound,
            },
            Packet578::PlayUpdatehealth(_) => Id {
                id: 0x49,
                state: State::Play,
                direction: PacketDirection::ClientBound,
            },
            Packet578::PlayScoreboardObjective(_) => Id {
                id: 0x4A,
                state: State::Play,
                direction: PacketDirection::ClientBound,
            },
            Packet578::PlaySetPassengers(_) => Id {
                id: 0x4B,
                state: State::Play,
                direction: PacketDirection::ClientBound,
            },
            Packet578::PlaySpawnPosition(_) => Id {
                id: 0x4E,
                state: State::Play,
                direction: PacketDirection::ClientBound,
            },
            Packet578::PlayTimeUpdate(_) => Id {
                id: 0x4F,
                state: State::Play,
                direction: PacketDirection::ClientBound,
            },
            Packet578::PlayEntitySoundEffect(_) => Id {
                id: 0x51,
                state: State::Play,
                direction: PacketDirection::ClientBound,
            },
            Packet578::PlaySoundEffect(_) => Id {
                id: 0x52,
                state: State::Play,
                direction: PacketDirection::ClientBound,
            },
            Packet578::PlayerPlayerListHeaderAndFooter(_) => Id {
                id: 0x54,
                state: State::Play,
                direction: PacketDirection::ClientBound,
            },
            Packet578::PlayNbtQueryResponse(_) => Id {
                id: 0x55,
                state: State::Play,
                direction: PacketDirection::ClientBound,
            },
            Packet578::PlayCollectItem(_) => Id {
                id: 0x56,
                state: State::Play,
                direction: PacketDirection::ClientBound,
            },
            Packet578::PlayEntityTeleport(_) => Id {
                id: 0x57,
                state: State::Play,
                direction: PacketDirection::ClientBound,
            },
            Packet578::PlayAdvancements(_) => Id {
                id: 0x58,
                state: State::Play,
                direction: PacketDirection::ClientBound,
            },
            Packet578::PlayEntityProperties(_) => Id {
                id: 0x59,
                state: State::Play,
                direction: PacketDirection::ClientBound,
            },
            Packet578::PlayEntityEffect(_) => Id {
                id: 0x5A,
                state: State::Play,
                direction: PacketDirection::ClientBound,
            },
            Packet578::PlayDeclareRecipes(_) => Id {
                id: 0x5B,
                state: State::Play,
                direction: PacketDirection::ClientBound,
            },
            Packet578::PlayTags(_) => Id {
                id: 0x5C,
                state: State::Play,
                direction: PacketDirection::ClientBound,
            },
            Packet578::PlayTeleportConfirm(_) => Id {
                id: 0x00,
                state: State::Play,
                direction: PacketDirection::ServerBound,
            },
            Packet578::PlayQueryBlockNbt(_) => Id {
                id: 0x01,
                state: State::Play,
                direction: PacketDirection::ServerBound,
            },
            Packet578::PlayQueryEntityNbt(_) => Id {
                id: 0x0D,
                state: State::Play,
                direction: PacketDirection::ServerBound,
            },
            Packet578::PlaySetDifficulty(_) => Id {
                id: 0x02,
                state: State::Play,
                direction: PacketDirection::ServerBound,
            },
            Packet578::PlayClientChatMessage(_) => Id {
                id: 0x03,
                state: State::Play,
                direction: PacketDirection::ServerBound,
            },
            Packet578::PlayClientStatus(_) => Id {
                id: 0x04,
                state: State::Play,
                direction: PacketDirection::ServerBound,
            },
            Packet578::PlayClientSettings(_) => Id {
                id: 0x05,
                state: State::Play,
                direction: PacketDirection::ServerBound,
            },
            Packet578::PlayClientTabComplete(_) => Id {
                id: 0x06,
                state: State::Play,
                direction: PacketDirection::ServerBound,
            },
            Packet578::PlayClientWindowConfirmation(_) => Id {
                id: 0x07,
                state: State::Play,
                direction: PacketDirection::ServerBound,
            },
            Packet578::PlayClickWindowButton(_) => Id {
                id: 0x08,
                state: State::Play,
                direction: PacketDirection::ServerBound,
            },
            Packet578::PlayClickWindow(_) => Id {
                id: 0x09,
                state: State::Play,
                direction: PacketDirection::ServerBound,
            },
            Packet578::PlayClientCloseWindow(_) => Id {
                id: 0x0A,
                state: State::Play,
                direction: PacketDirection::ServerBound,
            },
            Packet578::PlayClientPluginMessage(_) => Id {
                id: 0x0B,
                state: State::Play,
                direction: PacketDirection::ServerBound,
            },
            Packet578::PlayEditBook(_) => Id {
                id: 0x0C,
                state: State::Play,
                direction: PacketDirection::ServerBound,
            },
            Packet578::PlayInteractEntity(_) => Id {
                id: 0x0E,
                state: State::Play,
                direction: PacketDirection::ServerBound,
            },
            Packet578::PlayClientKeepAlive(_) => Id {
                id: 0x0F,
                state: State::Play,
                direction: PacketDirection::ServerBound,
            },
            Packet578::PlayLockDifficulty(_) => Id {
                id: 0x10,
                state: State::Play,
                direction: PacketDirection::ServerBound,
            },
            Packet578::PlayPlayerPosition(_) => Id {
                id: 0x11,
                state: State::Play,
                direction: PacketDirection::ServerBound,
            },
            Packet578::PlayClientPlayerPositionAndRotation(_) => Id {
                id: 0x12,
                state: State::Play,
                direction: PacketDirection::ServerBound,
            },
            Packet578::PlayPlayerRotation(_) => Id {
                id: 0x13,
                state: State::Play,
                direction: PacketDirection::ServerBound,
            },
            Packet578::PlayPlayerMovement(_) => Id {
                id: 0x14,
                state: State::Play,
                direction: PacketDirection::ServerBound,
            },
            Packet578::PlayClientVehicleMove(_) => Id {
                id: 0x15,
                state: State::Play,
                direction: PacketDirection::ServerBound,
            },
            Packet578::PlaySteerBoat(_) => Id {
                id: 0x16,
                state: State::Play,
                direction: PacketDirection::ServerBound,
            },
            Packet578::PlayPickItem(_) => Id {
                id: 0x17,
                state: State::Play,
                direction: PacketDirection::ServerBound,
            },
            Packet578::PlayCraftRecipeRequest(_) => Id {
                id: 0x18,
                state: State::Play,
                direction: PacketDirection::ServerBound,
            },
            Packet578::PlayClientPlayerAbilities(_) => Id {
                id: 0x19,
                state: State::Play,
                direction: PacketDirection::ServerBound,
            },
            Packet578::PlayPlayerDigging(_) => Id {
                id: 0x1A,
                state: State::Play,
                direction: PacketDirection::ServerBound,
            },
            Packet578::PlayEntityAction(_) => Id {
                id: 0x1B,
                state: State::Play,
                direction: PacketDirection::ServerBound,
            },
            Packet578::PlaySteerVehicle(_) => Id {
                id: 0x1C,
                state: State::Play,
                direction: PacketDirection::ServerBound,
            },
            Packet578::PlayNameItem(_) => Id {
                id: 0x1E,
                state: State::Play,
                direction: PacketDirection::ServerBound,
            },
            Packet578::PlayResourcePackStatus(_) => Id {
                id: 0x1F,
                state: State::Play,
                direction: PacketDirection::ServerBound,
            },
            Packet578::PlaySelectTrade(_) => Id {
                id: 0x21,
                state: State::Play,
                direction: PacketDirection::ServerBound,
            },
            Packet578::PlaySetBeaconEffect(_) => Id {
                id: 0x22,
                state: State::Play,
                direction: PacketDirection::ServerBound,
            },
            Packet578::PlayClientHeldItemChange(_) => Id {
                id: 0x23,
                state: State::Play,
                direction: PacketDirection::ServerBound,
            },
            Packet578::PlayUpdateCommandBlock(_) => Id {
                id: 0x24,
                state: State::Play,
                direction: PacketDirection::ServerBound,
            },
            Packet578::PlayUpdateCommandBlockMinecart(_) => Id {
                id: 0x25,
                state: State::Play,
                direction: PacketDirection::ServerBound,
            },
            Packet578::PlayCreativeInventoryAction(_) => Id {
                id: 0x26,
                state: State::Play,
                direction: PacketDirection::ServerBound,
            },
            Packet578::PlayUpdateJigsawBlock(_) => Id {
                id: 0x27,
                state: State::Play,
                direction: PacketDirection::ServerBound,
            },
            Packet578::PlayUpdateStructureBlock(_) => Id {
                id: 0x28,
                state: State::Play,
                direction: PacketDirection::ServerBound,
            },
            Packet578::PlayUpdateSign(_) => Id {
                id: 0x29,
                state: State::Play,
                direction: PacketDirection::ServerBound,
            },
            Packet578::PlayClientAnimation(_) => Id {
                id: 0x2A,
                state: State::Play,
                direction: PacketDirection::ServerBound,
            },
            Packet578::PlaySpectate(_) => Id {
                id: 0x2B,
                state: State::Play,
                direction: PacketDirection::ServerBound,
            },
            Packet578::PlayBlockPlacement(_) => Id {
                id: 0x2C,
                state: State::Play,
                direction: PacketDirection::ServerBound,
            },
            Packet578::PlayUseItem(_) => Id {
                id: 0x2D,
                state: State::Play,
                direction: PacketDirection::ServerBound,
            },
        }
    }

    fn mc_deserialize(raw: RawPacket<Id>) -> (res: Result<Self, PacketErr>) {
        let id = raw.id;
        let data = raw.data.as_slice();
        match (id.state, id.direction) {
            (State::Handshaking, PacketDirection::ServerBound) => read_handshaking_server_bound(
                id.id,
                data,
            ),
            (State::Status, PacketDirection::ServerBound) => read_status_server_bound(id.id, data),
            (State::Status, PacketDirection::ClientBound) => read_status_client_bound(id.id, data),
            (State::Login, PacketDirection::ClientBound) => read_login_client_bound(id.id, data),
            (State::Login, PacketDirection::ServerBound) => read_login_server_bound(id.id, data),
            (State::Play, PacketDirection::ClientBound) => read_play_client_bound(id.id, data),
            (State::Play, PacketDirection::ServerBound) => read_play_server_bound(id.id, data),
            _ => Err(PacketErr::UnknownId(id.id)),
        }
    }
}

impl Serialize for Packet578 {
    /// The body alone.
    open spec fn wire(&self) -> Seq<u8> {
        match self {
            Packet578::Handshake(body) => body.wire(),
            Packet578::StatusRequest(body) => body.wire(),
            Packet578::StatusPing(body) => body.wire(),
            Packet578::StatusResponse(body) => body.wire(),
            Packet578::StatusPong(body) => body.wire(),
            Packet578::LoginDisconnect(body) => body.wire(),
            Packet578::LoginEncryptionRequest(body) => body.wire(),
            Packet578::LoginSuccess(body) => body.wire(),
            Packet578::LoginSetCompression(body) => body.wire(),
            Packet578::LoginPluginRequest(body) => body.wire(),
            Packet578::LoginStart(body) => body.wire(),
            Packet578::LoginEncryptionResponse(body) => body.wire(),
            Packet578::LoginPluginResponse(body) => body.wire(),
            Packet578::PlaySpawnEntity(body) => body.wire(),
            Packet578::PlaySpawnExperienceOrb(body) => body.wire(),
            Packet578::PlaySpawnWeatherEntity(body) => body.wire(),
            Packet578::PlaySpawnLivingEntity(body) => body.wire(),
            Packet578::PlaySpawnPainting(body) => body.wire(),
            Packet578::PlaySpawnPlayer(body) => body.wire(),
            Packet578::PlayEntityAnimation(body) => body.wire(),
            Packet578::PlayStatistics(body) => body.wire(),
            Packet578::PlayAcknowledgePlayerDigging(body) => body.wire(),
            Packet578::PlayBlockBreakAnimation(body) => body.wire(),
            Packet578::PlayBlockEntityData(body) => body.wire(),
            Packet578::PlayBlockAction(body) => body.wire(),
            Packet578::PlayBlockChange(body) => body.wire(),
            Packet578::PlayBossBar(body) => body.wire(),
            Packet578::PlayServerDifficulty(body) => body.wire(),
            Packet578::PlayServerChatMessage(body) => body.wire(),
            Packet578::PlayMultiBlockChange(body) => body.wire(),
            Packet578::PlayTabComplete(body) => body.wire(),
            Packet578::PlayDeclareCommands(body) => body.wire(),
            Packet578::PlayServerWindowConfirmation(body) => body.wire(),
            Packet578::PlayServerCloseWindow(body) => body.wire(),
            Packet578::PlayWindowItems(body) => body.wire(),
            Packet578::PlayWindowProperty(body) => body.wire(),
            Packet578::PlaySetSlot(body) => body.wire(),
            Packet578::PlaySetCooldown(body) => body.wire(),
            Packet578::PlayServerPluginMessage(body) => body.wire(),
            Packet578::PlayNamedSoundEffect(body) => body.wire(),
            Packet578::PlayDisconnect(body) => body.wire(),
            Packet578::PlayEntityStatus(body) => body.wire(),
            Packet578::PlayExposion(body) => body.wire(),
            Packet578::PlayUnloadChunk(body) => body.wire(),
            Packet578::PlayChangeGameState(body) => body.wire(),
            Packet578::PlayOpenHorseWindow(body) => body.wire(),
            Packet578::PlayServerKeepAlive(body) => body.wire(),
            Packet578::PlayChunkData(body) => body.wire(),
            Packet578::PlayEffect(body) => body.wire(),
            Packet578::PlayParticle(body) => body.wire(),
            Packet578::PlayUpdateLight(body) => body.wire(),
            Packet578::PlayJoinGame(body) => body.wire(),
            Packet578::PlayMapData(body) => body.wire(),
            Packet578::PlayTradeList(body) => body.wire(),
            Packet578::PlayEntityPosition(body) => body.wire(),
            Packet578::PlayEntityPositionAndRotation(body) => body.wire(),
            Packet578::PlayEntityRotation(body) => body.wire(),
            Packet578::PlayEntityMovement(body) => body.wire(),
            Packet578::PlayServerVehicleMove(body) => body.wire(),
            Packet578::PlayOpenBook(body) => body.wire(),
            Packet578::PlayOpenWindow(body) => body.wire(),
            Packet578::PlayOpenSignEditor(body) => body.wire(),
            Packet578::PlayCraftRecipeResponse(body) => body.wire(),
            Packet578::PlayServerPlayerAbilities(body) => body.wire(),
            Packet578::PlayCombatEvent(body) => body.wire(),
            Packet578::PlayPlayerInfo(body) => body.wire(),
            Packet578::PlayFacePlayer(body) => body.wire(),
            Packet578::PlayServerPlayerPositionAndLook(body) => body.wire(),
            Packet578::PlayUnlockRecipes(body) => body.wire(),
            Packet578::PlayDestroyEntities(body) => body.wire(),
            Packet578::PlayRemoveEntityEffect(body) => body.wire(),
            Packet578::PlayResourcePackSend(body) => body.wire(),
            Packet578::PlayRespawn(body) => body.wire(),
            Packet578::PlayEntityHeadLook(body) => body.wire(),
            Packet578::PlaySelectAdvancementTab(body) => body.wire(),
            Packet578::PlayWorldBorder(body) => body.wire(),
            Packet578::PlayCamera(body) => body.wire(),
            Packet578::PlayServerHeldItemChange(body) => body.wire(),
            Packet578::PlayUpdateViewPosition(body) => body.wire(),
            Packet578::PlayUpdateViewDistance(body) => body.wire(),
            Packet578::PlayDisplayScoreboard(body) => body.wire(),
            Packet578::PlayEntityMetadata(body) => body.wire(),
            Packet578::PlayAttachEntity(body) => body.wire(),
            Packet578::PlayEntityVelocity(body) => body.wire(),
            Packet578::PlayEntityEquipment(body) => body.wire(),
            Packet578::PlaySetExperience(body) => body.wire(),
            Packet578::PlayUpdatehealth(body) => body.wire(),
            Packet578::PlayScoreboardObjective(body) => body.wire(),
            Packet578::PlaySetPassengers(body) => body.wire(),
            Packet578::PlaySpawnPosition(body) => body.wire(),
            Packet578::PlayTimeUpdate(body) => body.wire(),
            Packet578::PlayEntitySoundEffect(body) => body.wire(),
            Packet578::PlaySoundEffect(body) => body.wire(),
            Packet578::PlayerPlayerListHeaderAndFooter(body) => body.wire(),
            Packet578::PlayNbtQueryResponse(body) => body.wire(),
            Packet578::PlayCollectItem(body) => body.wire(),
            Packet578::PlayEntityTeleport(body) => body.wire(),
            Packet578::PlayAdvancements(body) => body.wire(),
            Packet578::PlayEntityProperties(body) => body.wire(),
            Packet578::PlayEntityEffect(body) => body.wire(),
            Packet578::PlayDeclareRecipes(body) => body.wire(),
            Packet578::PlayTags(body) => body.wire(),
            Packet578::PlayTeleportConfirm(body) => body.wire(),
            Packet578::PlayQueryBlockNbt(body) => body.wire(),
            Packet578::PlayQueryEntityNbt(body) => body.wire(),
            Packet578::PlaySetDifficulty(body) => body.wire(),
            Packet578::PlayClientChatMessage(body) => body.wire(),
            Packet578::PlayClientStatus(body) => body.wire(),
            Packet578::PlayClientSettings(body) => body.wire(),
            Packet578::PlayClientTabComplete(body) => body.wire(),
            Packet578::PlayClientWindowConfirmation(body) => body.wire(),
            Packet578::PlayClickWindowButton(body) => body.wire(),
            Packet578::PlayClickWindow(body) => body.wire(),
            Packet578::PlayClientCloseWindow(body) => body.wire(),
            Packet578::PlayClientPluginMessage(body) => body.wire(),
            Packet578::PlayEditBook(body) => body.wire(),
            Packet578::PlayInteractEntity(body) => body.wire(),
            Packet578::PlayClientKeepAlive(body) => body.wire(),
            Packet578::PlayLockDifficulty(body) => body.wire(),
            Packet578::PlayPlayerPosition(body) => body.wire(),
            Packet578::PlayClientPlayerPositionAndRotation(body) => body.wire(),
            Packet578::PlayPlayerRotation(body) => body.wire(),
            Packet578::PlayPlayerMovement(body) => body.wire(),
            Packet578::PlayClientVehicleMove(body) => body.wire(),
            Packet578::PlaySteerBoat(body) => body.wire(),
            Packet578::PlayPickItem(body) => body.wire(),
            Packet578::PlayCraftRecipeRequest(body) => body.wire(),
            Packet578::PlayClientPlayerAbilities(body) => body.wire(),
            Packet578::PlayPlayerDigging(body) => body.wire(),
            Packet578::PlayEntityAction(body) => body.wire(),
            Packet578::PlaySteerVehicle(body) => body.wire(),
            Packet578::PlayNameItem(body) => body.wire(),
            Packet578::PlayResourcePackStatus(body) => body.wire(),
            Packet578::PlaySelectTrade(body) => body.wire(),
            Packet578::PlaySetBeaconEffect(body) => body.wire(),
            Packet578::PlayClientHeldItemChange(body) => body.wire(),
            Packet578::PlayUpdateCommandBlock(body) => body.wire(),
            Packet578::PlayUpdateCommandBlockMinecart(body) => body.wire(),
            Packet578::PlayCreativeInventoryAction(body) => body.wire(),
            Packet578::PlayUpdateJigsawBlock(body) => body.wire(),
            Packet578::PlayUpdateStructureBlock(body) => body.wire(),
            Packet578::PlayUpdateSign(body) => body.wire(),
            Packet578::PlayClientAnimation(body) => body.wire(),
            Packet578::PlaySpectate(body) => body.wire(),
            Packet578::PlayBlockPlacement(body) => body.wire(),
            Packet578::PlayUseItem(body) => body.wire(),
        }
    }

    fn mc_serialize<S: Serializer>(&self, to: &mut S) -> (res: SerializeResult) {
        match self {
            Packet578::Handshake(body) => body.mc_serialize(to),
            Packet578::StatusRequest(body) => body.mc_serialize(to),
            Packet578::StatusPing(body) => body.mc_serialize(to),
            Packet578::StatusResponse(body) => body.mc_serialize(to),
            Packet578::StatusPong(body) => body.mc_serialize(to),
            Packet578::LoginDisconnect(body) => body.mc_serialize(to),
            Packet578::LoginEncryptionRequest(body) => body.mc_serialize(to),
            Packet578::LoginSuccess(body) => body.mc_serialize(to),
            Packet578::LoginSetCompression(body) => body.mc_serialize(to),
            Packet578::LoginPluginRequest(body) => body.mc_serialize(to),
            Packet578::LoginStart(body) => body.mc_serialize(to),
            Packet578::LoginEncryptionResponse(body) => body.mc_serialize(to),
            Packet578::LoginPluginResponse(body) => body.mc_serialize(to),
            Packet578::PlaySpawnEntity(body) => body.mc_serialize(to),
            Packet578::PlaySpawnExperienceOrb(body) => body.mc_serialize(to),
            Packet578::PlaySpawnWeatherEntity(body) => body.mc_serialize(to),
            Packet578::PlaySpawnLivingEntity(body) => body.mc_serialize(to),
            Packet578::PlaySpawnPainting(body) => body.mc_serialize(to),
            Packet578::PlaySpawnPlayer(body) => body.mc_serialize(to),
            Packet578::PlayEntityAnimation(body) => body.mc_serialize(to),
            Packet578::PlayStatistics(body) => body.mc_serialize(to),
            Packet578::PlayAcknowledgePlayerDigging(body) => body.mc_serialize(to),
            Packet578::PlayBlockBreakAnimation(body) => body.mc_serialize(to),
            Packet578::PlayBlockEntityData(body) => body.mc_serialize(to),
            Packet578::PlayBlockAction(body) => body.mc_serialize(to),
            Packet578::PlayBlockChange(body) => body.mc_serialize(to),
            Packet578::PlayBossBar(body) => body.mc_serialize(to),
            Packet578::PlayServerDifficulty(body) => body.mc_serialize(to),
            Packet578::PlayServerChatMessage(body) => body.mc_serialize(to),
            Packet578::PlayMultiBlockChange(body) => body.mc_serialize(to),
            Packet578::PlayTabComplete(body) => body.mc_serialize(to),
            Packet578::PlayDeclareCommands(body) => body.mc_serialize(to),
            Packet578::PlayServerWindowConfirmation(body) => body.mc_serialize(to),
            Packet578::PlayServerCloseWindow(body) => body.mc_serialize(to),
            Packet578::PlayWindowItems(body) => body.mc_serialize(to),
            Packet578::PlayWindowProperty(body) => body.mc_serialize(to),
            Packet578::PlaySetSlot(body) => body.mc_serialize(to),
            Packet578::PlaySetCooldown(body) => body.mc_serialize(to),
            Packet578::PlayServerPluginMessage(body) => body.mc_serialize(to),
            Packet578::PlayNamedSoundEffect(body) => body.mc_serialize(to),
            Packet578::PlayDisconnect(body) => body.mc_serialize(to),
            Packet578::PlayEntityStatus(body) => body.mc_serialize(to),
            Packet578::PlayExposion(body) => body.mc_serialize(to),
            Packet578::PlayUnloadChunk(body) => body.mc_serialize(to),
            Packet578::PlayChangeGameState(body) => body.mc_serialize(to),
            Packet578::PlayOpenHorseWindow(body) => body.mc_serialize(to),
            Packet578::PlayServerKeepAlive(body) => body.mc_serialize(to),
            Packet578::PlayChunkData(body) => body.mc_serialize(to),
            Packet578::PlayEffect(body) => body.mc_serialize(to),
            Packet578::PlayParticle(body) => body.mc_serialize(to),
            Packet578::PlayUpdateLight(body) => body.mc_serialize(to),
            Packet578::PlayJoinGame(body) => body.mc_serialize(to),
            Packet578::PlayMapData(body) => body.mc_serialize(to),
            Packet578::PlayTradeList(body) => body.mc_serialize(to),
            Packet578::PlayEntityPosition(body) => body.mc_serialize(to),
            Packet578::PlayEntityPositionAndRotation(body) => body.mc_serialize(to),
            Packet578::PlayEntityRotation(body) => body.mc_serialize(to),
            Packet578::PlayEntityMovement(body) => body.mc_serialize(to),
            Packet578::PlayServerVehicleMove(body) => body.mc_serialize(to),
            Packet578::PlayOpenBook(body) => body.mc_serialize(to),
            Packet578::PlayOpenWindow(body) => body.mc_serialize(to),
            Packet578::PlayOpenSignEditor(body) => body.mc_serialize(to),
            Packet578::PlayCraftRecipeResponse(body) => body.mc_serialize(to),
            Packet578::PlayServerPlayerAbilities(body) => body.mc_serialize(to),
            Packet578::PlayCombatEvent(body) => body.mc_serialize(to),
            Packet578::PlayPlayerInfo(body) => body.mc_serialize(to),
            Packet578::PlayFacePlayer(body) => body.mc_serialize(to),
            Packet578::PlayServerPlayerPositionAndLook(body) => body.mc_serialize(to),
            Packet578::PlayUnlockRecipes(body) => body.mc_serialize(to),
            Packet578::PlayDestroyEntities(body) => body.mc_serialize(to),
            Packet578::PlayRemoveEntityEffect(body) => body.mc_serialize(to),
            Packet578::PlayResourcePackSend(body) => body.mc_serialize(to),
            Packet578::PlayRespawn(body) => body.mc_serialize(to),
            Packet578::PlayEntityHeadLook(body) => body.mc_serialize(to),
            Packet578::PlaySelectAdvancementTab(body) => body.mc_serialize(to),
            Packet578::PlayWorldBorder(body) => body.mc_serialize(to),
            Packet578::PlayCamera(body) => body.mc_serialize(to),
            Packet578::PlayServerHeldItemChange(body) => body.mc_serialize(to),
            Packet578::PlayUpdateViewPosition(body) => body.mc_serialize(to),
            Packet578::PlayUpdateViewDistance(body) => body.mc_serialize(to),
            Packet578::PlayDisplayScoreboard(body) => body.mc_serialize(to),
            Packet578::PlayEntityMetadata(body) => body.mc_serialize(to),
            Packet578::PlayAttachEntity(body) => body.mc_serialize(to),
            Packet578::PlayEntityVelocity(body) => body.mc_serialize(to),
            Packet578::PlayEntityEquipment(body) => body.mc_serialize(to),
            Packet578::PlaySetExperience(body) => body.mc_serialize(to),
            Packet578::PlayUpdatehealth(body) => body.mc_serialize(to),
            Packet578::PlayScoreboardObjective(body) => body.mc_serialize(to),
            Packet578::PlaySetPassengers(body) => body.mc_serialize(to),
            Packet578::PlaySpawnPosition(body) => body.mc_serialize(to),
            Packet578::PlayTimeUpdate(body) => body.mc_serialize(to),
            Packet578::PlayEntitySoundEffect(body) => body.mc_serialize(to),
            Packet578::PlaySoundEffect(body) => body.mc_serialize(to),
            Packet578::PlayerPlayerListHeaderAndFooter(body) => body.mc_serialize(to),
            Packet578::PlayNbtQueryResponse(body) => body.mc_serialize(to),
            Packet578::PlayCollectItem(body) => body.mc_serialize(to),
            Packet578::PlayEntityTeleport(body) => body.mc_serialize(to),
            Packet578::PlayAdvancements(body) => body.mc_serialize(to),
            Packet578::PlayEntityProperties(body) => body.mc_serialize(to),
            Packet578::PlayEntityEffect(body) => body.mc_serialize(to),
            Packet578::PlayDeclareRecipes(body) => body.mc_serialize(to),
            Packet578::PlayTags(body) => body.mc_serialize(to),
            Packet578::PlayTeleportConfirm(body) => body.mc_serialize(to),
            Packet578::PlayQueryBlockNbt(body) => body.mc_serialize(to),
            Packet578::PlayQueryEntityNbt(body) => body.mc_serialize(to),
            Packet578::PlaySetDifficulty(body) => body.mc_serialize(to),
            Packet578::PlayClientChatMessage(body) => body.mc_serialize(to),
            Packet578::PlayClientStatus(body) => body.mc_serialize(to),
            Packet578::PlayClientSettings(body) => body.mc_serialize(to),
            Packet578::PlayClientTabComplete(body) => body.mc_serialize(to),
            Packet578::PlayClientWindowConfirmation(body) => body.mc_serialize(to),
            Packet578::PlayClickWindowButton(body) => body.mc_serialize(to),
            Packet578::PlayClickWindow(body) => body.mc_serialize(to),
            Packet578::PlayClientCloseWindow(body) => body.mc_serialize(to),
            Packet578::PlayClientPluginMessage(body) => body.mc_serialize(to),
            Packet578::PlayEditBook(body) => body.mc_serialize(to),
            Packet578::PlayInteractEntity(body) => body.mc_serialize(to),
            Packet578::PlayClientKeepAlive(body) => body.mc_serialize(to),
            Packet578::PlayLockDifficulty(body) => body.mc_serialize(to),
            Packet578::PlayPlayerPosition(body) => body.mc_serialize(to),
            Packet578::PlayClientPlayerPositionAndRotation(body) => body.mc_serialize(to),
            Packet578::PlayPlayerRotation(body) => body.mc_serialize(to),
            Packet578::PlayPlayerMovement(body) => body.mc_serialize(to),
            Packet578::PlayClientVehicleMove(body) => body.mc_serialize(to),
            Packet578::PlaySteerBoat(body) => body.mc_serialize(to),
            Packet578::PlayPickItem(body) => body.mc_serialize(to),
            Packet578::PlayCraftRecipeRequest(body) => body.mc_serialize(to),
            Packet578::PlayClientPlayerAbilities(body) => body.mc_serialize(to),
            Packet578::PlayPlayerDigging(body) => body.mc_serialize(to),
            Packet578::PlayEntityAction(body) => body.mc_serialize(to),
            Packet578::PlaySteerVehicle(body) => body.mc_serialize(to),
            Packet578::PlayNameItem(body) => body.mc_serialize(to),
            Packet578::PlayResourcePackStatus(body) => body.mc_serialize(to),
            Packet578::PlaySelectTrade(body) => body.mc_serialize(to),
            Packet578::PlaySetBeaconEffect(body) => body.mc_serialize(to),
            Packet578::PlayClientHeldItemChange(body) => body.mc_serialize(to),
            Packet578::PlayUpdateCommandBlock(body) => body.mc_serialize(to),
            Packet578::PlayUpdateCommandBlockMinecart(body) => body.mc_serialize(to),
            Packet578::PlayCreativeInventoryAction(body) => body.mc_serialize(to),
            Packet578::PlayUpdateJigsawBlock(body) => body.mc_serialize(to),
            Packet578::PlayUpdateStructureBlock(body) => body.mc_serialize(to),
            Packet578::PlayUpdateSign(body) => body.mc_serialize(to),
            Packet578::PlayClientAnimation(body) => body.mc_serialize(to),
            Packet578::PlaySpectate(body) => body.mc_serialize(to),
            Packet578::PlayBlockPlacement(body) => body.mc_serialize(to),
            Packet578::PlayUseItem(body) => body.mc_serialize(to),
        }
    }
}

impl PacketDirection {
    pub open spec fn spec_name(&self) -> Seq<char> {
        match self {
            PacketDirection::ClientBound => "ClientBound"@,
            PacketDirection::ServerBound => "ServerBound"@,
        }
    }
}

/// Whether a description is that of the packet of this identity.
pub open spec fn describes(entry: ProtocolPacketSpec, id: Id) -> bool {
    &&& entry.state@ == id.state.spec_name()
    &&& entry.direction@ == id.direction.spec_name()
    &&& entry.id == id.id
}

/// Whether a description is that of a packet the registry knows.
pub open spec fn describes_registered(entry: ProtocolPacketSpec) -> bool {
    exists|id: Id| Packet578::registered(id) && #[trigger] describes(entry, id)
}

pub open spec fn all_registered(entries: Seq<ProtocolPacketSpec>) -> bool {
    forall|i: int| 0 <= i < entries.len() ==> describes_registered(#[trigger] entries[i])
}

fn field(name: &str, kind: &str) -> (res: ProtocolPacketField)
    ensures
        res.name@ == name@,
        res.kind@ == kind@,
{
    ProtocolPacketField { name: name.to_owned(), kind: kind.to_owned() }
}

fn entry(id: Id, name: &str, fields: Vec<ProtocolPacketField>) -> (res: ProtocolPacketSpec)
    requires
        Packet578::registered(id),
    ensures
        describes(res, id),
        describes_registered(res),
        res.name@ == name@,
        res.fields == fields,
{
    let direction_name = match id.direction {
        PacketDirection::ClientBound => "ClientBound",
        PacketDirection::ServerBound => "ServerBound",
    };
    ProtocolPacketSpec {
        state: id.state.name(),
        direction: direction_name.to_owned(),
        id: id.id,
        name: name.to_owned(),
        fields,
    }
}

fn list(packets: &mut Vec<ProtocolPacketSpec>, entry: ProtocolPacketSpec)
    requires
        all_registered(old(packets)@),
        describes_registered(entry),
    ensures
        all_registered(final(packets)@),
        final(packets)@ == old(packets)@.push(entry),
{
    packets.push(entry);
}

/// Where in the description the packet of this number stands.
pub open spec fn place_handshaking_server_bound(number: i32) -> int {
    if number == 0x00 {
        0
    } else {
        -1
    }
}

/// Where in the description the packet of this number stands.
pub open spec fn place_status_server_bound(number: i32) -> int {
    if number == 0x00 {
        1
    } else if number == 0x01 {
        2
    } else {
        -1
    }
}

/// Where in the description the packet of this number stands.
pub open spec fn place_status_client_bound(number: i32) -> int {
    if number == 0x00 {
        3
    } else if number == 0x01 {
        4
    } else {
        -1
    }
}

/// Where in the description the packet of this number stands.
pub open spec fn place_login_client_bound(number: i32) -> int {
    if number == 0x00 {
        5
    } else if number == 0x01 {
        6
    } else if number == 0x02 {
        7
    } else if number == 0x03 {
        8
    } else if number == 0x04 {
        9
    } else {
        -1
    }
}

/// Where in the description the packet of this number stands.
pub open spec fn place_login_server_bound(number: i32) -> int {
    if number == 0x00 {
        10
    } else if number == 0x01 {
        11
    } else if number == 0x02 {
        12
    } else {
        -1
    }
}

/// Where in the description the packet of this number stands.
pub open spec fn place_play_client_bound(number: i32) -> int {
    if number == 0x00 {
        13
    } else if number == 0x01 {
        14
    } else if number == 0x02 {
        15
    } else if number == 0x03 {
        16
    } else if number == 0x04 {
        17
    } else if number == 0x05 {
        18
    } else if number == 0x06 {
        19
    } else if number == 0x07 {
        20
    } else if number == 0x08 {
        21
    } else if number == 0x09 {
        22
    } else if number == 0x0A {
        23
    } else if number == 0x0B {
        24
    } else if number == 0x0C {
        25
    } else if number == 0x0D {
        26
    } else if number == 0x0E {
        27
    } else if number == 0x0F {
        28
    } else if number == 0x10 {
        29
    } else if number == 0x11 {
        30
    } else if number == 0x12 {
        31
    } else if number == 0x13 {
        32
    } else if number == 0x14 {
        33
    } else if number == 0x15 {
        34
    } else if number == 0x16 {
        35
    } else if number == 0x17 {
        36
    } else if number == 0x18 {
        37
    } else if number == 0x19 {
        38
    } else if number == 0x1A {
        39
    } else if number == 0x1B {
        40
    } else if number == 0x1C {
        41
    } else if number == 0x1D {
        42
    } else if number == 0x1E {
        43
    } else if number == 0x1F {
        44
    } else if number == 0x20 {
        45
    } else if number == 0x21 {
        46
    } else if number == 0x22 {
        47
    } else if number == 0x23 {
        48
    } else if number == 0x24 {
        49
    } else if number == 0x25 {
        50
    } else if number == 0x26 {
        51
    } else if number == 0x27 {
        52
    } else if number == 0x28 {
        53
    } else if number == 0x29 {
        54
    } else if number == 0x2A {
        55
    } else if number == 0x2B {
        56
    } else if number == 0x2C {
        57
    } else if number == 0x2D {
        58
    } else if number == 0x2E {
        59
    } else if number == 0x2F {
        60
    } else if number == 0x30 {
        61
    } else if number == 0x31 {
        62
    } else if number == 0x32 {
        63
    } else if number == 0x33 {
        64
    } else if number == 0x34 {
        65
    } else if number == 0x35 {
        66
    } else if number == 0x36 {
        67
    } else if number == 0x37 {
        68
    } else if number == 0x38 {
        69
    } else if number == 0x39 {
        70
    } else if number == 0x3A {
        71
    } else if number == 0x3B {
        72
    } else if number == 0x3C {
        73
    } else if number == 0x3D {
        74
    } else if number == 0x3E {
        75
    } else if number == 0x3F {
        76
    } else if number == 0x40 {
        77
    } else if number == 0x41 {
        78
    } else if number == 0x42 {
        79
    } else if number == 0x43 {
        80
    } else if number == 0x44 {
        81
    } else if number == 0x45 {
        82
    } else if number == 0x46 {
        83
    } else if number == 0x47 {
        84
    } else if number == 0x48 {
        85
    } else if number == 0x49 {
        86
    } else if number == 0x4A {
        87
    } else if number == 0x4B {
        88
    } else if number == 0x4E {
        89
    } else if number == 0x4F {
        90
    } else if number == 0x51 {
        91
    } else if number == 0x52 {
        92
    } else if number == 0x54 {
        93
    } else if number == 0x55 {
        94
    } else if number == 0x56 {
        95
    } else if number == 0x57 {
        96
    } else if number == 0x58 {
        97
    } else if number == 0x59 {
        98
    } else if number == 0x5A {
        99
    } else if number == 0x5B {
        100
    } else if number == 0x5C {
        101
    } else {
        -1
    }
}

/// Where in the description the packet of this number stands.
pub open spec fn place_play_server_bound(number: i32) -> int {
    if number == 0x00 {
        102
    } else if number == 0x01 {
        103
    } else if number == 0x02 {
        105
    } else if number == 0x03 {
        106
    } else if number == 0x04 {
        107
    } else if number == 0x05 {
        108
    } else if number == 0x06 {
        109
    } else if number == 0x07 {
        110
    } else if number == 0x08 {
        111
    } else if number == 0x09 {
        112
    } else if number == 0x0A {
        113
    } else if number == 0x0B {
        114
    } else if number == 0x0C {
        115
    } else if number == 0x0D {
        104
    } else if number == 0x0E {
        116
    } else if number == 0x0F {
        117
    } else if number == 0x10 {
        118
    } else if number == 0x11 {
        119
    } else if number == 0x12 {
        120
    } else if number == 0x13 {
        121
    } else if number == 0x14 {
        122
    } else if number == 0x15 {
        123
    } else if number == 0x16 {
        124
    } else if number == 0x17 {
        125
    } else if number == 0x18 {
        126
    } else if number == 0x19 {
        127
    } else if number == 0x1A {
        128
    } else if number == 0x1B {
        129
    } else if number == 0x1C {
        130
    } else if number == 0x1E {
        131
    } else if number == 0x1F {
        132
    } else if number == 0x21 {
        133
    } else if number == 0x22 {
        134
    } else if number == 0x23 {
        135
    } else if number == 0x24 {
        136
    } else if number == 0x25 {
        137
    } else if number == 0x26 {
        138
    } else if number == 0x27 {
        139
    } else if number == 0x28 {
        140
    } else if number == 0x29 {
        141
    } else if number == 0x2A {
        142
    } else if number == 0x2B {
        143
    } else if number == 0x2C {
        144
    } else if number == 0x2D {
        145
    } else {
        -1
    }
}

/// Where in the description the packet of this identity stands, counting
/// from nought.
pub open spec fn place_of(id: Id) -> int {
    match (id.state, id.direction) {
        (State::Handshaking, PacketDirection::ServerBound) => place_handshaking_server_bound(id.id),
        (State::Status, PacketDirection::ServerBound) => place_status_server_bound(id.id),
        (State::Status, PacketDirection::ClientBound) => place_status_client_bound(id.id),
        (State::Login, PacketDirection::ClientBound) => place_login_client_bound(id.id),
        (State::Login, PacketDirection::ServerBound) => place_login_server_bound(id.id),
        (State::Play, PacketDirection::ClientBound) => place_play_client_bound(id.id),
        (State::Play, PacketDirection::ServerBound) => place_play_server_bound(id.id),
        _ => -1,
    }
}

/// Every packet the registry knows has a place in the description.
pub proof fn lemma_registered_has_a_place(id: Id)
    requires
        Packet578::registered(id),
    ensures
        0 <= place_of(id) < 146,
{
}

/// Whether every packet whose place is below `n` is described at its place.
pub open spec fn placed_upto(entries: Seq<ProtocolPacketSpec>, n: int) -> bool {
    forall|id: Id| 0 <= #[trigger] place_of(id) < n ==> describes(entries[place_of(id)], id)
}

fn describe_handshaking_server_bound(packets: &mut Vec<ProtocolPacketSpec>)
    requires
        all_registered(old(packets)@),
        old(packets)@.len() == 0,
        placed_upto(old(packets)@, 0),
    ensures
        all_registered(final(packets)@),
        final(packets)@.len() == 1,
        placed_upto(final(packets)@, 1),
{
    let id = Id { id: 0x00, state: State::Handshaking, direction: PacketDirection::ServerBound };
    let fields = vec![
            field("version", "VarInt"), field("server_address", "String"),
            field("server_port", "u16"), field("next_state", "HandshakeNextState"),
        ];
    list(packets, entry(id, "Handshake", fields));
    proof {
        assert forall|id: Id| 0 <= #[trigger] place_of(id) < 1 implies describes(
            packets@[place_of(id)],
            id,
        ) by {
            if place_of(id) < 0 {
                assert(packets@[place_of(id)] == old(packets)@[place_of(id)]);
            }
        }
    }
}

fn describe_status_server_bound(packets: &mut Vec<ProtocolPacketSpec>)
    requires
        all_registered(old(packets)@),
        old(packets)@.len() == 1,
        placed_upto(old(packets)@, 1),
    ensures
        all_registered(final(packets)@),
        final(packets)@.len() == 3,
        placed_upto(final(packets)@, 3),
{
    let id = Id { id: 0x00, state: State::Status, direction: PacketDirection::ServerBound };
    let fields = Vec::new();
    list(packets, entry(id, "StatusRequest", fields));
    let id = Id { id: 0x01, state: State::Status, direction: PacketDirection::ServerBound };
    let fields = vec![field("payload", "i64")];
    list(packets, entry(id, "StatusPing", fields));
    proof {
        assert forall|id: Id| 0 <= #[trigger] place_of(id) < 3 implies describes(
            packets@[place_of(id)],
            id,
        ) by {
            if place_of(id) < 1 {
                assert(packets@[place_of(id)] == old(packets)@[place_of(id)]);
            }
        }
    }
}

fn describe_status_client_bound(packets: &mut Vec<ProtocolPacketSpec>)
    requires
        all_registered(old(packets)@),
        old(packets)@.len() == 3,
        placed_upto(old(packets)@, 3),
    ensures
        all_registered(final(packets)@),
        final(packets)@.len() == 5,
        placed_upto(final(packets)@, 5),
{
    let id = Id { id: 0x00, state: State::Status, direction: PacketDirection::ClientBound };
    let fields = vec![field("response", "JsonText")];
    list(packets, entry(id, "StatusResponse", fields));
    let id = Id { id: 0x01, state: State::Status, direction: PacketDirection::ClientBound };
    let fields = vec![field("payload", "i64")];
    list(packets, entry(id, "StatusPong", fields));
    proof {
        assert forall|id: Id| 0 <= #[trigger] place_of(id) < 5 implies describes(
            packets@[place_of(id)],
            id,
        ) by {
            if place_of(id) < 3 {
                assert(packets@[place_of(id)] == old(packets)@[place_of(id)]);
            }
        }
    }
}

fn describe_login_client_bound(packets: &mut Vec<ProtocolPacketSpec>)
    requires
        all_registered(old(packets)@),
        old(packets)@.len() == 5,
        placed_upto(old(packets)@, 5),
    ensures
        all_registered(final(packets)@),
        final(packets)@.len() == 10,
        placed_upto(final(packets)@, 10),
{
    let id = Id { id: 0x00, state: State::Login, direction: PacketDirection::ClientBound };
    let fields = vec![field("message", "JsonText")];
    list(packets, entry(id, "LoginDisconnect", fields));
    let id = Id { id: 0x01, state: State::Login, direction: PacketDirection::ClientBound };
    let fields = vec![
            field("server_id", "String"), field("public_key", "VarIntCountedArray<u8>"),
            field("verify_token", "VarIntCountedArray<u8>"),
        ];
    list(packets, entry(id, "LoginEncryptionRequest", fields));
    let id = Id { id: 0x02, state: State::Login, direction: PacketDirection::ClientBound };
    let fields = vec![field("uuid_string", "String"), field("username", "String")];
    list(packets, entry(id, "LoginSuccess", fields));
    let id = Id { id: 0x03, state: State::Login, direction: PacketDirection::ClientBound };
    let fields = vec![field("threshold", "VarInt")];
    list(packets, entry(id, "LoginSetCompression", fields));
    let id = Id { id: 0x04, state: State::Login, direction: PacketDirection::ClientBound };
    let fields = vec![
            field("message_id", "VarInt"), field("channel", "String"),
            field("data", "RemainingBytes"),
        ];
    list(packets, entry(id, "LoginPluginRequest", fields));
    proof {
        assert forall|id: Id| 0 <= #[trigger] place_of(id) < 10 implies describes(
            packets@[place_of(id)],
            id,
        ) by {
            if place_of(id) < 5 {
                assert(packets@[place_of(id)] == old(packets)@[place_of(id)]);
            }
        }
    }
}

fn describe_login_server_bound(packets: &mut Vec<ProtocolPacketSpec>)
    requires
        all_registered(old(packets)@),
        old(packets)@.len() == 10,
        placed_upto(old(packets)@, 10),
    ensures
        all_registered(final(packets)@),
        final(packets)@.len() == 13,
        placed_upto(final(packets)@, 13),
{
    let id = Id { id: 0x00, state: State::Login, direction: PacketDirection::ServerBound };
    let fields = vec![field("name", "String")];
    list(packets, entry(id, "LoginStart", fields));
    let id = Id { id: 0x01, state: State::Login, direction: PacketDirection::ServerBound };
    let fields = vec![
            field("shared_secret", "VarIntCountedArray<u8>"),
            field("verify_token", "VarIntCountedArray<u8>"),
        ];
    list(packets, entry(id, "LoginEncryptionResponse", fields));
    let id = Id { id: 0x02, state: State::Login, direction: PacketDirection::ServerBound };
    let fields = vec![
            field("message_id", "VarInt"), field("successful", "bool"),
            field("data", "RemainingBytes"),
        ];
    list(packets, entry(id, "LoginPluginResponse", fields));
    proof {
        assert forall|id: Id| 0 <= #[trigger] place_of(id) < 13 implies describes(
            packets@[place_of(id)],
            id,
        ) by {
            if place_of(id) < 10 {
                assert(packets@[place_of(id)] == old(packets)@[place_of(id)]);
            }
        }
    }
}

fn describe_play_client_bound_1(packets: &mut Vec<ProtocolPacketSpec>)
    requires
        all_registered(old(packets)@),
        old(packets)@.len() == 13,
        placed_upto(old(packets)@, 13),
    ensures
        all_registered(final(packets)@),
        final(packets)@.len() == 21,
        placed_upto(final(packets)@, 21),
{
    let id = Id { id: 0x00, state: State::Play, direction: PacketDirection::ClientBound };
    let fields = vec![
            field("entity_id", "VarInt"), field("object_uuid", "UUID4"),
            field("entity_type", "VarInt"), field("x", "Double"), field("y", "Double"),
            field("z", "Double"), field("pitch", "Angle"), field("yaw", "Angle"),
            field("data", "i32"), field("velocity_x", "i16"), field("velocity_y", "i16"),
            field("velocity_z", "i16"),
        ];
    list(packets, entry(id, "PlaySpawnEntity", fields));
    let id = Id { id: 0x01, state: State::Play, direction: PacketDirection::ClientBound };
    let fields = vec![
            field("entity_id", "VarInt"), field("x", "Double"), field("y", "Double"),
            field("z", "Double"), field("count", "i16"),
        ];
    list(packets, entry(id, "PlaySpawnExperienceOrb", fields));
    let id = Id { id: 0x02, state: State::Play, direction: PacketDirection::ClientBound };
    let fields = vec![
            field("entity_id", "VarInt"), field("entity_type", "u8"), field("x", "Double"),
            field("y", "Double"), field("z", "Double"),
        ];
    list(packets, entry(id, "PlaySpawnWeatherEntity", fields));
    let id = Id { id: 0x03, state: State::Play, direction: PacketDirection::ClientBound };
    let fields = vec![
            field("entity_id", "VarInt"), field("entity_uuid", "UUID4"),
            field("entity_type", "VarInt"), field("x", "Double"), field("y", "Double"),
            field("z", "Double"), field("yaw", "Angle"), field("pitch", "Angle"),
            field("head_pitch", "Angle"), field("velocity_x", "i16"), field("velocity_y", "i16"),
            field("velocity_z", "i16"),
        ];
    list(packets, entry(id, "PlaySpawnLivingEntity", fields));
    let id = Id { id: 0x04, state: State::Play, direction: PacketDirection::ClientBound };
    let fields = vec![
            field("entity_id", "VarInt"), field("entity_uuid", "UUID4"),
            field("motive", "VarInt"), field("location", "IntPosition"),
            field("direction", "CardinalDirection"),
        ];
    list(packets, entry(id, "PlaySpawnPainting", fields));
    let id = Id { id: 0x05, state: State::Play, direction: PacketDirection::ClientBound };
    let fields = vec![
            field("entity_id", "VarInt"), field("uuid", "UUID4"), field("x", "Double"),
            field("y", "Double"), field("z", "Double"), field("yaw", "Angle"),
            field("pitch", "Angle"),
        ];
    list(packets, entry(id, "PlaySpawnPlayer", fields));
    let id = Id { id: 0x06, state: State::Play, direction: PacketDirection::ClientBound };
    let fields = vec![field("entity_id", "VarInt"), field("animation", "EntityAnimationKind")];
    list(packets, entry(id, "PlayEntityAnimation", fields));
    let id = Id { id: 0x07, state: State::Play, direction: PacketDirection::ClientBound };
    let fields = vec![field("entries", "VarIntCountedArray<Statistic>")];
    list(packets, entry(id, "PlayStatistics", fields));
    proof {
        assert forall|id: Id| 0 <= #[trigger] place_of(id) < 21 implies describes(
            packets@[place_of(id)],
            id,
        ) by {
            if place_of(id) < 13 {
                assert(packets@[place_of(id)] == old(packets)@[place_of(id)]);
            }
        }
    }
}

fn describe_play_client_bound_2(packets: &mut Vec<ProtocolPacketSpec>)
    requires
        all_registered(old(packets)@),
        old(packets)@.len() == 21,
        placed_upto(old(packets)@, 21),
    ensures
        all_registered(final(packets)@),
        final(packets)@.len() == 29,
        placed_upto(final(packets)@, 29),
{
    let id = Id { id: 0x08, state: State::Play, direction: PacketDirection::ClientBound };
    let fields = vec![
            field("location", "IntPosition"), field("block", "VarInt"),
            field("status", "DiggingStatus"), field("successful", "bool"),
        ];
    list(packets, entry(id, "PlayAcknowledgePlayerDigging", fields));
    let id = Id { id: 0x09, state: State::Play, direction: PacketDirection::ClientBound };
    let fields = vec![
            field("entity_id", "VarInt"), field("location", "IntPosition"),
            field("destroy_stage", "i8"),
        ];
    list(packets, entry(id, "PlayBlockBreakAnimation", fields));
    let id = Id { id: 0x0A, state: State::Play, direction: PacketDirection::ClientBound };
    let fields = vec![
            field("location", "IntPosition"), field("action", "BlockEntityDataAction"),
            field("nbt_data", "NamedNbtTag"),
        ];
    list(packets, entry(id, "PlayBlockEntityData", fields));
    let id = Id { id: 0x0B, state: State::Play, direction: PacketDirection::ClientBound };
    let fields = vec![
            field("location", "IntPosition"), field("action_id", "u8"),
            field("action_payload", "u8"), field("block_type", "VarInt"),
        ];
    list(packets, entry(id, "PlayBlockAction", fields));
    let id = Id { id: 0x0C, state: State::Play, direction: PacketDirection::ClientBound };
    let fields = vec![field("location", "IntPosition"), field("block_id", "VarInt")];
    list(packets, entry(id, "PlayBlockChange", fields));
    let id = Id { id: 0x0D, state: State::Play, direction: PacketDirection::ClientBound };
    let fields = vec![field("uuid", "UUID4"), field("action", "BossBarAction")];
    list(packets, entry(id, "PlayBossBar", fields));
    let id = Id { id: 0x0E, state: State::Play, direction: PacketDirection::ClientBound };
    let fields = vec![field("difficulty", "Difficulty"), field("locked", "bool")];
    list(packets, entry(id, "PlayServerDifficulty", fields));
    let id = Id { id: 0x0F, state: State::Play, direction: PacketDirection::ClientBound };
    let fields = vec![field("message", "JsonText"), field("position", "ChatPosition")];
    list(packets, entry(id, "PlayServerChatMessage", fields));
    proof {
        assert forall|id: Id| 0 <= #[trigger] place_of(id) < 29 implies describes(
            packets@[place_of(id)],
            id,
        ) by {
            if place_of(id) < 21 {
                assert(packets@[place_of(id)] == old(packets)@[place_of(id)]);
            }
        }
    }
}

fn describe_play_client_bound_3(packets: &mut Vec<ProtocolPacketSpec>)
    requires
        all_registered(old(packets)@),
        old(packets)@.len() == 29,
        placed_upto(old(packets)@, 29),
    ensures
        all_registered(final(packets)@),
        final(packets)@.len() == 37,
        placed_upto(final(packets)@, 37),
{
    let id = Id { id: 0x10, state: State::Play, direction: PacketDirection::ClientBound };
    let fields = vec![
            field("chunk_x", "i32"), field("chunk_z", "i32"),
            field("changes", "VarIntCountedArray<MultiBlockChangeRecord>"),
        ];
    list(packets, entry(id, "PlayMultiBlockChange", fields));
    let id = Id { id: 0x11, state: State::Play, direction: PacketDirection::ClientBound };
    let fields = vec![
            field("id", "VarInt"), field("start", "VarInt"), field("length", "VarInt"),
            field("matches", "VarIntCountedArray<TabCompleteMatch>"),
        ];
    list(packets, entry(id, "PlayTabComplete", fields));
    let id = Id { id: 0x12, state: State::Play, direction: PacketDirection::ClientBound };
    let fields = vec![field("raw_data", "RemainingBytes")];
    list(packets, entry(id, "PlayDeclareCommands", fields));
    let id = Id { id: 0x13, state: State::Play, direction: PacketDirection::ClientBound };
    let fields =
        vec![field("window_id", "u8"), field("action_number", "i16"), field("accepted", "bool")];
    list(packets, entry(id, "PlayServerWindowConfirmation", fields));
    let id = Id { id: 0x14, state: State::Play, direction: PacketDirection::ClientBound };
    let fields = vec![field("window_id", "u8")];
    list(packets, entry(id, "PlayServerCloseWindow", fields));
    let id = Id { id: 0x15, state: State::Play, direction: PacketDirection::ClientBound };
    let fields = vec![field("window_id", "u8"), field("slots", "ShortCountedArray<Option<Slot>>")];
    list(packets, entry(id, "PlayWindowItems", fields));
    let id = Id { id: 0x16, state: State::Play, direction: PacketDirection::ClientBound };
    let fields = vec![field("window_id", "u8"), field("property", "i16"), field("value", "i16")];
    list(packets, entry(id, "PlayWindowProperty", fields));
    let id = Id { id: 0x17, state: State::Play, direction: PacketDirection::ClientBound };
    let fields =
        vec![field("window_id", "u8"), field("slow", "i16"), field("slot_data", "Option<Slot>")];
    list(packets, entry(id, "PlaySetSlot", fields));
    proof {
        assert forall|id: Id| 0 <= #[trigger] place_of(id) < 37 implies describes(
            packets@[place_of(id)],
            id,
        ) by {
            if place_of(id) < 29 {
                assert(packets@[place_of(id)] == old(packets)@[place_of(id)]);
            }
        }
    }
}

fn describe_play_client_bound_4(packets: &mut Vec<ProtocolPacketSpec>)
    requires
        all_registered(old(packets)@),
        old(packets)@.len() == 37,
        placed_upto(old(packets)@, 37),
    ensures
        all_registered(final(packets)@),
        final(packets)@.len() == 45,
        placed_upto(final(packets)@, 45),
{
    let id = Id { id: 0x18, state: State::Play, direction: PacketDirection::ClientBound };
    let fields = vec![field("item_id", "VarInt"), field("cooldown_ticks", "VarInt")];
    list(packets, entry(id, "PlaySetCooldown", fields));
    let id = Id { id: 0x19, state: State::Play, direction: PacketDirection::ClientBound };
    let fields = vec![field("channel", "String"), field("data", "RemainingBytes")];
    list(packets, entry(id, "PlayServerPluginMessage", fields));
    let id = Id { id: 0x1A, state: State::Play, direction: PacketDirection::ClientBound };
    let fields = vec![
            field("sound_name", "String"), field("sound_category", "SoundCategory"),
            field("position_x", "FixedInt"), field("position_y", "FixedInt"),
            field("position_z", "FixedInt"), field("volume", "Float"), field("pitch", "Float"),
        ];
    list(packets, entry(id, "PlayNamedSoundEffect", fields));
    let id = Id { id: 0x1B, state: State::Play, direction: PacketDirection::ClientBound };
    let fields = vec![field("reason", "JsonText")];
    list(packets, entry(id, "PlayDisconnect", fields));
    let id = Id { id: 0x1C, state: State::Play, direction: PacketDirection::ClientBound };
    let fields = vec![field("entity_id", "VarInt"), field("raw_status", "u8")];
    list(packets, entry(id, "PlayEntityStatus", fields));
    let id = Id { id: 0x1D, state: State::Play, direction: PacketDirection::ClientBound };
    let fields = vec![
            field("x", "Float"), field("y", "Float"), field("z", "Float"),
            field("strength", "Float"), field("records", "IntCountedArray<ExposionRecord>"),
            field("player_motion_x", "Float"), field("player_motion_y", "Float"),
            field("player_motion_z", "Float"),
        ];
    list(packets, entry(id, "PlayExposion", fields));
    let id = Id { id: 0x1E, state: State::Play, direction: PacketDirection::ClientBound };
    let fields = vec![field("x", "i32"), field("y", "i32")];
    list(packets, entry(id, "PlayUnloadChunk", fields));
    let id = Id { id: 0x1F, state: State::Play, direction: PacketDirection::ClientBound };
    let fields = vec![field("reason", "GameChange")];
    list(packets, entry(id, "PlayChangeGameState", fields));
    proof {
        assert forall|id: Id| 0 <= #[trigger] place_of(id) < 45 implies describes(
            packets@[place_of(id)],
            id,
        ) by {
            if place_of(id) < 37 {
                assert(packets@[place_of(id)] == old(packets)@[place_of(id)]);
            }
        }
    }
}

fn describe_play_client_bound_5(packets: &mut Vec<ProtocolPacketSpec>)
    requires
        all_registered(old(packets)@),
        old(packets)@.len() == 45,
        placed_upto(old(packets)@, 45),
    ensures
        all_registered(final(packets)@),
        final(packets)@.len() == 53,
        placed_upto(final(packets)@, 53),
{
    let id = Id { id: 0x20, state: State::Play, direction: PacketDirection::ClientBound };
    let fields = vec![
            field("window_id", "u8"), field("number_of_slots", "VarInt"),
            field("entity_id", "i32"),
        ];
    list(packets, entry(id, "PlayOpenHorseWindow", fields));
    let id = Id { id: 0x21, state: State::Play, direction: PacketDirection::ClientBound };
    let fields = vec![field("id", "i64")];
    list(packets, entry(id, "PlayServerKeepAlive", fields));
    let id = Id { id: 0x22, state: State::Play, direction: PacketDirection::ClientBound };
    let fields = vec![field("data", "ChunkData")];
    list(packets, entry(id, "PlayChunkData", fields));
    let id = Id { id: 0x23, state: State::Play, direction: PacketDirection::ClientBound };
    let fields = vec![
            field("effect_id", "i32"), field("location", "IntPosition"), field("data", "i32"),
            field("disable_relative_volume", "bool"),
        ];
    list(packets, entry(id, "PlayEffect", fields));
    let id = Id { id: 0x24, state: State::Play, direction: PacketDirection::ClientBound };
    let fields = vec![
            field("particle_id", "i32"), field("long_distance", "bool"), field("x", "Double"),
            field("y", "Double"), field("z", "Double"), field("offset_x", "Float"),
            field("offset_y", "Float"), field("offset_z", "Float"),
            field("particle_data", "i32"), field("data", "RemainingBytes"),
        ];
    list(packets, entry(id, "PlayParticle", fields));
    let id = Id { id: 0x25, state: State::Play, direction: PacketDirection::ClientBound };
    let fields = vec![
            field("chunk_x", "VarInt"), field("chunk_z", "VarInt"),
            field("sky_light_mask", "VarInt"), field("block_light_mask", "VarInt"),
            field("empty_sky_light_mask", "VarInt"), field("empty_block_light_mask", "VarInt"),
            field("sky_lights", "VarIntCountedArray<u8>"),
            field("block_lights", "VarIntCountedArray<u8>"),
        ];
    list(packets, entry(id, "PlayUpdateLight", fields));
    let id = Id { id: 0x26, state: State::Play, direction: PacketDirection::ClientBound };
    let fields = vec![
            field("entity_id", "i32"), field("gamemode", "GameMode"),
            field("dimension", "Dimension"), field("hashed_seed", "i64"),
            field("max_players", "u8"), field("level_type", "String"),
            field("view_distance", "VarInt"), field("reduced_debug_info", "bool"),
            field("enable_respawn_screen", "bool"),
        ];
    list(packets, entry(id, "PlayJoinGame", fields));
    let id = Id { id: 0x27, state: State::Play, direction: PacketDirection::ClientBound };
    let fields = vec![
            field("map_id", "VarInt"), field("scale", "i8"), field("tracking_position", "bool"),
            field("locked", "bool"), field("icons", "VarIntCountedArray<MapIconSpec>"),
            field("columns", "MapColumns"),
        ];
    list(packets, entry(id, "PlayMapData", fields));
    proof {
        assert forall|id: Id| 0 <= #[trigger] place_of(id) < 53 implies describes(
            packets@[place_of(id)],
            id,
        ) by {
            if place_of(id) < 45 {
                assert(packets@[place_of(id)] == old(packets)@[place_of(id)]);
            }
        }
    }
}

fn describe_play_client_bound_6(packets: &mut Vec<ProtocolPacketSpec>)
    requires
        all_registered(old(packets)@),
        old(packets)@.len() == 53,
        placed_upto(old(packets)@, 53),
    ensures
        all_registered(final(packets)@),
        final(packets)@.len() == 61,
        placed_upto(final(packets)@, 61),
{
    let id = Id { id: 0x28, state: State::Play, direction: PacketDirection::ClientBound };
    let fields = vec![
            field("window_id", "VarInt"), field("trades", "ByteCountedArray<TradeSpec>"),
            field("villager_level", "VarInt"), field("experience", "VarInt"),
            field("regular_villager", "bool"), field("can_restock", "bool"),
        ];
    list(packets, entry(id, "PlayTradeList", fields));
    let id = Id { id: 0x29, state: State::Play, direction: PacketDirection::ClientBound };
    let fields = vec![
            field("entity_id", "VarInt"), field("delta_x", "i16"), field("delta_y", "i16"),
            field("delta_z", "i16"), field("on_ground", "bool"),
        ];
    list(packets, entry(id, "PlayEntityPosition", fields));
    let id = Id { id: 0x2A, state: State::Play, direction: PacketDirection::ClientBound };
    let fields = vec![
            field("entity_id", "VarInt"), field("delta_x", "i16"), field("delta_y", "i16"),
            field("delta_z", "i16"), field("yaw", "Angle"), field("pitch", "Angle"),
            field("on_ground", "bool"),
        ];
    list(packets, entry(id, "PlayEntityPositionAndRotation", fields));
    let id = Id { id: 0x2B, state: State::Play, direction: PacketDirection::ClientBound };
    let fields = vec![
            field("entity_id", "VarInt"), field("yaw", "Angle"), field("pitch", "Angle"),
            field("on_ground", "bool"),
        ];
    list(packets, entry(id, "PlayEntityRotation", fields));
    let id = Id { id: 0x2C, state: State::Play, direction: PacketDirection::ClientBound };
    let fields = vec![field("entity_id", "VarInt")];
    list(packets, entry(id, "PlayEntityMovement", fields));
    let id = Id { id: 0x2D, state: State::Play, direction: PacketDirection::ClientBound };
    let fields = vec![
            field("x", "Double"), field("y", "Double"), field("z", "Double"),
            field("yaw", "Float"), field("pitch", "Float"),
        ];
    list(packets, entry(id, "PlayServerVehicleMove", fields));
    let id = Id { id: 0x2E, state: State::Play, direction: PacketDirection::ClientBound };
    let fields = vec![field("hand", "Hand")];
    list(packets, entry(id, "PlayOpenBook", fields));
    let id = Id { id: 0x2F, state: State::Play, direction: PacketDirection::ClientBound };
    let fields = vec![field("id", "VarInt"), field("kind", "WindowType"), field("title", "String")];
    list(packets, entry(id, "PlayOpenWindow", fields));
    proof {
        assert forall|id: Id| 0 <= #[trigger] place_of(id) < 61 implies describes(
            packets@[place_of(id)],
            id,
        ) by {
            if place_of(id) < 53 {
                assert(packets@[place_of(id)] == old(packets)@[place_of(id)]);
            }
        }
    }
}

fn describe_play_client_bound_7(packets: &mut Vec<ProtocolPacketSpec>)
    requires
        all_registered(old(packets)@),
        old(packets)@.len() == 61,
        placed_upto(old(packets)@, 61),
    ensures
        all_registered(final(packets)@),
        final(packets)@.len() == 69,
        placed_upto(final(packets)@, 69),
{
    let id = Id { id: 0x30, state: State::Play, direction: PacketDirection::ClientBound };
    let fields = vec![field("location", "IntPosition")];
    list(packets, entry(id, "PlayOpenSignEditor", fields));
    let id = Id { id: 0x31, state: State::Play, direction: PacketDirection::ClientBound };
    let fields = vec![field("window_id", "u8"), field("recipe", "String")];
    list(packets, entry(id, "PlayCraftRecipeResponse", fields));
    let id = Id { id: 0x32, state: State::Play, direction: PacketDirection::ClientBound };
    let fields = vec![
            field("flags", "PlayerAbilityFlags"), field("flying_speed", "Float"),
            field("field_of_view_modifier", "Float"),
        ];
    list(packets, entry(id, "PlayServerPlayerAbilities", fields));
    let id = Id { id: 0x33, state: State::Play, direction: PacketDirection::ClientBound };
    let fields = vec![field("event", "CombatEvent")];
    list(packets, entry(id, "PlayCombatEvent", fields));
    let id = Id { id: 0x34, state: State::Play, direction: PacketDirection::ClientBound };
    let fields = vec![field("actions", "PlayerInfoActionList")];
    list(packets, entry(id, "PlayPlayerInfo", fields));
    let id = Id { id: 0x35, state: State::Play, direction: PacketDirection::ClientBound };
    let fields = vec![
            field("face_kind", "FacePlayerKind"), field("target_x", "Double"),
            field("target_y", "Double"), field("target_z", "Double"),
            field("entity", "Option<FacePlayerEntityTarget>"),
        ];
    list(packets, entry(id, "PlayFacePlayer", fields));
    let id = Id { id: 0x36, state: State::Play, direction: PacketDirection::ClientBound };
    let fields = vec![
            field("x", "Double"), field("y", "Double"), field("z", "Double"),
            field("yaw", "Float"), field("pitch", "Float"),
            field("flags", "PositionAndLookFlags"), field("teleport_id", "VarInt"),
        ];
    list(packets, entry(id, "PlayServerPlayerPositionAndLook", fields));
    let id = Id { id: 0x37, state: State::Play, direction: PacketDirection::ClientBound };
    let fields = vec![
            field("action", "RecipeUnlockAction"), field("crafting_book_open", "bool"),
            field("crafting_book_active", "bool"), field("smelting_book_open", "bool"),
            field("smelting_book_active", "bool"),
            field("recipe_ids", "VarIntCountedArray<String>"),
            field("other_recipe_ids", "RemainingBytes"),
        ];
    list(packets, entry(id, "PlayUnlockRecipes", fields));
    proof {
        assert forall|id: Id| 0 <= #[trigger] place_of(id) < 69 implies describes(
            packets@[place_of(id)],
            id,
        ) by {
            if place_of(id) < 61 {
                assert(packets@[place_of(id)] == old(packets)@[place_of(id)]);
            }
        }
    }
}

fn describe_play_client_bound_8(packets: &mut Vec<ProtocolPacketSpec>)
    requires
        all_registered(old(packets)@),
        old(packets)@.len() == 69,
        placed_upto(old(packets)@, 69),
    ensures
        all_registered(final(packets)@),
        final(packets)@.len() == 77,
        placed_upto(final(packets)@, 77),
{
    let id = Id { id: 0x38, state: State::Play, direction: PacketDirection::ClientBound };
    let fields = vec![field("entity_ids", "VarIntCountedArray<VarInt>")];
    list(packets, entry(id, "PlayDestroyEntities", fields));
    let id = Id { id: 0x39, state: State::Play, direction: PacketDirection::ClientBound };
    let fields = vec![field("entity_id", "VarInt"), field("effect", "EntityEffectKind")];
    list(packets, entry(id, "PlayRemoveEntityEffect", fields));
    let id = Id { id: 0x3A, state: State::Play, direction: PacketDirection::ClientBound };
    let fields = vec![field("url", "String"), field("hash", "String")];
    list(packets, entry(id, "PlayResourcePackSend", fields));
    let id = Id { id: 0x3B, state: State::Play, direction: PacketDirection::ClientBound };
    let fields = vec![
            field("dimension", "Dimension"), field("hashed_seed", "i64"),
            field("gamemode", "GameMode"), field("level_type", "String"),
        ];
    list(packets, entry(id, "PlayRespawn", fields));
    let id = Id { id: 0x3C, state: State::Play, direction: PacketDirection::ClientBound };
    let fields = vec![field("entity_id", "VarInt"), field("head_yaw", "Angle")];
    list(packets, entry(id, "PlayEntityHeadLook", fields));
    let id = Id { id: 0x3D, state: State::Play, direction: PacketDirection::ClientBound };
    let fields = vec![field("identifier", "Option<String>")];
    list(packets, entry(id, "PlaySelectAdvancementTab", fields));
    let id = Id { id: 0x3E, state: State::Play, direction: PacketDirection::ClientBound };
    let fields = vec![field("action", "WorldBorderAction")];
    list(packets, entry(id, "PlayWorldBorder", fields));
    let id = Id { id: 0x3F, state: State::Play, direction: PacketDirection::ClientBound };
    let fields = vec![field("camera_id", "VarInt")];
    list(packets, entry(id, "PlayCamera", fields));
    proof {
        assert forall|id: Id| 0 <= #[trigger] place_of(id) < 77 implies describes(
            packets@[place_of(id)],
            id,
        ) by {
            if place_of(id) < 69 {
                assert(packets@[place_of(id)] == old(packets)@[place_of(id)]);
            }
        }
    }
}

fn describe_play_client_bound_9(packets: &mut Vec<ProtocolPacketSpec>)
    requires
        all_registered(old(packets)@),
        old(packets)@.len() == 77,
        placed_upto(old(packets)@, 77),
    ensures
        all_registered(final(packets)@),
        final(packets)@.len() == 85,
        placed_upto(final(packets)@, 85),
{
    let id = Id { id: 0x40, state: State::Play, direction: PacketDirection::ClientBound };
    let fields = vec![field("slot", "i8")];
    list(packets, entry(id, "PlayServerHeldItemChange", fields));
    let id = Id { id: 0x41, state: State::Play, direction: PacketDirection::ClientBound };
    let fields = vec![field("chunk_x", "VarInt"), field("chunk_z", "VarInt")];
    list(packets, entry(id, "PlayUpdateViewPosition", fields));
    let id = Id { id: 0x42, state: State::Play, direction: PacketDirection::ClientBound };
    let fields = vec![field("view_distance", "VarInt")];
    list(packets, entry(id, "PlayUpdateViewDistance", fields));
    let id = Id { id: 0x43, state: State::Play, direction: PacketDirection::ClientBound };
    let fields = vec![field("position", "ScoreboardPosition"), field("score_name", "String")];
    list(packets, entry(id, "PlayDisplayScoreboard", fields));
    let id = Id { id: 0x44, state: State::Play, direction: PacketDirection::ClientBound };
    let fields = vec![field("entity_id", "VarInt"), field("metadata_raw", "RemainingBytes")];
    list(packets, entry(id, "PlayEntityMetadata", fields));
    let id = Id { id: 0x45, state: State::Play, direction: PacketDirection::ClientBound };
    let fields = vec![field("attached_entity_id", "i32"), field("holding_entity_id", "i32")];
    list(packets, entry(id, "PlayAttachEntity", fields));
    let id = Id { id: 0x46, state: State::Play, direction: PacketDirection::ClientBound };
    let fields = vec![
            field("entity_id", "VarInt"), field("velocity_x", "i16"), field("velocity_y", "i16"),
            field("velocity_z", "i16"),
        ];
    list(packets, entry(id, "PlayEntityVelocity", fields));
    let id = Id { id: 0x47, state: State::Play, direction: PacketDirection::ClientBound };
    let fields = vec![
            field("entity_id", "VarInt"), field("slot", "EquipmentSlot"),
            field("item", "Option<Slot>"),
        ];
    list(packets, entry(id, "PlayEntityEquipment", fields));
    proof {
        assert forall|id: Id| 0 <= #[trigger] place_of(id) < 85 implies describes(
            packets@[place_of(id)],
            id,
        ) by {
            if place_of(id) < 77 {
                assert(packets@[place_of(id)] == old(packets)@[place_of(id)]);
            }
        }
    }
}

fn describe_play_client_bound_10(packets: &mut Vec<ProtocolPacketSpec>)
    requires
        all_registered(old(packets)@),
        old(packets)@.len() == 85,
        placed_upto(old(packets)@, 85),
    ensures
        all_registered(final(packets)@),
        final(packets)@.len() == 93,
        placed_upto(final(packets)@, 93),
{
    let id = Id { id: 0x48, state: State::Play, direction: PacketDirection::ClientBound };
    let fields = vec![
            field("experience_bar", "Float"), field("level", "VarInt"),
            field("total_experience", "VarInt"),
        ];
    list(packets, entry(id, "PlaySetExperience", fields));
    let id = Id { id: 0x49, state: State::Play, direction: PacketDirection::ClientBound };
    let fields =
        vec![field("health", "Float"), field("food", "VarInt"), field("saturation", "Float")];
    list(packets, entry(id, "PlayUpdatehealth", fields));
    let id = Id { id: 0x4A, state: State::Play, direction: PacketDirection::ClientBound };
    let fields =
        vec![field("objective_name", "String"), field("action", "ScoreboardObjectiveAction")];
    list(packets, entry(id, "PlayScoreboardObjective", fields));
    let id = Id { id: 0x4B, state: State::Play, direction: PacketDirection::ClientBound };
    let fields = vec![
            field("entity_id", "VarInt"),
            field("passenger_entitiy_ids", "VarIntCountedArray<VarInt>"),
        ];
    list(packets, entry(id, "PlaySetPassengers", fields));
    let id = Id { id: 0x4E, state: State::Play, direction: PacketDirection::ClientBound };
    let fields = vec![field("location", "IntPosition")];
    list(packets, entry(id, "PlaySpawnPosition", fields));
    let id = Id { id: 0x4F, state: State::Play, direction: PacketDirection::ClientBound };
    let fields = vec![field("world_age", "i64"), field("time_of_day", "i64")];
    list(packets, entry(id, "PlayTimeUpdate", fields));
    let id = Id { id: 0x51, state: State::Play, direction: PacketDirection::ClientBound };
    let fields = vec![
            field("sound_id", "VarInt"), field("sound_category", "SoundCategory"),
            field("entity_id", "VarInt"), field("volume", "Float"), field("pitch", "Float"),
        ];
    list(packets, entry(id, "PlayEntitySoundEffect", fields));
    let id = Id { id: 0x52, state: State::Play, direction: PacketDirection::ClientBound };
    let fields = vec![
            field("sound_id", "VarInt"), field("sound_category", "SoundCategory"),
            field("position_x", "FixedInt"), field("position_y", "FixedInt"),
            field("position_z", "FixedInt"), field("volume", "Float"), field("pitch", "Float"),
        ];
    list(packets, entry(id, "PlaySoundEffect", fields));
    proof {
        assert forall|id: Id| 0 <= #[trigger] place_of(id) < 93 implies describes(
            packets@[place_of(id)],
            id,
        ) by {
            if place_of(id) < 85 {
                assert(packets@[place_of(id)] == old(packets)@[place_of(id)]);
            }
        }
    }
}

fn describe_play_client_bound_11(packets: &mut Vec<ProtocolPacketSpec>)
    requires
        all_registered(old(packets)@),
        old(packets)@.len() == 93,
        placed_upto(old(packets)@, 93),
    ensures
        all_registered(final(packets)@),
        final(packets)@.len() == 101,
        placed_upto(final(packets)@, 101),
{
    let id = Id { id: 0x54, state: State::Play, direction: PacketDirection::ClientBound };
    let fields = vec![field("header", "JsonText"), field("footer", "JsonText")];
    list(packets, entry(id, "PlayerPlayerListHeaderAndFooter", fields));
    let id = Id { id: 0x55, state: State::Play, direction: PacketDirection::ClientBound };
    let fields = vec![field("transaction_id", "VarInt"), field("nbt", "NamedNbtTag")];
    list(packets, entry(id, "PlayNbtQueryResponse", fields));
    let id = Id { id: 0x56, state: State::Play, direction: PacketDirection::ClientBound };
    let fields = vec![
            field("collected_entity_id", "VarInt"), field("collector_entity_id", "VarInt"),
            field("pickup_item_count", "VarInt"),
        ];
    list(packets, entry(id, "PlayCollectItem", fields));
    let id = Id { id: 0x57, state: State::Play, direction: PacketDirection::ClientBound };
    let fields = vec![
            field("entity_id", "VarInt"), field("x", "Double"), field("y", "Double"),
            field("z", "Double"), field("yaw", "Angle"), field("pitch", "Angle"),
            field("on_ground", "bool"),
        ];
    list(packets, entry(id, "PlayEntityTeleport", fields));
    let id = Id { id: 0x58, state: State::Play, direction: PacketDirection::ClientBound };
    let fields = vec![field("raw", "RemainingBytes")];
    list(packets, entry(id, "PlayAdvancements", fields));
    let id = Id { id: 0x59, state: State::Play, direction: PacketDirection::ClientBound };
    let fields = vec![
            field("entity_id", "VarInt"),
            field("properties", "IntCountedArray<EntityPropertySpec>"),
        ];
    list(packets, entry(id, "PlayEntityProperties", fields));
    let id = Id { id: 0x5A, state: State::Play, direction: PacketDirection::ClientBound };
    let fields = vec![
            field("entity_id", "VarInt"), field("effect_id", "EntityEffectKind"),
            field("amplifier", "i8"), field("duration_ticks", "VarInt"),
            field("flags", "EntityEffectFlags"),
        ];
    list(packets, entry(id, "PlayEntityEffect", fields));
    let id = Id { id: 0x5B, state: State::Play, direction: PacketDirection::ClientBound };
    let fields = vec![field("recipes", "VarIntCountedArray<RecipeSpec>")];
    list(packets, entry(id, "PlayDeclareRecipes", fields));
    proof {
        assert forall|id: Id| 0 <= #[trigger] place_of(id) < 101 implies describes(
            packets@[place_of(id)],
            id,
        ) by {
            if place_of(id) < 93 {
                assert(packets@[place_of(id)] == old(packets)@[place_of(id)]);
            }
        }
    }
}

fn describe_play_client_bound_12(packets: &mut Vec<ProtocolPacketSpec>)
    requires
        all_registered(old(packets)@),
        old(packets)@.len() == 101,
        placed_upto(old(packets)@, 101),
    ensures
        all_registered(final(packets)@),
        final(packets)@.len() == 102,
        placed_upto(final(packets)@, 102),
{
    let id = Id { id: 0x5C, state: State::Play, direction: PacketDirection::ClientBound };
    let fields = vec![
            field("block_tags", "VarIntCountedArray<TagSpec>"),
            field("item_tags", "VarIntCountedArray<TagSpec>"),
            field("fluid_tags", "VarIntCountedArray<TagSpec>"),
            field("entity_tags", "VarIntCountedArray<TagSpec>"),
        ];
    list(packets, entry(id, "PlayTags", fields));
    proof {
        assert forall|id: Id| 0 <= #[trigger] place_of(id) < 102 implies describes(
            packets@[place_of(id)],
            id,
        ) by {
            if place_of(id) < 101 {
                assert(packets@[place_of(id)] == old(packets)@[place_of(id)]);
            }
        }
    }
}

fn describe_play_server_bound_1(packets: &mut Vec<ProtocolPacketSpec>)
    requires
        all_registered(old(packets)@),
        old(packets)@.len() == 102,
        placed_upto(old(packets)@, 102),
    ensures
        all_registered(final(packets)@),
        final(packets)@.len() == 110,
        placed_upto(final(packets)@, 110),
{
    let id = Id { id: 0x00, state: State::Play, direction: PacketDirection::ServerBound };
    let fields = vec![field("teleport_id", "VarInt")];
    list(packets, entry(id, "PlayTeleportConfirm", fields));
    let id = Id { id: 0x01, state: State::Play, direction: PacketDirection::ServerBound };
    let fields = vec![field("transaction_id", "VarInt"), field("location", "IntPosition")];
    list(packets, entry(id, "PlayQueryBlockNbt", fields));
    let id = Id { id: 0x0D, state: State::Play, direction: PacketDirection::ServerBound };
    let fields = vec![field("transaction_id", "VarInt"), field("entity_id", "VarInt")];
    list(packets, entry(id, "PlayQueryEntityNbt", fields));
    let id = Id { id: 0x02, state: State::Play, direction: PacketDirection::ServerBound };
    let fields = vec![field("new_difficulty", "Difficulty")];
    list(packets, entry(id, "PlaySetDifficulty", fields));
    let id = Id { id: 0x03, state: State::Play, direction: PacketDirection::ServerBound };
    let fields = vec![field("message", "String")];
    list(packets, entry(id, "PlayClientChatMessage", fields));
    let id = Id { id: 0x04, state: State::Play, direction: PacketDirection::ServerBound };
    let fields = vec![field("action", "ClientStatusAction")];
    list(packets, entry(id, "PlayClientStatus", fields));
    let id = Id { id: 0x05, state: State::Play, direction: PacketDirection::ServerBound };
    let fields = vec![
            field("locale", "String"), field("view_distance", "i8"),
            field("chat_mode", "ClientChatMode"), field("chat_colors", "bool"),
            field("displayed_skin_parts", "ClientDisplayedSkinParts"),
            field("main_hand", "ClientMainHand"),
        ];
    list(packets, entry(id, "PlayClientSettings", fields));
    let id = Id { id: 0x06, state: State::Play, direction: PacketDirection::ServerBound };
    let fields = vec![field("transaction_id", "VarInt"), field("text", "String")];
    list(packets, entry(id, "PlayClientTabComplete", fields));
    proof {
        assert forall|id: Id| 0 <= #[trigger] place_of(id) < 110 implies describes(
            packets@[place_of(id)],
            id,
        ) by {
            if place_of(id) < 102 {
                assert(packets@[place_of(id)] == old(packets)@[place_of(id)]);
            }
        }
    }
}

fn describe_play_server_bound_2(packets: &mut Vec<ProtocolPacketSpec>)
    requires
        all_registered(old(packets)@),
        old(packets)@.len() == 110,
        placed_upto(old(packets)@, 110),
    ensures
        all_registered(final(packets)@),
        final(packets)@.len() == 118,
        placed_upto(final(packets)@, 118),
{
    let id = Id { id: 0x07, state: State::Play, direction: PacketDirection::ServerBound };
    let fields =
        vec![field("window_id", "i8"), field("action_num", "i16"), field("accepted", "bool")];
    list(packets, entry(id, "PlayClientWindowConfirmation", fields));
    let id = Id { id: 0x08, state: State::Play, direction: PacketDirection::ServerBound };
    let fields = vec![field("window_id", "i8"), field("button_id", "i8")];
    list(packets, entry(id, "PlayClickWindowButton", fields));
    let id = Id { id: 0x09, state: State::Play, direction: PacketDirection::ServerBound };
    let fields = vec![
            field("window_id", "u8"), field("slot", "i16"), field("button", "i8"),
            field("action_number", "i16"), field("mode", "InventoryOperationMode"),
            field("clicked_item", "Option<Slot>"),
        ];
    list(packets, entry(id, "PlayClickWindow", fields));
    let id = Id { id: 0x0A, state: State::Play, direction: PacketDirection::ServerBound };
    let fields = vec![field("window_id", "u8")];
    list(packets, entry(id, "PlayClientCloseWindow", fields));
    let id = Id { id: 0x0B, state: State::Play, direction: PacketDirection::ServerBound };
    let fields = vec![field("channel", "String"), field("data", "RemainingBytes")];
    list(packets, entry(id, "PlayClientPluginMessage", fields));
    let id = Id { id: 0x0C, state: State::Play, direction: PacketDirection::ServerBound };
    let fields = vec![
            field("new_book", "Option<Slot>"), field("is_signing", "bool"),
            field("hand", "Hand"),
        ];
    list(packets, entry(id, "PlayEditBook", fields));
    let id = Id { id: 0x0E, state: State::Play, direction: PacketDirection::ServerBound };
    let fields = vec![field("entity_id", "VarInt"), field("kind", "InteractKind")];
    list(packets, entry(id, "PlayInteractEntity", fields));
    let id = Id { id: 0x0F, state: State::Play, direction: PacketDirection::ServerBound };
    let fields = vec![field("id", "i64")];
    list(packets, entry(id, "PlayClientKeepAlive", fields));
    proof {
        assert forall|id: Id| 0 <= #[trigger] place_of(id) < 118 implies describes(
            packets@[place_of(id)],
            id,
        ) by {
            if place_of(id) < 110 {
                assert(packets@[place_of(id)] == old(packets)@[place_of(id)]);
            }
        }
    }
}

fn describe_play_server_bound_3(packets: &mut Vec<ProtocolPacketSpec>)
    requires
        all_registered(old(packets)@),
        old(packets)@.len() == 118,
        placed_upto(old(packets)@, 118),
    ensures
        all_registered(final(packets)@),
        final(packets)@.len() == 126,
        placed_upto(final(packets)@, 126),
{
    let id = Id { id: 0x10, state: State::Play, direction: PacketDirection::ServerBound };
    let fields = vec![field("locked", "bool")];
    list(packets, entry(id, "PlayLockDifficulty", fields));
    let id = Id { id: 0x11, state: State::Play, direction: PacketDirection::ServerBound };
    let fields = vec![
            field("x", "Double"), field("feet_y", "Double"), field("z", "Double"),
            field("on_ground", "bool"),
        ];
    list(packets, entry(id, "PlayPlayerPosition", fields));
    let id = Id { id: 0x12, state: State::Play, direction: PacketDirection::ServerBound };
    let fields = vec![
            field("x", "Double"), field("feet_y", "Double"), field("z", "Double"),
            field("yaw", "Float"), field("pitch", "Float"), field("on_ground", "bool"),
        ];
    list(packets, entry(id, "PlayClientPlayerPositionAndRotation", fields));
    let id = Id { id: 0x13, state: State::Play, direction: PacketDirection::ServerBound };
    let fields = vec![field("yaw", "Float"), field("pitch", "Float"), field("on_ground", "bool")];
    list(packets, entry(id, "PlayPlayerRotation", fields));
    let id = Id { id: 0x14, state: State::Play, direction: PacketDirection::ServerBound };
    let fields = vec![field("on_ground", "bool")];
    list(packets, entry(id, "PlayPlayerMovement", fields));
    let id = Id { id: 0x15, state: State::Play, direction: PacketDirection::ServerBound };
    let fields = vec![
            field("x", "Double"), field("y", "Double"), field("z", "Double"),
            field("yaw", "Float"), field("pitch", "Float"),
        ];
    list(packets, entry(id, "PlayClientVehicleMove", fields));
    let id = Id { id: 0x16, state: State::Play, direction: PacketDirection::ServerBound };
    let fields = vec![field("left_paddle_turning", "bool"), field("right_paddle_turning", "bool")];
    list(packets, entry(id, "PlaySteerBoat", fields));
    let id = Id { id: 0x17, state: State::Play, direction: PacketDirection::ServerBound };
    let fields = vec![field("slot_idx", "VarInt")];
    list(packets, entry(id, "PlayPickItem", fields));
    proof {
        assert forall|id: Id| 0 <= #[trigger] place_of(id) < 126 implies describes(
            packets@[place_of(id)],
            id,
        ) by {
            if place_of(id) < 118 {
                assert(packets@[place_of(id)] == old(packets)@[place_of(id)]);
            }
        }
    }
}

fn describe_play_server_bound_4(packets: &mut Vec<ProtocolPacketSpec>)
    requires
        all_registered(old(packets)@),
        old(packets)@.len() == 126,
        placed_upto(old(packets)@, 126),
    ensures
        all_registered(final(packets)@),
        final(packets)@.len() == 134,
        placed_upto(final(packets)@, 134),
{
    let id = Id { id: 0x18, state: State::Play, direction: PacketDirection::ServerBound };
    let fields =
        vec![field("window_id", "i8"), field("recipe", "String"), field("make_all", "bool")];
    list(packets, entry(id, "PlayCraftRecipeRequest", fields));
    let id = Id { id: 0x19, state: State::Play, direction: PacketDirection::ServerBound };
    let fields = vec![
            field("flags", "ClientPlayerAbilities"), field("flying_speed", "Float"),
            field("walking_speed", "Float"),
        ];
    list(packets, entry(id, "PlayClientPlayerAbilities", fields));
    let id = Id { id: 0x1A, state: State::Play, direction: PacketDirection::ServerBound };
    let fields = vec![
            field("status", "PlayerDiggingStatus"), field("location", "IntPosition"),
            field("face", "DiggingFace"),
        ];
    list(packets, entry(id, "PlayPlayerDigging", fields));
    let id = Id { id: 0x1B, state: State::Play, direction: PacketDirection::ServerBound };
    let fields = vec![
            field("entity_id", "VarInt"), field("action", "EntityActionKind"),
            field("jump_boot", "VarInt"),
        ];
    list(packets, entry(id, "PlayEntityAction", fields));
    let id = Id { id: 0x1C, state: State::Play, direction: PacketDirection::ServerBound };
    let fields = vec![
            field("sideways", "Float"), field("forward", "Float"),
            field("flags", "SteerVehicleFlags"),
        ];
    list(packets, entry(id, "PlaySteerVehicle", fields));
    let id = Id { id: 0x1E, state: State::Play, direction: PacketDirection::ServerBound };
    let fields = vec![field("name", "String")];
    list(packets, entry(id, "PlayNameItem", fields));
    let id = Id { id: 0x1F, state: State::Play, direction: PacketDirection::ServerBound };
    let fields = vec![field("status", "ResourcePackStatus")];
    list(packets, entry(id, "PlayResourcePackStatus", fields));
    let id = Id { id: 0x21, state: State::Play, direction: PacketDirection::ServerBound };
    let fields = vec![field("selected_slot", "VarInt")];
    list(packets, entry(id, "PlaySelectTrade", fields));
    proof {
        assert forall|id: Id| 0 <= #[trigger] place_of(id) < 134 implies describes(
            packets@[place_of(id)],
            id,
        ) by {
            if place_of(id) < 126 {
                assert(packets@[place_of(id)] == old(packets)@[place_of(id)]);
            }
        }
    }
}

fn describe_play_server_bound_5(packets: &mut Vec<ProtocolPacketSpec>)
    requires
        all_registered(old(packets)@),
        old(packets)@.len() == 134,
        placed_upto(old(packets)@, 134),
    ensures
        all_registered(final(packets)@),
        final(packets)@.len() == 142,
        placed_upto(final(packets)@, 142),
{
    let id = Id { id: 0x22, state: State::Play, direction: PacketDirection::ServerBound };
    let fields = vec![field("primary_effect", "VarInt"), field("secondary_effect", "VarInt")];
    list(packets, entry(id, "PlaySetBeaconEffect", fields));
    let id = Id { id: 0x23, state: State::Play, direction: PacketDirection::ServerBound };
    let fields = vec![field("slot", "i16")];
    list(packets, entry(id, "PlayClientHeldItemChange", fields));
    let id = Id { id: 0x24, state: State::Play, direction: PacketDirection::ServerBound };
    let fields = vec![
            field("location", "IntPosition"), field("command", "String"),
            field("mode", "CommandBlockMode"), field("flags", "CommandBlockFlags"),
        ];
    list(packets, entry(id, "PlayUpdateCommandBlock", fields));
    let id = Id { id: 0x25, state: State::Play, direction: PacketDirection::ServerBound };
    let fields = vec![
            field("entity_id", "VarInt"), field("command", "String"),
            field("track_output", "bool"),
        ];
    list(packets, entry(id, "PlayUpdateCommandBlockMinecart", fields));
    let id = Id { id: 0x26, state: State::Play, direction: PacketDirection::ServerBound };
    let fields = vec![field("slot", "i16"), field("clicked_item", "Option<Slot>")];
    list(packets, entry(id, "PlayCreativeInventoryAction", fields));
    let id = Id { id: 0x27, state: State::Play, direction: PacketDirection::ServerBound };
    let fields = vec![
            field("location", "IntPosition"), field("attachment_type", "String"),
            field("target_pool", "String"), field("final_state", "String"),
        ];
    list(packets, entry(id, "PlayUpdateJigsawBlock", fields));
    let id = Id { id: 0x28, state: State::Play, direction: PacketDirection::ServerBound };
    let fields = vec![
            field("location", "IntPosition"), field("action", "UpdateStructureBlockAction"),
            field("mode", "UpdateStructureBlockMode"), field("name", "String"),
            field("offset_x", "i8"), field("offset_y", "i8"), field("offset_z", "i8"),
            field("size_x", "i8"), field("size_y", "i8"), field("size_z", "i8"),
            field("mirror", "UpdateStructureBlockMirror"),
            field("rotation", "UpdateStructureBlockRotation"), field("metadata", "String"),
            field("integrity", "Float"), field("seed", "VarLong"),
            field("flags", "UpdateStructureBlockFlags"),
        ];
    list(packets, entry(id, "PlayUpdateStructureBlock", fields));
    let id = Id { id: 0x29, state: State::Play, direction: PacketDirection::ServerBound };
    let fields = vec![
            field("location", "IntPosition"), field("line1", "String"), field("line2", "String"),
            field("line3", "String"), field("line4", "String"),
        ];
    list(packets, entry(id, "PlayUpdateSign", fields));
    proof {
        assert forall|id: Id| 0 <= #[trigger] place_of(id) < 142 implies describes(
            packets@[place_of(id)],
            id,
        ) by {
            if place_of(id) < 134 {
                assert(packets@[place_of(id)] == old(packets)@[place_of(id)]);
            }
        }
    }
}

fn describe_play_server_bound_6(packets: &mut Vec<ProtocolPacketSpec>)
    requires
        all_registered(old(packets)@),
        old(packets)@.len() == 142,
        placed_upto(old(packets)@, 142),
    ensures
        all_registered(final(packets)@),
        final(packets)@.len() == 146,
        placed_upto(final(packets)@, 146),
{
    let id = Id { id: 0x2A, state: State::Play, direction: PacketDirection::ServerBound };
    let fields = vec![field("hand", "Hand")];
    list(packets, entry(id, "PlayClientAnimation", fields));
    let id = Id { id: 0x2B, state: State::Play, direction: PacketDirection::ServerBound };
    let fields = vec![field("target", "UUID4")];
    list(packets, entry(id, "PlaySpectate", fields));
    let id = Id { id: 0x2C, state: State::Play, direction: PacketDirection::ServerBound };
    let fields = vec![
            field("hand", "Hand"), field("location", "IntPosition"),
            field("face", "DiggingFace"), field("cursor_position_x", "Float"),
            field("cursor_position_y", "Float"), field("cursor_position_z", "Float"),
            field("inside_block", "bool"),
        ];
    list(packets, entry(id, "PlayBlockPlacement", fields));
    let id = Id { id: 0x2D, state: State::Play, direction: PacketDirection::ServerBound };
    let fields = vec![field("hand", "Hand")];
    list(packets, entry(id, "PlayUseItem", fields));
    proof {
        assert forall|id: Id| 0 <= #[trigger] place_of(id) < 146 implies describes(
            packets@[place_of(id)],
            id,
        ) by {
            if place_of(id) < 142 {
                assert(packets@[place_of(id)] == old(packets)@[place_of(id)]);
            }
        }
    }
}

impl Packet578 {
    /// The registry as plain data, for tools and documentation: every packet
    /// with its state, direction, number and name, and the names and types
    /// of its fields. Every packet described is one the registry knows, and
    /// every packet the registry knows is described, at its place.
    pub fn describe() -> (res: ProtocolSpec)
        ensures
            res.name@ == "Packet578"@,
            res.packets@.len() == 146,
            all_registered(res.packets@),
            forall|id: Id| #[trigger]
                Packet578::registered(id) ==> 0 <= place_of(id) < 146 && describes(
                    res.packets@[place_of(id)],
                    id,
                ),
    {
        let mut packets: Vec<ProtocolPacketSpec> = Vec::new();
        describe_handshaking_server_bound(&mut packets);
        describe_status_server_bound(&mut packets);
        describe_status_client_bound(&mut packets);
        describe_login_client_bound(&mut packets);
        describe_login_server_bound(&mut packets);
        describe_play_client_bound_1(&mut packets);
        describe_play_client_bound_2(&mut packets);
        describe_play_client_bound_3(&mut packets);
        describe_play_client_bound_4(&mut packets);
        describe_play_client_bound_5(&mut packets);
        describe_play_client_bound_6(&mut packets);
        describe_play_client_bound_7(&mut packets);
        describe_play_client_bound_8(&mut packets);
        describe_play_client_bound_9(&mut packets);
        describe_play_client_bound_10(&mut packets);
        describe_play_client_bound_11(&mut packets);
        describe_play_client_bound_12(&mut packets);
        describe_play_server_bound_1(&mut packets);
        describe_play_server_bound_2(&mut packets);
        describe_play_server_bound_3(&mut packets);
        describe_play_server_bound_4(&mut packets);
        describe_play_server_bound_5(&mut packets);
        describe_play_server_bound_6(&mut packets);
        proof {
            assert forall|id: Id| #[trigger] Packet578::registered(id) implies 0 <= place_of(
                id,
            ) < 146 by {
                lemma_registered_has_a_place(id);
            }
        }
        ProtocolSpec { name: "Packet578".to_owned(), packets }
    }
}

} // verus!
