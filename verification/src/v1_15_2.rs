use crate::deserialize::{Deserialize, DeserializeErr, DeserializeResult, Deserialized, Fault};
use crate::protocol::ProtocolType;
use crate::serialize::{Serialize, SerializeResult, Serializer};
use crate::types::{
    bits_i16, bits_i8, i16_from_bits, i8_from_bits, length_prefix, length_prefix_of, VarInt,
};
use crate::wire::{lemma_suffix_refl, lemma_suffix_trans, Parsed};
use vstd::prelude::*;
use vstd::slice::slice_to_vec;

pub mod bodies;
pub mod composite;
pub mod packets;
pub mod values;

pub use crate::v1_15_2::bodies::{
    BossBarAddSpec, BossBarAddSpecFields, BossBarUpdateFlagsSpec, BossBarUpdateFlagsSpecFields,
    BossBarUpdateHealthSpec, BossBarUpdateHealthSpecFields, BossBarUpdateStyleSpec,
    BossBarUpdateStyleSpecFields, BossBarUpdateTitleSpec, BossBarUpdateTitleSpecFields,
    CombatEndSpec, CombatEndSpecFields, CombatEntityDeadSpec, CombatEntityDeadSpecFields,
    EntityPropertyModifierSpec, EntityPropertyModifierSpecFields, EntityPropertySpec,
    EntityPropertySpecFields, ExposionRecord, ExposionRecordFields, FacePlayerEntityTarget,
    FacePlayerEntityTargetFields, GameChange, GameChangeFields, HandshakeSpec,
    HandshakeSpecFields, InteractAtSpec, InteractAtSpecFields, LoginDisconnectSpec,
    LoginDisconnectSpecFields, LoginEncryptionRequestSpec, LoginEncryptionRequestSpecFields,
    LoginEncryptionResponseSpec, LoginEncryptionResponseSpecFields, LoginPluginRequestSpec,
    LoginPluginRequestSpecFields, LoginPluginResponseSpec, LoginPluginResponseSpecFields,
    LoginSetCompressionSpec, LoginSetCompressionSpecFields, LoginStartSpec, LoginStartSpecFields,
    LoginSuccessSpec, LoginSuccessSpecFields, MapColumnsSpec, MapColumnsSpecFields, MapIconSpec,
    MapIconSpecFields, MultiBlockChangeRecord, MultiBlockChangeRecordFields,
    PlayAcknowledgePlayerDiggingSpec, PlayAcknowledgePlayerDiggingSpecFields,
    PlayAdvancementsSpec, PlayAdvancementsSpecFields, PlayAttachEntitySpec,
    PlayAttachEntitySpecFields, PlayBlockActionSpec, PlayBlockActionSpecFields,
    PlayBlockBreakAnimationSpec, PlayBlockBreakAnimationSpecFields, PlayBlockChangeSpec,
    PlayBlockChangeSpecFields, PlayBlockEntityDataSpec, PlayBlockEntityDataSpecFields,
    PlayBlockPlacementSpec, PlayBlockPlacementSpecFields, PlayBossBarSpec, PlayBossBarSpecFields,
    PlayCameraSpec, PlayCameraSpecFields, PlayChangeGameStateSpec, PlayChangeGameStateSpecFields,
    PlayChunkDataWrapper, PlayChunkDataWrapperFields, PlayClickWindowButtonSpec,
    PlayClickWindowButtonSpecFields, PlayClickWindowSpec, PlayClickWindowSpecFields,
    PlayClientAnimationSpec, PlayClientAnimationSpecFields, PlayClientChatMessageSpec,
    PlayClientChatMessageSpecFields, PlayClientCloseWindowSpec, PlayClientCloseWindowSpecFields,
    PlayClientHeldItemChangeSpec, PlayClientHeldItemChangeSpecFields, PlayClientKeepAliveSpec,
    PlayClientKeepAliveSpecFields, PlayClientPlayerAbilitiesSpec,
    PlayClientPlayerAbilitiesSpecFields, PlayClientPlayerPositionAndRotationSpec,
    PlayClientPlayerPositionAndRotationSpecFields, PlayClientPluginMessageSpec,
    PlayClientPluginMessageSpecFields, PlayClientSettingsSpec, PlayClientSettingsSpecFields,
    PlayClientStatusSpec, PlayClientStatusSpecFields, PlayClientTabCompleteSpec,
    PlayClientTabCompleteSpecFields, PlayClientVehicleMoveSpec, PlayClientVehicleMoveSpecFields,
    PlayClientWindowConfirmationSpec, PlayClientWindowConfirmationSpecFields, PlayCollectItemSpec,
    PlayCollectItemSpecFields, PlayCombatEventSpec, PlayCombatEventSpecFields,
    PlayCraftRecipeRequestSpec, PlayCraftRecipeRequestSpecFields, PlayCraftRecipeResponseSpec,
    PlayCraftRecipeResponseSpecFields, PlayCreativeInventoryActionSpec,
    PlayCreativeInventoryActionSpecFields, PlayDeclareCommandsSpec, PlayDeclareCommandsSpecFields,
    PlayDeclareRecipesSpec, PlayDeclareRecipesSpecFields, PlayDestroyEntitiesSpec,
    PlayDestroyEntitiesSpecFields, PlayDisconnectSpec, PlayDisconnectSpecFields,
    PlayDisplayScoreboardSpec, PlayDisplayScoreboardSpecFields, PlayEditBookSpec,
    PlayEditBookSpecFields, PlayEffectSpec, PlayEffectSpecFields, PlayEntityActionSpec,
    PlayEntityActionSpecFields, PlayEntityAnimationSpec, PlayEntityAnimationSpecFields,
    PlayEntityEffectSpec, PlayEntityEffectSpecFields, PlayEntityEquiptmentSpec,
    PlayEntityEquiptmentSpecFields, PlayEntityHeadLookSpec, PlayEntityHeadLookSpecFields,
    PlayEntityMetadataSpec, PlayEntityMetadataSpecFields, PlayEntityMovementSpec,
    PlayEntityMovementSpecFields, PlayEntityPositionAndRotationSpec,
    PlayEntityPositionAndRotationSpecFields, PlayEntityPositionSpec, PlayEntityPositionSpecFields,
    PlayEntityPropertiesSpec, PlayEntityPropertiesSpecFields, PlayEntityRotationSpec,
    PlayEntityRotationSpecFields, PlayEntitySoundEffectSpec, PlayEntitySoundEffectSpecFields,
    PlayEntityStatusSpec, PlayEntityStatusSpecFields, PlayEntityTeleportSpec,
    PlayEntityTeleportSpecFields, PlayEntityVehicleMoveSpec, PlayEntityVehicleMoveSpecFields,
    PlayEntityVelocitySpec, PlayEntityVelocitySpecFields, PlayExposionSpec,
    PlayExposionSpecFields, PlayFacePlayerSpec, PlayFacePlayerSpecFields, PlayInteractEntitySpec,
    PlayInteractEntitySpecFields, PlayJoinGameSpec, PlayJoinGameSpecFields,
    PlayLockDifficultySpec, PlayLockDifficultySpecFields, PlayMapDataSpec, PlayMapDataSpecFields,
    PlayMultiBlockChangeSpec, PlayMultiBlockChangeSpecFields, PlayNameItemSpec,
    PlayNameItemSpecFields, PlayNamedSoundEffectSpec, PlayNamedSoundEffectSpecFields,
    PlayNbtQueryResponseSpec, PlayNbtQueryResponseSpecFields, PlayOpenBookSpec,
    PlayOpenBookSpecFields, PlayOpenHorseWindowSpec, PlayOpenHorseWindowSpecFields,
    PlayOpenSignEditorSpec, PlayOpenSignEditorSpecFields, PlayOpenWindowSpec,
    PlayOpenWindowSpecFields, PlayParticleSpec, PlayParticleSpecFields, PlayPickItemSpec,
    PlayPickItemSpecFields, PlayPlayerDiggingSpec, PlayPlayerDiggingSpecFields,
    PlayPlayerInfoSpec, PlayPlayerInfoSpecFields, PlayPlayerListHeaderAndFooterSpec,
    PlayPlayerListHeaderAndFooterSpecFields, PlayPlayerMovementSpec, PlayPlayerMovementSpecFields,
    PlayPlayerPositionSpec, PlayPlayerPositionSpecFields, PlayPlayerRotationSpec,
    PlayPlayerRotationSpecFields, PlayQueryBlockNbtSpec, PlayQueryBlockNbtSpecFields,
    PlayQueryEntityNbtSpec, PlayQueryEntityNbtSpecFields, PlayRemoveEntityEffectSpec,
    PlayRemoveEntityEffectSpecFields, PlayResourcePackSendSpec, PlayResourcePackSendSpecFields,
    PlayResourcePackStatusSpec, PlayResourcePackStatusSpecFields, PlayRespawnSpec,
    PlayRespawnSpecFields, PlayScoreboardObjectiveSpec, PlayScoreboardObjectiveSpecFields,
    PlaySelectAdvancementTabSpec, PlaySelectAdvancementTabSpecFields, PlaySelectTradeSpec,
    PlaySelectTradeSpecFields, PlayServerChatMessageSpec, PlayServerChatMessageSpecFields,
    PlayServerCloseWindowSpec, PlayServerCloseWindowSpecFields, PlayServerDifficultySpec,
    PlayServerDifficultySpecFields, PlayServerHeldItemChangeSpec,
    PlayServerHeldItemChangeSpecFields, PlayServerKeepAliveSpec, PlayServerKeepAliveSpecFields,
    PlayServerPlayerAbilitiesSpec, PlayServerPlayerAbilitiesSpecFields,
    PlayServerPlayerPositionAndLookSpec, PlayServerPlayerPositionAndLookSpecFields,
    PlayServerPluginMessageSpec, PlayServerPluginMessageSpecFields,
    PlayServerWindowConfirmationSpec, PlayServerWindowConfirmationSpecFields,
    PlaySetBeaconEffectSpec, PlaySetBeaconEffectSpecFields, PlaySetCooldownSpec,
    PlaySetCooldownSpecFields, PlaySetDifficultySpec, PlaySetDifficultySpecFields,
    PlaySetExperienceSpec, PlaySetExperienceSpecFields, PlaySetPassengersSpec,
    PlaySetPassengersSpecFields, PlaySetSlotSpec, PlaySetSlotSpecFields, PlaySoundEffectSpec,
    PlaySoundEffectSpecFields, PlaySpawnEntitySpec, PlaySpawnEntitySpecFields,
    PlaySpawnExperienceOrbSpec, PlaySpawnExperienceOrbSpecFields, PlaySpawnLivingEntitySpec,
    PlaySpawnLivingEntitySpecFields, PlaySpawnPaintingSpec, PlaySpawnPaintingSpecFields,
    PlaySpawnPlayerSpec, PlaySpawnPlayerSpecFields, PlaySpawnPositionSpec,
    PlaySpawnPositionSpecFields, PlaySpawnWeatherEntitySpec, PlaySpawnWeatherEntitySpecFields,
    PlaySpectateSpec, PlaySpectateSpecFields, PlayStatisticsSpec, PlayStatisticsSpecFields,
    PlaySteerBoatSpec, PlaySteerBoatSpecFields, PlaySteerVehicleSpec, PlaySteerVehicleSpecFields,
    PlayTabCompleteSpec, PlayTabCompleteSpecFields, PlayTagsSpec, PlayTagsSpecFields,
    PlayTeleportConfirmSpec, PlayTeleportConfirmSpecFields, PlayTimeUpdateSpec,
    PlayTimeUpdateSpecFields, PlayTradeListSpec, PlayTradeListSpecFields, PlayUnloadChunkSpec,
    PlayUnloadChunkSpecFields, PlayUnlockRecipesSpec, PlayUnlockRecipesSpecFields,
    PlayUpdateCommandBlockMinecartSpec, PlayUpdateCommandBlockMinecartSpecFields,
    PlayUpdateCommandBlockSpec, PlayUpdateCommandBlockSpecFields, PlayUpdateHealthSpec,
    PlayUpdateHealthSpecFields, PlayUpdateJigsawBlockSpec, PlayUpdateJigsawBlockSpecFields,
    PlayUpdateLoightSpec, PlayUpdateLoightSpecFields, PlayUpdateSignSpec,
    PlayUpdateSignSpecFields, PlayUpdateStructureBlockSpec, PlayUpdateStructureBlockSpecFields,
    PlayUpdateViewDistanceSpec, PlayUpdateViewDistanceSpecFields, PlayUpdateViewPositionSpec,
    PlayUpdateViewPositionSpecFields, PlayUseItemSpec, PlayUseItemSpecFields, PlayWindowItemsSpec,
    PlayWindowItemsSpecFields, PlayWindowPropertySpec, PlayWindowPropertySpecFields,
    PlayWorldBorderSpec, PlayWorldBorderSpecFields, PlayerAddActionSpec,
    PlayerAddActionSpecFields, PlayerAddProperty, PlayerAddPropertyFields,
    RecipeCraftingShapelessSpec, RecipeCraftingShapelessSpecFields, RecipeIngredient,
    RecipeIngredientFields, RecipeSmeltingSpec, RecipeSmeltingSpecFields, RecipeStonecuttingSpec,
    RecipeStonecuttingSpecFields, ScoreboardObjectiveSpec, ScoreboardObjectiveSpecFields,
    Statistic, StatisticFields, StatusPingSpec, StatusPingSpecFields, StatusPongSpec,
    StatusPongSpecFields, StatusRequestSpec, StatusRequestSpecFields, StatusResponseSpec,
    StatusResponseSpecFields, TabCompleteMatch, TabCompleteMatchFields, TagSpec, TagSpecFields,
    TradeSpec, TradeSpecFields, WorldBorderInitiaializeSpec, WorldBorderInitiaializeSpecFields,
    WorldBorderLerpSizeSpec, WorldBorderLerpSizeSpecFields, WorldBorderSetCenterSpec,
    WorldBorderSetCenterSpecFields, WorldBorderSetSizeSpec, WorldBorderSetSizeSpecFields,
    WorldBorderWarningBlocksSpec, WorldBorderWarningBlocksSpecFields, WorldBorderWarningTimeSpec,
    WorldBorderWarningTimeSpecFields,
};
pub use crate::v1_15_2::composite::{
    BlockChangeHorizontalPosition, BossBarAction, BossBarActionModel, ChunkData, CombatEvent,
    CombatEventModel, InteractKind, InteractKindModel, MapColumns, PlayerInfoAction,
    PlayerInfoActionList, PlayerInfoActionListModel, Recipe, RecipeCraftingShapedSpec,
    RecipeModel, RecipeSpec, ScoreboardObjectiveAction, ScoreboardObjectiveActionModel,
    ScoreboardPosition, WorldBorderAction, WorldBorderActionModel, decoding_biomes,
    decoding_counted, decoding_grid, lemma_first_byte_of_columns, lemma_recipe_kind_names,
    lemma_tagged_round_trip, list_legal, recipe_body_decoding, recipe_kind_number, uuids_of,
};
pub use crate::v1_15_2::packets::{
    Id, Packet578, all_registered, body_fault_handshaking_server_bound,
    body_fault_login_client_bound, body_fault_login_server_bound, body_fault_play_client_bound,
    body_fault_play_server_bound, body_fault_status_client_bound, body_fault_status_server_bound,
    describes, describes_registered, lemma_registered_has_a_place, place_handshaking_server_bound,
    place_login_client_bound, place_login_server_bound, place_of, place_play_client_bound,
    place_play_server_bound, place_status_client_bound, place_status_server_bound, placed_upto,
    registered_handshaking_server_bound, registered_login_client_bound,
    registered_login_server_bound, registered_play_client_bound, registered_play_server_bound,
    registered_status_client_bound, registered_status_server_bound,
};
pub use crate::v1_15_2::values::{
    BlockEntityDataAction, BossBarColor, BossBarDivision, BossBarFlags, CardinalDirection,
    ChatPosition, ClientChatMode, ClientDisplayedSkinParts, ClientMainHand, ClientPlayerAbilities,
    ClientStatusAction, CommandBlockFlags, CommandBlockMode, DemoEvent, Difficulty, DiggingFace,
    DiggingStatus, Dimension, EntityActionKind, EntityAnimationKind, EntityEffectFlags,
    EntityEffectKind, EntityPropertyModifierOperation, EquipmentSlot, FacePlayerKind, GameMode,
    Hand, HandshakeNextState, InventoryOperationMode, MapIconType, PlayerAbilityFlags,
    PlayerDiggingStatus, PositionAndLookFlags, RecipeUnlockAction, ResourcePackStatus,
    RespawnRequestType, ScoreboardObjectiveKind, SoundCategory, StatisticCategory, StatisticKind,
    SteerVehicleFlags, UpdateStructureBlockAction, UpdateStructureBlockFlags,
    UpdateStructureBlockMirror, UpdateStructureBlockMode, UpdateStructureBlockRotation,
    WinGameAction, WindowType,
};

verus! {

#[derive(Debug, PartialEq, Eq, Clone, Copy)]
pub enum PacketDirection {
    ClientBound,
    ServerBound,
}

impl PacketDirection {
    pub open spec fn spec_opposite(&self) -> Self {
        match self {
            PacketDirection::ClientBound => PacketDirection::ServerBound,
            PacketDirection::ServerBound => PacketDirection::ClientBound,
        }
    }

    #[verifier::when_used_as_spec(spec_opposite)]
    pub fn opposite(&self) -> (res: Self)
        ensures
            res == self.spec_opposite(),
    {
        match self {
            PacketDirection::ClientBound => PacketDirection::ServerBound,
            PacketDirection::ServerBound => PacketDirection::ClientBound,
        }
    }
}

#[derive(Debug, PartialEq, Eq, Clone, Copy)]
pub enum State {
    Handshaking,
    Status,
    Login,
    Play,
}

impl State {
    pub open spec fn spec_name(&self) -> Seq<char> {
        match self {
            State::Handshaking => "Handshaking"@,
            State::Status => "Status"@,
            State::Login => "Login"@,
            State::Play => "Play"@,
        }
    }

    pub fn name(&self) -> (res: String)
        ensures
            res@ == self.spec_name(),
    {
        match self {
            State::Handshaking => "Handshaking",
            State::Status => "Status",
            State::Login => "Login",
            State::Play => "Play",
        }.to_owned()
    }
}

// helper types
/// The models of a list of values, in order.
pub open spec fn models_of<T: Deserialize>(items: Seq<T>) -> Seq<T::Model> {
    Seq::new(items.len(), |i: int| items[i].model())
}

pub open spec fn all_legal<T: ProtocolType>(items: Seq<T>) -> bool {
    forall|i: int| 0 <= i < items.len() ==> (#[trigger] items[i]).legal()
}

/// What the items are written as, one behind the other.
pub open spec fn wire_many<T: Serialize>(items: Seq<T>) -> Seq<u8>
    decreases items.len(),
{
    if items.len() == 0 {
        Seq::empty()
    } else {
        items[0].wire() + wire_many(items.skip(1))
    }
}

/// `count` values read one behind the other, each from what the one before
/// left over.
pub open spec fn decoding_many<T: Deserialize>(data: Seq<u8>, count: nat) -> Parsed<Seq<T::Model>>
    decreases count,
{
    if count == 0 {
        Ok((Seq::empty(), data))
    } else {
        match T::decoding(data) {
            Err(e) => Err(e),
            Ok((first, rest)) => match decoding_many::<T>(rest, (count - 1) as nat) {
                Err(e) => Err(e),
                Ok((others, rest)) => Ok((seq![first] + others, rest)),
            },
        }
    }
}

pub proof fn lemma_many_round_trip<T: ProtocolType>(items: Seq<T>, rest: Seq<u8>)
    requires
        all_legal(items),
        T::self_delimiting() || (rest.len() == 0 && items.len() <= 1),
    ensures
        decoding_many::<T>(wire_many(items) + rest, items.len()) == Ok::<
            (Seq<T::Model>, Seq<u8>),
            Fault,
        >((models_of(items), rest)),
    decreases items.len(),
{
    if items.len() == 0 {
        assert(wire_many(items) + rest =~= rest);
        assert(models_of(items) =~= Seq::<T::Model>::empty());
    } else {
        let tail = items.skip(1);
        let behind = wire_many(tail) + rest;
        assert(wire_many(items) + rest =~= items[0].wire() + behind);
        if !T::self_delimiting() {
            assert(tail.len() == 0);
            assert(behind =~= Seq::<u8>::empty());
        }
        items[0].lemma_round_trip(behind);
        assert forall|i: int| 0 <= i < tail.len() implies (#[trigger] tail[i]).legal() by {
            assert(tail[i] == items[i + 1]);
        }
        lemma_many_round_trip(tail, rest);
        assert(seq![items[0].model()] + models_of(tail) =~= models_of(items));
    }
}

pub proof fn lemma_many_remainder<T: Deserialize>(data: Seq<u8>, count: nat)
    ensures
        decoding_many::<T>(data, count) matches Ok((items, rest)) ==> crate::wire::is_suffix(
            rest,
            data,
        ) && items.len() == count,
    decreases count,
{
    if count == 0 {
        lemma_suffix_refl(data);
    } else {
        T::lemma_remainder(data);
        match T::decoding(data) {
            Ok((_, rest)) => {
                lemma_many_remainder::<T>(rest, (count - 1) as nat);
                match decoding_many::<T>(rest, (count - 1) as nat) {
                    Ok((_, rest2)) => {
                        lemma_suffix_trans(rest2, rest, data);
                    },
                    Err(_) => {},
                }
            },
            Err(_) => {},
        }
    }
}

/// Writes the items one behind the other, with no count in front.
pub fn serialize_vec_directly<I: Serialize, S: Serializer>(items: &Vec<I>, to: &mut S) -> (res:
    SerializeResult)
    ensures
        old(to).reliable() ==> res is Ok && final(to).reliable(),
        res is Ok ==> final(to).written() == old(to).written() + wire_many(items@),
{
    let ghost before = to.written();
    let ghost all = items@;
    let mut i: usize = 0;
    proof {
        assert(all.skip(0) =~= all);
    }
    while i < items.len()
        invariant
            i <= items.len(),
            all == items@,
            old(to).reliable() ==> to.reliable(),
            before == old(to).written(),
            before + wire_many(all) == to.written() + wire_many(all.skip(i as int)),
        decreases items.len() - i,
    {
        let ghost so_far = to.written();
        match items[i].mc_serialize(to) {
            Ok(()) => {},
            Err(e) => {
                return Err(e);
            },
        }
        proof {
            let here = all.skip(i as int);
            assert(here[0] == items@[i as int]);
            assert(here.skip(1) =~= all.skip(i as int + 1));
            assert(so_far + (here[0].wire() + wire_many(here.skip(1))) =~= so_far
                + here[0].wire() + wire_many(here.skip(1)));
        }
        i += 1;
    }
    proof {
        assert(to.written() + Seq::<u8>::empty() =~= to.written());
    }
    Ok(())
}

/// Reads `count` values one behind the other. Room is made as the values
/// arrive, never from the count alone.
pub fn deserialize_many<I: Deserialize>(count: u64, data: &[u8]) -> (res:
    DeserializeResult<'_, Vec<I>>)
    ensures
        match res {
            Ok(d) => decoding_many::<I>(data@, count as nat)
                == Ok::<(Seq<I::Model>, Seq<u8>), Fault>(
                (models_of(d.value@), d.data@),
            ),
            Err(e) => decoding_many::<I>(data@, count as nat) == Err::<
                (Seq<I::Model>, Seq<u8>),
                Fault,
            >(e@),
        },
{
    let mut out: Vec<I> = Vec::new();
    let mut rest = data;
    let mut i: u64 = 0;
    proof {
        assert(models_of(out@) =~= Seq::<I::Model>::empty());
        match decoding_many::<I>(data@, count as nat) {
            Ok((items, _)) => {
                assert(Seq::<I::Model>::empty() + items =~= items);
            },
            Err(_) => {},
        }
    }
    while i < count
        invariant
            i <= count,
            match decoding_many::<I>(rest@, (count - i) as nat) {
                Ok((items, left)) => decoding_many::<I>(data@, count as nat) == Ok::<
                    (Seq<I::Model>, Seq<u8>),
                    Fault,
                >((models_of(out@) + items, left)),
                Err(e) => decoding_many::<I>(data@, count as nat) == Err::<
                    (Seq<I::Model>, Seq<u8>),
                    Fault,
                >(e),
            },
        decreases count - i,
    {
        let ghost before = out@;
        match I::mc_deserialize(rest) {
            Err(e) => {
                return Err(e);
            },
            Ok(d) => {
                let ghost first = d.value.model();
                rest = d.data;
                out.push(d.value);
                proof {
                    assert(models_of(out@) =~= models_of(before) + seq![first]);
                    match decoding_many::<I>(rest@, (count - i - 1) as nat) {
                        Ok((others, _)) => {
                            assert(models_of(before) + (seq![first] + others) =~= models_of(out@)
                                + others);
                        },
                        Err(_) => {},
                    }
                }
            },
        }
        i += 1;
    }
    proof {
        assert(models_of(out@) + Seq::<I::Model>::empty() =~= models_of(out@));
    }
    Deserialized::ok(out, rest)
}

/// Reads `count` values one behind the other.
pub fn deserialize_vec_directly<I: Deserialize>(count: usize, data: &[u8]) -> (res:
    DeserializeResult<'_, Vec<I>>)
    ensures
        match res {
            Ok(d) => decoding_many::<I>(data@, count as nat)
                == Ok::<(Seq<I::Model>, Seq<u8>), Fault>(
                (models_of(d.value@), d.data@),
            ),
            Err(e) => decoding_many::<I>(data@, count as nat) == Err::<
                (Seq<I::Model>, Seq<u8>),
                Fault,
            >(e@),
        },
{
    deserialize_many(count as u64, data)
}

/// What a signed number becomes when it is turned into a machine-sized
/// unsigned one: numbers below zero wrap round to the top of the range.
pub open spec fn signed_as_usize(v: int) -> int {
    if v < 0 {
        v + usize::MAX + 1
    } else {
        v
    }
}

#[inline]
pub fn varint_to_usize(v: VarInt) -> (u: usize)
    ensures
        u == signed_as_usize(v.0 as int),
{
    i32_to_usize(v.0)
}

#[inline]
pub fn varint_from_usize(u: usize) -> (v: VarInt)
    ensures
        v == length_prefix(u as nat),
{
    length_prefix_of(u)
}

#[inline]
pub fn i16_to_usize(v: i16) -> (u: usize)
    ensures
        u == signed_as_usize(v as int),
{
    i32_to_usize(v as i32)
}

#[inline]
pub fn i16_from_usize(u: usize) -> (v: i16)
    ensures
        v == bits_i16((u % 0x1_0000) as u16),
{
    i16_from_bits((u % 0x1_0000) as u16)
}

#[inline]
pub fn i32_to_usize(v: i32) -> (u: usize)
    ensures
        u == signed_as_usize(v as int),
{
    if v < 0 {
        usize::MAX - ((-(v as i64 + 1)) as usize)
    } else {
        v as usize
    }
}

#[inline]
pub fn i32_from_usize(u: usize) -> (v: i32)
    ensures
        v == length_prefix(u as nat).0,
{
    length_prefix_of(u).0
}

#[inline]
pub fn i8_to_usize(v: i8) -> (u: usize)
    ensures
        u == signed_as_usize(v as int),
{
    i32_to_usize(v as i32)
}

#[inline]
pub fn i8_from_usize(u: usize) -> (v: i8)
    ensures
        v == bits_i8((u % 0x100) as u8),
{
    i8_from_bits((u % 0x100) as u8)
}

/// A list whose length travels in front of it as a `VarInt`.
#[derive(Debug, Clone, PartialEq)]
pub struct VarIntCountedArray<T> {
    pub data: Vec<T>,
}

impl<T> Serialize for VarIntCountedArray<T> where T: Serialize {
    open spec fn wire(&self) -> Seq<u8> {
        length_prefix(self.data@.len()).wire() + wire_many(self.data@)
    }

    fn mc_serialize<S: Serializer>(&self, to: &mut S) -> (res: SerializeResult) {
        let ghost before = to.written();
        let count: VarInt = varint_from_usize(self.data.len());
        count.mc_serialize(to)?;
        let res = serialize_vec_directly(&self.data, to);
        proof {
            assert(before + count.wire() + wire_many(self.data@) =~= before
                + (count.wire() + wire_many(self.data@)));
        }
        res
    }
}

impl<T> Deserialize for VarIntCountedArray<T> where T: Deserialize {
    type Model = Seq<T::Model>;

    open spec fn model(&self) -> Seq<T::Model> {
        models_of(self.data@)
    }

    /// A count, then that many items. A count below zero is an error.
    open spec fn decoding(data: Seq<u8>) -> Parsed<Seq<T::Model>> {
        match VarInt::decoding(data) {
            Err(e) => Err(e),
            Ok((count, rest)) => if count.0 < 0 {
                Err(Fault::NegativeLength(count.0))
            } else {
                decoding_many::<T>(rest, count.0 as nat)
            },
        }
    }

    proof fn lemma_remainder(data: Seq<u8>) {
        VarInt::lemma_remainder(data);
        match VarInt::decoding(data) {
            Ok((count, rest)) => {
                if count.0 >= 0 {
                    lemma_many_remainder::<T>(rest, count.0 as nat);
                    match decoding_many::<T>(rest, count.0 as nat) {
                        Ok((_, rest2)) => {
                            lemma_suffix_trans(rest2, rest, data);
                        },
                        Err(_) => {},
                    }
                }
            },
            Err(_) => {},
        }
    }

    fn mc_deserialize(data: &[u8]) -> (res: DeserializeResult<'_, Self>) {
        let Deserialized { value: raw_count, data: rest } = VarInt::mc_deserialize(data)?;
        if raw_count.0 < 0 {
            return Err(DeserializeErr::NegativeLength(VarInt(raw_count.0 as i32)));
        }
        let count: usize = varint_to_usize(raw_count);
        let Deserialized { value: out, data: rest } = deserialize_vec_directly(count, rest)?;
        Deserialized::ok(Self { data: out }, rest)
    }
}

impl<T: ProtocolType> ProtocolType for VarIntCountedArray<T> {
    /// The count must fit its prefix, every item must be legal, and items that
    /// do not announce their own end cannot be followed by anything.
    open spec fn legal(&self) -> bool {
        &&& self.data@.len() <= i32::MAX
        &&& all_legal(self.data@)
        &&& T::self_delimiting() || self.data@.len() <= 1
    }

    open spec fn self_delimiting() -> bool {
        T::self_delimiting()
    }

    proof fn lemma_round_trip(&self, rest: Seq<u8>) {
        let count = length_prefix(self.data@.len());
        let behind = wire_many(self.data@) + rest;
        count.lemma_round_trip(behind);
        assert(self.wire() + rest =~= count.wire() + behind);
        lemma_many_round_trip(self.data@, rest);
    }
}

impl<T> From<Vec<T>> for VarIntCountedArray<T> {
    fn from(data: Vec<T>) -> (res: Self) {
        Self { data }
    }
}

impl<T> vstd::std_specs::convert::FromSpecImpl<Vec<T>> for VarIntCountedArray<T> {
    open spec fn obeys_from_spec() -> bool {
        true
    }

    open spec fn from_spec(data: Vec<T>) -> Self {
        Self { data }
    }
}

/// A list whose length travels in front of it as a 16-bit number.
#[derive(Debug, Clone, PartialEq)]
pub struct ShortCountedArray<T> {
    pub data: Vec<T>,
}

impl<T> Serialize for ShortCountedArray<T> where T: Serialize {
    open spec fn wire(&self) -> Seq<u8> {
        bits_i16((self.data@.len() % 0x1_0000) as u16).wire() + wire_many(self.data@)
    }

    fn mc_serialize<S: Serializer>(&self, to: &mut S) -> (res: SerializeResult) {
        let ghost before = to.written();
        let count: i16 = i16_from_usize(self.data.len());
        count.mc_serialize(to)?;
        let res = serialize_vec_directly(&self.data, to);
        proof {
            assert(before + count.wire() + wire_many(self.data@) =~= before
                + (count.wire() + wire_many(self.data@)));
        }
        res
    }
}

impl<T> Deserialize for ShortCountedArray<T> where T: Deserialize {
    type Model = Seq<T::Model>;

    open spec fn model(&self) -> Seq<T::Model> {
        models_of(self.data@)
    }

    /// A count, then that many items. A count below zero is an error.
    open spec fn decoding(data: Seq<u8>) -> Parsed<Seq<T::Model>> {
        match i16::decoding(data) {
            Err(e) => Err(e),
            Ok((count, rest)) => if count < 0 {
                Err(Fault::NegativeLength(count as i32))
            } else {
                decoding_many::<T>(rest, count as nat)
            },
        }
    }

    proof fn lemma_remainder(data: Seq<u8>) {
        i16::lemma_remainder(data);
        match i16::decoding(data) {
            Ok((count, rest)) => {
                if count >= 0 {
                    lemma_many_remainder::<T>(rest, count as nat);
                    match decoding_many::<T>(rest, count as nat) {
                        Ok((_, rest2)) => {
                            lemma_suffix_trans(rest2, rest, data);
                        },
                        Err(_) => {},
                    }
                }
            },
            Err(_) => {},
        }
    }

    fn mc_deserialize(data: &[u8]) -> (res: DeserializeResult<'_, Self>) {
        let Deserialized { value: raw_count, data: rest } = i16::mc_deserialize(data)?;
        if raw_count < 0 {
            return Err(DeserializeErr::NegativeLength(VarInt(raw_count as i32)));
        }
        let count: usize = i16_to_usize(raw_count);
        let Deserialized { value: out, data: rest } = deserialize_vec_directly(count, rest)?;
        Deserialized::ok(Self { data: out }, rest)
    }
}

impl<T: ProtocolType> ProtocolType for ShortCountedArray<T> {
    /// The count must fit its prefix, every item must be legal, and items that
    /// do not announce their own end cannot be followed by anything.
    open spec fn legal(&self) -> bool {
        &&& self.data@.len() <= i16::MAX
        &&& all_legal(self.data@)
        &&& T::self_delimiting() || self.data@.len() <= 1
    }

    open spec fn self_delimiting() -> bool {
        T::self_delimiting()
    }

    proof fn lemma_round_trip(&self, rest: Seq<u8>) {
        let count = bits_i16((self.data@.len() % 0x1_0000) as u16);
        let behind = wire_many(self.data@) + rest;
        count.lemma_round_trip(behind);
        assert(self.wire() + rest =~= count.wire() + behind);
        lemma_many_round_trip(self.data@, rest);
    }
}

impl<T> From<Vec<T>> for ShortCountedArray<T> {
    fn from(data: Vec<T>) -> (res: Self) {
        Self { data }
    }
}

impl<T> vstd::std_specs::convert::FromSpecImpl<Vec<T>> for ShortCountedArray<T> {
    open spec fn obeys_from_spec() -> bool {
        true
    }

    open spec fn from_spec(data: Vec<T>) -> Self {
        Self { data }
    }
}

/// A list whose length travels in front of it as a 32-bit number.
#[derive(Debug, Clone, PartialEq)]
pub struct IntCountedArray<T> {
    pub data: Vec<T>,
}

impl<T> Serialize for IntCountedArray<T> where T: Serialize {
    open spec fn wire(&self) -> Seq<u8> {
        (length_prefix(self.data@.len()).0).wire() + wire_many(self.data@)
    }

    fn mc_serialize<S: Serializer>(&self, to: &mut S) -> (res: SerializeResult) {
        let ghost before = to.written();
        let count: i32 = i32_from_usize(self.data.len());
        count.mc_serialize(to)?;
        let res = serialize_vec_directly(&self.data, to);
        proof {
            assert(before + count.wire() + wire_many(self.data@) =~= before
                + (count.wire() + wire_many(self.data@)));
        }
        res
    }
}

impl<T> Deserialize for IntCountedArray<T> where T: Deserialize {
    type Model = Seq<T::Model>;

    open spec fn model(&self) -> Seq<T::Model> {
        models_of(self.data@)
    }

    /// A count, then that many items. A count below zero is an error.
    open spec fn decoding(data: Seq<u8>) -> Parsed<Seq<T::Model>> {
        match i32::decoding(data) {
            Err(e) => Err(e),
            Ok((count, rest)) => if count < 0 {
                Err(Fault::NegativeLength(count as i32))
            } else {
                decoding_many::<T>(rest, count as nat)
            },
        }
    }

    proof fn lemma_remainder(data: Seq<u8>) {
        i32::lemma_remainder(data);
        match i32::decoding(data) {
            Ok((count, rest)) => {
                if count >= 0 {
                    lemma_many_remainder::<T>(rest, count as nat);
                    match decoding_many::<T>(rest, count as nat) {
                        Ok((_, rest2)) => {
                            lemma_suffix_trans(rest2, rest, data);
                        },
                        Err(_) => {},
                    }
                }
            },
            Err(_) => {},
        }
    }

    fn mc_deserialize(data: &[u8]) -> (res: DeserializeResult<'_, Self>) {
        let Deserialized { value: raw_count, data: rest } = i32::mc_deserialize(data)?;
        if raw_count < 0 {
            return Err(DeserializeErr::NegativeLength(VarInt(raw_count as i32)));
        }
        let count: usize = i32_to_usize(raw_count);
        let Deserialized { value: out, data: rest } = deserialize_vec_directly(count, rest)?;
        Deserialized::ok(Self { data: out }, rest)
    }
}

impl<T: ProtocolType> ProtocolType for IntCountedArray<T> {
    /// The count must fit its prefix, every item must be legal, and items that
    /// do not announce their own end cannot be followed by anything.
    open spec fn legal(&self) -> bool {
        &&& self.data@.len() <= i32::MAX
        &&& all_legal(self.data@)
        &&& T::self_delimiting() || self.data@.len() <= 1
    }

    open spec fn self_delimiting() -> bool {
        T::self_delimiting()
    }

    proof fn lemma_round_trip(&self, rest: Seq<u8>) {
        let count = length_prefix(self.data@.len()).0;
        let behind = wire_many(self.data@) + rest;
        count.lemma_round_trip(behind);
        assert(self.wire() + rest =~= count.wire() + behind);
        lemma_many_round_trip(self.data@, rest);
    }
}

impl<T> From<Vec<T>> for IntCountedArray<T> {
    fn from(data: Vec<T>) -> (res: Self) {
        Self { data }
    }
}

impl<T> vstd::std_specs::convert::FromSpecImpl<Vec<T>> for IntCountedArray<T> {
    open spec fn obeys_from_spec() -> bool {
        true
    }

    open spec fn from_spec(data: Vec<T>) -> Self {
        Self { data }
    }
}

/// A list whose length travels in front of it as a single signed byte.
#[derive(Debug, Clone, PartialEq)]
pub struct ByteCountedArray<T> {
    pub data: Vec<T>,
}

impl<T> Serialize for ByteCountedArray<T> where T: Serialize {
    open spec fn wire(&self) -> Seq<u8> {
        bits_i8((self.data@.len() % 0x100) as u8).wire() + wire_many(self.data@)
    }

    fn mc_serialize<S: Serializer>(&self, to: &mut S) -> (res: SerializeResult) {
        let ghost before = to.written();
        let count: i8 = i8_from_usize(self.data.len());
        count.mc_serialize(to)?;
        let res = serialize_vec_directly(&self.data, to);
        proof {
            assert(before + count.wire() + wire_many(self.data@) =~= before
                + (count.wire() + wire_many(self.data@)));
        }
        res
    }
}

impl<T> Deserialize for ByteCountedArray<T> where T: Deserialize {
    type Model = Seq<T::Model>;

    open spec fn model(&self) -> Seq<T::Model> {
        models_of(self.data@)
    }

    /// A count, then that many items. A count below zero is an error.
    open spec fn decoding(data: Seq<u8>) -> Parsed<Seq<T::Model>> {
        match i8::decoding(data) {
            Err(e) => Err(e),
            Ok((count, rest)) => if count < 0 {
                Err(Fault::NegativeLength(count as i32))
            } else {
                decoding_many::<T>(rest, count as nat)
            },
        }
    }

    proof fn lemma_remainder(data: Seq<u8>) {
        i8::lemma_remainder(data);
        match i8::decoding(data) {
            Ok((count, rest)) => {
                if count >= 0 {
                    lemma_many_remainder::<T>(rest, count as nat);
                    match decoding_many::<T>(rest, count as nat) {
                        Ok((_, rest2)) => {
                            lemma_suffix_trans(rest2, rest, data);
                        },
                        Err(_) => {},
                    }
                }
            },
            Err(_) => {},
        }
    }

    fn mc_deserialize(data: &[u8]) -> (res: DeserializeResult<'_, Self>) {
        let Deserialized { value: raw_count, data: rest } = i8::mc_deserialize(data)?;
        if raw_count < 0 {
            return Err(DeserializeErr::NegativeLength(VarInt(raw_count as i32)));
        }
        let count: usize = i8_to_usize(raw_count);
        let Deserialized { value: out, data: rest } = deserialize_vec_directly(count, rest)?;
        Deserialized::ok(Self { data: out }, rest)
    }
}

impl<T: ProtocolType> ProtocolType for ByteCountedArray<T> {
    /// The count must fit its prefix, every item must be legal, and items that
    /// do not announce their own end cannot be followed by anything.
    open spec fn legal(&self) -> bool {
        &&& self.data@.len() <= i8::MAX
        &&& all_legal(self.data@)
        &&& T::self_delimiting() || self.data@.len() <= 1
    }

    open spec fn self_delimiting() -> bool {
        T::self_delimiting()
    }

    proof fn lemma_round_trip(&self, rest: Seq<u8>) {
        let count = bits_i8((self.data@.len() % 0x100) as u8);
        let behind = wire_many(self.data@) + rest;
        count.lemma_round_trip(behind);
        assert(self.wire() + rest =~= count.wire() + behind);
        lemma_many_round_trip(self.data@, rest);
    }
}

impl<T> From<Vec<T>> for ByteCountedArray<T> {
    fn from(data: Vec<T>) -> (res: Self) {
        Self { data }
    }
}

impl<T> vstd::std_specs::convert::FromSpecImpl<Vec<T>> for ByteCountedArray<T> {
    open spec fn obeys_from_spec() -> bool {
        true
    }

    open spec fn from_spec(data: Vec<T>) -> Self {
        Self { data }
    }
}

/// Whatever is left of a packet: bytes that this layer does not look into.
#[derive(Debug, Clone, PartialEq)]
pub struct RemainingBytes {
    pub data: Vec<u8>,
}

impl Serialize for RemainingBytes {
    open spec fn wire(&self) -> Seq<u8> {
        self.data@
    }

    fn mc_serialize<S: Serializer>(&self, to: &mut S) -> (res: SerializeResult) {
        to.serialize_bytes(self.data.as_slice())
    }
}

impl Deserialize for RemainingBytes {
    type Model = Seq<u8>;

    open spec fn model(&self) -> Seq<u8> {
        self.data@
    }

    /// Takes everything; nothing is ever left.
    open spec fn decoding(data: Seq<u8>) -> Parsed<Seq<u8>> {
        Ok((data, Seq::empty()))
    }

    proof fn lemma_remainder(data: Seq<u8>) {
        assert(data.skip(data.len() as int) =~= Seq::<u8>::empty());
    }

    fn mc_deserialize(data: &[u8]) -> (res: DeserializeResult<'_, Self>) {
        let (all, nothing) = data.split_at(data.len());
        proof {
            assert(all@ =~= data@);
            assert(nothing@ =~= Seq::<u8>::empty());
        }
        Deserialized::ok(RemainingBytes { data: slice_to_vec(all) }, nothing)
    }
}

impl ProtocolType for RemainingBytes {
    open spec fn legal(&self) -> bool {
        true
    }

    open spec fn self_delimiting() -> bool {
        false
    }

    proof fn lemma_round_trip(&self, rest: Seq<u8>) {
        assert(self.data@ + rest =~= self.data@);
        assert(rest =~= Seq::<u8>::empty());
    }
}

impl From<Vec<u8>> for RemainingBytes {
    fn from(data: Vec<u8>) -> (res: Self) {
        Self { data }
    }
}

impl vstd::std_specs::convert::FromSpecImpl<Vec<u8>> for RemainingBytes {
    open spec fn obeys_from_spec() -> bool {
        true
    }

    open spec fn from_spec(data: Vec<u8>) -> Self {
        Self { data }
    }
}

} // verus!
