use crate::deserialize::{Deserialize, DeserializeResult, Deserialized};
use crate::protocol::ProtocolType;
use crate::serialize::{Serialize, SerializeResult, Serializer};
use crate::tag_tree::{NamedNbtTag, Slot};
use crate::types::{Angle, Double, FixedInt, Float, IntPosition, JsonText, VarInt, VarLong};
use crate::uuid::UUID4;
use crate::v1_15_2::composite::{
    BlockChangeHorizontalPosition, BossBarAction, ChunkData, CombatEvent, InteractKind,
    MapColumns, PlayerInfoActionList, RecipeSpec, ScoreboardObjectiveAction, ScoreboardPosition,
    WorldBorderAction,
};
use crate::v1_15_2::values::{
    BlockEntityDataAction, BossBarColor, BossBarDivision, BossBarFlags, CardinalDirection,
    ChatPosition, ClientChatMode, ClientDisplayedSkinParts, ClientMainHand, ClientPlayerAbilities,
    ClientStatusAction, CommandBlockFlags, CommandBlockMode, Difficulty, DiggingFace,
    DiggingStatus, Dimension, EntityActionKind, EntityAnimationKind, EntityEffectFlags,
    EntityEffectKind, EntityPropertyModifierOperation, EquipmentSlot, FacePlayerKind, GameMode,
    Hand, HandshakeNextState, InventoryOperationMode, MapIconType, PlayerAbilityFlags,
    PlayerDiggingStatus, PositionAndLookFlags, RecipeUnlockAction, ResourcePackStatus,
    ScoreboardObjectiveKind, SoundCategory, StatisticCategory, StatisticKind, SteerVehicleFlags,
    UpdateStructureBlockAction, UpdateStructureBlockFlags, UpdateStructureBlockMirror,
    UpdateStructureBlockMode, UpdateStructureBlockRotation, WindowType,
};
use crate::v1_15_2::{
    ByteCountedArray, IntCountedArray, RemainingBytes, ShortCountedArray, VarIntCountedArray,
};
use crate::tuples::{
    lemma_tuple10_wire, lemma_tuple12_wire, lemma_tuple16_wire, lemma_tuple2_wire,
    lemma_tuple3_wire, lemma_tuple4_wire, lemma_tuple5_wire, lemma_tuple6_wire, lemma_tuple7_wire,
    lemma_tuple8_wire, lemma_tuple9_wire,
};
use crate::wire::{lemma_concat_assoc, Parsed};
use vstd::prelude::*;

verus! {

/// One count kept for a player.
#[derive(Debug, Clone, PartialEq)]
pub struct Statistic {
    pub category: StatisticCategory,
    pub statistic: StatisticKind,
    pub value: VarInt,
}

/// The fields of [`Statistic`] in the order they travel.
pub type StatisticFields = (StatisticCategory, StatisticKind, VarInt);

impl Statistic {
    pub open spec fn fields(&self) -> StatisticFields {
        (self.category, self.statistic, self.value)
    }
}

impl Serialize for Statistic {
    /// The fields' encodings, one behind the other.
    open spec fn wire(&self) -> Seq<u8> {
        self.fields().wire()
    }

    fn mc_serialize<S: Serializer>(&self, to: &mut S) -> (res: SerializeResult) {
        let ghost before = to.written();
        self.category.mc_serialize(to)?;
        self.statistic.mc_serialize(to)?;
        let res = self.value.mc_serialize(to);
        proof {
            broadcast use lemma_concat_assoc;

            lemma_tuple3_wire(&self.fields());
        }
        res
    }
}

impl Deserialize for Statistic {
    type Model = <StatisticFields as Deserialize>::Model;

    open spec fn model(&self) -> Self::Model {
        self.fields().model()
    }

    /// Each field from what the one before left over.
    open spec fn decoding(data: Seq<u8>) -> Parsed<Self::Model> {
        <StatisticFields>::decoding(data)
    }

    proof fn lemma_remainder(data: Seq<u8>) {
        <StatisticFields>::lemma_remainder(data);
    }

    fn mc_deserialize(data: &[u8]) -> (res: DeserializeResult<'_, Self>) {
        let Deserialized { value, data: rest } = <StatisticFields>::mc_deserialize(data)?;
        let (category, statistic, value) = value;
        Deserialized::ok(Statistic { category, statistic, value }, rest)
    }
}

impl ProtocolType for Statistic {
    open spec fn legal(&self) -> bool {
        self.fields().legal()
    }

    open spec fn self_delimiting() -> bool {
        <StatisticFields>::self_delimiting()
    }

    proof fn lemma_round_trip(&self, rest: Seq<u8>) {
        self.fields().lemma_round_trip(rest);
    }
}

/// One changed block within a chunk.
#[derive(Debug, Clone, PartialEq)]
pub struct MultiBlockChangeRecord {
    pub horizontal_position: BlockChangeHorizontalPosition,
    pub y_coordinate: u8,
    pub block_id: VarInt,
}

/// The fields of [`MultiBlockChangeRecord`] in the order they travel.
pub type MultiBlockChangeRecordFields = (BlockChangeHorizontalPosition, u8, VarInt);

impl MultiBlockChangeRecord {
    pub open spec fn fields(&self) -> MultiBlockChangeRecordFields {
        (self.horizontal_position, self.y_coordinate, self.block_id)
    }
}

impl Serialize for MultiBlockChangeRecord {
    /// The fields' encodings, one behind the other.
    open spec fn wire(&self) -> Seq<u8> {
        self.fields().wire()
    }

    fn mc_serialize<S: Serializer>(&self, to: &mut S) -> (res: SerializeResult) {
        let ghost before = to.written();
        self.horizontal_position.mc_serialize(to)?;
        self.y_coordinate.mc_serialize(to)?;
        let res = self.block_id.mc_serialize(to);
        proof {
            broadcast use lemma_concat_assoc;

            lemma_tuple3_wire(&self.fields());
        }
        res
    }
}

impl Deserialize for MultiBlockChangeRecord {
    type Model = <MultiBlockChangeRecordFields as Deserialize>::Model;

    open spec fn model(&self) -> Self::Model {
        self.fields().model()
    }

    /// Each field from what the one before left over.
    open spec fn decoding(data: Seq<u8>) -> Parsed<Self::Model> {
        <MultiBlockChangeRecordFields>::decoding(data)
    }

    proof fn lemma_remainder(data: Seq<u8>) {
        <MultiBlockChangeRecordFields>::lemma_remainder(data);
    }

    fn mc_deserialize(data: &[u8]) -> (res: DeserializeResult<'_, Self>) {
        let Deserialized { value, data: rest } =
            <MultiBlockChangeRecordFields>::mc_deserialize(data)?;
        let (horizontal_position, y_coordinate, block_id) = value;
        Deserialized::ok(MultiBlockChangeRecord {
            horizontal_position, y_coordinate, block_id,
        }, rest)
    }
}

impl ProtocolType for MultiBlockChangeRecord {
    open spec fn legal(&self) -> bool {
        self.fields().legal()
    }

    open spec fn self_delimiting() -> bool {
        <MultiBlockChangeRecordFields>::self_delimiting()
    }

    proof fn lemma_round_trip(&self, rest: Seq<u8>) {
        self.fields().lemma_round_trip(rest);
    }
}

/// A new boss bar.
#[derive(Debug, Clone, PartialEq)]
pub struct BossBarAddSpec {
    pub title: JsonText,
    pub health: Float,
    pub color: BossBarColor,
    pub division: BossBarDivision,
    pub flags: BossBarFlags,
}

/// The fields of [`BossBarAddSpec`] in the order they travel.
pub type BossBarAddSpecFields = (JsonText, Float, BossBarColor, BossBarDivision, BossBarFlags);

impl BossBarAddSpec {
    pub open spec fn fields(&self) -> BossBarAddSpecFields {
        (self.title, self.health, self.color, self.division, self.flags)
    }
}

impl Serialize for BossBarAddSpec {
    /// The fields' encodings, one behind the other.
    open spec fn wire(&self) -> Seq<u8> {
        self.fields().wire()
    }

    fn mc_serialize<S: Serializer>(&self, to: &mut S) -> (res: SerializeResult) {
        let ghost before = to.written();
        self.title.mc_serialize(to)?;
        self.health.mc_serialize(to)?;
        self.color.mc_serialize(to)?;
        self.division.mc_serialize(to)?;
        let res = self.flags.mc_serialize(to);
        proof {
            broadcast use lemma_concat_assoc;

            lemma_tuple5_wire(&self.fields());
        }
        res
    }
}

impl Deserialize for BossBarAddSpec {
    type Model = <BossBarAddSpecFields as Deserialize>::Model;

    open spec fn model(&self) -> Self::Model {
        self.fields().model()
    }

    /// Each field from what the one before left over.
    open spec fn decoding(data: Seq<u8>) -> Parsed<Self::Model> {
        <BossBarAddSpecFields>::decoding(data)
    }

    proof fn lemma_remainder(data: Seq<u8>) {
        <BossBarAddSpecFields>::lemma_remainder(data);
    }

    fn mc_deserialize(data: &[u8]) -> (res: DeserializeResult<'_, Self>) {
        let Deserialized { value, data: rest } = <BossBarAddSpecFields>::mc_deserialize(data)?;
        let (title, health, color, division, flags) = value;
        Deserialized::ok(BossBarAddSpec { title, health, color, division, flags }, rest)
    }
}

impl ProtocolType for BossBarAddSpec {
    open spec fn legal(&self) -> bool {
        self.fields().legal()
    }

    open spec fn self_delimiting() -> bool {
        <BossBarAddSpecFields>::self_delimiting()
    }

    proof fn lemma_round_trip(&self, rest: Seq<u8>) {
        self.fields().lemma_round_trip(rest);
    }
}

/// The new health of a boss bar.
#[derive(Debug, Clone, PartialEq)]
pub struct BossBarUpdateHealthSpec {
    pub health: Float,
}

/// The fields of [`BossBarUpdateHealthSpec`] in the order they travel.
pub type BossBarUpdateHealthSpecFields = Float;

impl BossBarUpdateHealthSpec {
    pub open spec fn fields(&self) -> BossBarUpdateHealthSpecFields {
        self.health
    }
}

impl Serialize for BossBarUpdateHealthSpec {
    /// The fields' encodings, one behind the other.
    open spec fn wire(&self) -> Seq<u8> {
        self.fields().wire()
    }

    fn mc_serialize<S: Serializer>(&self, to: &mut S) -> (res: SerializeResult) {
        self.health.mc_serialize(to)
    }
}

impl Deserialize for BossBarUpdateHealthSpec {
    type Model = <BossBarUpdateHealthSpecFields as Deserialize>::Model;

    open spec fn model(&self) -> Self::Model {
        self.fields().model()
    }

    /// Each field from what the one before left over.
    open spec fn decoding(data: Seq<u8>) -> Parsed<Self::Model> {
        <BossBarUpdateHealthSpecFields>::decoding(data)
    }

    proof fn lemma_remainder(data: Seq<u8>) {
        <BossBarUpdateHealthSpecFields>::lemma_remainder(data);
    }

    fn mc_deserialize(data: &[u8]) -> (res: DeserializeResult<'_, Self>) {
        let Deserialized { value: health, data: rest } =
            <BossBarUpdateHealthSpecFields>::mc_deserialize(data)?;
        Deserialized::ok(BossBarUpdateHealthSpec { health }, rest)
    }
}

impl ProtocolType for BossBarUpdateHealthSpec {
    open spec fn legal(&self) -> bool {
        self.fields().legal()
    }

    open spec fn self_delimiting() -> bool {
        <BossBarUpdateHealthSpecFields>::self_delimiting()
    }

    proof fn lemma_round_trip(&self, rest: Seq<u8>) {
        self.fields().lemma_round_trip(rest);
    }
}

/// The new title of a boss bar.
#[derive(Debug, Clone, PartialEq)]
pub struct BossBarUpdateTitleSpec {
    pub title: String,
}

/// The fields of [`BossBarUpdateTitleSpec`] in the order they travel.
pub type BossBarUpdateTitleSpecFields = String;

impl BossBarUpdateTitleSpec {
    pub open spec fn fields(&self) -> BossBarUpdateTitleSpecFields {
        self.title
    }
}

impl Serialize for BossBarUpdateTitleSpec {
    /// The fields' encodings, one behind the other.
    open spec fn wire(&self) -> Seq<u8> {
        self.fields().wire()
    }

    fn mc_serialize<S: Serializer>(&self, to: &mut S) -> (res: SerializeResult) {
        self.title.mc_serialize(to)
    }
}

impl Deserialize for BossBarUpdateTitleSpec {
    type Model = <BossBarUpdateTitleSpecFields as Deserialize>::Model;

    open spec fn model(&self) -> Self::Model {
        self.fields().model()
    }

    /// Each field from what the one before left over.
    open spec fn decoding(data: Seq<u8>) -> Parsed<Self::Model> {
        <BossBarUpdateTitleSpecFields>::decoding(data)
    }

    proof fn lemma_remainder(data: Seq<u8>) {
        <BossBarUpdateTitleSpecFields>::lemma_remainder(data);
    }

    fn mc_deserialize(data: &[u8]) -> (res: DeserializeResult<'_, Self>) {
        let Deserialized { value: title, data: rest } =
            <BossBarUpdateTitleSpecFields>::mc_deserialize(data)?;
        Deserialized::ok(BossBarUpdateTitleSpec { title }, rest)
    }
}

impl ProtocolType for BossBarUpdateTitleSpec {
    open spec fn legal(&self) -> bool {
        self.fields().legal()
    }

    open spec fn self_delimiting() -> bool {
        <BossBarUpdateTitleSpecFields>::self_delimiting()
    }

    proof fn lemma_round_trip(&self, rest: Seq<u8>) {
        self.fields().lemma_round_trip(rest);
    }
}

/// The new colour and division of a boss bar.
#[derive(Debug, Clone, PartialEq)]
pub struct BossBarUpdateStyleSpec {
    pub color: BossBarColor,
    pub dividers: BossBarDivision,
}

/// The fields of [`BossBarUpdateStyleSpec`] in the order they travel.
pub type BossBarUpdateStyleSpecFields = (BossBarColor, BossBarDivision);

impl BossBarUpdateStyleSpec {
    pub open spec fn fields(&self) -> BossBarUpdateStyleSpecFields {
        (self.color, self.dividers)
    }
}

impl Serialize for BossBarUpdateStyleSpec {
    /// The fields' encodings, one behind the other.
    open spec fn wire(&self) -> Seq<u8> {
        self.fields().wire()
    }

    fn mc_serialize<S: Serializer>(&self, to: &mut S) -> (res: SerializeResult) {
        let ghost before = to.written();
        self.color.mc_serialize(to)?;
        let res = self.dividers.mc_serialize(to);
        proof {
            broadcast use lemma_concat_assoc;

            lemma_tuple2_wire(&self.fields());
        }
        res
    }
}

impl Deserialize for BossBarUpdateStyleSpec {
    type Model = <BossBarUpdateStyleSpecFields as Deserialize>::Model;

    open spec fn model(&self) -> Self::Model {
        self.fields().model()
    }

    /// Each field from what the one before left over.
    open spec fn decoding(data: Seq<u8>) -> Parsed<Self::Model> {
        <BossBarUpdateStyleSpecFields>::decoding(data)
    }

    proof fn lemma_remainder(data: Seq<u8>) {
        <BossBarUpdateStyleSpecFields>::lemma_remainder(data);
    }

    fn mc_deserialize(data: &[u8]) -> (res: DeserializeResult<'_, Self>) {
        let Deserialized { value, data: rest } =
            <BossBarUpdateStyleSpecFields>::mc_deserialize(data)?;
        let (color, dividers) = value;
        Deserialized::ok(BossBarUpdateStyleSpec { color, dividers }, rest)
    }
}

impl ProtocolType for BossBarUpdateStyleSpec {
    open spec fn legal(&self) -> bool {
        self.fields().legal()
    }

    open spec fn self_delimiting() -> bool {
        <BossBarUpdateStyleSpecFields>::self_delimiting()
    }

    proof fn lemma_round_trip(&self, rest: Seq<u8>) {
        self.fields().lemma_round_trip(rest);
    }
}

/// The new flags of a boss bar.
#[derive(Debug, Clone, PartialEq)]
pub struct BossBarUpdateFlagsSpec {
    pub flags: BossBarFlags,
}

/// The fields of [`BossBarUpdateFlagsSpec`] in the order they travel.
pub type BossBarUpdateFlagsSpecFields = BossBarFlags;

impl BossBarUpdateFlagsSpec {
    pub open spec fn fields(&self) -> BossBarUpdateFlagsSpecFields {
        self.flags
    }
}

impl Serialize for BossBarUpdateFlagsSpec {
    /// The fields' encodings, one behind the other.
    open spec fn wire(&self) -> Seq<u8> {
        self.fields().wire()
    }

    fn mc_serialize<S: Serializer>(&self, to: &mut S) -> (res: SerializeResult) {
        self.flags.mc_serialize(to)
    }
}

impl Deserialize for BossBarUpdateFlagsSpec {
    type Model = <BossBarUpdateFlagsSpecFields as Deserialize>::Model;

    open spec fn model(&self) -> Self::Model {
        self.fields().model()
    }

    /// Each field from what the one before left over.
    open spec fn decoding(data: Seq<u8>) -> Parsed<Self::Model> {
        <BossBarUpdateFlagsSpecFields>::decoding(data)
    }

    proof fn lemma_remainder(data: Seq<u8>) {
        <BossBarUpdateFlagsSpecFields>::lemma_remainder(data);
    }

    fn mc_deserialize(data: &[u8]) -> (res: DeserializeResult<'_, Self>) {
        let Deserialized { value: flags, data: rest } =
            <BossBarUpdateFlagsSpecFields>::mc_deserialize(data)?;
        Deserialized::ok(BossBarUpdateFlagsSpec { flags }, rest)
    }
}

impl ProtocolType for BossBarUpdateFlagsSpec {
    open spec fn legal(&self) -> bool {
        self.fields().legal()
    }

    open spec fn self_delimiting() -> bool {
        <BossBarUpdateFlagsSpecFields>::self_delimiting()
    }

    proof fn lemma_round_trip(&self, rest: Seq<u8>) {
        self.fields().lemma_round_trip(rest);
    }
}

/// One way to complete what was typed.
#[derive(Debug, Clone, PartialEq)]
pub struct TabCompleteMatch {
    pub match_: String,
    pub tooltip: Option<JsonText>,
}

/// The fields of [`TabCompleteMatch`] in the order they travel.
pub type TabCompleteMatchFields = (String, Option<JsonText>);

impl TabCompleteMatch {
    pub open spec fn fields(&self) -> TabCompleteMatchFields {
        (self.match_, self.tooltip)
    }
}

impl Serialize for TabCompleteMatch {
    /// The fields' encodings, one behind the other.
    open spec fn wire(&self) -> Seq<u8> {
        self.fields().wire()
    }

    fn mc_serialize<S: Serializer>(&self, to: &mut S) -> (res: SerializeResult) {
        let ghost before = to.written();
        self.match_.mc_serialize(to)?;
        let res = self.tooltip.mc_serialize(to);
        proof {
            broadcast use lemma_concat_assoc;

            lemma_tuple2_wire(&self.fields());
        }
        res
    }
}

impl Deserialize for TabCompleteMatch {
    type Model = <TabCompleteMatchFields as Deserialize>::Model;

    open spec fn model(&self) -> Self::Model {
        self.fields().model()
    }

    /// Each field from what the one before left over.
    open spec fn decoding(data: Seq<u8>) -> Parsed<Self::Model> {
        <TabCompleteMatchFields>::decoding(data)
    }

    proof fn lemma_remainder(data: Seq<u8>) {
        <TabCompleteMatchFields>::lemma_remainder(data);
    }

    fn mc_deserialize(data: &[u8]) -> (res: DeserializeResult<'_, Self>) {
        let Deserialized { value, data: rest } = <TabCompleteMatchFields>::mc_deserialize(data)?;
        let (match_, tooltip) = value;
        Deserialized::ok(TabCompleteMatch { match_, tooltip }, rest)
    }
}

impl ProtocolType for TabCompleteMatch {
    open spec fn legal(&self) -> bool {
        self.fields().legal()
    }

    open spec fn self_delimiting() -> bool {
        <TabCompleteMatchFields>::self_delimiting()
    }

    proof fn lemma_round_trip(&self, rest: Seq<u8>) {
        self.fields().lemma_round_trip(rest);
    }
}

/// One block destroyed by an explosion, relative to its centre.
#[derive(Debug, Clone, PartialEq)]
pub struct ExposionRecord {
    pub x: i8,
    pub y: i8,
    pub z: i8,
}

/// The fields of [`ExposionRecord`] in the order they travel.
pub type ExposionRecordFields = (i8, i8, i8);

impl ExposionRecord {
    pub open spec fn fields(&self) -> ExposionRecordFields {
        (self.x, self.y, self.z)
    }
}

impl Serialize for ExposionRecord {
    /// The fields' encodings, one behind the other.
    open spec fn wire(&self) -> Seq<u8> {
        self.fields().wire()
    }

    fn mc_serialize<S: Serializer>(&self, to: &mut S) -> (res: SerializeResult) {
        let ghost before = to.written();
        self.x.mc_serialize(to)?;
        self.y.mc_serialize(to)?;
        let res = self.z.mc_serialize(to);
        proof {
            broadcast use lemma_concat_assoc;

            lemma_tuple3_wire(&self.fields());
        }
        res
    }
}

impl Deserialize for ExposionRecord {
    type Model = <ExposionRecordFields as Deserialize>::Model;

    open spec fn model(&self) -> Self::Model {
        self.fields().model()
    }

    /// Each field from what the one before left over.
    open spec fn decoding(data: Seq<u8>) -> Parsed<Self::Model> {
        <ExposionRecordFields>::decoding(data)
    }

    proof fn lemma_remainder(data: Seq<u8>) {
        <ExposionRecordFields>::lemma_remainder(data);
    }

    fn mc_deserialize(data: &[u8]) -> (res: DeserializeResult<'_, Self>) {
        let Deserialized { value, data: rest } = <ExposionRecordFields>::mc_deserialize(data)?;
        let (x, y, z) = value;
        Deserialized::ok(ExposionRecord { x, y, z }, rest)
    }
}

impl ProtocolType for ExposionRecord {
    open spec fn legal(&self) -> bool {
        self.fields().legal()
    }

    open spec fn self_delimiting() -> bool {
        <ExposionRecordFields>::self_delimiting()
    }

    proof fn lemma_round_trip(&self, rest: Seq<u8>) {
        self.fields().lemma_round_trip(rest);
    }
}

/// One mark on a map.
#[derive(Debug, Clone, PartialEq)]
pub struct MapIconSpec {
    pub kind: MapIconType,
    pub x: i8,
    pub z: i8,
    pub direction: i8,
    pub display_name: Option<JsonText>,
}

/// The fields of [`MapIconSpec`] in the order they travel.
pub type MapIconSpecFields = (MapIconType, i8, i8, i8, Option<JsonText>);

impl MapIconSpec {
    pub open spec fn fields(&self) -> MapIconSpecFields {
        (self.kind, self.x, self.z, self.direction, self.display_name)
    }
}

impl Serialize for MapIconSpec {
    /// The fields' encodings, one behind the other.
    open spec fn wire(&self) -> Seq<u8> {
        self.fields().wire()
    }

    fn mc_serialize<S: Serializer>(&self, to: &mut S) -> (res: SerializeResult) {
        let ghost before = to.written();
        self.kind.mc_serialize(to)?;
        self.x.mc_serialize(to)?;
        self.z.mc_serialize(to)?;
        self.direction.mc_serialize(to)?;
        let res = self.display_name.mc_serialize(to);
        proof {
            broadcast use lemma_concat_assoc;

            lemma_tuple5_wire(&self.fields());
        }
        res
    }
}

impl Deserialize for MapIconSpec {
    type Model = <MapIconSpecFields as Deserialize>::Model;

    open spec fn model(&self) -> Self::Model {
        self.fields().model()
    }

    /// Each field from what the one before left over.
    open spec fn decoding(data: Seq<u8>) -> Parsed<Self::Model> {
        <MapIconSpecFields>::decoding(data)
    }

    proof fn lemma_remainder(data: Seq<u8>) {
        <MapIconSpecFields>::lemma_remainder(data);
    }

    fn mc_deserialize(data: &[u8]) -> (res: DeserializeResult<'_, Self>) {
        let Deserialized { value, data: rest } = <MapIconSpecFields>::mc_deserialize(data)?;
        let (kind, x, z, direction, display_name) = value;
        Deserialized::ok(MapIconSpec { kind, x, z, direction, display_name }, rest)
    }
}

impl ProtocolType for MapIconSpec {
    open spec fn legal(&self) -> bool {
        self.fields().legal()
    }

    open spec fn self_delimiting() -> bool {
        <MapIconSpecFields>::self_delimiting()
    }

    proof fn lemma_round_trip(&self, rest: Seq<u8>) {
        self.fields().lemma_round_trip(rest);
    }
}

/// A changed rectangle of a map.
#[derive(Debug, Clone, PartialEq)]
pub struct MapColumnsSpec {
    pub columns: u8,
    pub rows: u8,
    pub x: u8,
    pub z: u8,
    pub data: VarIntCountedArray<u8>,
}

/// The fields of [`MapColumnsSpec`] in the order they travel.
pub type MapColumnsSpecFields = (u8, u8, u8, u8, VarIntCountedArray<u8>);

impl MapColumnsSpec {
    pub open spec fn fields(&self) -> MapColumnsSpecFields {
        (self.columns, self.rows, self.x, self.z, self.data)
    }
}

impl Serialize for MapColumnsSpec {
    /// The fields' encodings, one behind the other.
    open spec fn wire(&self) -> Seq<u8> {
        self.fields().wire()
    }

    fn mc_serialize<S: Serializer>(&self, to: &mut S) -> (res: SerializeResult) {
        let ghost before = to.written();
        self.columns.mc_serialize(to)?;
        self.rows.mc_serialize(to)?;
        self.x.mc_serialize(to)?;
        self.z.mc_serialize(to)?;
        let res = self.data.mc_serialize(to);
        proof {
            broadcast use lemma_concat_assoc;

            lemma_tuple5_wire(&self.fields());
        }
        res
    }
}

impl Deserialize for MapColumnsSpec {
    type Model = <MapColumnsSpecFields as Deserialize>::Model;

    open spec fn model(&self) -> Self::Model {
        self.fields().model()
    }

    /// Each field from what the one before left over.
    open spec fn decoding(data: Seq<u8>) -> Parsed<Self::Model> {
        <MapColumnsSpecFields>::decoding(data)
    }

    proof fn lemma_remainder(data: Seq<u8>) {
        <MapColumnsSpecFields>::lemma_remainder(data);
    }

    fn mc_deserialize(data: &[u8]) -> (res: DeserializeResult<'_, Self>) {
        let Deserialized { value, data: rest } = <MapColumnsSpecFields>::mc_deserialize(data)?;
        let (columns, rows, x, z, data) = value;
        Deserialized::ok(MapColumnsSpec { columns, rows, x, z, data }, rest)
    }
}

impl ProtocolType for MapColumnsSpec {
    open spec fn legal(&self) -> bool {
        self.fields().legal()
    }

    open spec fn self_delimiting() -> bool {
        <MapColumnsSpecFields>::self_delimiting()
    }

    proof fn lemma_round_trip(&self, rest: Seq<u8>) {
        self.fields().lemma_round_trip(rest);
    }
}

/// One trade that a villager offers.
#[derive(Debug, Clone, PartialEq)]
pub struct TradeSpec {
    pub input_item_1: Option<Slot>,
    pub output_item: Option<Slot>,
    pub input_item_2: Option<Slot>,
    pub trade_disabled: bool,
    pub trade_uses: i32,
    pub max_trade_uses: i32,
    pub xp: i32,
    pub special_price: i32,
    pub price_multiplier: Float,
    pub demand: i32,
}

/// The fields of [`TradeSpec`] in the order they travel.
pub type TradeSpecFields = (
    Option<Slot>, Option<Slot>, Option<Slot>, bool, i32, i32, i32, i32, Float, i32,
);

impl TradeSpec {
    pub open spec fn fields(&self) -> TradeSpecFields {
        (
            self.input_item_1, self.output_item, self.input_item_2, self.trade_disabled,
            self.trade_uses, self.max_trade_uses, self.xp, self.special_price,
            self.price_multiplier, self.demand,
        )
    }
}

impl Serialize for TradeSpec {
    /// The fields' encodings, one behind the other.
    open spec fn wire(&self) -> Seq<u8> {
        self.fields().wire()
    }

    fn mc_serialize<S: Serializer>(&self, to: &mut S) -> (res: SerializeResult) {
        let ghost before = to.written();
        self.input_item_1.mc_serialize(to)?;
        self.output_item.mc_serialize(to)?;
        self.input_item_2.mc_serialize(to)?;
        self.trade_disabled.mc_serialize(to)?;
        self.trade_uses.mc_serialize(to)?;
        self.max_trade_uses.mc_serialize(to)?;
        self.xp.mc_serialize(to)?;
        self.special_price.mc_serialize(to)?;
        self.price_multiplier.mc_serialize(to)?;
        let res = self.demand.mc_serialize(to);
        proof {
            broadcast use lemma_concat_assoc;

            lemma_tuple10_wire(&self.fields());
        }
        res
    }
}

impl Deserialize for TradeSpec {
    type Model = <TradeSpecFields as Deserialize>::Model;

    open spec fn model(&self) -> Self::Model {
        self.fields().model()
    }

    /// Each field from what the one before left over.
    open spec fn decoding(data: Seq<u8>) -> Parsed<Self::Model> {
        <TradeSpecFields>::decoding(data)
    }

    proof fn lemma_remainder(data: Seq<u8>) {
        <TradeSpecFields>::lemma_remainder(data);
    }

    fn mc_deserialize(data: &[u8]) -> (res: DeserializeResult<'_, Self>) {
        let Deserialized { value, data: rest } = <TradeSpecFields>::mc_deserialize(data)?;
        let (
            input_item_1, output_item, input_item_2, trade_disabled, trade_uses, max_trade_uses,
            xp, special_price, price_multiplier, demand,
        ) = value;
        Deserialized::ok(TradeSpec {
            input_item_1, output_item, input_item_2, trade_disabled, trade_uses, max_trade_uses,
            xp, special_price, price_multiplier, demand,
        }, rest)
    }
}

impl ProtocolType for TradeSpec {
    open spec fn legal(&self) -> bool {
        self.fields().legal()
    }

    open spec fn self_delimiting() -> bool {
        <TradeSpecFields>::self_delimiting()
    }

    proof fn lemma_round_trip(&self, rest: Seq<u8>) {
        self.fields().lemma_round_trip(rest);
    }
}

/// The end of a fight.
#[derive(Debug, Clone, PartialEq)]
pub struct CombatEndSpec {
    pub duration_ticks: VarInt,
    pub entity_id: i32,
}

/// The fields of [`CombatEndSpec`] in the order they travel.
pub type CombatEndSpecFields = (VarInt, i32);

impl CombatEndSpec {
    pub open spec fn fields(&self) -> CombatEndSpecFields {
        (self.duration_ticks, self.entity_id)
    }
}

impl Serialize for CombatEndSpec {
    /// The fields' encodings, one behind the other.
    open spec fn wire(&self) -> Seq<u8> {
        self.fields().wire()
    }

    fn mc_serialize<S: Serializer>(&self, to: &mut S) -> (res: SerializeResult) {
        let ghost before = to.written();
        self.duration_ticks.mc_serialize(to)?;
        let res = self.entity_id.mc_serialize(to);
        proof {
            broadcast use lemma_concat_assoc;

            lemma_tuple2_wire(&self.fields());
        }
        res
    }
}

impl Deserialize for CombatEndSpec {
    type Model = <CombatEndSpecFields as Deserialize>::Model;

    open spec fn model(&self) -> Self::Model {
        self.fields().model()
    }

    /// Each field from what the one before left over.
    open spec fn decoding(data: Seq<u8>) -> Parsed<Self::Model> {
        <CombatEndSpecFields>::decoding(data)
    }

    proof fn lemma_remainder(data: Seq<u8>) {
        <CombatEndSpecFields>::lemma_remainder(data);
    }

    fn mc_deserialize(data: &[u8]) -> (res: DeserializeResult<'_, Self>) {
        let Deserialized { value, data: rest } = <CombatEndSpecFields>::mc_deserialize(data)?;
        let (duration_ticks, entity_id) = value;
        Deserialized::ok(CombatEndSpec { duration_ticks, entity_id }, rest)
    }
}

impl ProtocolType for CombatEndSpec {
    open spec fn legal(&self) -> bool {
        self.fields().legal()
    }

    open spec fn self_delimiting() -> bool {
        <CombatEndSpecFields>::self_delimiting()
    }

    proof fn lemma_round_trip(&self, rest: Seq<u8>) {
        self.fields().lemma_round_trip(rest);
    }
}

/// A death in a fight.
#[derive(Debug, Clone, PartialEq)]
pub struct CombatEntityDeadSpec {
    pub player_id: VarInt,
    pub entity_id: i32,
    pub message: JsonText,
}

/// The fields of [`CombatEntityDeadSpec`] in the order they travel.
pub type CombatEntityDeadSpecFields = (VarInt, i32, JsonText);

impl CombatEntityDeadSpec {
    pub open spec fn fields(&self) -> CombatEntityDeadSpecFields {
        (self.player_id, self.entity_id, self.message)
    }
}

impl Serialize for CombatEntityDeadSpec {
    /// The fields' encodings, one behind the other.
    open spec fn wire(&self) -> Seq<u8> {
        self.fields().wire()
    }

    fn mc_serialize<S: Serializer>(&self, to: &mut S) -> (res: SerializeResult) {
        let ghost before = to.written();
        self.player_id.mc_serialize(to)?;
        self.entity_id.mc_serialize(to)?;
        let res = self.message.mc_serialize(to);
        proof {
            broadcast use lemma_concat_assoc;

            lemma_tuple3_wire(&self.fields());
        }
        res
    }
}

impl Deserialize for CombatEntityDeadSpec {
    type Model = <CombatEntityDeadSpecFields as Deserialize>::Model;

    open spec fn model(&self) -> Self::Model {
        self.fields().model()
    }

    /// Each field from what the one before left over.
    open spec fn decoding(data: Seq<u8>) -> Parsed<Self::Model> {
        <CombatEntityDeadSpecFields>::decoding(data)
    }

    proof fn lemma_remainder(data: Seq<u8>) {
        <CombatEntityDeadSpecFields>::lemma_remainder(data);
    }

    fn mc_deserialize(data: &[u8]) -> (res: DeserializeResult<'_, Self>) {
        let Deserialized { value, data: rest } =
            <CombatEntityDeadSpecFields>::mc_deserialize(data)?;
        let (player_id, entity_id, message) = value;
        Deserialized::ok(CombatEntityDeadSpec { player_id, entity_id, message }, rest)
    }
}

impl ProtocolType for CombatEntityDeadSpec {
    open spec fn legal(&self) -> bool {
        self.fields().legal()
    }

    open spec fn self_delimiting() -> bool {
        <CombatEntityDeadSpecFields>::self_delimiting()
    }

    proof fn lemma_round_trip(&self, rest: Seq<u8>) {
        self.fields().lemma_round_trip(rest);
    }
}

/// A player who joins the list of players.
#[derive(Debug, Clone, PartialEq)]
pub struct PlayerAddActionSpec {
    pub name: String,
    pub properties: VarIntCountedArray<PlayerAddProperty>,
    pub game_mode: GameMode,
    pub ping_ms: VarInt,
    pub display_name: Option<JsonText>,
}

/// The fields of [`PlayerAddActionSpec`] in the order they travel.
pub type PlayerAddActionSpecFields = (
    String, VarIntCountedArray<PlayerAddProperty>, GameMode, VarInt, Option<JsonText>,
);

impl PlayerAddActionSpec {
    pub open spec fn fields(&self) -> PlayerAddActionSpecFields {
        (self.name, self.properties, self.game_mode, self.ping_ms, self.display_name)
    }
}

impl Serialize for PlayerAddActionSpec {
    /// The fields' encodings, one behind the other.
    open spec fn wire(&self) -> Seq<u8> {
        self.fields().wire()
    }

    fn mc_serialize<S: Serializer>(&self, to: &mut S) -> (res: SerializeResult) {
        let ghost before = to.written();
        self.name.mc_serialize(to)?;
        self.properties.mc_serialize(to)?;
        self.game_mode.mc_serialize(to)?;
        self.ping_ms.mc_serialize(to)?;
        let res = self.display_name.mc_serialize(to);
        proof {
            broadcast use lemma_concat_assoc;

            lemma_tuple5_wire(&self.fields());
        }
        res
    }
}

impl Deserialize for PlayerAddActionSpec {
    type Model = <PlayerAddActionSpecFields as Deserialize>::Model;

    open spec fn model(&self) -> Self::Model {
        self.fields().model()
    }

    /// Each field from what the one before left over.
    open spec fn decoding(data: Seq<u8>) -> Parsed<Self::Model> {
        <PlayerAddActionSpecFields>::decoding(data)
    }

    proof fn lemma_remainder(data: Seq<u8>) {
        <PlayerAddActionSpecFields>::lemma_remainder(data);
    }

    fn mc_deserialize(data: &[u8]) -> (res: DeserializeResult<'_, Self>) {
        let Deserialized { value, data: rest } = <PlayerAddActionSpecFields>::mc_deserialize(data)?;
        let (name, properties, game_mode, ping_ms, display_name) = value;
        Deserialized::ok(PlayerAddActionSpec {
            name, properties, game_mode, ping_ms, display_name,
        }, rest)
    }
}

impl ProtocolType for PlayerAddActionSpec {
    open spec fn legal(&self) -> bool {
        self.fields().legal()
    }

    open spec fn self_delimiting() -> bool {
        <PlayerAddActionSpecFields>::self_delimiting()
    }

    proof fn lemma_round_trip(&self, rest: Seq<u8>) {
        self.fields().lemma_round_trip(rest);
    }
}

/// A property of a player, with its signature where it is signed.
#[derive(Debug, Clone, PartialEq)]
pub struct PlayerAddProperty {
    pub name: String,
    pub value: String,
    pub signature: Option<String>,
}

/// The fields of [`PlayerAddProperty`] in the order they travel.
pub type PlayerAddPropertyFields = (String, String, Option<String>);

impl PlayerAddProperty {
    pub open spec fn fields(&self) -> PlayerAddPropertyFields {
        (self.name, self.value, self.signature)
    }
}

impl Serialize for PlayerAddProperty {
    /// The fields' encodings, one behind the other.
    open spec fn wire(&self) -> Seq<u8> {
        self.fields().wire()
    }

    fn mc_serialize<S: Serializer>(&self, to: &mut S) -> (res: SerializeResult) {
        let ghost before = to.written();
        self.name.mc_serialize(to)?;
        self.value.mc_serialize(to)?;
        let res = self.signature.mc_serialize(to);
        proof {
            broadcast use lemma_concat_assoc;

            lemma_tuple3_wire(&self.fields());
        }
        res
    }
}

impl Deserialize for PlayerAddProperty {
    type Model = <PlayerAddPropertyFields as Deserialize>::Model;

    open spec fn model(&self) -> Self::Model {
        self.fields().model()
    }

    /// Each field from what the one before left over.
    open spec fn decoding(data: Seq<u8>) -> Parsed<Self::Model> {
        <PlayerAddPropertyFields>::decoding(data)
    }

    proof fn lemma_remainder(data: Seq<u8>) {
        <PlayerAddPropertyFields>::lemma_remainder(data);
    }

    fn mc_deserialize(data: &[u8]) -> (res: DeserializeResult<'_, Self>) {
        let Deserialized { value, data: rest } = <PlayerAddPropertyFields>::mc_deserialize(data)?;
        let (name, value, signature) = value;
        Deserialized::ok(PlayerAddProperty { name, value, signature }, rest)
    }
}

impl ProtocolType for PlayerAddProperty {
    open spec fn legal(&self) -> bool {
        self.fields().legal()
    }

    open spec fn self_delimiting() -> bool {
        <PlayerAddPropertyFields>::self_delimiting()
    }

    proof fn lemma_round_trip(&self, rest: Seq<u8>) {
        self.fields().lemma_round_trip(rest);
    }
}

/// An entity to face, and the part of it.
#[derive(Debug, Clone, PartialEq)]
pub struct FacePlayerEntityTarget {
    pub entity_id: VarInt,
    pub kind: FacePlayerKind,
}

/// The fields of [`FacePlayerEntityTarget`] in the order they travel.
pub type FacePlayerEntityTargetFields = (VarInt, FacePlayerKind);

impl FacePlayerEntityTarget {
    pub open spec fn fields(&self) -> FacePlayerEntityTargetFields {
        (self.entity_id, self.kind)
    }
}

impl Serialize for FacePlayerEntityTarget {
    /// The fields' encodings, one behind the other.
    open spec fn wire(&self) -> Seq<u8> {
        self.fields().wire()
    }

    fn mc_serialize<S: Serializer>(&self, to: &mut S) -> (res: SerializeResult) {
        let ghost before = to.written();
        self.entity_id.mc_serialize(to)?;
        let res = self.kind.mc_serialize(to);
        proof {
            broadcast use lemma_concat_assoc;

            lemma_tuple2_wire(&self.fields());
        }
        res
    }
}

impl Deserialize for FacePlayerEntityTarget {
    type Model = <FacePlayerEntityTargetFields as Deserialize>::Model;

    open spec fn model(&self) -> Self::Model {
        self.fields().model()
    }

    /// Each field from what the one before left over.
    open spec fn decoding(data: Seq<u8>) -> Parsed<Self::Model> {
        <FacePlayerEntityTargetFields>::decoding(data)
    }

    proof fn lemma_remainder(data: Seq<u8>) {
        <FacePlayerEntityTargetFields>::lemma_remainder(data);
    }

    fn mc_deserialize(data: &[u8]) -> (res: DeserializeResult<'_, Self>) {
        let Deserialized { value, data: rest } =
            <FacePlayerEntityTargetFields>::mc_deserialize(data)?;
        let (entity_id, kind) = value;
        Deserialized::ok(FacePlayerEntityTarget { entity_id, kind }, rest)
    }
}

impl ProtocolType for FacePlayerEntityTarget {
    open spec fn legal(&self) -> bool {
        self.fields().legal()
    }

    open spec fn self_delimiting() -> bool {
        <FacePlayerEntityTargetFields>::self_delimiting()
    }

    proof fn lemma_round_trip(&self, rest: Seq<u8>) {
        self.fields().lemma_round_trip(rest);
    }
}

/// The new size of the border of the world.
#[derive(Debug, Clone, PartialEq)]
pub struct WorldBorderSetSizeSpec {
    pub diameter: Double,
}

/// The fields of [`WorldBorderSetSizeSpec`] in the order they travel.
pub type WorldBorderSetSizeSpecFields = Double;

impl WorldBorderSetSizeSpec {
    pub open spec fn fields(&self) -> WorldBorderSetSizeSpecFields {
        self.diameter
    }
}

impl Serialize for WorldBorderSetSizeSpec {
    /// The fields' encodings, one behind the other.
    open spec fn wire(&self) -> Seq<u8> {
        self.fields().wire()
    }

    fn mc_serialize<S: Serializer>(&self, to: &mut S) -> (res: SerializeResult) {
        self.diameter.mc_serialize(to)
    }
}

impl Deserialize for WorldBorderSetSizeSpec {
    type Model = <WorldBorderSetSizeSpecFields as Deserialize>::Model;

    open spec fn model(&self) -> Self::Model {
        self.fields().model()
    }

    /// Each field from what the one before left over.
    open spec fn decoding(data: Seq<u8>) -> Parsed<Self::Model> {
        <WorldBorderSetSizeSpecFields>::decoding(data)
    }

    proof fn lemma_remainder(data: Seq<u8>) {
        <WorldBorderSetSizeSpecFields>::lemma_remainder(data);
    }

    fn mc_deserialize(data: &[u8]) -> (res: DeserializeResult<'_, Self>) {
        let Deserialized { value: diameter, data: rest } =
            <WorldBorderSetSizeSpecFields>::mc_deserialize(data)?;
        Deserialized::ok(WorldBorderSetSizeSpec { diameter }, rest)
    }
}

impl ProtocolType for WorldBorderSetSizeSpec {
    open spec fn legal(&self) -> bool {
        self.fields().legal()
    }

    open spec fn self_delimiting() -> bool {
        <WorldBorderSetSizeSpecFields>::self_delimiting()
    }

    proof fn lemma_round_trip(&self, rest: Seq<u8>) {
        self.fields().lemma_round_trip(rest);
    }
}

/// A size that the border of the world grows or shrinks to.
#[derive(Debug, Clone, PartialEq)]
pub struct WorldBorderLerpSizeSpec {
    pub old_diameter: Double,
    pub new_diameter: Double,
    pub speed: VarLong,
}

/// The fields of [`WorldBorderLerpSizeSpec`] in the order they travel.
pub type WorldBorderLerpSizeSpecFields = (Double, Double, VarLong);

impl WorldBorderLerpSizeSpec {
    pub open spec fn fields(&self) -> WorldBorderLerpSizeSpecFields {
        (self.old_diameter, self.new_diameter, self.speed)
    }
}

impl Serialize for WorldBorderLerpSizeSpec {
    /// The fields' encodings, one behind the other.
    open spec fn wire(&self) -> Seq<u8> {
        self.fields().wire()
    }

    fn mc_serialize<S: Serializer>(&self, to: &mut S) -> (res: SerializeResult) {
        let ghost before = to.written();
        self.old_diameter.mc_serialize(to)?;
        self.new_diameter.mc_serialize(to)?;
        let res = self.speed.mc_serialize(to);
        proof {
            broadcast use lemma_concat_assoc;

            lemma_tuple3_wire(&self.fields());
        }
        res
    }
}

impl Deserialize for WorldBorderLerpSizeSpec {
    type Model = <WorldBorderLerpSizeSpecFields as Deserialize>::Model;

    open spec fn model(&self) -> Self::Model {
        self.fields().model()
    }

    /// Each field from what the one before left over.
    open spec fn decoding(data: Seq<u8>) -> Parsed<Self::Model> {
        <WorldBorderLerpSizeSpecFields>::decoding(data)
    }

    proof fn lemma_remainder(data: Seq<u8>) {
        <WorldBorderLerpSizeSpecFields>::lemma_remainder(data);
    }

    fn mc_deserialize(data: &[u8]) -> (res: DeserializeResult<'_, Self>) {
        let Deserialized { value, data: rest } =
            <WorldBorderLerpSizeSpecFields>::mc_deserialize(data)?;
        let (old_diameter, new_diameter, speed) = value;
        Deserialized::ok(WorldBorderLerpSizeSpec { old_diameter, new_diameter, speed }, rest)
    }
}

impl ProtocolType for WorldBorderLerpSizeSpec {
    open spec fn legal(&self) -> bool {
        self.fields().legal()
    }

    open spec fn self_delimiting() -> bool {
        <WorldBorderLerpSizeSpecFields>::self_delimiting()
    }

    proof fn lemma_round_trip(&self, rest: Seq<u8>) {
        self.fields().lemma_round_trip(rest);
    }
}

/// The new centre of the border of the world.
#[derive(Debug, Clone, PartialEq)]
pub struct WorldBorderSetCenterSpec {
    pub x: Double,
    pub z: Double,
}

/// The fields of [`WorldBorderSetCenterSpec`] in the order they travel.
pub type WorldBorderSetCenterSpecFields = (Double, Double);

impl WorldBorderSetCenterSpec {
    pub open spec fn fields(&self) -> WorldBorderSetCenterSpecFields {
        (self.x, self.z)
    }
}

impl Serialize for WorldBorderSetCenterSpec {
    /// The fields' encodings, one behind the other.
    open spec fn wire(&self) -> Seq<u8> {
        self.fields().wire()
    }

    fn mc_serialize<S: Serializer>(&self, to: &mut S) -> (res: SerializeResult) {
        let ghost before = to.written();
        self.x.mc_serialize(to)?;
        let res = self.z.mc_serialize(to);
        proof {
            broadcast use lemma_concat_assoc;

            lemma_tuple2_wire(&self.fields());
        }
        res
    }
}

impl Deserialize for WorldBorderSetCenterSpec {
    type Model = <WorldBorderSetCenterSpecFields as Deserialize>::Model;

    open spec fn model(&self) -> Self::Model {
        self.fields().model()
    }

    /// Each field from what the one before left over.
    open spec fn decoding(data: Seq<u8>) -> Parsed<Self::Model> {
        <WorldBorderSetCenterSpecFields>::decoding(data)
    }

    proof fn lemma_remainder(data: Seq<u8>) {
        <WorldBorderSetCenterSpecFields>::lemma_remainder(data);
    }

    fn mc_deserialize(data: &[u8]) -> (res: DeserializeResult<'_, Self>) {
        let Deserialized { value, data: rest } =
            <WorldBorderSetCenterSpecFields>::mc_deserialize(data)?;
        let (x, z) = value;
        Deserialized::ok(WorldBorderSetCenterSpec { x, z }, rest)
    }
}

impl ProtocolType for WorldBorderSetCenterSpec {
    open spec fn legal(&self) -> bool {
        self.fields().legal()
    }

    open spec fn self_delimiting() -> bool {
        <WorldBorderSetCenterSpecFields>::self_delimiting()
    }

    proof fn lemma_round_trip(&self, rest: Seq<u8>) {
        self.fields().lemma_round_trip(rest);
    }
}

/// Everything about the border of the world at once.
#[derive(Debug, Clone, PartialEq)]
pub struct WorldBorderInitiaializeSpec {
    pub x: Double,
    pub z: Double,
    pub old_diameter: Double,
    pub new_diameter: Double,
    pub speed: VarLong,
    pub portal_teleport_boundary: VarLong,
    pub warning_time: VarInt,
    pub warning_blocks: VarInt,
}

/// The fields of [`WorldBorderInitiaializeSpec`] in the order they travel.
pub type WorldBorderInitiaializeSpecFields = (
    Double, Double, Double, Double, VarLong, VarLong, VarInt, VarInt,
);

impl WorldBorderInitiaializeSpec {
    pub open spec fn fields(&self) -> WorldBorderInitiaializeSpecFields {
        (
            self.x, self.z, self.old_diameter, self.new_diameter, self.speed,
            self.portal_teleport_boundary, self.warning_time, self.warning_blocks,
        )
    }
}

impl Serialize for WorldBorderInitiaializeSpec {
    /// The fields' encodings, one behind the other.
    open spec fn wire(&self) -> Seq<u8> {
        self.fields().wire()
    }

    fn mc_serialize<S: Serializer>(&self, to: &mut S) -> (res: SerializeResult) {
        let ghost before = to.written();
        self.x.mc_serialize(to)?;
        self.z.mc_serialize(to)?;
        self.old_diameter.mc_serialize(to)?;
        self.new_diameter.mc_serialize(to)?;
        self.speed.mc_serialize(to)?;
        self.portal_teleport_boundary.mc_serialize(to)?;
        self.warning_time.mc_serialize(to)?;
        let res = self.warning_blocks.mc_serialize(to);
        proof {
            broadcast use lemma_concat_assoc;

            lemma_tuple8_wire(&self.fields());
        }
        res
    }
}

impl Deserialize for WorldBorderInitiaializeSpec {
    type Model = <WorldBorderInitiaializeSpecFields as Deserialize>::Model;

    open spec fn model(&self) -> Self::Model {
        self.fields().model()
    }

    /// Each field from what the one before left over.
    open spec fn decoding(data: Seq<u8>) -> Parsed<Self::Model> {
        <WorldBorderInitiaializeSpecFields>::decoding(data)
    }

    proof fn lemma_remainder(data: Seq<u8>) {
        <WorldBorderInitiaializeSpecFields>::lemma_remainder(data);
    }

    fn mc_deserialize(data: &[u8]) -> (res: DeserializeResult<'_, Self>) {
        let Deserialized { value, data: rest } =
            <WorldBorderInitiaializeSpecFields>::mc_deserialize(data)?;
        let (
            x, z, old_diameter, new_diameter, speed, portal_teleport_boundary, warning_time,
            warning_blocks,
        ) = value;
        Deserialized::ok(WorldBorderInitiaializeSpec {
            x, z, old_diameter, new_diameter, speed, portal_teleport_boundary, warning_time,
            warning_blocks,
        }, rest)
    }
}

impl ProtocolType for WorldBorderInitiaializeSpec {
    open spec fn legal(&self) -> bool {
        self.fields().legal()
    }

    open spec fn self_delimiting() -> bool {
        <WorldBorderInitiaializeSpecFields>::self_delimiting()
    }

    proof fn lemma_round_trip(&self, rest: Seq<u8>) {
        self.fields().lemma_round_trip(rest);
    }
}

/// How long before the border arrives its warning is shown.
#[derive(Debug, Clone, PartialEq)]
pub struct WorldBorderWarningTimeSpec {
    pub warning_time: VarInt,
}

/// The fields of [`WorldBorderWarningTimeSpec`] in the order they travel.
pub type WorldBorderWarningTimeSpecFields = VarInt;

impl WorldBorderWarningTimeSpec {
    pub open spec fn fields(&self) -> WorldBorderWarningTimeSpecFields {
        self.warning_time
    }
}

impl Serialize for WorldBorderWarningTimeSpec {
    /// The fields' encodings, one behind the other.
    open spec fn wire(&self) -> Seq<u8> {
        self.fields().wire()
    }

    fn mc_serialize<S: Serializer>(&self, to: &mut S) -> (res: SerializeResult) {
        self.warning_time.mc_serialize(to)
    }
}

impl Deserialize for WorldBorderWarningTimeSpec {
    type Model = <WorldBorderWarningTimeSpecFields as Deserialize>::Model;

    open spec fn model(&self) -> Self::Model {
        self.fields().model()
    }

    /// Each field from what the one before left over.
    open spec fn decoding(data: Seq<u8>) -> Parsed<Self::Model> {
        <WorldBorderWarningTimeSpecFields>::decoding(data)
    }

    proof fn lemma_remainder(data: Seq<u8>) {
        <WorldBorderWarningTimeSpecFields>::lemma_remainder(data);
    }

    fn mc_deserialize(data: &[u8]) -> (res: DeserializeResult<'_, Self>) {
        let Deserialized { value: warning_time, data: rest } =
            <WorldBorderWarningTimeSpecFields>::mc_deserialize(data)?;
        Deserialized::ok(WorldBorderWarningTimeSpec { warning_time }, rest)
    }
}

impl ProtocolType for WorldBorderWarningTimeSpec {
    open spec fn legal(&self) -> bool {
        self.fields().legal()
    }

    open spec fn self_delimiting() -> bool {
        <WorldBorderWarningTimeSpecFields>::self_delimiting()
    }

    proof fn lemma_round_trip(&self, rest: Seq<u8>) {
        self.fields().lemma_round_trip(rest);
    }
}

/// How near the border its warning is shown.
#[derive(Debug, Clone, PartialEq)]
pub struct WorldBorderWarningBlocksSpec {
    pub warning_blocks: VarInt,
}

/// The fields of [`WorldBorderWarningBlocksSpec`] in the order they travel.
pub type WorldBorderWarningBlocksSpecFields = VarInt;

impl WorldBorderWarningBlocksSpec {
    pub open spec fn fields(&self) -> WorldBorderWarningBlocksSpecFields {
        self.warning_blocks
    }
}

impl Serialize for WorldBorderWarningBlocksSpec {
    /// The fields' encodings, one behind the other.
    open spec fn wire(&self) -> Seq<u8> {
        self.fields().wire()
    }

    fn mc_serialize<S: Serializer>(&self, to: &mut S) -> (res: SerializeResult) {
        self.warning_blocks.mc_serialize(to)
    }
}

impl Deserialize for WorldBorderWarningBlocksSpec {
    type Model = <WorldBorderWarningBlocksSpecFields as Deserialize>::Model;

    open spec fn model(&self) -> Self::Model {
        self.fields().model()
    }

    /// Each field from what the one before left over.
    open spec fn decoding(data: Seq<u8>) -> Parsed<Self::Model> {
        <WorldBorderWarningBlocksSpecFields>::decoding(data)
    }

    proof fn lemma_remainder(data: Seq<u8>) {
        <WorldBorderWarningBlocksSpecFields>::lemma_remainder(data);
    }

    fn mc_deserialize(data: &[u8]) -> (res: DeserializeResult<'_, Self>) {
        let Deserialized { value: warning_blocks, data: rest } =
            <WorldBorderWarningBlocksSpecFields>::mc_deserialize(data)?;
        Deserialized::ok(WorldBorderWarningBlocksSpec { warning_blocks }, rest)
    }
}

impl ProtocolType for WorldBorderWarningBlocksSpec {
    open spec fn legal(&self) -> bool {
        self.fields().legal()
    }

    open spec fn self_delimiting() -> bool {
        <WorldBorderWarningBlocksSpecFields>::self_delimiting()
    }

    proof fn lemma_round_trip(&self, rest: Seq<u8>) {
        self.fields().lemma_round_trip(rest);
    }
}

/// The text and the kind of a scoreboard objective.
#[derive(Debug, Clone, PartialEq)]
pub struct ScoreboardObjectiveSpec {
    pub text: JsonText,
    pub kind: ScoreboardObjectiveKind,
}

/// The fields of [`ScoreboardObjectiveSpec`] in the order they travel.
pub type ScoreboardObjectiveSpecFields = (JsonText, ScoreboardObjectiveKind);

impl ScoreboardObjectiveSpec {
    pub open spec fn fields(&self) -> ScoreboardObjectiveSpecFields {
        (self.text, self.kind)
    }
}

impl Serialize for ScoreboardObjectiveSpec {
    /// The fields' encodings, one behind the other.
    open spec fn wire(&self) -> Seq<u8> {
        self.fields().wire()
    }

    fn mc_serialize<S: Serializer>(&self, to: &mut S) -> (res: SerializeResult) {
        let ghost before = to.written();
        self.text.mc_serialize(to)?;
        let res = self.kind.mc_serialize(to);
        proof {
            broadcast use lemma_concat_assoc;

            lemma_tuple2_wire(&self.fields());
        }
        res
    }
}

impl Deserialize for ScoreboardObjectiveSpec {
    type Model = <ScoreboardObjectiveSpecFields as Deserialize>::Model;

    open spec fn model(&self) -> Self::Model {
        self.fields().model()
    }

    /// Each field from what the one before left over.
    open spec fn decoding(data: Seq<u8>) -> Parsed<Self::Model> {
        <ScoreboardObjectiveSpecFields>::decoding(data)
    }

    proof fn lemma_remainder(data: Seq<u8>) {
        <ScoreboardObjectiveSpecFields>::lemma_remainder(data);
    }

    fn mc_deserialize(data: &[u8]) -> (res: DeserializeResult<'_, Self>) {
        let Deserialized { value, data: rest } =
            <ScoreboardObjectiveSpecFields>::mc_deserialize(data)?;
        let (text, kind) = value;
        Deserialized::ok(ScoreboardObjectiveSpec { text, kind }, rest)
    }
}

impl ProtocolType for ScoreboardObjectiveSpec {
    open spec fn legal(&self) -> bool {
        self.fields().legal()
    }

    open spec fn self_delimiting() -> bool {
        <ScoreboardObjectiveSpecFields>::self_delimiting()
    }

    proof fn lemma_round_trip(&self, rest: Seq<u8>) {
        self.fields().lemma_round_trip(rest);
    }
}

/// A property of an entity, with what modifies it.
#[derive(Debug, Clone, PartialEq)]
pub struct EntityPropertySpec {
    pub key: String,
    pub value: Double,
    pub modifiers: VarIntCountedArray<EntityPropertyModifierSpec>,
}

/// The fields of [`EntityPropertySpec`] in the order they travel.
pub type EntityPropertySpecFields = (
    String, Double, VarIntCountedArray<EntityPropertyModifierSpec>,
);

impl EntityPropertySpec {
    pub open spec fn fields(&self) -> EntityPropertySpecFields {
        (self.key, self.value, self.modifiers)
    }
}

impl Serialize for EntityPropertySpec {
    /// The fields' encodings, one behind the other.
    open spec fn wire(&self) -> Seq<u8> {
        self.fields().wire()
    }

    fn mc_serialize<S: Serializer>(&self, to: &mut S) -> (res: SerializeResult) {
        let ghost before = to.written();
        self.key.mc_serialize(to)?;
        self.value.mc_serialize(to)?;
        let res = self.modifiers.mc_serialize(to);
        proof {
            broadcast use lemma_concat_assoc;

            lemma_tuple3_wire(&self.fields());
        }
        res
    }
}

impl Deserialize for EntityPropertySpec {
    type Model = <EntityPropertySpecFields as Deserialize>::Model;

    open spec fn model(&self) -> Self::Model {
        self.fields().model()
    }

    /// Each field from what the one before left over.
    open spec fn decoding(data: Seq<u8>) -> Parsed<Self::Model> {
        <EntityPropertySpecFields>::decoding(data)
    }

    proof fn lemma_remainder(data: Seq<u8>) {
        <EntityPropertySpecFields>::lemma_remainder(data);
    }

    fn mc_deserialize(data: &[u8]) -> (res: DeserializeResult<'_, Self>) {
        let Deserialized { value, data: rest } = <EntityPropertySpecFields>::mc_deserialize(data)?;
        let (key, value, modifiers) = value;
        Deserialized::ok(EntityPropertySpec { key, value, modifiers }, rest)
    }
}

impl ProtocolType for EntityPropertySpec {
    open spec fn legal(&self) -> bool {
        self.fields().legal()
    }

    open spec fn self_delimiting() -> bool {
        <EntityPropertySpecFields>::self_delimiting()
    }

    proof fn lemma_round_trip(&self, rest: Seq<u8>) {
        self.fields().lemma_round_trip(rest);
    }
}

/// One modifier of a property.
#[derive(Debug, Clone, PartialEq)]
pub struct EntityPropertyModifierSpec {
    pub uuid: UUID4,
    pub amount: Double,
    pub operation: EntityPropertyModifierOperation,
}

/// The fields of [`EntityPropertyModifierSpec`] in the order they travel.
pub type EntityPropertyModifierSpecFields = (UUID4, Double, EntityPropertyModifierOperation);

impl EntityPropertyModifierSpec {
    pub open spec fn fields(&self) -> EntityPropertyModifierSpecFields {
        (self.uuid, self.amount, self.operation)
    }
}

impl Serialize for EntityPropertyModifierSpec {
    /// The fields' encodings, one behind the other.
    open spec fn wire(&self) -> Seq<u8> {
        self.fields().wire()
    }

    fn mc_serialize<S: Serializer>(&self, to: &mut S) -> (res: SerializeResult) {
        let ghost before = to.written();
        self.uuid.mc_serialize(to)?;
        self.amount.mc_serialize(to)?;
        let res = self.operation.mc_serialize(to);
        proof {
            broadcast use lemma_concat_assoc;

            lemma_tuple3_wire(&self.fields());
        }
        res
    }
}

impl Deserialize for EntityPropertyModifierSpec {
    type Model = <EntityPropertyModifierSpecFields as Deserialize>::Model;

    open spec fn model(&self) -> Self::Model {
        self.fields().model()
    }

    /// Each field from what the one before left over.
    open spec fn decoding(data: Seq<u8>) -> Parsed<Self::Model> {
        <EntityPropertyModifierSpecFields>::decoding(data)
    }

    proof fn lemma_remainder(data: Seq<u8>) {
        <EntityPropertyModifierSpecFields>::lemma_remainder(data);
    }

    fn mc_deserialize(data: &[u8]) -> (res: DeserializeResult<'_, Self>) {
        let Deserialized { value, data: rest } =
            <EntityPropertyModifierSpecFields>::mc_deserialize(data)?;
        let (uuid, amount, operation) = value;
        Deserialized::ok(EntityPropertyModifierSpec { uuid, amount, operation }, rest)
    }
}

impl ProtocolType for EntityPropertyModifierSpec {
    open spec fn legal(&self) -> bool {
        self.fields().legal()
    }

    open spec fn self_delimiting() -> bool {
        <EntityPropertyModifierSpecFields>::self_delimiting()
    }

    proof fn lemma_round_trip(&self, rest: Seq<u8>) {
        self.fields().lemma_round_trip(rest);
    }
}

/// A tag and the things that carry it.
#[derive(Debug, Clone, PartialEq)]
pub struct TagSpec {
    pub name: String,
    pub entries: VarIntCountedArray<VarInt>,
}

/// The fields of [`TagSpec`] in the order they travel.
pub type TagSpecFields = (String, VarIntCountedArray<VarInt>);

impl TagSpec {
    pub open spec fn fields(&self) -> TagSpecFields {
        (self.name, self.entries)
    }
}

impl Serialize for TagSpec {
    /// The fields' encodings, one behind the other.
    open spec fn wire(&self) -> Seq<u8> {
        self.fields().wire()
    }

    fn mc_serialize<S: Serializer>(&self, to: &mut S) -> (res: SerializeResult) {
        let ghost before = to.written();
        self.name.mc_serialize(to)?;
        let res = self.entries.mc_serialize(to);
        proof {
            broadcast use lemma_concat_assoc;

            lemma_tuple2_wire(&self.fields());
        }
        res
    }
}

impl Deserialize for TagSpec {
    type Model = <TagSpecFields as Deserialize>::Model;

    open spec fn model(&self) -> Self::Model {
        self.fields().model()
    }

    /// Each field from what the one before left over.
    open spec fn decoding(data: Seq<u8>) -> Parsed<Self::Model> {
        <TagSpecFields>::decoding(data)
    }

    proof fn lemma_remainder(data: Seq<u8>) {
        <TagSpecFields>::lemma_remainder(data);
    }

    fn mc_deserialize(data: &[u8]) -> (res: DeserializeResult<'_, Self>) {
        let Deserialized { value, data: rest } = <TagSpecFields>::mc_deserialize(data)?;
        let (name, entries) = value;
        Deserialized::ok(TagSpec { name, entries }, rest)
    }
}

impl ProtocolType for TagSpec {
    open spec fn legal(&self) -> bool {
        self.fields().legal()
    }

    open spec fn self_delimiting() -> bool {
        <TagSpecFields>::self_delimiting()
    }

    proof fn lemma_round_trip(&self, rest: Seq<u8>) {
        self.fields().lemma_round_trip(rest);
    }
}

/// The point of an entity that was touched, and the hand that touched it.
#[derive(Debug, Clone, PartialEq)]
pub struct InteractAtSpec {
    pub target_x: Float,
    pub target_y: Float,
    pub target_z: Float,
    pub hand: Hand,
}

/// The fields of [`InteractAtSpec`] in the order they travel.
pub type InteractAtSpecFields = (Float, Float, Float, Hand);

impl InteractAtSpec {
    pub open spec fn fields(&self) -> InteractAtSpecFields {
        (self.target_x, self.target_y, self.target_z, self.hand)
    }
}

impl Serialize for InteractAtSpec {
    /// The fields' encodings, one behind the other.
    open spec fn wire(&self) -> Seq<u8> {
        self.fields().wire()
    }

    fn mc_serialize<S: Serializer>(&self, to: &mut S) -> (res: SerializeResult) {
        let ghost before = to.written();
        self.target_x.mc_serialize(to)?;
        self.target_y.mc_serialize(to)?;
        self.target_z.mc_serialize(to)?;
        let res = self.hand.mc_serialize(to);
        proof {
            broadcast use lemma_concat_assoc;

            lemma_tuple4_wire(&self.fields());
        }
        res
    }
}

impl Deserialize for InteractAtSpec {
    type Model = <InteractAtSpecFields as Deserialize>::Model;

    open spec fn model(&self) -> Self::Model {
        self.fields().model()
    }

    /// Each field from what the one before left over.
    open spec fn decoding(data: Seq<u8>) -> Parsed<Self::Model> {
        <InteractAtSpecFields>::decoding(data)
    }

    proof fn lemma_remainder(data: Seq<u8>) {
        <InteractAtSpecFields>::lemma_remainder(data);
    }

    fn mc_deserialize(data: &[u8]) -> (res: DeserializeResult<'_, Self>) {
        let Deserialized { value, data: rest } = <InteractAtSpecFields>::mc_deserialize(data)?;
        let (target_x, target_y, target_z, hand) = value;
        Deserialized::ok(InteractAtSpec { target_x, target_y, target_z, hand }, rest)
    }
}

impl ProtocolType for InteractAtSpec {
    open spec fn legal(&self) -> bool {
        self.fields().legal()
    }

    open spec fn self_delimiting() -> bool {
        <InteractAtSpecFields>::self_delimiting()
    }

    proof fn lemma_round_trip(&self, rest: Seq<u8>) {
        self.fields().lemma_round_trip(rest);
    }
}

/// The items that will each do as one ingredient.
#[derive(Debug, Clone, PartialEq)]
pub struct RecipeIngredient {
    pub items: VarIntCountedArray<Option<Slot>>,
}

/// The fields of [`RecipeIngredient`] in the order they travel.
pub type RecipeIngredientFields = VarIntCountedArray<Option<Slot>>;

impl RecipeIngredient {
    pub open spec fn fields(&self) -> RecipeIngredientFields {
        self.items
    }
}

impl Serialize for RecipeIngredient {
    /// The fields' encodings, one behind the other.
    open spec fn wire(&self) -> Seq<u8> {
        self.fields().wire()
    }

    fn mc_serialize<S: Serializer>(&self, to: &mut S) -> (res: SerializeResult) {
        self.items.mc_serialize(to)
    }
}

impl Deserialize for RecipeIngredient {
    type Model = <RecipeIngredientFields as Deserialize>::Model;

    open spec fn model(&self) -> Self::Model {
        self.fields().model()
    }

    /// Each field from what the one before left over.
    open spec fn decoding(data: Seq<u8>) -> Parsed<Self::Model> {
        <RecipeIngredientFields>::decoding(data)
    }

    proof fn lemma_remainder(data: Seq<u8>) {
        <RecipeIngredientFields>::lemma_remainder(data);
    }

    fn mc_deserialize(data: &[u8]) -> (res: DeserializeResult<'_, Self>) {
        let Deserialized { value: items, data: rest } =
            <RecipeIngredientFields>::mc_deserialize(data)?;
        Deserialized::ok(RecipeIngredient { items }, rest)
    }
}

impl ProtocolType for RecipeIngredient {
    open spec fn legal(&self) -> bool {
        self.fields().legal()
    }

    open spec fn self_delimiting() -> bool {
        <RecipeIngredientFields>::self_delimiting()
    }

    proof fn lemma_round_trip(&self, rest: Seq<u8>) {
        self.fields().lemma_round_trip(rest);
    }
}

/// A recipe whose ingredients may lie anywhere on the grid.
#[derive(Debug, Clone, PartialEq)]
pub struct RecipeCraftingShapelessSpec {
    pub group: String,
    pub ingredients: VarIntCountedArray<RecipeIngredient>,
    pub result: Option<Slot>,
}

/// The fields of [`RecipeCraftingShapelessSpec`] in the order they travel.
pub type RecipeCraftingShapelessSpecFields = (
    String, VarIntCountedArray<RecipeIngredient>, Option<Slot>,
);

impl RecipeCraftingShapelessSpec {
    pub open spec fn fields(&self) -> RecipeCraftingShapelessSpecFields {
        (self.group, self.ingredients, self.result)
    }
}

impl Serialize for RecipeCraftingShapelessSpec {
    /// The fields' encodings, one behind the other.
    open spec fn wire(&self) -> Seq<u8> {
        self.fields().wire()
    }

    fn mc_serialize<S: Serializer>(&self, to: &mut S) -> (res: SerializeResult) {
        let ghost before = to.written();
        self.group.mc_serialize(to)?;
        self.ingredients.mc_serialize(to)?;
        let res = self.result.mc_serialize(to);
        proof {
            broadcast use lemma_concat_assoc;

            lemma_tuple3_wire(&self.fields());
        }
        res
    }
}

impl Deserialize for RecipeCraftingShapelessSpec {
    type Model = <RecipeCraftingShapelessSpecFields as Deserialize>::Model;

    open spec fn model(&self) -> Self::Model {
        self.fields().model()
    }

    /// Each field from what the one before left over.
    open spec fn decoding(data: Seq<u8>) -> Parsed<Self::Model> {
        <RecipeCraftingShapelessSpecFields>::decoding(data)
    }

    proof fn lemma_remainder(data: Seq<u8>) {
        <RecipeCraftingShapelessSpecFields>::lemma_remainder(data);
    }

    fn mc_deserialize(data: &[u8]) -> (res: DeserializeResult<'_, Self>) {
        let Deserialized { value, data: rest } =
            <RecipeCraftingShapelessSpecFields>::mc_deserialize(data)?;
        let (group, ingredients, result) = value;
        Deserialized::ok(RecipeCraftingShapelessSpec { group, ingredients, result }, rest)
    }
}

impl ProtocolType for RecipeCraftingShapelessSpec {
    open spec fn legal(&self) -> bool {
        self.fields().legal()
    }

    open spec fn self_delimiting() -> bool {
        <RecipeCraftingShapelessSpecFields>::self_delimiting()
    }

    proof fn lemma_round_trip(&self, rest: Seq<u8>) {
        self.fields().lemma_round_trip(rest);
    }
}

/// A recipe that cooks one thing into another.
#[derive(Debug, Clone, PartialEq)]
pub struct RecipeSmeltingSpec {
    pub group: String,
    pub ingredient: RecipeIngredient,
    pub result: Option<Slot>,
    pub experience: Float,
    pub cooking_time: VarInt,
}

/// The fields of [`RecipeSmeltingSpec`] in the order they travel.
pub type RecipeSmeltingSpecFields = (String, RecipeIngredient, Option<Slot>, Float, VarInt);

impl RecipeSmeltingSpec {
    pub open spec fn fields(&self) -> RecipeSmeltingSpecFields {
        (self.group, self.ingredient, self.result, self.experience, self.cooking_time)
    }
}

impl Serialize for RecipeSmeltingSpec {
    /// The fields' encodings, one behind the other.
    open spec fn wire(&self) -> Seq<u8> {
        self.fields().wire()
    }

    fn mc_serialize<S: Serializer>(&self, to: &mut S) -> (res: SerializeResult) {
        let ghost before = to.written();
        self.group.mc_serialize(to)?;
        self.ingredient.mc_serialize(to)?;
        self.result.mc_serialize(to)?;
        self.experience.mc_serialize(to)?;
        let res = self.cooking_time.mc_serialize(to);
        proof {
            broadcast use lemma_concat_assoc;

            lemma_tuple5_wire(&self.fields());
        }
        res
    }
}

impl Deserialize for RecipeSmeltingSpec {
    type Model = <RecipeSmeltingSpecFields as Deserialize>::Model;

    open spec fn model(&self) -> Self::Model {
        self.fields().model()
    }

    /// Each field from what the one before left over.
    open spec fn decoding(data: Seq<u8>) -> Parsed<Self::Model> {
        <RecipeSmeltingSpecFields>::decoding(data)
    }

    proof fn lemma_remainder(data: Seq<u8>) {
        <RecipeSmeltingSpecFields>::lemma_remainder(data);
    }

    fn mc_deserialize(data: &[u8]) -> (res: DeserializeResult<'_, Self>) {
        let Deserialized { value, data: rest } = <RecipeSmeltingSpecFields>::mc_deserialize(data)?;
        let (group, ingredient, result, experience, cooking_time) = value;
        Deserialized::ok(RecipeSmeltingSpec {
            group, ingredient, result, experience, cooking_time,
        }, rest)
    }
}

impl ProtocolType for RecipeSmeltingSpec {
    open spec fn legal(&self) -> bool {
        self.fields().legal()
    }

    open spec fn self_delimiting() -> bool {
        <RecipeSmeltingSpecFields>::self_delimiting()
    }

    proof fn lemma_round_trip(&self, rest: Seq<u8>) {
        self.fields().lemma_round_trip(rest);
    }
}

/// A recipe that cuts one thing into another.
#[derive(Debug, Clone, PartialEq)]
pub struct RecipeStonecuttingSpec {
    pub group: String,
    pub ingredient: RecipeIngredient,
    pub result: Option<Slot>,
}

/// The fields of [`RecipeStonecuttingSpec`] in the order they travel.
pub type RecipeStonecuttingSpecFields = (String, RecipeIngredient, Option<Slot>);

impl RecipeStonecuttingSpec {
    pub open spec fn fields(&self) -> RecipeStonecuttingSpecFields {
        (self.group, self.ingredient, self.result)
    }
}

impl Serialize for RecipeStonecuttingSpec {
    /// The fields' encodings, one behind the other.
    open spec fn wire(&self) -> Seq<u8> {
        self.fields().wire()
    }

    fn mc_serialize<S: Serializer>(&self, to: &mut S) -> (res: SerializeResult) {
        let ghost before = to.written();
        self.group.mc_serialize(to)?;
        self.ingredient.mc_serialize(to)?;
        let res = self.result.mc_serialize(to);
        proof {
            broadcast use lemma_concat_assoc;

            lemma_tuple3_wire(&self.fields());
        }
        res
    }
}

impl Deserialize for RecipeStonecuttingSpec {
    type Model = <RecipeStonecuttingSpecFields as Deserialize>::Model;

    open spec fn model(&self) -> Self::Model {
        self.fields().model()
    }

    /// Each field from what the one before left over.
    open spec fn decoding(data: Seq<u8>) -> Parsed<Self::Model> {
        <RecipeStonecuttingSpecFields>::decoding(data)
    }

    proof fn lemma_remainder(data: Seq<u8>) {
        <RecipeStonecuttingSpecFields>::lemma_remainder(data);
    }

    fn mc_deserialize(data: &[u8]) -> (res: DeserializeResult<'_, Self>) {
        let Deserialized { value, data: rest } =
            <RecipeStonecuttingSpecFields>::mc_deserialize(data)?;
        let (group, ingredient, result) = value;
        Deserialized::ok(RecipeStonecuttingSpec { group, ingredient, result }, rest)
    }
}

impl ProtocolType for RecipeStonecuttingSpec {
    open spec fn legal(&self) -> bool {
        self.fields().legal()
    }

    open spec fn self_delimiting() -> bool {
        <RecipeStonecuttingSpecFields>::self_delimiting()
    }

    proof fn lemma_round_trip(&self, rest: Seq<u8>) {
        self.fields().lemma_round_trip(rest);
    }
}

/// A change in the state of the game: the number of the reason, and what the
/// reason says as the bits of a real number.
#[derive(Debug, Clone, PartialEq)]
pub struct GameChange {
    pub reason: u8,
    pub value: Float,
}

/// The fields of [`GameChange`] in the order they travel.
pub type GameChangeFields = (u8, Float);

impl GameChange {
    pub open spec fn fields(&self) -> GameChangeFields {
        (self.reason, self.value)
    }
}

impl Serialize for GameChange {
    /// The fields' encodings, one behind the other.
    open spec fn wire(&self) -> Seq<u8> {
        self.fields().wire()
    }

    fn mc_serialize<S: Serializer>(&self, to: &mut S) -> (res: SerializeResult) {
        let ghost before = to.written();
        self.reason.mc_serialize(to)?;
        let res = self.value.mc_serialize(to);
        proof {
            broadcast use lemma_concat_assoc;

            lemma_tuple2_wire(&self.fields());
        }
        res
    }
}

impl Deserialize for GameChange {
    type Model = <GameChangeFields as Deserialize>::Model;

    open spec fn model(&self) -> Self::Model {
        self.fields().model()
    }

    /// Each field from what the one before left over.
    open spec fn decoding(data: Seq<u8>) -> Parsed<Self::Model> {
        <GameChangeFields>::decoding(data)
    }

    proof fn lemma_remainder(data: Seq<u8>) {
        <GameChangeFields>::lemma_remainder(data);
    }

    fn mc_deserialize(data: &[u8]) -> (res: DeserializeResult<'_, Self>) {
        let Deserialized { value, data: rest } = <GameChangeFields>::mc_deserialize(data)?;
        let (reason, value) = value;
        Deserialized::ok(GameChange { reason, value }, rest)
    }
}

impl ProtocolType for GameChange {
    open spec fn legal(&self) -> bool {
        self.fields().legal()
    }

    open spec fn self_delimiting() -> bool {
        <GameChangeFields>::self_delimiting()
    }

    proof fn lemma_round_trip(&self, rest: Seq<u8>) {
        self.fields().lemma_round_trip(rest);
    }
}

/// What the packet `Handshake` holds.
#[derive(Debug, Clone, PartialEq)]
pub struct HandshakeSpec {
    pub version: VarInt,
    pub server_address: String,
    pub server_port: u16,
    pub next_state: HandshakeNextState,
}

/// The fields of [`HandshakeSpec`] in the order they travel.
pub type HandshakeSpecFields = (VarInt, String, u16, HandshakeNextState);

impl HandshakeSpec {
    pub open spec fn fields(&self) -> HandshakeSpecFields {
        (self.version, self.server_address, self.server_port, self.next_state)
    }
}

impl Serialize for HandshakeSpec {
    /// The fields' encodings, one behind the other.
    open spec fn wire(&self) -> Seq<u8> {
        self.fields().wire()
    }

    fn mc_serialize<S: Serializer>(&self, to: &mut S) -> (res: SerializeResult) {
        let ghost before = to.written();
        self.version.mc_serialize(to)?;
        self.server_address.mc_serialize(to)?;
        self.server_port.mc_serialize(to)?;
        let res = self.next_state.mc_serialize(to);
        proof {
            broadcast use lemma_concat_assoc;

            lemma_tuple4_wire(&self.fields());
        }
        res
    }
}

impl Deserialize for HandshakeSpec {
    type Model = <HandshakeSpecFields as Deserialize>::Model;

    open spec fn model(&self) -> Self::Model {
        self.fields().model()
    }

    /// Each field from what the one before left over.
    open spec fn decoding(data: Seq<u8>) -> Parsed<Self::Model> {
        <HandshakeSpecFields>::decoding(data)
    }

    proof fn lemma_remainder(data: Seq<u8>) {
        <HandshakeSpecFields>::lemma_remainder(data);
    }

    fn mc_deserialize(data: &[u8]) -> (res: DeserializeResult<'_, Self>) {
        let Deserialized { value, data: rest } = <HandshakeSpecFields>::mc_deserialize(data)?;
        let (version, server_address, server_port, next_state) = value;
        Deserialized::ok(HandshakeSpec { version, server_address, server_port, next_state }, rest)
    }
}

impl ProtocolType for HandshakeSpec {
    open spec fn legal(&self) -> bool {
        self.fields().legal()
    }

    open spec fn self_delimiting() -> bool {
        <HandshakeSpecFields>::self_delimiting()
    }

    proof fn lemma_round_trip(&self, rest: Seq<u8>) {
        self.fields().lemma_round_trip(rest);
    }
}

/// What the packet `StatusRequest` holds.
#[derive(Debug, Clone, PartialEq, Default)]
pub struct StatusRequestSpec;

/// The fields of [`StatusRequestSpec`] in the order they travel.
pub type StatusRequestSpecFields = ();

impl StatusRequestSpec {
    pub open spec fn fields(&self) -> StatusRequestSpecFields {
        ()
    }
}

impl Serialize for StatusRequestSpec {
    /// The fields' encodings, one behind the other.
    open spec fn wire(&self) -> Seq<u8> {
        self.fields().wire()
    }

    fn mc_serialize<S: Serializer>(&self, to: &mut S) -> (res: SerializeResult) {
        proof {
            assert(to.written() + Seq::<u8>::empty() =~= to.written());
        }
        Ok(())
    }
}

impl Deserialize for StatusRequestSpec {
    type Model = <StatusRequestSpecFields as Deserialize>::Model;

    open spec fn model(&self) -> Self::Model {
        self.fields().model()
    }

    /// Each field from what the one before left over.
    open spec fn decoding(data: Seq<u8>) -> Parsed<Self::Model> {
        <StatusRequestSpecFields>::decoding(data)
    }

    proof fn lemma_remainder(data: Seq<u8>) {
        <StatusRequestSpecFields>::lemma_remainder(data);
    }

    fn mc_deserialize(data: &[u8]) -> (res: DeserializeResult<'_, Self>) {
        Deserialized::ok(StatusRequestSpec, data)
    }
}

impl ProtocolType for StatusRequestSpec {
    open spec fn legal(&self) -> bool {
        self.fields().legal()
    }

    open spec fn self_delimiting() -> bool {
        <StatusRequestSpecFields>::self_delimiting()
    }

    proof fn lemma_round_trip(&self, rest: Seq<u8>) {
        self.fields().lemma_round_trip(rest);
    }
}

/// What the packet `StatusPing` holds.
#[derive(Debug, Clone, PartialEq)]
pub struct StatusPingSpec {
    pub payload: i64,
}

/// The fields of [`StatusPingSpec`] in the order they travel.
pub type StatusPingSpecFields = i64;

impl StatusPingSpec {
    pub open spec fn fields(&self) -> StatusPingSpecFields {
        self.payload
    }
}

impl Serialize for StatusPingSpec {
    /// The fields' encodings, one behind the other.
    open spec fn wire(&self) -> Seq<u8> {
        self.fields().wire()
    }

    fn mc_serialize<S: Serializer>(&self, to: &mut S) -> (res: SerializeResult) {
        self.payload.mc_serialize(to)
    }
}

impl Deserialize for StatusPingSpec {
    type Model = <StatusPingSpecFields as Deserialize>::Model;

    open spec fn model(&self) -> Self::Model {
        self.fields().model()
    }

    /// Each field from what the one before left over.
    open spec fn decoding(data: Seq<u8>) -> Parsed<Self::Model> {
        <StatusPingSpecFields>::decoding(data)
    }

    proof fn lemma_remainder(data: Seq<u8>) {
        <StatusPingSpecFields>::lemma_remainder(data);
    }

    fn mc_deserialize(data: &[u8]) -> (res: DeserializeResult<'_, Self>) {
        let Deserialized { value: payload, data: rest } =
            <StatusPingSpecFields>::mc_deserialize(data)?;
        Deserialized::ok(StatusPingSpec { payload }, rest)
    }
}

impl ProtocolType for StatusPingSpec {
    open spec fn legal(&self) -> bool {
        self.fields().legal()
    }

    open spec fn self_delimiting() -> bool {
        <StatusPingSpecFields>::self_delimiting()
    }

    proof fn lemma_round_trip(&self, rest: Seq<u8>) {
        self.fields().lemma_round_trip(rest);
    }
}

/// What the packet `StatusResponse` holds.
#[derive(Debug, Clone, PartialEq)]
pub struct StatusResponseSpec {
    pub response: JsonText,
}

/// The fields of [`StatusResponseSpec`] in the order they travel.
pub type StatusResponseSpecFields = JsonText;

impl StatusResponseSpec {
    pub open spec fn fields(&self) -> StatusResponseSpecFields {
        self.response
    }
}

impl Serialize for StatusResponseSpec {
    /// The fields' encodings, one behind the other.
    open spec fn wire(&self) -> Seq<u8> {
        self.fields().wire()
    }

    fn mc_serialize<S: Serializer>(&self, to: &mut S) -> (res: SerializeResult) {
        self.response.mc_serialize(to)
    }
}

impl Deserialize for StatusResponseSpec {
    type Model = <StatusResponseSpecFields as Deserialize>::Model;

    open spec fn model(&self) -> Self::Model {
        self.fields().model()
    }

    /// Each field from what the one before left over.
    open spec fn decoding(data: Seq<u8>) -> Parsed<Self::Model> {
        <StatusResponseSpecFields>::decoding(data)
    }

    proof fn lemma_remainder(data: Seq<u8>) {
        <StatusResponseSpecFields>::lemma_remainder(data);
    }

    fn mc_deserialize(data: &[u8]) -> (res: DeserializeResult<'_, Self>) {
        let Deserialized { value: response, data: rest } =
            <StatusResponseSpecFields>::mc_deserialize(data)?;
        Deserialized::ok(StatusResponseSpec { response }, rest)
    }
}

impl ProtocolType for StatusResponseSpec {
    open spec fn legal(&self) -> bool {
        self.fields().legal()
    }

    open spec fn self_delimiting() -> bool {
        <StatusResponseSpecFields>::self_delimiting()
    }

    proof fn lemma_round_trip(&self, rest: Seq<u8>) {
        self.fields().lemma_round_trip(rest);
    }
}

/// What the packet `StatusPong` holds.
#[derive(Debug, Clone, PartialEq)]
pub struct StatusPongSpec {
    pub payload: i64,
}

/// The fields of [`StatusPongSpec`] in the order they travel.
pub type StatusPongSpecFields = i64;

impl StatusPongSpec {
    pub open spec fn fields(&self) -> StatusPongSpecFields {
        self.payload
    }
}

impl Serialize for StatusPongSpec {
    /// The fields' encodings, one behind the other.
    open spec fn wire(&self) -> Seq<u8> {
        self.fields().wire()
    }

    fn mc_serialize<S: Serializer>(&self, to: &mut S) -> (res: SerializeResult) {
        self.payload.mc_serialize(to)
    }
}

impl Deserialize for StatusPongSpec {
    type Model = <StatusPongSpecFields as Deserialize>::Model;

    open spec fn model(&self) -> Self::Model {
        self.fields().model()
    }

    /// Each field from what the one before left over.
    open spec fn decoding(data: Seq<u8>) -> Parsed<Self::Model> {
        <StatusPongSpecFields>::decoding(data)
    }

    proof fn lemma_remainder(data: Seq<u8>) {
        <StatusPongSpecFields>::lemma_remainder(data);
    }

    fn mc_deserialize(data: &[u8]) -> (res: DeserializeResult<'_, Self>) {
        let Deserialized { value: payload, data: rest } =
            <StatusPongSpecFields>::mc_deserialize(data)?;
        Deserialized::ok(StatusPongSpec { payload }, rest)
    }
}

impl ProtocolType for StatusPongSpec {
    open spec fn legal(&self) -> bool {
        self.fields().legal()
    }

    open spec fn self_delimiting() -> bool {
        <StatusPongSpecFields>::self_delimiting()
    }

    proof fn lemma_round_trip(&self, rest: Seq<u8>) {
        self.fields().lemma_round_trip(rest);
    }
}

/// What the packet `LoginDisconnect` holds.
#[derive(Debug, Clone, PartialEq)]
pub struct LoginDisconnectSpec {
    pub message: JsonText,
}

/// The fields of [`LoginDisconnectSpec`] in the order they travel.
pub type LoginDisconnectSpecFields = JsonText;

impl LoginDisconnectSpec {
    pub open spec fn fields(&self) -> LoginDisconnectSpecFields {
        self.message
    }
}

impl Serialize for LoginDisconnectSpec {
    /// The fields' encodings, one behind the other.
    open spec fn wire(&self) -> Seq<u8> {
        self.fields().wire()
    }

    fn mc_serialize<S: Serializer>(&self, to: &mut S) -> (res: SerializeResult) {
        self.message.mc_serialize(to)
    }
}

impl Deserialize for LoginDisconnectSpec {
    type Model = <LoginDisconnectSpecFields as Deserialize>::Model;

    open spec fn model(&self) -> Self::Model {
        self.fields().model()
    }

    /// Each field from what the one before left over.
    open spec fn decoding(data: Seq<u8>) -> Parsed<Self::Model> {
        <LoginDisconnectSpecFields>::decoding(data)
    }

    proof fn lemma_remainder(data: Seq<u8>) {
        <LoginDisconnectSpecFields>::lemma_remainder(data);
    }

    fn mc_deserialize(data: &[u8]) -> (res: DeserializeResult<'_, Self>) {
        let Deserialized { value: message, data: rest } =
            <LoginDisconnectSpecFields>::mc_deserialize(data)?;
        Deserialized::ok(LoginDisconnectSpec { message }, rest)
    }
}

impl ProtocolType for LoginDisconnectSpec {
    open spec fn legal(&self) -> bool {
        self.fields().legal()
    }

    open spec fn self_delimiting() -> bool {
        <LoginDisconnectSpecFields>::self_delimiting()
    }

    proof fn lemma_round_trip(&self, rest: Seq<u8>) {
        self.fields().lemma_round_trip(rest);
    }
}

/// What the packet `LoginEncryptionRequest` holds.
#[derive(Debug, Clone, PartialEq)]
pub struct LoginEncryptionRequestSpec {
    pub server_id: String,
    pub public_key: VarIntCountedArray<u8>,
    pub verify_token: VarIntCountedArray<u8>,
}

/// The fields of [`LoginEncryptionRequestSpec`] in the order they travel.
pub type LoginEncryptionRequestSpecFields = (
    String, VarIntCountedArray<u8>, VarIntCountedArray<u8>,
);

impl LoginEncryptionRequestSpec {
    pub open spec fn fields(&self) -> LoginEncryptionRequestSpecFields {
        (self.server_id, self.public_key, self.verify_token)
    }
}

impl Serialize for LoginEncryptionRequestSpec {
    /// The fields' encodings, one behind the other.
    open spec fn wire(&self) -> Seq<u8> {
        self.fields().wire()
    }

    fn mc_serialize<S: Serializer>(&self, to: &mut S) -> (res: SerializeResult) {
        let ghost before = to.written();
        self.server_id.mc_serialize(to)?;
        self.public_key.mc_serialize(to)?;
        let res = self.verify_token.mc_serialize(to);
        proof {
            broadcast use lemma_concat_assoc;

            lemma_tuple3_wire(&self.fields());
        }
        res
    }
}

impl Deserialize for LoginEncryptionRequestSpec {
    type Model = <LoginEncryptionRequestSpecFields as Deserialize>::Model;

    open spec fn model(&self) -> Self::Model {
        self.fields().model()
    }

    /// Each field from what the one before left over.
    open spec fn decoding(data: Seq<u8>) -> Parsed<Self::Model> {
        <LoginEncryptionRequestSpecFields>::decoding(data)
    }

    proof fn lemma_remainder(data: Seq<u8>) {
        <LoginEncryptionRequestSpecFields>::lemma_remainder(data);
    }

    fn mc_deserialize(data: &[u8]) -> (res: DeserializeResult<'_, Self>) {
        let Deserialized { value, data: rest } =
            <LoginEncryptionRequestSpecFields>::mc_deserialize(data)?;
        let (server_id, public_key, verify_token) = value;
        Deserialized::ok(LoginEncryptionRequestSpec { server_id, public_key, verify_token }, rest)
    }
}

impl ProtocolType for LoginEncryptionRequestSpec {
    open spec fn legal(&self) -> bool {
        self.fields().legal()
    }

    open spec fn self_delimiting() -> bool {
        <LoginEncryptionRequestSpecFields>::self_delimiting()
    }

    proof fn lemma_round_trip(&self, rest: Seq<u8>) {
        self.fields().lemma_round_trip(rest);
    }
}

/// What the packet `LoginSuccess` holds.
#[derive(Debug, Clone, PartialEq)]
pub struct LoginSuccessSpec {
    pub uuid_string: String,
    pub username: String,
}

/// The fields of [`LoginSuccessSpec`] in the order they travel.
pub type LoginSuccessSpecFields = (String, String);

impl LoginSuccessSpec {
    pub open spec fn fields(&self) -> LoginSuccessSpecFields {
        (self.uuid_string, self.username)
    }
}

impl Serialize for LoginSuccessSpec {
    /// The fields' encodings, one behind the other.
    open spec fn wire(&self) -> Seq<u8> {
        self.fields().wire()
    }

    fn mc_serialize<S: Serializer>(&self, to: &mut S) -> (res: SerializeResult) {
        let ghost before = to.written();
        self.uuid_string.mc_serialize(to)?;
        let res = self.username.mc_serialize(to);
        proof {
            broadcast use lemma_concat_assoc;

            lemma_tuple2_wire(&self.fields());
        }
        res
    }
}

impl Deserialize for LoginSuccessSpec {
    type Model = <LoginSuccessSpecFields as Deserialize>::Model;

    open spec fn model(&self) -> Self::Model {
        self.fields().model()
    }

    /// Each field from what the one before left over.
    open spec fn decoding(data: Seq<u8>) -> Parsed<Self::Model> {
        <LoginSuccessSpecFields>::decoding(data)
    }

    proof fn lemma_remainder(data: Seq<u8>) {
        <LoginSuccessSpecFields>::lemma_remainder(data);
    }

    fn mc_deserialize(data: &[u8]) -> (res: DeserializeResult<'_, Self>) {
        let Deserialized { value, data: rest } = <LoginSuccessSpecFields>::mc_deserialize(data)?;
        let (uuid_string, username) = value;
        Deserialized::ok(LoginSuccessSpec { uuid_string, username }, rest)
    }
}

impl ProtocolType for LoginSuccessSpec {
    open spec fn legal(&self) -> bool {
        self.fields().legal()
    }

    open spec fn self_delimiting() -> bool {
        <LoginSuccessSpecFields>::self_delimiting()
    }

    proof fn lemma_round_trip(&self, rest: Seq<u8>) {
        self.fields().lemma_round_trip(rest);
    }
}

/// What the packet `LoginSetCompression` holds.
#[derive(Debug, Clone, PartialEq)]
pub struct LoginSetCompressionSpec {
    pub threshold: VarInt,
}

/// The fields of [`LoginSetCompressionSpec`] in the order they travel.
pub type LoginSetCompressionSpecFields = VarInt;

impl LoginSetCompressionSpec {
    pub open spec fn fields(&self) -> LoginSetCompressionSpecFields {
        self.threshold
    }
}

impl Serialize for LoginSetCompressionSpec {
    /// The fields' encodings, one behind the other.
    open spec fn wire(&self) -> Seq<u8> {
        self.fields().wire()
    }

    fn mc_serialize<S: Serializer>(&self, to: &mut S) -> (res: SerializeResult) {
        self.threshold.mc_serialize(to)
    }
}

impl Deserialize for LoginSetCompressionSpec {
    type Model = <LoginSetCompressionSpecFields as Deserialize>::Model;

    open spec fn model(&self) -> Self::Model {
        self.fields().model()
    }

    /// Each field from what the one before left over.
    open spec fn decoding(data: Seq<u8>) -> Parsed<Self::Model> {
        <LoginSetCompressionSpecFields>::decoding(data)
    }

    proof fn lemma_remainder(data: Seq<u8>) {
        <LoginSetCompressionSpecFields>::lemma_remainder(data);
    }

    fn mc_deserialize(data: &[u8]) -> (res: DeserializeResult<'_, Self>) {
        let Deserialized { value: threshold, data: rest } =
            <LoginSetCompressionSpecFields>::mc_deserialize(data)?;
        Deserialized::ok(LoginSetCompressionSpec { threshold }, rest)
    }
}

impl ProtocolType for LoginSetCompressionSpec {
    open spec fn legal(&self) -> bool {
        self.fields().legal()
    }

    open spec fn self_delimiting() -> bool {
        <LoginSetCompressionSpecFields>::self_delimiting()
    }

    proof fn lemma_round_trip(&self, rest: Seq<u8>) {
        self.fields().lemma_round_trip(rest);
    }
}

/// What the packet `LoginPluginRequest` holds.
#[derive(Debug, Clone, PartialEq)]
pub struct LoginPluginRequestSpec {
    pub message_id: VarInt,
    pub channel: String,
    pub data: RemainingBytes,
}

/// The fields of [`LoginPluginRequestSpec`] in the order they travel.
pub type LoginPluginRequestSpecFields = (VarInt, String, RemainingBytes);

impl LoginPluginRequestSpec {
    pub open spec fn fields(&self) -> LoginPluginRequestSpecFields {
        (self.message_id, self.channel, self.data)
    }
}

impl Serialize for LoginPluginRequestSpec {
    /// The fields' encodings, one behind the other.
    open spec fn wire(&self) -> Seq<u8> {
        self.fields().wire()
    }

    fn mc_serialize<S: Serializer>(&self, to: &mut S) -> (res: SerializeResult) {
        let ghost before = to.written();
        self.message_id.mc_serialize(to)?;
        self.channel.mc_serialize(to)?;
        let res = self.data.mc_serialize(to);
        proof {
            broadcast use lemma_concat_assoc;

            lemma_tuple3_wire(&self.fields());
        }
        res
    }
}

impl Deserialize for LoginPluginRequestSpec {
    type Model = <LoginPluginRequestSpecFields as Deserialize>::Model;

    open spec fn model(&self) -> Self::Model {
        self.fields().model()
    }

    /// Each field from what the one before left over.
    open spec fn decoding(data: Seq<u8>) -> Parsed<Self::Model> {
        <LoginPluginRequestSpecFields>::decoding(data)
    }

    proof fn lemma_remainder(data: Seq<u8>) {
        <LoginPluginRequestSpecFields>::lemma_remainder(data);
    }

    fn mc_deserialize(data: &[u8]) -> (res: DeserializeResult<'_, Self>) {
        let Deserialized { value, data: rest } =
            <LoginPluginRequestSpecFields>::mc_deserialize(data)?;
        let (message_id, channel, data) = value;
        Deserialized::ok(LoginPluginRequestSpec { message_id, channel, data }, rest)
    }
}

impl ProtocolType for LoginPluginRequestSpec {
    open spec fn legal(&self) -> bool {
        self.fields().legal()
    }

    open spec fn self_delimiting() -> bool {
        <LoginPluginRequestSpecFields>::self_delimiting()
    }

    proof fn lemma_round_trip(&self, rest: Seq<u8>) {
        self.fields().lemma_round_trip(rest);
    }
}

/// What the packet `LoginStart` holds.
#[derive(Debug, Clone, PartialEq)]
pub struct LoginStartSpec {
    pub name: String,
}

/// The fields of [`LoginStartSpec`] in the order they travel.
pub type LoginStartSpecFields = String;

impl LoginStartSpec {
    pub open spec fn fields(&self) -> LoginStartSpecFields {
        self.name
    }
}

impl Serialize for LoginStartSpec {
    /// The fields' encodings, one behind the other.
    open spec fn wire(&self) -> Seq<u8> {
        self.fields().wire()
    }

    fn mc_serialize<S: Serializer>(&self, to: &mut S) -> (res: SerializeResult) {
        self.name.mc_serialize(to)
    }
}

impl Deserialize for LoginStartSpec {
    type Model = <LoginStartSpecFields as Deserialize>::Model;

    open spec fn model(&self) -> Self::Model {
        self.fields().model()
    }

    /// Each field from what the one before left over.
    open spec fn decoding(data: Seq<u8>) -> Parsed<Self::Model> {
        <LoginStartSpecFields>::decoding(data)
    }

    proof fn lemma_remainder(data: Seq<u8>) {
        <LoginStartSpecFields>::lemma_remainder(data);
    }

    fn mc_deserialize(data: &[u8]) -> (res: DeserializeResult<'_, Self>) {
        let Deserialized { value: name, data: rest } =
            <LoginStartSpecFields>::mc_deserialize(data)?;
        Deserialized::ok(LoginStartSpec { name }, rest)
    }
}

impl ProtocolType for LoginStartSpec {
    open spec fn legal(&self) -> bool {
        self.fields().legal()
    }

    open spec fn self_delimiting() -> bool {
        <LoginStartSpecFields>::self_delimiting()
    }

    proof fn lemma_round_trip(&self, rest: Seq<u8>) {
        self.fields().lemma_round_trip(rest);
    }
}

/// What the packet `LoginEncryptionResponse` holds.
#[derive(Debug, Clone, PartialEq)]
pub struct LoginEncryptionResponseSpec {
    pub shared_secret: VarIntCountedArray<u8>,
    pub verify_token: VarIntCountedArray<u8>,
}

/// The fields of [`LoginEncryptionResponseSpec`] in the order they travel.
pub type LoginEncryptionResponseSpecFields = (VarIntCountedArray<u8>, VarIntCountedArray<u8>);

impl LoginEncryptionResponseSpec {
    pub open spec fn fields(&self) -> LoginEncryptionResponseSpecFields {
        (self.shared_secret, self.verify_token)
    }
}

impl Serialize for LoginEncryptionResponseSpec {
    /// The fields' encodings, one behind the other.
    open spec fn wire(&self) -> Seq<u8> {
        self.fields().wire()
    }

    fn mc_serialize<S: Serializer>(&self, to: &mut S) -> (res: SerializeResult) {
        let ghost before = to.written();
        self.shared_secret.mc_serialize(to)?;
        let res = self.verify_token.mc_serialize(to);
        proof {
            broadcast use lemma_concat_assoc;

            lemma_tuple2_wire(&self.fields());
        }
        res
    }
}

impl Deserialize for LoginEncryptionResponseSpec {
    type Model = <LoginEncryptionResponseSpecFields as Deserialize>::Model;

    open spec fn model(&self) -> Self::Model {
        self.fields().model()
    }

    /// Each field from what the one before left over.
    open spec fn decoding(data: Seq<u8>) -> Parsed<Self::Model> {
        <LoginEncryptionResponseSpecFields>::decoding(data)
    }

    proof fn lemma_remainder(data: Seq<u8>) {
        <LoginEncryptionResponseSpecFields>::lemma_remainder(data);
    }

    fn mc_deserialize(data: &[u8]) -> (res: DeserializeResult<'_, Self>) {
        let Deserialized { value, data: rest } =
            <LoginEncryptionResponseSpecFields>::mc_deserialize(data)?;
        let (shared_secret, verify_token) = value;
        Deserialized::ok(LoginEncryptionResponseSpec { shared_secret, verify_token }, rest)
    }
}

impl ProtocolType for LoginEncryptionResponseSpec {
    open spec fn legal(&self) -> bool {
        self.fields().legal()
    }

    open spec fn self_delimiting() -> bool {
        <LoginEncryptionResponseSpecFields>::self_delimiting()
    }

    proof fn lemma_round_trip(&self, rest: Seq<u8>) {
        self.fields().lemma_round_trip(rest);
    }
}

/// What the packet `LoginPluginResponse` holds.
#[derive(Debug, Clone, PartialEq)]
pub struct LoginPluginResponseSpec {
    pub message_id: VarInt,
    pub successful: bool,
    pub data: RemainingBytes,
}

/// The fields of [`LoginPluginResponseSpec`] in the order they travel.
pub type LoginPluginResponseSpecFields = (VarInt, bool, RemainingBytes);

impl LoginPluginResponseSpec {
    pub open spec fn fields(&self) -> LoginPluginResponseSpecFields {
        (self.message_id, self.successful, self.data)
    }
}

impl Serialize for LoginPluginResponseSpec {
    /// The fields' encodings, one behind the other.
    open spec fn wire(&self) -> Seq<u8> {
        self.fields().wire()
    }

    fn mc_serialize<S: Serializer>(&self, to: &mut S) -> (res: SerializeResult) {
        let ghost before = to.written();
        self.message_id.mc_serialize(to)?;
        self.successful.mc_serialize(to)?;
        let res = self.data.mc_serialize(to);
        proof {
            broadcast use lemma_concat_assoc;

            lemma_tuple3_wire(&self.fields());
        }
        res
    }
}

impl Deserialize for LoginPluginResponseSpec {
    type Model = <LoginPluginResponseSpecFields as Deserialize>::Model;

    open spec fn model(&self) -> Self::Model {
        self.fields().model()
    }

    /// Each field from what the one before left over.
    open spec fn decoding(data: Seq<u8>) -> Parsed<Self::Model> {
        <LoginPluginResponseSpecFields>::decoding(data)
    }

    proof fn lemma_remainder(data: Seq<u8>) {
        <LoginPluginResponseSpecFields>::lemma_remainder(data);
    }

    fn mc_deserialize(data: &[u8]) -> (res: DeserializeResult<'_, Self>) {
        let Deserialized { value, data: rest } =
            <LoginPluginResponseSpecFields>::mc_deserialize(data)?;
        let (message_id, successful, data) = value;
        Deserialized::ok(LoginPluginResponseSpec { message_id, successful, data }, rest)
    }
}

impl ProtocolType for LoginPluginResponseSpec {
    open spec fn legal(&self) -> bool {
        self.fields().legal()
    }

    open spec fn self_delimiting() -> bool {
        <LoginPluginResponseSpecFields>::self_delimiting()
    }

    proof fn lemma_round_trip(&self, rest: Seq<u8>) {
        self.fields().lemma_round_trip(rest);
    }
}

/// What the packet `PlaySpawnEntity` holds.
#[derive(Debug, Clone, PartialEq)]
pub struct PlaySpawnEntitySpec {
    pub entity_id: VarInt,
    pub object_uuid: UUID4,
    pub entity_type: VarInt,
    pub x: Double,
    pub y: Double,
    pub z: Double,
    pub pitch: Angle,
    pub yaw: Angle,
    pub data: i32,
    pub velocity_x: i16,
    pub velocity_y: i16,
    pub velocity_z: i16,
}

/// The fields of [`PlaySpawnEntitySpec`] in the order they travel.
pub type PlaySpawnEntitySpecFields = (
    VarInt, UUID4, VarInt, Double, Double, Double, Angle, Angle, i32, i16, i16, i16,
);

impl PlaySpawnEntitySpec {
    pub open spec fn fields(&self) -> PlaySpawnEntitySpecFields {
        (
            self.entity_id, self.object_uuid, self.entity_type, self.x, self.y, self.z,
            self.pitch, self.yaw, self.data, self.velocity_x, self.velocity_y, self.velocity_z,
        )
    }
}

impl Serialize for PlaySpawnEntitySpec {
    /// The fields' encodings, one behind the other.
    open spec fn wire(&self) -> Seq<u8> {
        self.fields().wire()
    }

    fn mc_serialize<S: Serializer>(&self, to: &mut S) -> (res: SerializeResult) {
        let ghost before = to.written();
        self.entity_id.mc_serialize(to)?;
        self.object_uuid.mc_serialize(to)?;
        self.entity_type.mc_serialize(to)?;
        self.x.mc_serialize(to)?;
        self.y.mc_serialize(to)?;
        self.z.mc_serialize(to)?;
        self.pitch.mc_serialize(to)?;
        self.yaw.mc_serialize(to)?;
        self.data.mc_serialize(to)?;
        self.velocity_x.mc_serialize(to)?;
        self.velocity_y.mc_serialize(to)?;
        let res = self.velocity_z.mc_serialize(to);
        proof {
            broadcast use lemma_concat_assoc;

            lemma_tuple12_wire(&self.fields());
        }
        res
    }
}

impl Deserialize for PlaySpawnEntitySpec {
    type Model = <PlaySpawnEntitySpecFields as Deserialize>::Model;

    open spec fn model(&self) -> Self::Model {
        self.fields().model()
    }

    /// Each field from what the one before left over.
    open spec fn decoding(data: Seq<u8>) -> Parsed<Self::Model> {
        <PlaySpawnEntitySpecFields>::decoding(data)
    }

    proof fn lemma_remainder(data: Seq<u8>) {
        <PlaySpawnEntitySpecFields>::lemma_remainder(data);
    }

    fn mc_deserialize(data: &[u8]) -> (res: DeserializeResult<'_, Self>) {
        let Deserialized { value, data: rest } = <PlaySpawnEntitySpecFields>::mc_deserialize(data)?;
        let (
            entity_id, object_uuid, entity_type, x, y, z, pitch, yaw, data, velocity_x,
            velocity_y, velocity_z,
        ) = value;
        Deserialized::ok(PlaySpawnEntitySpec {
            entity_id, object_uuid, entity_type, x, y, z, pitch, yaw, data, velocity_x,
            velocity_y, velocity_z,
        }, rest)
    }
}

impl ProtocolType for PlaySpawnEntitySpec {
    open spec fn legal(&self) -> bool {
        self.fields().legal()
    }

    open spec fn self_delimiting() -> bool {
        <PlaySpawnEntitySpecFields>::self_delimiting()
    }

    proof fn lemma_round_trip(&self, rest: Seq<u8>) {
        self.fields().lemma_round_trip(rest);
    }
}

/// What the packet `PlaySpawnExperienceOrb` holds.
#[derive(Debug, Clone, PartialEq)]
pub struct PlaySpawnExperienceOrbSpec {
    pub entity_id: VarInt,
    pub x: Double,
    pub y: Double,
    pub z: Double,
    pub count: i16,
}

/// The fields of [`PlaySpawnExperienceOrbSpec`] in the order they travel.
pub type PlaySpawnExperienceOrbSpecFields = (VarInt, Double, Double, Double, i16);

impl PlaySpawnExperienceOrbSpec {
    pub open spec fn fields(&self) -> PlaySpawnExperienceOrbSpecFields {
        (self.entity_id, self.x, self.y, self.z, self.count)
    }
}

impl Serialize for PlaySpawnExperienceOrbSpec {
    /// The fields' encodings, one behind the other.
    open spec fn wire(&self) -> Seq<u8> {
        self.fields().wire()
    }

    fn mc_serialize<S: Serializer>(&self, to: &mut S) -> (res: SerializeResult) {
        let ghost before = to.written();
        self.entity_id.mc_serialize(to)?;
        self.x.mc_serialize(to)?;
        self.y.mc_serialize(to)?;
        self.z.mc_serialize(to)?;
        let res = self.count.mc_serialize(to);
        proof {
            broadcast use lemma_concat_assoc;

            lemma_tuple5_wire(&self.fields());
        }
        res
    }
}

impl Deserialize for PlaySpawnExperienceOrbSpec {
    type Model = <PlaySpawnExperienceOrbSpecFields as Deserialize>::Model;

    open spec fn model(&self) -> Self::Model {
        self.fields().model()
    }

    /// Each field from what the one before left over.
    open spec fn decoding(data: Seq<u8>) -> Parsed<Self::Model> {
        <PlaySpawnExperienceOrbSpecFields>::decoding(data)
    }

    proof fn lemma_remainder(data: Seq<u8>) {
        <PlaySpawnExperienceOrbSpecFields>::lemma_remainder(data);
    }

    fn mc_deserialize(data: &[u8]) -> (res: DeserializeResult<'_, Self>) {
        let Deserialized { value, data: rest } =
            <PlaySpawnExperienceOrbSpecFields>::mc_deserialize(data)?;
        let (entity_id, x, y, z, count) = value;
        Deserialized::ok(PlaySpawnExperienceOrbSpec { entity_id, x, y, z, count }, rest)
    }
}

impl ProtocolType for PlaySpawnExperienceOrbSpec {
    open spec fn legal(&self) -> bool {
        self.fields().legal()
    }

    open spec fn self_delimiting() -> bool {
        <PlaySpawnExperienceOrbSpecFields>::self_delimiting()
    }

    proof fn lemma_round_trip(&self, rest: Seq<u8>) {
        self.fields().lemma_round_trip(rest);
    }
}

/// What the packet `PlaySpawnWeatherEntity` holds.
#[derive(Debug, Clone, PartialEq)]
pub struct PlaySpawnWeatherEntitySpec {
    pub entity_id: VarInt,
    pub entity_type: u8,
    pub x: Double,
    pub y: Double,
    pub z: Double,
}

/// The fields of [`PlaySpawnWeatherEntitySpec`] in the order they travel.
pub type PlaySpawnWeatherEntitySpecFields = (VarInt, u8, Double, Double, Double);

impl PlaySpawnWeatherEntitySpec {
    pub open spec fn fields(&self) -> PlaySpawnWeatherEntitySpecFields {
        (self.entity_id, self.entity_type, self.x, self.y, self.z)
    }
}

impl Serialize for PlaySpawnWeatherEntitySpec {
    /// The fields' encodings, one behind the other.
    open spec fn wire(&self) -> Seq<u8> {
        self.fields().wire()
    }

    fn mc_serialize<S: Serializer>(&self, to: &mut S) -> (res: SerializeResult) {
        let ghost before = to.written();
        self.entity_id.mc_serialize(to)?;
        self.entity_type.mc_serialize(to)?;
        self.x.mc_serialize(to)?;
        self.y.mc_serialize(to)?;
        let res = self.z.mc_serialize(to);
        proof {
            broadcast use lemma_concat_assoc;

            lemma_tuple5_wire(&self.fields());
        }
        res
    }
}

impl Deserialize for PlaySpawnWeatherEntitySpec {
    type Model = <PlaySpawnWeatherEntitySpecFields as Deserialize>::Model;

    open spec fn model(&self) -> Self::Model {
        self.fields().model()
    }

    /// Each field from what the one before left over.
    open spec fn decoding(data: Seq<u8>) -> Parsed<Self::Model> {
        <PlaySpawnWeatherEntitySpecFields>::decoding(data)
    }

    proof fn lemma_remainder(data: Seq<u8>) {
        <PlaySpawnWeatherEntitySpecFields>::lemma_remainder(data);
    }

    fn mc_deserialize(data: &[u8]) -> (res: DeserializeResult<'_, Self>) {
        let Deserialized { value, data: rest } =
            <PlaySpawnWeatherEntitySpecFields>::mc_deserialize(data)?;
        let (entity_id, entity_type, x, y, z) = value;
        Deserialized::ok(PlaySpawnWeatherEntitySpec { entity_id, entity_type, x, y, z }, rest)
    }
}

impl ProtocolType for PlaySpawnWeatherEntitySpec {
    open spec fn legal(&self) -> bool {
        self.fields().legal()
    }

    open spec fn self_delimiting() -> bool {
        <PlaySpawnWeatherEntitySpecFields>::self_delimiting()
    }

    proof fn lemma_round_trip(&self, rest: Seq<u8>) {
        self.fields().lemma_round_trip(rest);
    }
}

/// What the packet `PlaySpawnLivingEntity` holds.
#[derive(Debug, Clone, PartialEq)]
pub struct PlaySpawnLivingEntitySpec {
    pub entity_id: VarInt,
    pub entity_uuid: UUID4,
    pub entity_type: VarInt,
    pub x: Double,
    pub y: Double,
    pub z: Double,
    pub yaw: Angle,
    pub pitch: Angle,
    pub head_pitch: Angle,
    pub velocity_x: i16,
    pub velocity_y: i16,
    pub velocity_z: i16,
}

/// The fields of [`PlaySpawnLivingEntitySpec`] in the order they travel.
pub type PlaySpawnLivingEntitySpecFields = (
    VarInt, UUID4, VarInt, Double, Double, Double, Angle, Angle, Angle, i16, i16, i16,
);

impl PlaySpawnLivingEntitySpec {
    pub open spec fn fields(&self) -> PlaySpawnLivingEntitySpecFields {
        (
            self.entity_id, self.entity_uuid, self.entity_type, self.x, self.y, self.z, self.yaw,
            self.pitch, self.head_pitch, self.velocity_x, self.velocity_y, self.velocity_z,
        )
    }
}

impl Serialize for PlaySpawnLivingEntitySpec {
    /// The fields' encodings, one behind the other.
    open spec fn wire(&self) -> Seq<u8> {
        self.fields().wire()
    }

    fn mc_serialize<S: Serializer>(&self, to: &mut S) -> (res: SerializeResult) {
        let ghost before = to.written();
        self.entity_id.mc_serialize(to)?;
        self.entity_uuid.mc_serialize(to)?;
        self.entity_type.mc_serialize(to)?;
        self.x.mc_serialize(to)?;
        self.y.mc_serialize(to)?;
        self.z.mc_serialize(to)?;
        self.yaw.mc_serialize(to)?;
        self.pitch.mc_serialize(to)?;
        self.head_pitch.mc_serialize(to)?;
        self.velocity_x.mc_serialize(to)?;
        self.velocity_y.mc_serialize(to)?;
        let res = self.velocity_z.mc_serialize(to);
        proof {
            broadcast use lemma_concat_assoc;

            lemma_tuple12_wire(&self.fields());
        }
        res
    }
}

impl Deserialize for PlaySpawnLivingEntitySpec {
    type Model = <PlaySpawnLivingEntitySpecFields as Deserialize>::Model;

    open spec fn model(&self) -> Self::Model {
        self.fields().model()
    }

    /// Each field from what the one before left over.
    open spec fn decoding(data: Seq<u8>) -> Parsed<Self::Model> {
        <PlaySpawnLivingEntitySpecFields>::decoding(data)
    }

    proof fn lemma_remainder(data: Seq<u8>) {
        <PlaySpawnLivingEntitySpecFields>::lemma_remainder(data);
    }

    fn mc_deserialize(data: &[u8]) -> (res: DeserializeResult<'_, Self>) {
        let Deserialized { value, data: rest } =
            <PlaySpawnLivingEntitySpecFields>::mc_deserialize(data)?;
        let (
            entity_id, entity_uuid, entity_type, x, y, z, yaw, pitch, head_pitch, velocity_x,
            velocity_y, velocity_z,
        ) = value;
        Deserialized::ok(PlaySpawnLivingEntitySpec {
            entity_id, entity_uuid, entity_type, x, y, z, yaw, pitch, head_pitch, velocity_x,
            velocity_y, velocity_z,
        }, rest)
    }
}

impl ProtocolType for PlaySpawnLivingEntitySpec {
    open spec fn legal(&self) -> bool {
        self.fields().legal()
    }

    open spec fn self_delimiting() -> bool {
        <PlaySpawnLivingEntitySpecFields>::self_delimiting()
    }

    proof fn lemma_round_trip(&self, rest: Seq<u8>) {
        self.fields().lemma_round_trip(rest);
    }
}

/// What the packet `PlaySpawnPainting` holds.
#[derive(Debug, Clone, PartialEq)]
pub struct PlaySpawnPaintingSpec {
    pub entity_id: VarInt,
    pub entity_uuid: UUID4,
    pub motive: VarInt,
    pub location: IntPosition,
    pub direction: CardinalDirection,
}

/// The fields of [`PlaySpawnPaintingSpec`] in the order they travel.
pub type PlaySpawnPaintingSpecFields = (VarInt, UUID4, VarInt, IntPosition, CardinalDirection);

impl PlaySpawnPaintingSpec {
    pub open spec fn fields(&self) -> PlaySpawnPaintingSpecFields {
        (self.entity_id, self.entity_uuid, self.motive, self.location, self.direction)
    }
}

impl Serialize for PlaySpawnPaintingSpec {
    /// The fields' encodings, one behind the other.
    open spec fn wire(&self) -> Seq<u8> {
        self.fields().wire()
    }

    fn mc_serialize<S: Serializer>(&self, to: &mut S) -> (res: SerializeResult) {
        let ghost before = to.written();
        self.entity_id.mc_serialize(to)?;
        self.entity_uuid.mc_serialize(to)?;
        self.motive.mc_serialize(to)?;
        self.location.mc_serialize(to)?;
        let res = self.direction.mc_serialize(to);
        proof {
            broadcast use lemma_concat_assoc;

            lemma_tuple5_wire(&self.fields());
        }
        res
    }
}

impl Deserialize for PlaySpawnPaintingSpec {
    type Model = <PlaySpawnPaintingSpecFields as Deserialize>::Model;

    open spec fn model(&self) -> Self::Model {
        self.fields().model()
    }

    /// Each field from what the one before left over.
    open spec fn decoding(data: Seq<u8>) -> Parsed<Self::Model> {
        <PlaySpawnPaintingSpecFields>::decoding(data)
    }

    proof fn lemma_remainder(data: Seq<u8>) {
        <PlaySpawnPaintingSpecFields>::lemma_remainder(data);
    }

    fn mc_deserialize(data: &[u8]) -> (res: DeserializeResult<'_, Self>) {
        let Deserialized { value, data: rest } =
            <PlaySpawnPaintingSpecFields>::mc_deserialize(data)?;
        let (entity_id, entity_uuid, motive, location, direction) = value;
        Deserialized::ok(PlaySpawnPaintingSpec {
            entity_id, entity_uuid, motive, location, direction,
        }, rest)
    }
}

impl ProtocolType for PlaySpawnPaintingSpec {
    open spec fn legal(&self) -> bool {
        self.fields().legal()
    }

    open spec fn self_delimiting() -> bool {
        <PlaySpawnPaintingSpecFields>::self_delimiting()
    }

    proof fn lemma_round_trip(&self, rest: Seq<u8>) {
        self.fields().lemma_round_trip(rest);
    }
}

/// What the packet `PlaySpawnPlayer` holds.
#[derive(Debug, Clone, PartialEq)]
pub struct PlaySpawnPlayerSpec {
    pub entity_id: VarInt,
    pub uuid: UUID4,
    pub x: Double,
    pub y: Double,
    pub z: Double,
    pub yaw: Angle,
    pub pitch: Angle,
}

/// The fields of [`PlaySpawnPlayerSpec`] in the order they travel.
pub type PlaySpawnPlayerSpecFields = (VarInt, UUID4, Double, Double, Double, Angle, Angle);

impl PlaySpawnPlayerSpec {
    pub open spec fn fields(&self) -> PlaySpawnPlayerSpecFields {
        (self.entity_id, self.uuid, self.x, self.y, self.z, self.yaw, self.pitch)
    }
}

impl Serialize for PlaySpawnPlayerSpec {
    /// The fields' encodings, one behind the other.
    open spec fn wire(&self) -> Seq<u8> {
        self.fields().wire()
    }

    fn mc_serialize<S: Serializer>(&self, to: &mut S) -> (res: SerializeResult) {
        let ghost before = to.written();
        self.entity_id.mc_serialize(to)?;
        self.uuid.mc_serialize(to)?;
        self.x.mc_serialize(to)?;
        self.y.mc_serialize(to)?;
        self.z.mc_serialize(to)?;
        self.yaw.mc_serialize(to)?;
        let res = self.pitch.mc_serialize(to);
        proof {
            broadcast use lemma_concat_assoc;

            lemma_tuple7_wire(&self.fields());
        }
        res
    }
}

impl Deserialize for PlaySpawnPlayerSpec {
    type Model = <PlaySpawnPlayerSpecFields as Deserialize>::Model;

    open spec fn model(&self) -> Self::Model {
        self.fields().model()
    }

    /// Each field from what the one before left over.
    open spec fn decoding(data: Seq<u8>) -> Parsed<Self::Model> {
        <PlaySpawnPlayerSpecFields>::decoding(data)
    }

    proof fn lemma_remainder(data: Seq<u8>) {
        <PlaySpawnPlayerSpecFields>::lemma_remainder(data);
    }

    fn mc_deserialize(data: &[u8]) -> (res: DeserializeResult<'_, Self>) {
        let Deserialized { value, data: rest } = <PlaySpawnPlayerSpecFields>::mc_deserialize(data)?;
        let (entity_id, uuid, x, y, z, yaw, pitch) = value;
        Deserialized::ok(PlaySpawnPlayerSpec { entity_id, uuid, x, y, z, yaw, pitch }, rest)
    }
}

impl ProtocolType for PlaySpawnPlayerSpec {
    open spec fn legal(&self) -> bool {
        self.fields().legal()
    }

    open spec fn self_delimiting() -> bool {
        <PlaySpawnPlayerSpecFields>::self_delimiting()
    }

    proof fn lemma_round_trip(&self, rest: Seq<u8>) {
        self.fields().lemma_round_trip(rest);
    }
}

/// What the packet `PlayEntityAnimation` holds.
#[derive(Debug, Clone, PartialEq)]
pub struct PlayEntityAnimationSpec {
    pub entity_id: VarInt,
    pub animation: EntityAnimationKind,
}

/// The fields of [`PlayEntityAnimationSpec`] in the order they travel.
pub type PlayEntityAnimationSpecFields = (VarInt, EntityAnimationKind);

impl PlayEntityAnimationSpec {
    pub open spec fn fields(&self) -> PlayEntityAnimationSpecFields {
        (self.entity_id, self.animation)
    }
}

impl Serialize for PlayEntityAnimationSpec {
    /// The fields' encodings, one behind the other.
    open spec fn wire(&self) -> Seq<u8> {
        self.fields().wire()
    }

    fn mc_serialize<S: Serializer>(&self, to: &mut S) -> (res: SerializeResult) {
        let ghost before = to.written();
        self.entity_id.mc_serialize(to)?;
        let res = self.animation.mc_serialize(to);
        proof {
            broadcast use lemma_concat_assoc;

            lemma_tuple2_wire(&self.fields());
        }
        res
    }
}

impl Deserialize for PlayEntityAnimationSpec {
    type Model = <PlayEntityAnimationSpecFields as Deserialize>::Model;

    open spec fn model(&self) -> Self::Model {
        self.fields().model()
    }

    /// Each field from what the one before left over.
    open spec fn decoding(data: Seq<u8>) -> Parsed<Self::Model> {
        <PlayEntityAnimationSpecFields>::decoding(data)
    }

    proof fn lemma_remainder(data: Seq<u8>) {
        <PlayEntityAnimationSpecFields>::lemma_remainder(data);
    }

    fn mc_deserialize(data: &[u8]) -> (res: DeserializeResult<'_, Self>) {
        let Deserialized { value, data: rest } =
            <PlayEntityAnimationSpecFields>::mc_deserialize(data)?;
        let (entity_id, animation) = value;
        Deserialized::ok(PlayEntityAnimationSpec { entity_id, animation }, rest)
    }
}

impl ProtocolType for PlayEntityAnimationSpec {
    open spec fn legal(&self) -> bool {
        self.fields().legal()
    }

    open spec fn self_delimiting() -> bool {
        <PlayEntityAnimationSpecFields>::self_delimiting()
    }

    proof fn lemma_round_trip(&self, rest: Seq<u8>) {
        self.fields().lemma_round_trip(rest);
    }
}

/// What the packet `PlayStatistics` holds.
#[derive(Debug, Clone, PartialEq)]
pub struct PlayStatisticsSpec {
    pub entries: VarIntCountedArray<Statistic>,
}

/// The fields of [`PlayStatisticsSpec`] in the order they travel.
pub type PlayStatisticsSpecFields = VarIntCountedArray<Statistic>;

impl PlayStatisticsSpec {
    pub open spec fn fields(&self) -> PlayStatisticsSpecFields {
        self.entries
    }
}

impl Serialize for PlayStatisticsSpec {
    /// The fields' encodings, one behind the other.
    open spec fn wire(&self) -> Seq<u8> {
        self.fields().wire()
    }

    fn mc_serialize<S: Serializer>(&self, to: &mut S) -> (res: SerializeResult) {
        self.entries.mc_serialize(to)
    }
}

impl Deserialize for PlayStatisticsSpec {
    type Model = <PlayStatisticsSpecFields as Deserialize>::Model;

    open spec fn model(&self) -> Self::Model {
        self.fields().model()
    }

    /// Each field from what the one before left over.
    open spec fn decoding(data: Seq<u8>) -> Parsed<Self::Model> {
        <PlayStatisticsSpecFields>::decoding(data)
    }

    proof fn lemma_remainder(data: Seq<u8>) {
        <PlayStatisticsSpecFields>::lemma_remainder(data);
    }

    fn mc_deserialize(data: &[u8]) -> (res: DeserializeResult<'_, Self>) {
        let Deserialized { value: entries, data: rest } =
            <PlayStatisticsSpecFields>::mc_deserialize(data)?;
        Deserialized::ok(PlayStatisticsSpec { entries }, rest)
    }
}

impl ProtocolType for PlayStatisticsSpec {
    open spec fn legal(&self) -> bool {
        self.fields().legal()
    }

    open spec fn self_delimiting() -> bool {
        <PlayStatisticsSpecFields>::self_delimiting()
    }

    proof fn lemma_round_trip(&self, rest: Seq<u8>) {
        self.fields().lemma_round_trip(rest);
    }
}

/// What the packet `PlayAcknowledgePlayerDigging` holds.
#[derive(Debug, Clone, PartialEq)]
pub struct PlayAcknowledgePlayerDiggingSpec {
    pub location: IntPosition,
    pub block: VarInt,
    pub status: DiggingStatus,
    pub successful: bool,
}

/// The fields of [`PlayAcknowledgePlayerDiggingSpec`] in the order they travel.
pub type PlayAcknowledgePlayerDiggingSpecFields = (IntPosition, VarInt, DiggingStatus, bool);

impl PlayAcknowledgePlayerDiggingSpec {
    pub open spec fn fields(&self) -> PlayAcknowledgePlayerDiggingSpecFields {
        (self.location, self.block, self.status, self.successful)
    }
}

impl Serialize for PlayAcknowledgePlayerDiggingSpec {
    /// The fields' encodings, one behind the other.
    open spec fn wire(&self) -> Seq<u8> {
        self.fields().wire()
    }

    fn mc_serialize<S: Serializer>(&self, to: &mut S) -> (res: SerializeResult) {
        let ghost before = to.written();
        self.location.mc_serialize(to)?;
        self.block.mc_serialize(to)?;
        self.status.mc_serialize(to)?;
        let res = self.successful.mc_serialize(to);
        proof {
            broadcast use lemma_concat_assoc;

            lemma_tuple4_wire(&self.fields());
        }
        res
    }
}

impl Deserialize for PlayAcknowledgePlayerDiggingSpec {
    type Model = <PlayAcknowledgePlayerDiggingSpecFields as Deserialize>::Model;

    open spec fn model(&self) -> Self::Model {
        self.fields().model()
    }

    /// Each field from what the one before left over.
    open spec fn decoding(data: Seq<u8>) -> Parsed<Self::Model> {
        <PlayAcknowledgePlayerDiggingSpecFields>::decoding(data)
    }

    proof fn lemma_remainder(data: Seq<u8>) {
        <PlayAcknowledgePlayerDiggingSpecFields>::lemma_remainder(data);
    }

    fn mc_deserialize(data: &[u8]) -> (res: DeserializeResult<'_, Self>) {
        let Deserialized { value, data: rest } =
            <PlayAcknowledgePlayerDiggingSpecFields>::mc_deserialize(data)?;
        let (location, block, status, successful) = value;
        Deserialized::ok(PlayAcknowledgePlayerDiggingSpec {
            location, block, status, successful,
        }, rest)
    }
}

impl ProtocolType for PlayAcknowledgePlayerDiggingSpec {
    open spec fn legal(&self) -> bool {
        self.fields().legal()
    }

    open spec fn self_delimiting() -> bool {
        <PlayAcknowledgePlayerDiggingSpecFields>::self_delimiting()
    }

    proof fn lemma_round_trip(&self, rest: Seq<u8>) {
        self.fields().lemma_round_trip(rest);
    }
}

/// What the packet `PlayBlockBreakAnimation` holds.
#[derive(Debug, Clone, PartialEq)]
pub struct PlayBlockBreakAnimationSpec {
    pub entity_id: VarInt,
    pub location: IntPosition,
    pub destroy_stage: i8,
}

/// The fields of [`PlayBlockBreakAnimationSpec`] in the order they travel.
pub type PlayBlockBreakAnimationSpecFields = (VarInt, IntPosition, i8);

impl PlayBlockBreakAnimationSpec {
    pub open spec fn fields(&self) -> PlayBlockBreakAnimationSpecFields {
        (self.entity_id, self.location, self.destroy_stage)
    }
}

impl Serialize for PlayBlockBreakAnimationSpec {
    /// The fields' encodings, one behind the other.
    open spec fn wire(&self) -> Seq<u8> {
        self.fields().wire()
    }

    fn mc_serialize<S: Serializer>(&self, to: &mut S) -> (res: SerializeResult) {
        let ghost before = to.written();
        self.entity_id.mc_serialize(to)?;
        self.location.mc_serialize(to)?;
        let res = self.destroy_stage.mc_serialize(to);
        proof {
            broadcast use lemma_concat_assoc;

            lemma_tuple3_wire(&self.fields());
        }
        res
    }
}

impl Deserialize for PlayBlockBreakAnimationSpec {
    type Model = <PlayBlockBreakAnimationSpecFields as Deserialize>::Model;

    open spec fn model(&self) -> Self::Model {
        self.fields().model()
    }

    /// Each field from what the one before left over.
    open spec fn decoding(data: Seq<u8>) -> Parsed<Self::Model> {
        <PlayBlockBreakAnimationSpecFields>::decoding(data)
    }

    proof fn lemma_remainder(data: Seq<u8>) {
        <PlayBlockBreakAnimationSpecFields>::lemma_remainder(data);
    }

    fn mc_deserialize(data: &[u8]) -> (res: DeserializeResult<'_, Self>) {
        let Deserialized { value, data: rest } =
            <PlayBlockBreakAnimationSpecFields>::mc_deserialize(data)?;
        let (entity_id, location, destroy_stage) = value;
        Deserialized::ok(PlayBlockBreakAnimationSpec { entity_id, location, destroy_stage }, rest)
    }
}

impl ProtocolType for PlayBlockBreakAnimationSpec {
    open spec fn legal(&self) -> bool {
        self.fields().legal()
    }

    open spec fn self_delimiting() -> bool {
        <PlayBlockBreakAnimationSpecFields>::self_delimiting()
    }

    proof fn lemma_round_trip(&self, rest: Seq<u8>) {
        self.fields().lemma_round_trip(rest);
    }
}

/// What the packet `PlayBlockEntityData` holds.
#[derive(Debug, Clone, PartialEq)]
pub struct PlayBlockEntityDataSpec {
    pub location: IntPosition,
    pub action: BlockEntityDataAction,
    pub nbt_data: NamedNbtTag,
}

/// The fields of [`PlayBlockEntityDataSpec`] in the order they travel.
pub type PlayBlockEntityDataSpecFields = (IntPosition, BlockEntityDataAction, NamedNbtTag);

impl PlayBlockEntityDataSpec {
    pub open spec fn fields(&self) -> PlayBlockEntityDataSpecFields {
        (self.location, self.action, self.nbt_data)
    }
}

impl Serialize for PlayBlockEntityDataSpec {
    /// The fields' encodings, one behind the other.
    open spec fn wire(&self) -> Seq<u8> {
        self.fields().wire()
    }

    fn mc_serialize<S: Serializer>(&self, to: &mut S) -> (res: SerializeResult) {
        let ghost before = to.written();
        self.location.mc_serialize(to)?;
        self.action.mc_serialize(to)?;
        let res = self.nbt_data.mc_serialize(to);
        proof {
            broadcast use lemma_concat_assoc;

            lemma_tuple3_wire(&self.fields());
        }
        res
    }
}

impl Deserialize for PlayBlockEntityDataSpec {
    type Model = <PlayBlockEntityDataSpecFields as Deserialize>::Model;

    open spec fn model(&self) -> Self::Model {
        self.fields().model()
    }

    /// Each field from what the one before left over.
    open spec fn decoding(data: Seq<u8>) -> Parsed<Self::Model> {
        <PlayBlockEntityDataSpecFields>::decoding(data)
    }

    proof fn lemma_remainder(data: Seq<u8>) {
        <PlayBlockEntityDataSpecFields>::lemma_remainder(data);
    }

    fn mc_deserialize(data: &[u8]) -> (res: DeserializeResult<'_, Self>) {
        let Deserialized { value, data: rest } =
            <PlayBlockEntityDataSpecFields>::mc_deserialize(data)?;
        let (location, action, nbt_data) = value;
        Deserialized::ok(PlayBlockEntityDataSpec { location, action, nbt_data }, rest)
    }
}

impl ProtocolType for PlayBlockEntityDataSpec {
    open spec fn legal(&self) -> bool {
        self.fields().legal()
    }

    open spec fn self_delimiting() -> bool {
        <PlayBlockEntityDataSpecFields>::self_delimiting()
    }

    proof fn lemma_round_trip(&self, rest: Seq<u8>) {
        self.fields().lemma_round_trip(rest);
    }
}

/// What the packet `PlayBlockAction` holds.
#[derive(Debug, Clone, PartialEq)]
pub struct PlayBlockActionSpec {
    pub location: IntPosition,
    pub action_id: u8,
    pub action_payload: u8,
    pub block_type: VarInt,
}

/// The fields of [`PlayBlockActionSpec`] in the order they travel.
pub type PlayBlockActionSpecFields = (IntPosition, u8, u8, VarInt);

impl PlayBlockActionSpec {
    pub open spec fn fields(&self) -> PlayBlockActionSpecFields {
        (self.location, self.action_id, self.action_payload, self.block_type)
    }
}

impl Serialize for PlayBlockActionSpec {
    /// The fields' encodings, one behind the other.
    open spec fn wire(&self) -> Seq<u8> {
        self.fields().wire()
    }

    fn mc_serialize<S: Serializer>(&self, to: &mut S) -> (res: SerializeResult) {
        let ghost before = to.written();
        self.location.mc_serialize(to)?;
        self.action_id.mc_serialize(to)?;
        self.action_payload.mc_serialize(to)?;
        let res = self.block_type.mc_serialize(to);
        proof {
            broadcast use lemma_concat_assoc;

            lemma_tuple4_wire(&self.fields());
        }
        res
    }
}

impl Deserialize for PlayBlockActionSpec {
    type Model = <PlayBlockActionSpecFields as Deserialize>::Model;

    open spec fn model(&self) -> Self::Model {
        self.fields().model()
    }

    /// Each field from what the one before left over.
    open spec fn decoding(data: Seq<u8>) -> Parsed<Self::Model> {
        <PlayBlockActionSpecFields>::decoding(data)
    }

    proof fn lemma_remainder(data: Seq<u8>) {
        <PlayBlockActionSpecFields>::lemma_remainder(data);
    }

    fn mc_deserialize(data: &[u8]) -> (res: DeserializeResult<'_, Self>) {
        let Deserialized { value, data: rest } = <PlayBlockActionSpecFields>::mc_deserialize(data)?;
        let (location, action_id, action_payload, block_type) = value;
        Deserialized::ok(PlayBlockActionSpec {
            location, action_id, action_payload, block_type,
        }, rest)
    }
}

impl ProtocolType for PlayBlockActionSpec {
    open spec fn legal(&self) -> bool {
        self.fields().legal()
    }

    open spec fn self_delimiting() -> bool {
        <PlayBlockActionSpecFields>::self_delimiting()
    }

    proof fn lemma_round_trip(&self, rest: Seq<u8>) {
        self.fields().lemma_round_trip(rest);
    }
}

/// What the packet `PlayBlockChange` holds.
#[derive(Debug, Clone, PartialEq)]
pub struct PlayBlockChangeSpec {
    pub location: IntPosition,
    pub block_id: VarInt,
}

/// The fields of [`PlayBlockChangeSpec`] in the order they travel.
pub type PlayBlockChangeSpecFields = (IntPosition, VarInt);

impl PlayBlockChangeSpec {
    pub open spec fn fields(&self) -> PlayBlockChangeSpecFields {
        (self.location, self.block_id)
    }
}

impl Serialize for PlayBlockChangeSpec {
    /// The fields' encodings, one behind the other.
    open spec fn wire(&self) -> Seq<u8> {
        self.fields().wire()
    }

    fn mc_serialize<S: Serializer>(&self, to: &mut S) -> (res: SerializeResult) {
        let ghost before = to.written();
        self.location.mc_serialize(to)?;
        let res = self.block_id.mc_serialize(to);
        proof {
            broadcast use lemma_concat_assoc;

            lemma_tuple2_wire(&self.fields());
        }
        res
    }
}

impl Deserialize for PlayBlockChangeSpec {
    type Model = <PlayBlockChangeSpecFields as Deserialize>::Model;

    open spec fn model(&self) -> Self::Model {
        self.fields().model()
    }

    /// Each field from what the one before left over.
    open spec fn decoding(data: Seq<u8>) -> Parsed<Self::Model> {
        <PlayBlockChangeSpecFields>::decoding(data)
    }

    proof fn lemma_remainder(data: Seq<u8>) {
        <PlayBlockChangeSpecFields>::lemma_remainder(data);
    }

    fn mc_deserialize(data: &[u8]) -> (res: DeserializeResult<'_, Self>) {
        let Deserialized { value, data: rest } = <PlayBlockChangeSpecFields>::mc_deserialize(data)?;
        let (location, block_id) = value;
        Deserialized::ok(PlayBlockChangeSpec { location, block_id }, rest)
    }
}

impl ProtocolType for PlayBlockChangeSpec {
    open spec fn legal(&self) -> bool {
        self.fields().legal()
    }

    open spec fn self_delimiting() -> bool {
        <PlayBlockChangeSpecFields>::self_delimiting()
    }

    proof fn lemma_round_trip(&self, rest: Seq<u8>) {
        self.fields().lemma_round_trip(rest);
    }
}

/// What the packet `PlayBossBar` holds.
#[derive(Debug, Clone, PartialEq)]
pub struct PlayBossBarSpec {
    pub uuid: UUID4,
    pub action: BossBarAction,
}

/// The fields of [`PlayBossBarSpec`] in the order they travel.
pub type PlayBossBarSpecFields = (UUID4, BossBarAction);

impl PlayBossBarSpec {
    pub open spec fn fields(&self) -> PlayBossBarSpecFields {
        (self.uuid, self.action)
    }
}

impl Serialize for PlayBossBarSpec {
    /// The fields' encodings, one behind the other.
    open spec fn wire(&self) -> Seq<u8> {
        self.fields().wire()
    }

    fn mc_serialize<S: Serializer>(&self, to: &mut S) -> (res: SerializeResult) {
        let ghost before = to.written();
        self.uuid.mc_serialize(to)?;
        let res = self.action.mc_serialize(to);
        proof {
            broadcast use lemma_concat_assoc;

            lemma_tuple2_wire(&self.fields());
        }
        res
    }
}

impl Deserialize for PlayBossBarSpec {
    type Model = <PlayBossBarSpecFields as Deserialize>::Model;

    open spec fn model(&self) -> Self::Model {
        self.fields().model()
    }

    /// Each field from what the one before left over.
    open spec fn decoding(data: Seq<u8>) -> Parsed<Self::Model> {
        <PlayBossBarSpecFields>::decoding(data)
    }

    proof fn lemma_remainder(data: Seq<u8>) {
        <PlayBossBarSpecFields>::lemma_remainder(data);
    }

    fn mc_deserialize(data: &[u8]) -> (res: DeserializeResult<'_, Self>) {
        let Deserialized { value, data: rest } = <PlayBossBarSpecFields>::mc_deserialize(data)?;
        let (uuid, action) = value;
        Deserialized::ok(PlayBossBarSpec { uuid, action }, rest)
    }
}

impl ProtocolType for PlayBossBarSpec {
    open spec fn legal(&self) -> bool {
        self.fields().legal()
    }

    open spec fn self_delimiting() -> bool {
        <PlayBossBarSpecFields>::self_delimiting()
    }

    proof fn lemma_round_trip(&self, rest: Seq<u8>) {
        self.fields().lemma_round_trip(rest);
    }
}

/// What the packet `PlayServerDifficulty` holds.
#[derive(Debug, Clone, PartialEq)]
pub struct PlayServerDifficultySpec {
    pub difficulty: Difficulty,
    pub locked: bool,
}

/// The fields of [`PlayServerDifficultySpec`] in the order they travel.
pub type PlayServerDifficultySpecFields = (Difficulty, bool);

impl PlayServerDifficultySpec {
    pub open spec fn fields(&self) -> PlayServerDifficultySpecFields {
        (self.difficulty, self.locked)
    }
}

impl Serialize for PlayServerDifficultySpec {
    /// The fields' encodings, one behind the other.
    open spec fn wire(&self) -> Seq<u8> {
        self.fields().wire()
    }

    fn mc_serialize<S: Serializer>(&self, to: &mut S) -> (res: SerializeResult) {
        let ghost before = to.written();
        self.difficulty.mc_serialize(to)?;
        let res = self.locked.mc_serialize(to);
        proof {
            broadcast use lemma_concat_assoc;

            lemma_tuple2_wire(&self.fields());
        }
        res
    }
}

impl Deserialize for PlayServerDifficultySpec {
    type Model = <PlayServerDifficultySpecFields as Deserialize>::Model;

    open spec fn model(&self) -> Self::Model {
        self.fields().model()
    }

    /// Each field from what the one before left over.
    open spec fn decoding(data: Seq<u8>) -> Parsed<Self::Model> {
        <PlayServerDifficultySpecFields>::decoding(data)
    }

    proof fn lemma_remainder(data: Seq<u8>) {
        <PlayServerDifficultySpecFields>::lemma_remainder(data);
    }

    fn mc_deserialize(data: &[u8]) -> (res: DeserializeResult<'_, Self>) {
        let Deserialized { value, data: rest } =
            <PlayServerDifficultySpecFields>::mc_deserialize(data)?;
        let (difficulty, locked) = value;
        Deserialized::ok(PlayServerDifficultySpec { difficulty, locked }, rest)
    }
}

impl ProtocolType for PlayServerDifficultySpec {
    open spec fn legal(&self) -> bool {
        self.fields().legal()
    }

    open spec fn self_delimiting() -> bool {
        <PlayServerDifficultySpecFields>::self_delimiting()
    }

    proof fn lemma_round_trip(&self, rest: Seq<u8>) {
        self.fields().lemma_round_trip(rest);
    }
}

/// What the packet `PlayServerChatMessage` holds.
#[derive(Debug, Clone, PartialEq)]
pub struct PlayServerChatMessageSpec {
    pub message: JsonText,
    pub position: ChatPosition,
}

/// The fields of [`PlayServerChatMessageSpec`] in the order they travel.
pub type PlayServerChatMessageSpecFields = (JsonText, ChatPosition);

impl PlayServerChatMessageSpec {
    pub open spec fn fields(&self) -> PlayServerChatMessageSpecFields {
        (self.message, self.position)
    }
}

impl Serialize for PlayServerChatMessageSpec {
    /// The fields' encodings, one behind the other.
    open spec fn wire(&self) -> Seq<u8> {
        self.fields().wire()
    }

    fn mc_serialize<S: Serializer>(&self, to: &mut S) -> (res: SerializeResult) {
        let ghost before = to.written();
        self.message.mc_serialize(to)?;
        let res = self.position.mc_serialize(to);
        proof {
            broadcast use lemma_concat_assoc;

            lemma_tuple2_wire(&self.fields());
        }
        res
    }
}

impl Deserialize for PlayServerChatMessageSpec {
    type Model = <PlayServerChatMessageSpecFields as Deserialize>::Model;

    open spec fn model(&self) -> Self::Model {
        self.fields().model()
    }

    /// Each field from what the one before left over.
    open spec fn decoding(data: Seq<u8>) -> Parsed<Self::Model> {
        <PlayServerChatMessageSpecFields>::decoding(data)
    }

    proof fn lemma_remainder(data: Seq<u8>) {
        <PlayServerChatMessageSpecFields>::lemma_remainder(data);
    }

    fn mc_deserialize(data: &[u8]) -> (res: DeserializeResult<'_, Self>) {
        let Deserialized { value, data: rest } =
            <PlayServerChatMessageSpecFields>::mc_deserialize(data)?;
        let (message, position) = value;
        Deserialized::ok(PlayServerChatMessageSpec { message, position }, rest)
    }
}

impl ProtocolType for PlayServerChatMessageSpec {
    open spec fn legal(&self) -> bool {
        self.fields().legal()
    }

    open spec fn self_delimiting() -> bool {
        <PlayServerChatMessageSpecFields>::self_delimiting()
    }

    proof fn lemma_round_trip(&self, rest: Seq<u8>) {
        self.fields().lemma_round_trip(rest);
    }
}

/// What the packet `PlayMultiBlockChange` holds.
#[derive(Debug, Clone, PartialEq)]
pub struct PlayMultiBlockChangeSpec {
    pub chunk_x: i32,
    pub chunk_z: i32,
    pub changes: VarIntCountedArray<MultiBlockChangeRecord>,
}

/// The fields of [`PlayMultiBlockChangeSpec`] in the order they travel.
pub type PlayMultiBlockChangeSpecFields = (i32, i32, VarIntCountedArray<MultiBlockChangeRecord>);

impl PlayMultiBlockChangeSpec {
    pub open spec fn fields(&self) -> PlayMultiBlockChangeSpecFields {
        (self.chunk_x, self.chunk_z, self.changes)
    }
}

impl Serialize for PlayMultiBlockChangeSpec {
    /// The fields' encodings, one behind the other.
    open spec fn wire(&self) -> Seq<u8> {
        self.fields().wire()
    }

    fn mc_serialize<S: Serializer>(&self, to: &mut S) -> (res: SerializeResult) {
        let ghost before = to.written();
        self.chunk_x.mc_serialize(to)?;
        self.chunk_z.mc_serialize(to)?;
        let res = self.changes.mc_serialize(to);
        proof {
            broadcast use lemma_concat_assoc;

            lemma_tuple3_wire(&self.fields());
        }
        res
    }
}

impl Deserialize for PlayMultiBlockChangeSpec {
    type Model = <PlayMultiBlockChangeSpecFields as Deserialize>::Model;

    open spec fn model(&self) -> Self::Model {
        self.fields().model()
    }

    /// Each field from what the one before left over.
    open spec fn decoding(data: Seq<u8>) -> Parsed<Self::Model> {
        <PlayMultiBlockChangeSpecFields>::decoding(data)
    }

    proof fn lemma_remainder(data: Seq<u8>) {
        <PlayMultiBlockChangeSpecFields>::lemma_remainder(data);
    }

    fn mc_deserialize(data: &[u8]) -> (res: DeserializeResult<'_, Self>) {
        let Deserialized { value, data: rest } =
            <PlayMultiBlockChangeSpecFields>::mc_deserialize(data)?;
        let (chunk_x, chunk_z, changes) = value;
        Deserialized::ok(PlayMultiBlockChangeSpec { chunk_x, chunk_z, changes }, rest)
    }
}

impl ProtocolType for PlayMultiBlockChangeSpec {
    open spec fn legal(&self) -> bool {
        self.fields().legal()
    }

    open spec fn self_delimiting() -> bool {
        <PlayMultiBlockChangeSpecFields>::self_delimiting()
    }

    proof fn lemma_round_trip(&self, rest: Seq<u8>) {
        self.fields().lemma_round_trip(rest);
    }
}

/// What the packet `PlayTabComplete` holds.
#[derive(Debug, Clone, PartialEq)]
pub struct PlayTabCompleteSpec {
    pub id: VarInt,
    pub start: VarInt,
    pub length: VarInt,
    pub matches: VarIntCountedArray<TabCompleteMatch>,
}

/// The fields of [`PlayTabCompleteSpec`] in the order they travel.
pub type PlayTabCompleteSpecFields = (
    VarInt, VarInt, VarInt, VarIntCountedArray<TabCompleteMatch>,
);

impl PlayTabCompleteSpec {
    pub open spec fn fields(&self) -> PlayTabCompleteSpecFields {
        (self.id, self.start, self.length, self.matches)
    }
}

impl Serialize for PlayTabCompleteSpec {
    /// The fields' encodings, one behind the other.
    open spec fn wire(&self) -> Seq<u8> {
        self.fields().wire()
    }

    fn mc_serialize<S: Serializer>(&self, to: &mut S) -> (res: SerializeResult) {
        let ghost before = to.written();
        self.id.mc_serialize(to)?;
        self.start.mc_serialize(to)?;
        self.length.mc_serialize(to)?;
        let res = self.matches.mc_serialize(to);
        proof {
            broadcast use lemma_concat_assoc;

            lemma_tuple4_wire(&self.fields());
        }
        res
    }
}

impl Deserialize for PlayTabCompleteSpec {
    type Model = <PlayTabCompleteSpecFields as Deserialize>::Model;

    open spec fn model(&self) -> Self::Model {
        self.fields().model()
    }

    /// Each field from what the one before left over.
    open spec fn decoding(data: Seq<u8>) -> Parsed<Self::Model> {
        <PlayTabCompleteSpecFields>::decoding(data)
    }

    proof fn lemma_remainder(data: Seq<u8>) {
        <PlayTabCompleteSpecFields>::lemma_remainder(data);
    }

    fn mc_deserialize(data: &[u8]) -> (res: DeserializeResult<'_, Self>) {
        let Deserialized { value, data: rest } = <PlayTabCompleteSpecFields>::mc_deserialize(data)?;
        let (id, start, length, matches) = value;
        Deserialized::ok(PlayTabCompleteSpec { id, start, length, matches }, rest)
    }
}

impl ProtocolType for PlayTabCompleteSpec {
    open spec fn legal(&self) -> bool {
        self.fields().legal()
    }

    open spec fn self_delimiting() -> bool {
        <PlayTabCompleteSpecFields>::self_delimiting()
    }

    proof fn lemma_round_trip(&self, rest: Seq<u8>) {
        self.fields().lemma_round_trip(rest);
    }
}

/// What the packet `PlayDeclareCommands` holds.
#[derive(Debug, Clone, PartialEq)]
pub struct PlayDeclareCommandsSpec {
    pub raw_data: RemainingBytes,
}

/// The fields of [`PlayDeclareCommandsSpec`] in the order they travel.
pub type PlayDeclareCommandsSpecFields = RemainingBytes;

impl PlayDeclareCommandsSpec {
    pub open spec fn fields(&self) -> PlayDeclareCommandsSpecFields {
        self.raw_data
    }
}

impl Serialize for PlayDeclareCommandsSpec {
    /// The fields' encodings, one behind the other.
    open spec fn wire(&self) -> Seq<u8> {
        self.fields().wire()
    }

    fn mc_serialize<S: Serializer>(&self, to: &mut S) -> (res: SerializeResult) {
        self.raw_data.mc_serialize(to)
    }
}

impl Deserialize for PlayDeclareCommandsSpec {
    type Model = <PlayDeclareCommandsSpecFields as Deserialize>::Model;

    open spec fn model(&self) -> Self::Model {
        self.fields().model()
    }

    /// Each field from what the one before left over.
    open spec fn decoding(data: Seq<u8>) -> Parsed<Self::Model> {
        <PlayDeclareCommandsSpecFields>::decoding(data)
    }

    proof fn lemma_remainder(data: Seq<u8>) {
        <PlayDeclareCommandsSpecFields>::lemma_remainder(data);
    }

    fn mc_deserialize(data: &[u8]) -> (res: DeserializeResult<'_, Self>) {
        let Deserialized { value: raw_data, data: rest } =
            <PlayDeclareCommandsSpecFields>::mc_deserialize(data)?;
        Deserialized::ok(PlayDeclareCommandsSpec { raw_data }, rest)
    }
}

impl ProtocolType for PlayDeclareCommandsSpec {
    open spec fn legal(&self) -> bool {
        self.fields().legal()
    }

    open spec fn self_delimiting() -> bool {
        <PlayDeclareCommandsSpecFields>::self_delimiting()
    }

    proof fn lemma_round_trip(&self, rest: Seq<u8>) {
        self.fields().lemma_round_trip(rest);
    }
}

/// What the packet `PlayServerWindowConfirmation` holds.
#[derive(Debug, Clone, PartialEq)]
pub struct PlayServerWindowConfirmationSpec {
    pub window_id: u8,
    pub action_number: i16,
    pub accepted: bool,
}

/// The fields of [`PlayServerWindowConfirmationSpec`] in the order they travel.
pub type PlayServerWindowConfirmationSpecFields = (u8, i16, bool);

impl PlayServerWindowConfirmationSpec {
    pub open spec fn fields(&self) -> PlayServerWindowConfirmationSpecFields {
        (self.window_id, self.action_number, self.accepted)
    }
}

impl Serialize for PlayServerWindowConfirmationSpec {
    /// The fields' encodings, one behind the other.
    open spec fn wire(&self) -> Seq<u8> {
        self.fields().wire()
    }

    fn mc_serialize<S: Serializer>(&self, to: &mut S) -> (res: SerializeResult) {
        let ghost before = to.written();
        self.window_id.mc_serialize(to)?;
        self.action_number.mc_serialize(to)?;
        let res = self.accepted.mc_serialize(to);
        proof {
            broadcast use lemma_concat_assoc;

            lemma_tuple3_wire(&self.fields());
        }
        res
    }
}

impl Deserialize for PlayServerWindowConfirmationSpec {
    type Model = <PlayServerWindowConfirmationSpecFields as Deserialize>::Model;

    open spec fn model(&self) -> Self::Model {
        self.fields().model()
    }

    /// Each field from what the one before left over.
    open spec fn decoding(data: Seq<u8>) -> Parsed<Self::Model> {
        <PlayServerWindowConfirmationSpecFields>::decoding(data)
    }

    proof fn lemma_remainder(data: Seq<u8>) {
        <PlayServerWindowConfirmationSpecFields>::lemma_remainder(data);
    }

    fn mc_deserialize(data: &[u8]) -> (res: DeserializeResult<'_, Self>) {
        let Deserialized { value, data: rest } =
            <PlayServerWindowConfirmationSpecFields>::mc_deserialize(data)?;
        let (window_id, action_number, accepted) = value;
        Deserialized::ok(PlayServerWindowConfirmationSpec {
            window_id, action_number, accepted,
        }, rest)
    }
}

impl ProtocolType for PlayServerWindowConfirmationSpec {
    open spec fn legal(&self) -> bool {
        self.fields().legal()
    }

    open spec fn self_delimiting() -> bool {
        <PlayServerWindowConfirmationSpecFields>::self_delimiting()
    }

    proof fn lemma_round_trip(&self, rest: Seq<u8>) {
        self.fields().lemma_round_trip(rest);
    }
}

/// What the packet `PlayServerCloseWindow` holds.
#[derive(Debug, Clone, PartialEq)]
pub struct PlayServerCloseWindowSpec {
    pub window_id: u8,
}

/// The fields of [`PlayServerCloseWindowSpec`] in the order they travel.
pub type PlayServerCloseWindowSpecFields = u8;

impl PlayServerCloseWindowSpec {
    pub open spec fn fields(&self) -> PlayServerCloseWindowSpecFields {
        self.window_id
    }
}

impl Serialize for PlayServerCloseWindowSpec {
    /// The fields' encodings, one behind the other.
    open spec fn wire(&self) -> Seq<u8> {
        self.fields().wire()
    }

    fn mc_serialize<S: Serializer>(&self, to: &mut S) -> (res: SerializeResult) {
        self.window_id.mc_serialize(to)
    }
}

impl Deserialize for PlayServerCloseWindowSpec {
    type Model = <PlayServerCloseWindowSpecFields as Deserialize>::Model;

    open spec fn model(&self) -> Self::Model {
        self.fields().model()
    }

    /// Each field from what the one before left over.
    open spec fn decoding(data: Seq<u8>) -> Parsed<Self::Model> {
        <PlayServerCloseWindowSpecFields>::decoding(data)
    }

    proof fn lemma_remainder(data: Seq<u8>) {
        <PlayServerCloseWindowSpecFields>::lemma_remainder(data);
    }

    fn mc_deserialize(data: &[u8]) -> (res: DeserializeResult<'_, Self>) {
        let Deserialized { value: window_id, data: rest } =
            <PlayServerCloseWindowSpecFields>::mc_deserialize(data)?;
        Deserialized::ok(PlayServerCloseWindowSpec { window_id }, rest)
    }
}

impl ProtocolType for PlayServerCloseWindowSpec {
    open spec fn legal(&self) -> bool {
        self.fields().legal()
    }

    open spec fn self_delimiting() -> bool {
        <PlayServerCloseWindowSpecFields>::self_delimiting()
    }

    proof fn lemma_round_trip(&self, rest: Seq<u8>) {
        self.fields().lemma_round_trip(rest);
    }
}

/// What the packet `PlayWindowItems` holds.
#[derive(Debug, Clone, PartialEq)]
pub struct PlayWindowItemsSpec {
    pub window_id: u8,
    pub slots: ShortCountedArray<Option<Slot>>,
}

/// The fields of [`PlayWindowItemsSpec`] in the order they travel.
pub type PlayWindowItemsSpecFields = (u8, ShortCountedArray<Option<Slot>>);

impl PlayWindowItemsSpec {
    pub open spec fn fields(&self) -> PlayWindowItemsSpecFields {
        (self.window_id, self.slots)
    }
}

impl Serialize for PlayWindowItemsSpec {
    /// The fields' encodings, one behind the other.
    open spec fn wire(&self) -> Seq<u8> {
        self.fields().wire()
    }

    fn mc_serialize<S: Serializer>(&self, to: &mut S) -> (res: SerializeResult) {
        let ghost before = to.written();
        self.window_id.mc_serialize(to)?;
        let res = self.slots.mc_serialize(to);
        proof {
            broadcast use lemma_concat_assoc;

            lemma_tuple2_wire(&self.fields());
        }
        res
    }
}

impl Deserialize for PlayWindowItemsSpec {
    type Model = <PlayWindowItemsSpecFields as Deserialize>::Model;

    open spec fn model(&self) -> Self::Model {
        self.fields().model()
    }

    /// Each field from what the one before left over.
    open spec fn decoding(data: Seq<u8>) -> Parsed<Self::Model> {
        <PlayWindowItemsSpecFields>::decoding(data)
    }

    proof fn lemma_remainder(data: Seq<u8>) {
        <PlayWindowItemsSpecFields>::lemma_remainder(data);
    }

    fn mc_deserialize(data: &[u8]) -> (res: DeserializeResult<'_, Self>) {
        let Deserialized { value, data: rest } = <PlayWindowItemsSpecFields>::mc_deserialize(data)?;
        let (window_id, slots) = value;
        Deserialized::ok(PlayWindowItemsSpec { window_id, slots }, rest)
    }
}

impl ProtocolType for PlayWindowItemsSpec {
    open spec fn legal(&self) -> bool {
        self.fields().legal()
    }

    open spec fn self_delimiting() -> bool {
        <PlayWindowItemsSpecFields>::self_delimiting()
    }

    proof fn lemma_round_trip(&self, rest: Seq<u8>) {
        self.fields().lemma_round_trip(rest);
    }
}

/// What the packet `PlayWindowProperty` holds.
#[derive(Debug, Clone, PartialEq)]
pub struct PlayWindowPropertySpec {
    pub window_id: u8,
    pub property: i16,
    pub value: i16,
}

/// The fields of [`PlayWindowPropertySpec`] in the order they travel.
pub type PlayWindowPropertySpecFields = (u8, i16, i16);

impl PlayWindowPropertySpec {
    pub open spec fn fields(&self) -> PlayWindowPropertySpecFields {
        (self.window_id, self.property, self.value)
    }
}

impl Serialize for PlayWindowPropertySpec {
    /// The fields' encodings, one behind the other.
    open spec fn wire(&self) -> Seq<u8> {
        self.fields().wire()
    }

    fn mc_serialize<S: Serializer>(&self, to: &mut S) -> (res: SerializeResult) {
        let ghost before = to.written();
        self.window_id.mc_serialize(to)?;
        self.property.mc_serialize(to)?;
        let res = self.value.mc_serialize(to);
        proof {
            broadcast use lemma_concat_assoc;

            lemma_tuple3_wire(&self.fields());
        }
        res
    }
}

impl Deserialize for PlayWindowPropertySpec {
    type Model = <PlayWindowPropertySpecFields as Deserialize>::Model;

    open spec fn model(&self) -> Self::Model {
        self.fields().model()
    }

    /// Each field from what the one before left over.
    open spec fn decoding(data: Seq<u8>) -> Parsed<Self::Model> {
        <PlayWindowPropertySpecFields>::decoding(data)
    }

    proof fn lemma_remainder(data: Seq<u8>) {
        <PlayWindowPropertySpecFields>::lemma_remainder(data);
    }

    fn mc_deserialize(data: &[u8]) -> (res: DeserializeResult<'_, Self>) {
        let Deserialized { value, data: rest } =
            <PlayWindowPropertySpecFields>::mc_deserialize(data)?;
        let (window_id, property, value) = value;
        Deserialized::ok(PlayWindowPropertySpec { window_id, property, value }, rest)
    }
}

impl ProtocolType for PlayWindowPropertySpec {
    open spec fn legal(&self) -> bool {
        self.fields().legal()
    }

    open spec fn self_delimiting() -> bool {
        <PlayWindowPropertySpecFields>::self_delimiting()
    }

    proof fn lemma_round_trip(&self, rest: Seq<u8>) {
        self.fields().lemma_round_trip(rest);
    }
}

/// What the packet `PlaySetSlot` holds.
#[derive(Debug, Clone, PartialEq)]
pub struct PlaySetSlotSpec {
    pub window_id: u8,
    pub slow: i16,
    pub slot_data: Option<Slot>,
}

/// The fields of [`PlaySetSlotSpec`] in the order they travel.
pub type PlaySetSlotSpecFields = (u8, i16, Option<Slot>);

impl PlaySetSlotSpec {
    pub open spec fn fields(&self) -> PlaySetSlotSpecFields {
        (self.window_id, self.slow, self.slot_data)
    }
}

impl Serialize for PlaySetSlotSpec {
    /// The fields' encodings, one behind the other.
    open spec fn wire(&self) -> Seq<u8> {
        self.fields().wire()
    }

    fn mc_serialize<S: Serializer>(&self, to: &mut S) -> (res: SerializeResult) {
        let ghost before = to.written();
        self.window_id.mc_serialize(to)?;
        self.slow.mc_serialize(to)?;
        let res = self.slot_data.mc_serialize(to);
        proof {
            broadcast use lemma_concat_assoc;

            lemma_tuple3_wire(&self.fields());
        }
        res
    }
}

impl Deserialize for PlaySetSlotSpec {
    type Model = <PlaySetSlotSpecFields as Deserialize>::Model;

    open spec fn model(&self) -> Self::Model {
        self.fields().model()
    }

    /// Each field from what the one before left over.
    open spec fn decoding(data: Seq<u8>) -> Parsed<Self::Model> {
        <PlaySetSlotSpecFields>::decoding(data)
    }

    proof fn lemma_remainder(data: Seq<u8>) {
        <PlaySetSlotSpecFields>::lemma_remainder(data);
    }

    fn mc_deserialize(data: &[u8]) -> (res: DeserializeResult<'_, Self>) {
        let Deserialized { value, data: rest } = <PlaySetSlotSpecFields>::mc_deserialize(data)?;
        let (window_id, slow, slot_data) = value;
        Deserialized::ok(PlaySetSlotSpec { window_id, slow, slot_data }, rest)
    }
}

impl ProtocolType for PlaySetSlotSpec {
    open spec fn legal(&self) -> bool {
        self.fields().legal()
    }

    open spec fn self_delimiting() -> bool {
        <PlaySetSlotSpecFields>::self_delimiting()
    }

    proof fn lemma_round_trip(&self, rest: Seq<u8>) {
        self.fields().lemma_round_trip(rest);
    }
}

/// What the packet `PlaySetCooldown` holds.
#[derive(Debug, Clone, PartialEq)]
pub struct PlaySetCooldownSpec {
    pub item_id: VarInt,
    pub cooldown_ticks: VarInt,
}

/// The fields of [`PlaySetCooldownSpec`] in the order they travel.
pub type PlaySetCooldownSpecFields = (VarInt, VarInt);

impl PlaySetCooldownSpec {
    pub open spec fn fields(&self) -> PlaySetCooldownSpecFields {
        (self.item_id, self.cooldown_ticks)
    }
}

impl Serialize for PlaySetCooldownSpec {
    /// The fields' encodings, one behind the other.
    open spec fn wire(&self) -> Seq<u8> {
        self.fields().wire()
    }

    fn mc_serialize<S: Serializer>(&self, to: &mut S) -> (res: SerializeResult) {
        let ghost before = to.written();
        self.item_id.mc_serialize(to)?;
        let res = self.cooldown_ticks.mc_serialize(to);
        proof {
            broadcast use lemma_concat_assoc;

            lemma_tuple2_wire(&self.fields());
        }
        res
    }
}

impl Deserialize for PlaySetCooldownSpec {
    type Model = <PlaySetCooldownSpecFields as Deserialize>::Model;

    open spec fn model(&self) -> Self::Model {
        self.fields().model()
    }

    /// Each field from what the one before left over.
    open spec fn decoding(data: Seq<u8>) -> Parsed<Self::Model> {
        <PlaySetCooldownSpecFields>::decoding(data)
    }

    proof fn lemma_remainder(data: Seq<u8>) {
        <PlaySetCooldownSpecFields>::lemma_remainder(data);
    }

    fn mc_deserialize(data: &[u8]) -> (res: DeserializeResult<'_, Self>) {
        let Deserialized { value, data: rest } = <PlaySetCooldownSpecFields>::mc_deserialize(data)?;
        let (item_id, cooldown_ticks) = value;
        Deserialized::ok(PlaySetCooldownSpec { item_id, cooldown_ticks }, rest)
    }
}

impl ProtocolType for PlaySetCooldownSpec {
    open spec fn legal(&self) -> bool {
        self.fields().legal()
    }

    open spec fn self_delimiting() -> bool {
        <PlaySetCooldownSpecFields>::self_delimiting()
    }

    proof fn lemma_round_trip(&self, rest: Seq<u8>) {
        self.fields().lemma_round_trip(rest);
    }
}

/// What the packet `PlayServerPluginMessage` holds.
#[derive(Debug, Clone, PartialEq)]
pub struct PlayServerPluginMessageSpec {
    pub channel: String,
    pub data: RemainingBytes,
}

/// The fields of [`PlayServerPluginMessageSpec`] in the order they travel.
pub type PlayServerPluginMessageSpecFields = (String, RemainingBytes);

impl PlayServerPluginMessageSpec {
    pub open spec fn fields(&self) -> PlayServerPluginMessageSpecFields {
        (self.channel, self.data)
    }
}

impl Serialize for PlayServerPluginMessageSpec {
    /// The fields' encodings, one behind the other.
    open spec fn wire(&self) -> Seq<u8> {
        self.fields().wire()
    }

    fn mc_serialize<S: Serializer>(&self, to: &mut S) -> (res: SerializeResult) {
        let ghost before = to.written();
        self.channel.mc_serialize(to)?;
        let res = self.data.mc_serialize(to);
        proof {
            broadcast use lemma_concat_assoc;

            lemma_tuple2_wire(&self.fields());
        }
        res
    }
}

impl Deserialize for PlayServerPluginMessageSpec {
    type Model = <PlayServerPluginMessageSpecFields as Deserialize>::Model;

    open spec fn model(&self) -> Self::Model {
        self.fields().model()
    }

    /// Each field from what the one before left over.
    open spec fn decoding(data: Seq<u8>) -> Parsed<Self::Model> {
        <PlayServerPluginMessageSpecFields>::decoding(data)
    }

    proof fn lemma_remainder(data: Seq<u8>) {
        <PlayServerPluginMessageSpecFields>::lemma_remainder(data);
    }

    fn mc_deserialize(data: &[u8]) -> (res: DeserializeResult<'_, Self>) {
        let Deserialized { value, data: rest } =
            <PlayServerPluginMessageSpecFields>::mc_deserialize(data)?;
        let (channel, data) = value;
        Deserialized::ok(PlayServerPluginMessageSpec { channel, data }, rest)
    }
}

impl ProtocolType for PlayServerPluginMessageSpec {
    open spec fn legal(&self) -> bool {
        self.fields().legal()
    }

    open spec fn self_delimiting() -> bool {
        <PlayServerPluginMessageSpecFields>::self_delimiting()
    }

    proof fn lemma_round_trip(&self, rest: Seq<u8>) {
        self.fields().lemma_round_trip(rest);
    }
}

/// What the packet `PlayNamedSoundEffect` holds.
#[derive(Debug, Clone, PartialEq)]
pub struct PlayNamedSoundEffectSpec {
    pub sound_name: String,
    pub sound_category: SoundCategory,
    pub position_x: FixedInt,
    pub position_y: FixedInt,
    pub position_z: FixedInt,
    pub volume: Float,
    pub pitch: Float,
}

/// The fields of [`PlayNamedSoundEffectSpec`] in the order they travel.
pub type PlayNamedSoundEffectSpecFields = (
    String, SoundCategory, FixedInt, FixedInt, FixedInt, Float, Float,
);

impl PlayNamedSoundEffectSpec {
    pub open spec fn fields(&self) -> PlayNamedSoundEffectSpecFields {
        (
            self.sound_name, self.sound_category, self.position_x, self.position_y,
            self.position_z, self.volume, self.pitch,
        )
    }
}

impl Serialize for PlayNamedSoundEffectSpec {
    /// The fields' encodings, one behind the other.
    open spec fn wire(&self) -> Seq<u8> {
        self.fields().wire()
    }

    fn mc_serialize<S: Serializer>(&self, to: &mut S) -> (res: SerializeResult) {
        let ghost before = to.written();
        self.sound_name.mc_serialize(to)?;
        self.sound_category.mc_serialize(to)?;
        self.position_x.mc_serialize(to)?;
        self.position_y.mc_serialize(to)?;
        self.position_z.mc_serialize(to)?;
        self.volume.mc_serialize(to)?;
        let res = self.pitch.mc_serialize(to);
        proof {
            broadcast use lemma_concat_assoc;

            lemma_tuple7_wire(&self.fields());
        }
        res
    }
}

impl Deserialize for PlayNamedSoundEffectSpec {
    type Model = <PlayNamedSoundEffectSpecFields as Deserialize>::Model;

    open spec fn model(&self) -> Self::Model {
        self.fields().model()
    }

    /// Each field from what the one before left over.
    open spec fn decoding(data: Seq<u8>) -> Parsed<Self::Model> {
        <PlayNamedSoundEffectSpecFields>::decoding(data)
    }

    proof fn lemma_remainder(data: Seq<u8>) {
        <PlayNamedSoundEffectSpecFields>::lemma_remainder(data);
    }

    fn mc_deserialize(data: &[u8]) -> (res: DeserializeResult<'_, Self>) {
        let Deserialized { value, data: rest } =
            <PlayNamedSoundEffectSpecFields>::mc_deserialize(data)?;
        let (
            sound_name, sound_category, position_x, position_y, position_z, volume, pitch,
        ) = value;
        Deserialized::ok(PlayNamedSoundEffectSpec {
            sound_name, sound_category, position_x, position_y, position_z, volume, pitch,
        }, rest)
    }
}

impl ProtocolType for PlayNamedSoundEffectSpec {
    open spec fn legal(&self) -> bool {
        self.fields().legal()
    }

    open spec fn self_delimiting() -> bool {
        <PlayNamedSoundEffectSpecFields>::self_delimiting()
    }

    proof fn lemma_round_trip(&self, rest: Seq<u8>) {
        self.fields().lemma_round_trip(rest);
    }
}

/// What the packet `PlayDisconnect` holds.
#[derive(Debug, Clone, PartialEq)]
pub struct PlayDisconnectSpec {
    pub reason: JsonText,
}

/// The fields of [`PlayDisconnectSpec`] in the order they travel.
pub type PlayDisconnectSpecFields = JsonText;

impl PlayDisconnectSpec {
    pub open spec fn fields(&self) -> PlayDisconnectSpecFields {
        self.reason
    }
}

impl Serialize for PlayDisconnectSpec {
    /// The fields' encodings, one behind the other.
    open spec fn wire(&self) -> Seq<u8> {
        self.fields().wire()
    }

    fn mc_serialize<S: Serializer>(&self, to: &mut S) -> (res: SerializeResult) {
        self.reason.mc_serialize(to)
    }
}

impl Deserialize for PlayDisconnectSpec {
    type Model = <PlayDisconnectSpecFields as Deserialize>::Model;

    open spec fn model(&self) -> Self::Model {
        self.fields().model()
    }

    /// Each field from what the one before left over.
    open spec fn decoding(data: Seq<u8>) -> Parsed<Self::Model> {
        <PlayDisconnectSpecFields>::decoding(data)
    }

    proof fn lemma_remainder(data: Seq<u8>) {
        <PlayDisconnectSpecFields>::lemma_remainder(data);
    }

    fn mc_deserialize(data: &[u8]) -> (res: DeserializeResult<'_, Self>) {
        let Deserialized { value: reason, data: rest } =
            <PlayDisconnectSpecFields>::mc_deserialize(data)?;
        Deserialized::ok(PlayDisconnectSpec { reason }, rest)
    }
}

impl ProtocolType for PlayDisconnectSpec {
    open spec fn legal(&self) -> bool {
        self.fields().legal()
    }

    open spec fn self_delimiting() -> bool {
        <PlayDisconnectSpecFields>::self_delimiting()
    }

    proof fn lemma_round_trip(&self, rest: Seq<u8>) {
        self.fields().lemma_round_trip(rest);
    }
}

/// What the packet `PlayEntityStatus` holds.
#[derive(Debug, Clone, PartialEq)]
pub struct PlayEntityStatusSpec {
    pub entity_id: VarInt,
    pub raw_status: u8,
}

/// The fields of [`PlayEntityStatusSpec`] in the order they travel.
pub type PlayEntityStatusSpecFields = (VarInt, u8);

impl PlayEntityStatusSpec {
    pub open spec fn fields(&self) -> PlayEntityStatusSpecFields {
        (self.entity_id, self.raw_status)
    }
}

impl Serialize for PlayEntityStatusSpec {
    /// The fields' encodings, one behind the other.
    open spec fn wire(&self) -> Seq<u8> {
        self.fields().wire()
    }

    fn mc_serialize<S: Serializer>(&self, to: &mut S) -> (res: SerializeResult) {
        let ghost before = to.written();
        self.entity_id.mc_serialize(to)?;
        let res = self.raw_status.mc_serialize(to);
        proof {
            broadcast use lemma_concat_assoc;

            lemma_tuple2_wire(&self.fields());
        }
        res
    }
}

impl Deserialize for PlayEntityStatusSpec {
    type Model = <PlayEntityStatusSpecFields as Deserialize>::Model;

    open spec fn model(&self) -> Self::Model {
        self.fields().model()
    }

    /// Each field from what the one before left over.
    open spec fn decoding(data: Seq<u8>) -> Parsed<Self::Model> {
        <PlayEntityStatusSpecFields>::decoding(data)
    }

    proof fn lemma_remainder(data: Seq<u8>) {
        <PlayEntityStatusSpecFields>::lemma_remainder(data);
    }

    fn mc_deserialize(data: &[u8]) -> (res: DeserializeResult<'_, Self>) {
        let Deserialized { value, data: rest } =
            <PlayEntityStatusSpecFields>::mc_deserialize(data)?;
        let (entity_id, raw_status) = value;
        Deserialized::ok(PlayEntityStatusSpec { entity_id, raw_status }, rest)
    }
}

impl ProtocolType for PlayEntityStatusSpec {
    open spec fn legal(&self) -> bool {
        self.fields().legal()
    }

    open spec fn self_delimiting() -> bool {
        <PlayEntityStatusSpecFields>::self_delimiting()
    }

    proof fn lemma_round_trip(&self, rest: Seq<u8>) {
        self.fields().lemma_round_trip(rest);
    }
}

/// What the packet `PlayExposion` holds.
#[derive(Debug, Clone, PartialEq)]
pub struct PlayExposionSpec {
    pub x: Float,
    pub y: Float,
    pub z: Float,
    pub strength: Float,
    pub records: IntCountedArray<ExposionRecord>,
    pub player_motion_x: Float,
    pub player_motion_y: Float,
    pub player_motion_z: Float,
}

/// The fields of [`PlayExposionSpec`] in the order they travel.
pub type PlayExposionSpecFields = (
    Float, Float, Float, Float, IntCountedArray<ExposionRecord>, Float, Float, Float,
);

impl PlayExposionSpec {
    pub open spec fn fields(&self) -> PlayExposionSpecFields {
        (
            self.x, self.y, self.z, self.strength, self.records, self.player_motion_x,
            self.player_motion_y, self.player_motion_z,
        )
    }
}

impl Serialize for PlayExposionSpec {
    /// The fields' encodings, one behind the other.
    open spec fn wire(&self) -> Seq<u8> {
        self.fields().wire()
    }

    fn mc_serialize<S: Serializer>(&self, to: &mut S) -> (res: SerializeResult) {
        let ghost before = to.written();
        self.x.mc_serialize(to)?;
        self.y.mc_serialize(to)?;
        self.z.mc_serialize(to)?;
        self.strength.mc_serialize(to)?;
        self.records.mc_serialize(to)?;
        self.player_motion_x.mc_serialize(to)?;
        self.player_motion_y.mc_serialize(to)?;
        let res = self.player_motion_z.mc_serialize(to);
        proof {
            broadcast use lemma_concat_assoc;

            lemma_tuple8_wire(&self.fields());
        }
        res
    }
}

impl Deserialize for PlayExposionSpec {
    type Model = <PlayExposionSpecFields as Deserialize>::Model;

    open spec fn model(&self) -> Self::Model {
        self.fields().model()
    }

    /// Each field from what the one before left over.
    open spec fn decoding(data: Seq<u8>) -> Parsed<Self::Model> {
        <PlayExposionSpecFields>::decoding(data)
    }

    proof fn lemma_remainder(data: Seq<u8>) {
        <PlayExposionSpecFields>::lemma_remainder(data);
    }

    fn mc_deserialize(data: &[u8]) -> (res: DeserializeResult<'_, Self>) {
        let Deserialized { value, data: rest } = <PlayExposionSpecFields>::mc_deserialize(data)?;
        let (
            x, y, z, strength, records, player_motion_x, player_motion_y, player_motion_z,
        ) = value;
        Deserialized::ok(PlayExposionSpec {
            x, y, z, strength, records, player_motion_x, player_motion_y, player_motion_z,
        }, rest)
    }
}

impl ProtocolType for PlayExposionSpec {
    open spec fn legal(&self) -> bool {
        self.fields().legal()
    }

    open spec fn self_delimiting() -> bool {
        <PlayExposionSpecFields>::self_delimiting()
    }

    proof fn lemma_round_trip(&self, rest: Seq<u8>) {
        self.fields().lemma_round_trip(rest);
    }
}

/// What the packet `PlayUnloadChunk` holds.
#[derive(Debug, Clone, PartialEq)]
pub struct PlayUnloadChunkSpec {
    pub x: i32,
    pub y: i32,
}

/// The fields of [`PlayUnloadChunkSpec`] in the order they travel.
pub type PlayUnloadChunkSpecFields = (i32, i32);

impl PlayUnloadChunkSpec {
    pub open spec fn fields(&self) -> PlayUnloadChunkSpecFields {
        (self.x, self.y)
    }
}

impl Serialize for PlayUnloadChunkSpec {
    /// The fields' encodings, one behind the other.
    open spec fn wire(&self) -> Seq<u8> {
        self.fields().wire()
    }

    fn mc_serialize<S: Serializer>(&self, to: &mut S) -> (res: SerializeResult) {
        let ghost before = to.written();
        self.x.mc_serialize(to)?;
        let res = self.y.mc_serialize(to);
        proof {
            broadcast use lemma_concat_assoc;

            lemma_tuple2_wire(&self.fields());
        }
        res
    }
}

impl Deserialize for PlayUnloadChunkSpec {
    type Model = <PlayUnloadChunkSpecFields as Deserialize>::Model;

    open spec fn model(&self) -> Self::Model {
        self.fields().model()
    }

    /// Each field from what the one before left over.
    open spec fn decoding(data: Seq<u8>) -> Parsed<Self::Model> {
        <PlayUnloadChunkSpecFields>::decoding(data)
    }

    proof fn lemma_remainder(data: Seq<u8>) {
        <PlayUnloadChunkSpecFields>::lemma_remainder(data);
    }

    fn mc_deserialize(data: &[u8]) -> (res: DeserializeResult<'_, Self>) {
        let Deserialized { value, data: rest } = <PlayUnloadChunkSpecFields>::mc_deserialize(data)?;
        let (x, y) = value;
        Deserialized::ok(PlayUnloadChunkSpec { x, y }, rest)
    }
}

impl ProtocolType for PlayUnloadChunkSpec {
    open spec fn legal(&self) -> bool {
        self.fields().legal()
    }

    open spec fn self_delimiting() -> bool {
        <PlayUnloadChunkSpecFields>::self_delimiting()
    }

    proof fn lemma_round_trip(&self, rest: Seq<u8>) {
        self.fields().lemma_round_trip(rest);
    }
}

/// What the packet `PlayChangeGameState` holds.
#[derive(Debug, Clone, PartialEq)]
pub struct PlayChangeGameStateSpec {
    pub reason: GameChange,
}

/// The fields of [`PlayChangeGameStateSpec`] in the order they travel.
pub type PlayChangeGameStateSpecFields = GameChange;

impl PlayChangeGameStateSpec {
    pub open spec fn fields(&self) -> PlayChangeGameStateSpecFields {
        self.reason
    }
}

impl Serialize for PlayChangeGameStateSpec {
    /// The fields' encodings, one behind the other.
    open spec fn wire(&self) -> Seq<u8> {
        self.fields().wire()
    }

    fn mc_serialize<S: Serializer>(&self, to: &mut S) -> (res: SerializeResult) {
        self.reason.mc_serialize(to)
    }
}

impl Deserialize for PlayChangeGameStateSpec {
    type Model = <PlayChangeGameStateSpecFields as Deserialize>::Model;

    open spec fn model(&self) -> Self::Model {
        self.fields().model()
    }

    /// Each field from what the one before left over.
    open spec fn decoding(data: Seq<u8>) -> Parsed<Self::Model> {
        <PlayChangeGameStateSpecFields>::decoding(data)
    }

    proof fn lemma_remainder(data: Seq<u8>) {
        <PlayChangeGameStateSpecFields>::lemma_remainder(data);
    }

    fn mc_deserialize(data: &[u8]) -> (res: DeserializeResult<'_, Self>) {
        let Deserialized { value: reason, data: rest } =
            <PlayChangeGameStateSpecFields>::mc_deserialize(data)?;
        Deserialized::ok(PlayChangeGameStateSpec { reason }, rest)
    }
}

impl ProtocolType for PlayChangeGameStateSpec {
    open spec fn legal(&self) -> bool {
        self.fields().legal()
    }

    open spec fn self_delimiting() -> bool {
        <PlayChangeGameStateSpecFields>::self_delimiting()
    }

    proof fn lemma_round_trip(&self, rest: Seq<u8>) {
        self.fields().lemma_round_trip(rest);
    }
}

/// What the packet `PlayOpenHorseWindow` holds.
#[derive(Debug, Clone, PartialEq)]
pub struct PlayOpenHorseWindowSpec {
    pub window_id: u8,
    pub number_of_slots: VarInt,
    pub entity_id: i32,
}

/// The fields of [`PlayOpenHorseWindowSpec`] in the order they travel.
pub type PlayOpenHorseWindowSpecFields = (u8, VarInt, i32);

impl PlayOpenHorseWindowSpec {
    pub open spec fn fields(&self) -> PlayOpenHorseWindowSpecFields {
        (self.window_id, self.number_of_slots, self.entity_id)
    }
}

impl Serialize for PlayOpenHorseWindowSpec {
    /// The fields' encodings, one behind the other.
    open spec fn wire(&self) -> Seq<u8> {
        self.fields().wire()
    }

    fn mc_serialize<S: Serializer>(&self, to: &mut S) -> (res: SerializeResult) {
        let ghost before = to.written();
        self.window_id.mc_serialize(to)?;
        self.number_of_slots.mc_serialize(to)?;
        let res = self.entity_id.mc_serialize(to);
        proof {
            broadcast use lemma_concat_assoc;

            lemma_tuple3_wire(&self.fields());
        }
        res
    }
}

impl Deserialize for PlayOpenHorseWindowSpec {
    type Model = <PlayOpenHorseWindowSpecFields as Deserialize>::Model;

    open spec fn model(&self) -> Self::Model {
        self.fields().model()
    }

    /// Each field from what the one before left over.
    open spec fn decoding(data: Seq<u8>) -> Parsed<Self::Model> {
        <PlayOpenHorseWindowSpecFields>::decoding(data)
    }

    proof fn lemma_remainder(data: Seq<u8>) {
        <PlayOpenHorseWindowSpecFields>::lemma_remainder(data);
    }

    fn mc_deserialize(data: &[u8]) -> (res: DeserializeResult<'_, Self>) {
        let Deserialized { value, data: rest } =
            <PlayOpenHorseWindowSpecFields>::mc_deserialize(data)?;
        let (window_id, number_of_slots, entity_id) = value;
        Deserialized::ok(PlayOpenHorseWindowSpec { window_id, number_of_slots, entity_id }, rest)
    }
}

impl ProtocolType for PlayOpenHorseWindowSpec {
    open spec fn legal(&self) -> bool {
        self.fields().legal()
    }

    open spec fn self_delimiting() -> bool {
        <PlayOpenHorseWindowSpecFields>::self_delimiting()
    }

    proof fn lemma_round_trip(&self, rest: Seq<u8>) {
        self.fields().lemma_round_trip(rest);
    }
}

/// What the packet `PlayServerKeepAlive` holds.
#[derive(Debug, Clone, PartialEq)]
pub struct PlayServerKeepAliveSpec {
    pub id: i64,
}

/// The fields of [`PlayServerKeepAliveSpec`] in the order they travel.
pub type PlayServerKeepAliveSpecFields = i64;

impl PlayServerKeepAliveSpec {
    pub open spec fn fields(&self) -> PlayServerKeepAliveSpecFields {
        self.id
    }
}

impl Serialize for PlayServerKeepAliveSpec {
    /// The fields' encodings, one behind the other.
    open spec fn wire(&self) -> Seq<u8> {
        self.fields().wire()
    }

    fn mc_serialize<S: Serializer>(&self, to: &mut S) -> (res: SerializeResult) {
        self.id.mc_serialize(to)
    }
}

impl Deserialize for PlayServerKeepAliveSpec {
    type Model = <PlayServerKeepAliveSpecFields as Deserialize>::Model;

    open spec fn model(&self) -> Self::Model {
        self.fields().model()
    }

    /// Each field from what the one before left over.
    open spec fn decoding(data: Seq<u8>) -> Parsed<Self::Model> {
        <PlayServerKeepAliveSpecFields>::decoding(data)
    }

    proof fn lemma_remainder(data: Seq<u8>) {
        <PlayServerKeepAliveSpecFields>::lemma_remainder(data);
    }

    fn mc_deserialize(data: &[u8]) -> (res: DeserializeResult<'_, Self>) {
        let Deserialized { value: id, data: rest } =
            <PlayServerKeepAliveSpecFields>::mc_deserialize(data)?;
        Deserialized::ok(PlayServerKeepAliveSpec { id }, rest)
    }
}

impl ProtocolType for PlayServerKeepAliveSpec {
    open spec fn legal(&self) -> bool {
        self.fields().legal()
    }

    open spec fn self_delimiting() -> bool {
        <PlayServerKeepAliveSpecFields>::self_delimiting()
    }

    proof fn lemma_round_trip(&self, rest: Seq<u8>) {
        self.fields().lemma_round_trip(rest);
    }
}

/// What the packet `PlayChunkData` holds.
#[derive(Debug, Clone, PartialEq)]
pub struct PlayChunkDataWrapper {
    pub data: ChunkData,
}

/// The fields of [`PlayChunkDataWrapper`] in the order they travel.
pub type PlayChunkDataWrapperFields = ChunkData;

impl PlayChunkDataWrapper {
    pub open spec fn fields(&self) -> PlayChunkDataWrapperFields {
        self.data
    }
}

impl Serialize for PlayChunkDataWrapper {
    /// The fields' encodings, one behind the other.
    open spec fn wire(&self) -> Seq<u8> {
        self.fields().wire()
    }

    fn mc_serialize<S: Serializer>(&self, to: &mut S) -> (res: SerializeResult) {
        self.data.mc_serialize(to)
    }
}

impl Deserialize for PlayChunkDataWrapper {
    type Model = <PlayChunkDataWrapperFields as Deserialize>::Model;

    open spec fn model(&self) -> Self::Model {
        self.fields().model()
    }

    /// Each field from what the one before left over.
    open spec fn decoding(data: Seq<u8>) -> Parsed<Self::Model> {
        <PlayChunkDataWrapperFields>::decoding(data)
    }

    proof fn lemma_remainder(data: Seq<u8>) {
        <PlayChunkDataWrapperFields>::lemma_remainder(data);
    }

    fn mc_deserialize(data: &[u8]) -> (res: DeserializeResult<'_, Self>) {
        let Deserialized { value: data, data: rest } =
            <PlayChunkDataWrapperFields>::mc_deserialize(data)?;
        Deserialized::ok(PlayChunkDataWrapper { data }, rest)
    }
}

impl ProtocolType for PlayChunkDataWrapper {
    open spec fn legal(&self) -> bool {
        self.fields().legal()
    }

    open spec fn self_delimiting() -> bool {
        <PlayChunkDataWrapperFields>::self_delimiting()
    }

    proof fn lemma_round_trip(&self, rest: Seq<u8>) {
        self.fields().lemma_round_trip(rest);
    }
}

/// What the packet `PlayEffect` holds.
#[derive(Debug, Clone, PartialEq)]
pub struct PlayEffectSpec {
    pub effect_id: i32,
    pub location: IntPosition,
    pub data: i32,
    pub disable_relative_volume: bool,
}

/// The fields of [`PlayEffectSpec`] in the order they travel.
pub type PlayEffectSpecFields = (i32, IntPosition, i32, bool);

impl PlayEffectSpec {
    pub open spec fn fields(&self) -> PlayEffectSpecFields {
        (self.effect_id, self.location, self.data, self.disable_relative_volume)
    }
}

impl Serialize for PlayEffectSpec {
    /// The fields' encodings, one behind the other.
    open spec fn wire(&self) -> Seq<u8> {
        self.fields().wire()
    }

    fn mc_serialize<S: Serializer>(&self, to: &mut S) -> (res: SerializeResult) {
        let ghost before = to.written();
        self.effect_id.mc_serialize(to)?;
        self.location.mc_serialize(to)?;
        self.data.mc_serialize(to)?;
        let res = self.disable_relative_volume.mc_serialize(to);
        proof {
            broadcast use lemma_concat_assoc;

            lemma_tuple4_wire(&self.fields());
        }
        res
    }
}

impl Deserialize for PlayEffectSpec {
    type Model = <PlayEffectSpecFields as Deserialize>::Model;

    open spec fn model(&self) -> Self::Model {
        self.fields().model()
    }

    /// Each field from what the one before left over.
    open spec fn decoding(data: Seq<u8>) -> Parsed<Self::Model> {
        <PlayEffectSpecFields>::decoding(data)
    }

    proof fn lemma_remainder(data: Seq<u8>) {
        <PlayEffectSpecFields>::lemma_remainder(data);
    }

    fn mc_deserialize(data: &[u8]) -> (res: DeserializeResult<'_, Self>) {
        let Deserialized { value, data: rest } = <PlayEffectSpecFields>::mc_deserialize(data)?;
        let (effect_id, location, data, disable_relative_volume) = value;
        Deserialized::ok(PlayEffectSpec {
            effect_id, location, data, disable_relative_volume,
        }, rest)
    }
}

impl ProtocolType for PlayEffectSpec {
    open spec fn legal(&self) -> bool {
        self.fields().legal()
    }

    open spec fn self_delimiting() -> bool {
        <PlayEffectSpecFields>::self_delimiting()
    }

    proof fn lemma_round_trip(&self, rest: Seq<u8>) {
        self.fields().lemma_round_trip(rest);
    }
}

/// What the packet `PlayParticle` holds.
#[derive(Debug, Clone, PartialEq)]
pub struct PlayParticleSpec {
    pub particle_id: i32,
    pub long_distance: bool,
    pub x: Double,
    pub y: Double,
    pub z: Double,
    pub offset_x: Float,
    pub offset_y: Float,
    pub offset_z: Float,
    pub particle_data: i32,
    pub data: RemainingBytes,
}

/// The fields of [`PlayParticleSpec`] in the order they travel.
pub type PlayParticleSpecFields = (
    i32, bool, Double, Double, Double, Float, Float, Float, i32, RemainingBytes,
);

impl PlayParticleSpec {
    pub open spec fn fields(&self) -> PlayParticleSpecFields {
        (
            self.particle_id, self.long_distance, self.x, self.y, self.z, self.offset_x,
            self.offset_y, self.offset_z, self.particle_data, self.data,
        )
    }
}

impl Serialize for PlayParticleSpec {
    /// The fields' encodings, one behind the other.
    open spec fn wire(&self) -> Seq<u8> {
        self.fields().wire()
    }

    fn mc_serialize<S: Serializer>(&self, to: &mut S) -> (res: SerializeResult) {
        let ghost before = to.written();
        self.particle_id.mc_serialize(to)?;
        self.long_distance.mc_serialize(to)?;
        self.x.mc_serialize(to)?;
        self.y.mc_serialize(to)?;
        self.z.mc_serialize(to)?;
        self.offset_x.mc_serialize(to)?;
        self.offset_y.mc_serialize(to)?;
        self.offset_z.mc_serialize(to)?;
        self.particle_data.mc_serialize(to)?;
        let res = self.data.mc_serialize(to);
        proof {
            broadcast use lemma_concat_assoc;

            lemma_tuple10_wire(&self.fields());
        }
        res
    }
}

impl Deserialize for PlayParticleSpec {
    type Model = <PlayParticleSpecFields as Deserialize>::Model;

    open spec fn model(&self) -> Self::Model {
        self.fields().model()
    }

    /// Each field from what the one before left over.
    open spec fn decoding(data: Seq<u8>) -> Parsed<Self::Model> {
        <PlayParticleSpecFields>::decoding(data)
    }

    proof fn lemma_remainder(data: Seq<u8>) {
        <PlayParticleSpecFields>::lemma_remainder(data);
    }

    fn mc_deserialize(data: &[u8]) -> (res: DeserializeResult<'_, Self>) {
        let Deserialized { value, data: rest } = <PlayParticleSpecFields>::mc_deserialize(data)?;
        let (
            particle_id, long_distance, x, y, z, offset_x, offset_y, offset_z, particle_data,
            data,
        ) = value;
        Deserialized::ok(PlayParticleSpec {
            particle_id, long_distance, x, y, z, offset_x, offset_y, offset_z, particle_data,
            data,
        }, rest)
    }
}

impl ProtocolType for PlayParticleSpec {
    open spec fn legal(&self) -> bool {
        self.fields().legal()
    }

    open spec fn self_delimiting() -> bool {
        <PlayParticleSpecFields>::self_delimiting()
    }

    proof fn lemma_round_trip(&self, rest: Seq<u8>) {
        self.fields().lemma_round_trip(rest);
    }
}

/// What the packet `PlayUpdateLight` holds.
#[derive(Debug, Clone, PartialEq)]
pub struct PlayUpdateLoightSpec {
    pub chunk_x: VarInt,
    pub chunk_z: VarInt,
    pub sky_light_mask: VarInt,
    pub block_light_mask: VarInt,
    pub empty_sky_light_mask: VarInt,
    pub empty_block_light_mask: VarInt,
    pub sky_lights: VarIntCountedArray<u8>,
    pub block_lights: VarIntCountedArray<u8>,
}

/// The fields of [`PlayUpdateLoightSpec`] in the order they travel.
pub type PlayUpdateLoightSpecFields = (
    VarInt, VarInt, VarInt, VarInt, VarInt, VarInt, VarIntCountedArray<u8>,
    VarIntCountedArray<u8>,
);

impl PlayUpdateLoightSpec {
    pub open spec fn fields(&self) -> PlayUpdateLoightSpecFields {
        (
            self.chunk_x, self.chunk_z, self.sky_light_mask, self.block_light_mask,
            self.empty_sky_light_mask, self.empty_block_light_mask, self.sky_lights,
            self.block_lights,
        )
    }
}

impl Serialize for PlayUpdateLoightSpec {
    /// The fields' encodings, one behind the other.
    open spec fn wire(&self) -> Seq<u8> {
        self.fields().wire()
    }

    fn mc_serialize<S: Serializer>(&self, to: &mut S) -> (res: SerializeResult) {
        let ghost before = to.written();
        self.chunk_x.mc_serialize(to)?;
        self.chunk_z.mc_serialize(to)?;
        self.sky_light_mask.mc_serialize(to)?;
        self.block_light_mask.mc_serialize(to)?;
        self.empty_sky_light_mask.mc_serialize(to)?;
        self.empty_block_light_mask.mc_serialize(to)?;
        self.sky_lights.mc_serialize(to)?;
        let res = self.block_lights.mc_serialize(to);
        proof {
            broadcast use lemma_concat_assoc;

            lemma_tuple8_wire(&self.fields());
        }
        res
    }
}

impl Deserialize for PlayUpdateLoightSpec {
    type Model = <PlayUpdateLoightSpecFields as Deserialize>::Model;

    open spec fn model(&self) -> Self::Model {
        self.fields().model()
    }

    /// Each field from what the one before left over.
    open spec fn decoding(data: Seq<u8>) -> Parsed<Self::Model> {
        <PlayUpdateLoightSpecFields>::decoding(data)
    }

    proof fn lemma_remainder(data: Seq<u8>) {
        <PlayUpdateLoightSpecFields>::lemma_remainder(data);
    }

    fn mc_deserialize(data: &[u8]) -> (res: DeserializeResult<'_, Self>) {
        let Deserialized { value, data: rest } =
            <PlayUpdateLoightSpecFields>::mc_deserialize(data)?;
        let (
            chunk_x, chunk_z, sky_light_mask, block_light_mask, empty_sky_light_mask,
            empty_block_light_mask, sky_lights, block_lights,
        ) = value;
        Deserialized::ok(PlayUpdateLoightSpec {
            chunk_x, chunk_z, sky_light_mask, block_light_mask, empty_sky_light_mask,
            empty_block_light_mask, sky_lights, block_lights,
        }, rest)
    }
}

impl ProtocolType for PlayUpdateLoightSpec {
    open spec fn legal(&self) -> bool {
        self.fields().legal()
    }

    open spec fn self_delimiting() -> bool {
        <PlayUpdateLoightSpecFields>::self_delimiting()
    }

    proof fn lemma_round_trip(&self, rest: Seq<u8>) {
        self.fields().lemma_round_trip(rest);
    }
}

/// What the packet `PlayJoinGame` holds.
#[derive(Debug, Clone, PartialEq)]
pub struct PlayJoinGameSpec {
    pub entity_id: i32,
    pub gamemode: GameMode,
    pub dimension: Dimension,
    pub hashed_seed: i64,
    pub max_players: u8,
    pub level_type: String,
    pub view_distance: VarInt,
    pub reduced_debug_info: bool,
    pub enable_respawn_screen: bool,
}

/// The fields of [`PlayJoinGameSpec`] in the order they travel.
pub type PlayJoinGameSpecFields = (i32, GameMode, Dimension, i64, u8, String, VarInt, bool, bool);

impl PlayJoinGameSpec {
    pub open spec fn fields(&self) -> PlayJoinGameSpecFields {
        (
            self.entity_id, self.gamemode, self.dimension, self.hashed_seed, self.max_players,
            self.level_type, self.view_distance, self.reduced_debug_info,
            self.enable_respawn_screen,
        )
    }
}

impl Serialize for PlayJoinGameSpec {
    /// The fields' encodings, one behind the other.
    open spec fn wire(&self) -> Seq<u8> {
        self.fields().wire()
    }

    fn mc_serialize<S: Serializer>(&self, to: &mut S) -> (res: SerializeResult) {
        let ghost before = to.written();
        self.entity_id.mc_serialize(to)?;
        self.gamemode.mc_serialize(to)?;
        self.dimension.mc_serialize(to)?;
        self.hashed_seed.mc_serialize(to)?;
        self.max_players.mc_serialize(to)?;
        self.level_type.mc_serialize(to)?;
        self.view_distance.mc_serialize(to)?;
        self.reduced_debug_info.mc_serialize(to)?;
        let res = self.enable_respawn_screen.mc_serialize(to);
        proof {
            broadcast use lemma_concat_assoc;

            lemma_tuple9_wire(&self.fields());
        }
        res
    }
}

impl Deserialize for PlayJoinGameSpec {
    type Model = <PlayJoinGameSpecFields as Deserialize>::Model;

    open spec fn model(&self) -> Self::Model {
        self.fields().model()
    }

    /// Each field from what the one before left over.
    open spec fn decoding(data: Seq<u8>) -> Parsed<Self::Model> {
        <PlayJoinGameSpecFields>::decoding(data)
    }

    proof fn lemma_remainder(data: Seq<u8>) {
        <PlayJoinGameSpecFields>::lemma_remainder(data);
    }

    fn mc_deserialize(data: &[u8]) -> (res: DeserializeResult<'_, Self>) {
        let Deserialized { value, data: rest } = <PlayJoinGameSpecFields>::mc_deserialize(data)?;
        let (
            entity_id, gamemode, dimension, hashed_seed, max_players, level_type, view_distance,
            reduced_debug_info, enable_respawn_screen,
        ) = value;
        Deserialized::ok(PlayJoinGameSpec {
            entity_id, gamemode, dimension, hashed_seed, max_players, level_type, view_distance,
            reduced_debug_info, enable_respawn_screen,
        }, rest)
    }
}

impl ProtocolType for PlayJoinGameSpec {
    open spec fn legal(&self) -> bool {
        self.fields().legal()
    }

    open spec fn self_delimiting() -> bool {
        <PlayJoinGameSpecFields>::self_delimiting()
    }

    proof fn lemma_round_trip(&self, rest: Seq<u8>) {
        self.fields().lemma_round_trip(rest);
    }
}

/// What the packet `PlayMapData` holds.
#[derive(Debug, Clone, PartialEq)]
pub struct PlayMapDataSpec {
    pub map_id: VarInt,
    pub scale: i8,
    pub tracking_position: bool,
    pub locked: bool,
    pub icons: VarIntCountedArray<MapIconSpec>,
    pub columns: MapColumns,
}

/// The fields of [`PlayMapDataSpec`] in the order they travel.
pub type PlayMapDataSpecFields = (
    VarInt, i8, bool, bool, VarIntCountedArray<MapIconSpec>, MapColumns,
);

impl PlayMapDataSpec {
    pub open spec fn fields(&self) -> PlayMapDataSpecFields {
        (self.map_id, self.scale, self.tracking_position, self.locked, self.icons, self.columns)
    }
}

impl Serialize for PlayMapDataSpec {
    /// The fields' encodings, one behind the other.
    open spec fn wire(&self) -> Seq<u8> {
        self.fields().wire()
    }

    fn mc_serialize<S: Serializer>(&self, to: &mut S) -> (res: SerializeResult) {
        let ghost before = to.written();
        self.map_id.mc_serialize(to)?;
        self.scale.mc_serialize(to)?;
        self.tracking_position.mc_serialize(to)?;
        self.locked.mc_serialize(to)?;
        self.icons.mc_serialize(to)?;
        let res = self.columns.mc_serialize(to);
        proof {
            broadcast use lemma_concat_assoc;

            lemma_tuple6_wire(&self.fields());
        }
        res
    }
}

impl Deserialize for PlayMapDataSpec {
    type Model = <PlayMapDataSpecFields as Deserialize>::Model;

    open spec fn model(&self) -> Self::Model {
        self.fields().model()
    }

    /// Each field from what the one before left over.
    open spec fn decoding(data: Seq<u8>) -> Parsed<Self::Model> {
        <PlayMapDataSpecFields>::decoding(data)
    }

    proof fn lemma_remainder(data: Seq<u8>) {
        <PlayMapDataSpecFields>::lemma_remainder(data);
    }

    fn mc_deserialize(data: &[u8]) -> (res: DeserializeResult<'_, Self>) {
        let Deserialized { value, data: rest } = <PlayMapDataSpecFields>::mc_deserialize(data)?;
        let (map_id, scale, tracking_position, locked, icons, columns) = value;
        Deserialized::ok(PlayMapDataSpec {
            map_id, scale, tracking_position, locked, icons, columns,
        }, rest)
    }
}

impl ProtocolType for PlayMapDataSpec {
    open spec fn legal(&self) -> bool {
        self.fields().legal()
    }

    open spec fn self_delimiting() -> bool {
        <PlayMapDataSpecFields>::self_delimiting()
    }

    proof fn lemma_round_trip(&self, rest: Seq<u8>) {
        self.fields().lemma_round_trip(rest);
    }
}

/// What the packet `PlayTradeList` holds.
#[derive(Debug, Clone, PartialEq)]
pub struct PlayTradeListSpec {
    pub window_id: VarInt,
    pub trades: ByteCountedArray<TradeSpec>,
    pub villager_level: VarInt,
    pub experience: VarInt,
    pub regular_villager: bool,
    pub can_restock: bool,
}

/// The fields of [`PlayTradeListSpec`] in the order they travel.
pub type PlayTradeListSpecFields = (
    VarInt, ByteCountedArray<TradeSpec>, VarInt, VarInt, bool, bool,
);

impl PlayTradeListSpec {
    pub open spec fn fields(&self) -> PlayTradeListSpecFields {
        (
            self.window_id, self.trades, self.villager_level, self.experience,
            self.regular_villager, self.can_restock,
        )
    }
}

impl Serialize for PlayTradeListSpec {
    /// The fields' encodings, one behind the other.
    open spec fn wire(&self) -> Seq<u8> {
        self.fields().wire()
    }

    fn mc_serialize<S: Serializer>(&self, to: &mut S) -> (res: SerializeResult) {
        let ghost before = to.written();
        self.window_id.mc_serialize(to)?;
        self.trades.mc_serialize(to)?;
        self.villager_level.mc_serialize(to)?;
        self.experience.mc_serialize(to)?;
        self.regular_villager.mc_serialize(to)?;
        let res = self.can_restock.mc_serialize(to);
        proof {
            broadcast use lemma_concat_assoc;

            lemma_tuple6_wire(&self.fields());
        }
        res
    }
}

impl Deserialize for PlayTradeListSpec {
    type Model = <PlayTradeListSpecFields as Deserialize>::Model;

    open spec fn model(&self) -> Self::Model {
        self.fields().model()
    }

    /// Each field from what the one before left over.
    open spec fn decoding(data: Seq<u8>) -> Parsed<Self::Model> {
        <PlayTradeListSpecFields>::decoding(data)
    }

    proof fn lemma_remainder(data: Seq<u8>) {
        <PlayTradeListSpecFields>::lemma_remainder(data);
    }

    fn mc_deserialize(data: &[u8]) -> (res: DeserializeResult<'_, Self>) {
        let Deserialized { value, data: rest } = <PlayTradeListSpecFields>::mc_deserialize(data)?;
        let (
            window_id, trades, villager_level, experience, regular_villager, can_restock,
        ) = value;
        Deserialized::ok(PlayTradeListSpec {
            window_id, trades, villager_level, experience, regular_villager, can_restock,
        }, rest)
    }
}

impl ProtocolType for PlayTradeListSpec {
    open spec fn legal(&self) -> bool {
        self.fields().legal()
    }

    open spec fn self_delimiting() -> bool {
        <PlayTradeListSpecFields>::self_delimiting()
    }

    proof fn lemma_round_trip(&self, rest: Seq<u8>) {
        self.fields().lemma_round_trip(rest);
    }
}

/// What the packet `PlayEntityPosition` holds.
#[derive(Debug, Clone, PartialEq)]
pub struct PlayEntityPositionSpec {
    pub entity_id: VarInt,
    pub delta_x: i16,
    pub delta_y: i16,
    pub delta_z: i16,
    pub on_ground: bool,
}

/// The fields of [`PlayEntityPositionSpec`] in the order they travel.
pub type PlayEntityPositionSpecFields = (VarInt, i16, i16, i16, bool);

impl PlayEntityPositionSpec {
    pub open spec fn fields(&self) -> PlayEntityPositionSpecFields {
        (self.entity_id, self.delta_x, self.delta_y, self.delta_z, self.on_ground)
    }
}

impl Serialize for PlayEntityPositionSpec {
    /// The fields' encodings, one behind the other.
    open spec fn wire(&self) -> Seq<u8> {
        self.fields().wire()
    }

    fn mc_serialize<S: Serializer>(&self, to: &mut S) -> (res: SerializeResult) {
        let ghost before = to.written();
        self.entity_id.mc_serialize(to)?;
        self.delta_x.mc_serialize(to)?;
        self.delta_y.mc_serialize(to)?;
        self.delta_z.mc_serialize(to)?;
        let res = self.on_ground.mc_serialize(to);
        proof {
            broadcast use lemma_concat_assoc;

            lemma_tuple5_wire(&self.fields());
        }
        res
    }
}

impl Deserialize for PlayEntityPositionSpec {
    type Model = <PlayEntityPositionSpecFields as Deserialize>::Model;

    open spec fn model(&self) -> Self::Model {
        self.fields().model()
    }

    /// Each field from what the one before left over.
    open spec fn decoding(data: Seq<u8>) -> Parsed<Self::Model> {
        <PlayEntityPositionSpecFields>::decoding(data)
    }

    proof fn lemma_remainder(data: Seq<u8>) {
        <PlayEntityPositionSpecFields>::lemma_remainder(data);
    }

    fn mc_deserialize(data: &[u8]) -> (res: DeserializeResult<'_, Self>) {
        let Deserialized { value, data: rest } =
            <PlayEntityPositionSpecFields>::mc_deserialize(data)?;
        let (entity_id, delta_x, delta_y, delta_z, on_ground) = value;
        Deserialized::ok(PlayEntityPositionSpec {
            entity_id, delta_x, delta_y, delta_z, on_ground,
        }, rest)
    }
}

impl ProtocolType for PlayEntityPositionSpec {
    open spec fn legal(&self) -> bool {
        self.fields().legal()
    }

    open spec fn self_delimiting() -> bool {
        <PlayEntityPositionSpecFields>::self_delimiting()
    }

    proof fn lemma_round_trip(&self, rest: Seq<u8>) {
        self.fields().lemma_round_trip(rest);
    }
}

/// What the packet `PlayEntityPositionAndRotation` holds.
#[derive(Debug, Clone, PartialEq)]
pub struct PlayEntityPositionAndRotationSpec {
    pub entity_id: VarInt,
    pub delta_x: i16,
    pub delta_y: i16,
    pub delta_z: i16,
    pub yaw: Angle,
    pub pitch: Angle,
    pub on_ground: bool,
}

/// The fields of [`PlayEntityPositionAndRotationSpec`] in the order they travel.
pub type PlayEntityPositionAndRotationSpecFields = (VarInt, i16, i16, i16, Angle, Angle, bool);

impl PlayEntityPositionAndRotationSpec {
    pub open spec fn fields(&self) -> PlayEntityPositionAndRotationSpecFields {
        (
            self.entity_id, self.delta_x, self.delta_y, self.delta_z, self.yaw, self.pitch,
            self.on_ground,
        )
    }
}

impl Serialize for PlayEntityPositionAndRotationSpec {
    /// The fields' encodings, one behind the other.
    open spec fn wire(&self) -> Seq<u8> {
        self.fields().wire()
    }

    fn mc_serialize<S: Serializer>(&self, to: &mut S) -> (res: SerializeResult) {
        let ghost before = to.written();
        self.entity_id.mc_serialize(to)?;
        self.delta_x.mc_serialize(to)?;
        self.delta_y.mc_serialize(to)?;
        self.delta_z.mc_serialize(to)?;
        self.yaw.mc_serialize(to)?;
        self.pitch.mc_serialize(to)?;
        let res = self.on_ground.mc_serialize(to);
        proof {
            broadcast use lemma_concat_assoc;

            lemma_tuple7_wire(&self.fields());
        }
        res
    }
}

impl Deserialize for PlayEntityPositionAndRotationSpec {
    type Model = <PlayEntityPositionAndRotationSpecFields as Deserialize>::Model;

    open spec fn model(&self) -> Self::Model {
        self.fields().model()
    }

    /// Each field from what the one before left over.
    open spec fn decoding(data: Seq<u8>) -> Parsed<Self::Model> {
        <PlayEntityPositionAndRotationSpecFields>::decoding(data)
    }

    proof fn lemma_remainder(data: Seq<u8>) {
        <PlayEntityPositionAndRotationSpecFields>::lemma_remainder(data);
    }

    fn mc_deserialize(data: &[u8]) -> (res: DeserializeResult<'_, Self>) {
        let Deserialized { value, data: rest } =
            <PlayEntityPositionAndRotationSpecFields>::mc_deserialize(data)?;
        let (entity_id, delta_x, delta_y, delta_z, yaw, pitch, on_ground) = value;
        Deserialized::ok(PlayEntityPositionAndRotationSpec {
            entity_id, delta_x, delta_y, delta_z, yaw, pitch, on_ground,
        }, rest)
    }
}

impl ProtocolType for PlayEntityPositionAndRotationSpec {
    open spec fn legal(&self) -> bool {
        self.fields().legal()
    }

    open spec fn self_delimiting() -> bool {
        <PlayEntityPositionAndRotationSpecFields>::self_delimiting()
    }

    proof fn lemma_round_trip(&self, rest: Seq<u8>) {
        self.fields().lemma_round_trip(rest);
    }
}

/// What the packet `PlayEntityRotation` holds.
#[derive(Debug, Clone, PartialEq)]
pub struct PlayEntityRotationSpec {
    pub entity_id: VarInt,
    pub yaw: Angle,
    pub pitch: Angle,
    pub on_ground: bool,
}

/// The fields of [`PlayEntityRotationSpec`] in the order they travel.
pub type PlayEntityRotationSpecFields = (VarInt, Angle, Angle, bool);

impl PlayEntityRotationSpec {
    pub open spec fn fields(&self) -> PlayEntityRotationSpecFields {
        (self.entity_id, self.yaw, self.pitch, self.on_ground)
    }
}

impl Serialize for PlayEntityRotationSpec {
    /// The fields' encodings, one behind the other.
    open spec fn wire(&self) -> Seq<u8> {
        self.fields().wire()
    }

    fn mc_serialize<S: Serializer>(&self, to: &mut S) -> (res: SerializeResult) {
        let ghost before = to.written();
        self.entity_id.mc_serialize(to)?;
        self.yaw.mc_serialize(to)?;
        self.pitch.mc_serialize(to)?;
        let res = self.on_ground.mc_serialize(to);
        proof {
            broadcast use lemma_concat_assoc;

            lemma_tuple4_wire(&self.fields());
        }
        res
    }
}

impl Deserialize for PlayEntityRotationSpec {
    type Model = <PlayEntityRotationSpecFields as Deserialize>::Model;

    open spec fn model(&self) -> Self::Model {
        self.fields().model()
    }

    /// Each field from what the one before left over.
    open spec fn decoding(data: Seq<u8>) -> Parsed<Self::Model> {
        <PlayEntityRotationSpecFields>::decoding(data)
    }

    proof fn lemma_remainder(data: Seq<u8>) {
        <PlayEntityRotationSpecFields>::lemma_remainder(data);
    }

    fn mc_deserialize(data: &[u8]) -> (res: DeserializeResult<'_, Self>) {
        let Deserialized { value, data: rest } =
            <PlayEntityRotationSpecFields>::mc_deserialize(data)?;
        let (entity_id, yaw, pitch, on_ground) = value;
        Deserialized::ok(PlayEntityRotationSpec { entity_id, yaw, pitch, on_ground }, rest)
    }
}

impl ProtocolType for PlayEntityRotationSpec {
    open spec fn legal(&self) -> bool {
        self.fields().legal()
    }

    open spec fn self_delimiting() -> bool {
        <PlayEntityRotationSpecFields>::self_delimiting()
    }

    proof fn lemma_round_trip(&self, rest: Seq<u8>) {
        self.fields().lemma_round_trip(rest);
    }
}

/// What the packet `PlayEntityMovement` holds.
#[derive(Debug, Clone, PartialEq)]
pub struct PlayEntityMovementSpec {
    pub entity_id: VarInt,
}

/// The fields of [`PlayEntityMovementSpec`] in the order they travel.
pub type PlayEntityMovementSpecFields = VarInt;

impl PlayEntityMovementSpec {
    pub open spec fn fields(&self) -> PlayEntityMovementSpecFields {
        self.entity_id
    }
}

impl Serialize for PlayEntityMovementSpec {
    /// The fields' encodings, one behind the other.
    open spec fn wire(&self) -> Seq<u8> {
        self.fields().wire()
    }

    fn mc_serialize<S: Serializer>(&self, to: &mut S) -> (res: SerializeResult) {
        self.entity_id.mc_serialize(to)
    }
}

impl Deserialize for PlayEntityMovementSpec {
    type Model = <PlayEntityMovementSpecFields as Deserialize>::Model;

    open spec fn model(&self) -> Self::Model {
        self.fields().model()
    }

    /// Each field from what the one before left over.
    open spec fn decoding(data: Seq<u8>) -> Parsed<Self::Model> {
        <PlayEntityMovementSpecFields>::decoding(data)
    }

    proof fn lemma_remainder(data: Seq<u8>) {
        <PlayEntityMovementSpecFields>::lemma_remainder(data);
    }

    fn mc_deserialize(data: &[u8]) -> (res: DeserializeResult<'_, Self>) {
        let Deserialized { value: entity_id, data: rest } =
            <PlayEntityMovementSpecFields>::mc_deserialize(data)?;
        Deserialized::ok(PlayEntityMovementSpec { entity_id }, rest)
    }
}

impl ProtocolType for PlayEntityMovementSpec {
    open spec fn legal(&self) -> bool {
        self.fields().legal()
    }

    open spec fn self_delimiting() -> bool {
        <PlayEntityMovementSpecFields>::self_delimiting()
    }

    proof fn lemma_round_trip(&self, rest: Seq<u8>) {
        self.fields().lemma_round_trip(rest);
    }
}

/// What the packet `PlayServerVehicleMove` holds.
#[derive(Debug, Clone, PartialEq)]
pub struct PlayEntityVehicleMoveSpec {
    pub x: Double,
    pub y: Double,
    pub z: Double,
    pub yaw: Float,
    pub pitch: Float,
}

/// The fields of [`PlayEntityVehicleMoveSpec`] in the order they travel.
pub type PlayEntityVehicleMoveSpecFields = (Double, Double, Double, Float, Float);

impl PlayEntityVehicleMoveSpec {
    pub open spec fn fields(&self) -> PlayEntityVehicleMoveSpecFields {
        (self.x, self.y, self.z, self.yaw, self.pitch)
    }
}

impl Serialize for PlayEntityVehicleMoveSpec {
    /// The fields' encodings, one behind the other.
    open spec fn wire(&self) -> Seq<u8> {
        self.fields().wire()
    }

    fn mc_serialize<S: Serializer>(&self, to: &mut S) -> (res: SerializeResult) {
        let ghost before = to.written();
        self.x.mc_serialize(to)?;
        self.y.mc_serialize(to)?;
        self.z.mc_serialize(to)?;
        self.yaw.mc_serialize(to)?;
        let res = self.pitch.mc_serialize(to);
        proof {
            broadcast use lemma_concat_assoc;

            lemma_tuple5_wire(&self.fields());
        }
        res
    }
}

impl Deserialize for PlayEntityVehicleMoveSpec {
    type Model = <PlayEntityVehicleMoveSpecFields as Deserialize>::Model;

    open spec fn model(&self) -> Self::Model {
        self.fields().model()
    }

    /// Each field from what the one before left over.
    open spec fn decoding(data: Seq<u8>) -> Parsed<Self::Model> {
        <PlayEntityVehicleMoveSpecFields>::decoding(data)
    }

    proof fn lemma_remainder(data: Seq<u8>) {
        <PlayEntityVehicleMoveSpecFields>::lemma_remainder(data);
    }

    fn mc_deserialize(data: &[u8]) -> (res: DeserializeResult<'_, Self>) {
        let Deserialized { value, data: rest } =
            <PlayEntityVehicleMoveSpecFields>::mc_deserialize(data)?;
        let (x, y, z, yaw, pitch) = value;
        Deserialized::ok(PlayEntityVehicleMoveSpec { x, y, z, yaw, pitch }, rest)
    }
}

impl ProtocolType for PlayEntityVehicleMoveSpec {
    open spec fn legal(&self) -> bool {
        self.fields().legal()
    }

    open spec fn self_delimiting() -> bool {
        <PlayEntityVehicleMoveSpecFields>::self_delimiting()
    }

    proof fn lemma_round_trip(&self, rest: Seq<u8>) {
        self.fields().lemma_round_trip(rest);
    }
}

/// What the packet `PlayOpenBook` holds.
#[derive(Debug, Clone, PartialEq)]
pub struct PlayOpenBookSpec {
    pub hand: Hand,
}

/// The fields of [`PlayOpenBookSpec`] in the order they travel.
pub type PlayOpenBookSpecFields = Hand;

impl PlayOpenBookSpec {
    pub open spec fn fields(&self) -> PlayOpenBookSpecFields {
        self.hand
    }
}

impl Serialize for PlayOpenBookSpec {
    /// The fields' encodings, one behind the other.
    open spec fn wire(&self) -> Seq<u8> {
        self.fields().wire()
    }

    fn mc_serialize<S: Serializer>(&self, to: &mut S) -> (res: SerializeResult) {
        self.hand.mc_serialize(to)
    }
}

impl Deserialize for PlayOpenBookSpec {
    type Model = <PlayOpenBookSpecFields as Deserialize>::Model;

    open spec fn model(&self) -> Self::Model {
        self.fields().model()
    }

    /// Each field from what the one before left over.
    open spec fn decoding(data: Seq<u8>) -> Parsed<Self::Model> {
        <PlayOpenBookSpecFields>::decoding(data)
    }

    proof fn lemma_remainder(data: Seq<u8>) {
        <PlayOpenBookSpecFields>::lemma_remainder(data);
    }

    fn mc_deserialize(data: &[u8]) -> (res: DeserializeResult<'_, Self>) {
        let Deserialized { value: hand, data: rest } =
            <PlayOpenBookSpecFields>::mc_deserialize(data)?;
        Deserialized::ok(PlayOpenBookSpec { hand }, rest)
    }
}

impl ProtocolType for PlayOpenBookSpec {
    open spec fn legal(&self) -> bool {
        self.fields().legal()
    }

    open spec fn self_delimiting() -> bool {
        <PlayOpenBookSpecFields>::self_delimiting()
    }

    proof fn lemma_round_trip(&self, rest: Seq<u8>) {
        self.fields().lemma_round_trip(rest);
    }
}

/// What the packet `PlayOpenWindow` holds.
#[derive(Debug, Clone, PartialEq)]
pub struct PlayOpenWindowSpec {
    pub id: VarInt,
    pub kind: WindowType,
    pub title: String,
}

/// The fields of [`PlayOpenWindowSpec`] in the order they travel.
pub type PlayOpenWindowSpecFields = (VarInt, WindowType, String);

impl PlayOpenWindowSpec {
    pub open spec fn fields(&self) -> PlayOpenWindowSpecFields {
        (self.id, self.kind, self.title)
    }
}

impl Serialize for PlayOpenWindowSpec {
    /// The fields' encodings, one behind the other.
    open spec fn wire(&self) -> Seq<u8> {
        self.fields().wire()
    }

    fn mc_serialize<S: Serializer>(&self, to: &mut S) -> (res: SerializeResult) {
        let ghost before = to.written();
        self.id.mc_serialize(to)?;
        self.kind.mc_serialize(to)?;
        let res = self.title.mc_serialize(to);
        proof {
            broadcast use lemma_concat_assoc;

            lemma_tuple3_wire(&self.fields());
        }
        res
    }
}

impl Deserialize for PlayOpenWindowSpec {
    type Model = <PlayOpenWindowSpecFields as Deserialize>::Model;

    open spec fn model(&self) -> Self::Model {
        self.fields().model()
    }

    /// Each field from what the one before left over.
    open spec fn decoding(data: Seq<u8>) -> Parsed<Self::Model> {
        <PlayOpenWindowSpecFields>::decoding(data)
    }

    proof fn lemma_remainder(data: Seq<u8>) {
        <PlayOpenWindowSpecFields>::lemma_remainder(data);
    }

    fn mc_deserialize(data: &[u8]) -> (res: DeserializeResult<'_, Self>) {
        let Deserialized { value, data: rest } = <PlayOpenWindowSpecFields>::mc_deserialize(data)?;
        let (id, kind, title) = value;
        Deserialized::ok(PlayOpenWindowSpec { id, kind, title }, rest)
    }
}

impl ProtocolType for PlayOpenWindowSpec {
    open spec fn legal(&self) -> bool {
        self.fields().legal()
    }

    open spec fn self_delimiting() -> bool {
        <PlayOpenWindowSpecFields>::self_delimiting()
    }

    proof fn lemma_round_trip(&self, rest: Seq<u8>) {
        self.fields().lemma_round_trip(rest);
    }
}

/// What the packet `PlayOpenSignEditor` holds.
#[derive(Debug, Clone, PartialEq)]
pub struct PlayOpenSignEditorSpec {
    pub location: IntPosition,
}

/// The fields of [`PlayOpenSignEditorSpec`] in the order they travel.
pub type PlayOpenSignEditorSpecFields = IntPosition;

impl PlayOpenSignEditorSpec {
    pub open spec fn fields(&self) -> PlayOpenSignEditorSpecFields {
        self.location
    }
}

impl Serialize for PlayOpenSignEditorSpec {
    /// The fields' encodings, one behind the other.
    open spec fn wire(&self) -> Seq<u8> {
        self.fields().wire()
    }

    fn mc_serialize<S: Serializer>(&self, to: &mut S) -> (res: SerializeResult) {
        self.location.mc_serialize(to)
    }
}

impl Deserialize for PlayOpenSignEditorSpec {
    type Model = <PlayOpenSignEditorSpecFields as Deserialize>::Model;

    open spec fn model(&self) -> Self::Model {
        self.fields().model()
    }

    /// Each field from what the one before left over.
    open spec fn decoding(data: Seq<u8>) -> Parsed<Self::Model> {
        <PlayOpenSignEditorSpecFields>::decoding(data)
    }

    proof fn lemma_remainder(data: Seq<u8>) {
        <PlayOpenSignEditorSpecFields>::lemma_remainder(data);
    }

    fn mc_deserialize(data: &[u8]) -> (res: DeserializeResult<'_, Self>) {
        let Deserialized { value: location, data: rest } =
            <PlayOpenSignEditorSpecFields>::mc_deserialize(data)?;
        Deserialized::ok(PlayOpenSignEditorSpec { location }, rest)
    }
}

impl ProtocolType for PlayOpenSignEditorSpec {
    open spec fn legal(&self) -> bool {
        self.fields().legal()
    }

    open spec fn self_delimiting() -> bool {
        <PlayOpenSignEditorSpecFields>::self_delimiting()
    }

    proof fn lemma_round_trip(&self, rest: Seq<u8>) {
        self.fields().lemma_round_trip(rest);
    }
}

/// What the packet `PlayCraftRecipeResponse` holds.
#[derive(Debug, Clone, PartialEq)]
pub struct PlayCraftRecipeResponseSpec {
    pub window_id: u8,
    pub recipe: String,
}

/// The fields of [`PlayCraftRecipeResponseSpec`] in the order they travel.
pub type PlayCraftRecipeResponseSpecFields = (u8, String);

impl PlayCraftRecipeResponseSpec {
    pub open spec fn fields(&self) -> PlayCraftRecipeResponseSpecFields {
        (self.window_id, self.recipe)
    }
}

impl Serialize for PlayCraftRecipeResponseSpec {
    /// The fields' encodings, one behind the other.
    open spec fn wire(&self) -> Seq<u8> {
        self.fields().wire()
    }

    fn mc_serialize<S: Serializer>(&self, to: &mut S) -> (res: SerializeResult) {
        let ghost before = to.written();
        self.window_id.mc_serialize(to)?;
        let res = self.recipe.mc_serialize(to);
        proof {
            broadcast use lemma_concat_assoc;

            lemma_tuple2_wire(&self.fields());
        }
        res
    }
}

impl Deserialize for PlayCraftRecipeResponseSpec {
    type Model = <PlayCraftRecipeResponseSpecFields as Deserialize>::Model;

    open spec fn model(&self) -> Self::Model {
        self.fields().model()
    }

    /// Each field from what the one before left over.
    open spec fn decoding(data: Seq<u8>) -> Parsed<Self::Model> {
        <PlayCraftRecipeResponseSpecFields>::decoding(data)
    }

    proof fn lemma_remainder(data: Seq<u8>) {
        <PlayCraftRecipeResponseSpecFields>::lemma_remainder(data);
    }

    fn mc_deserialize(data: &[u8]) -> (res: DeserializeResult<'_, Self>) {
        let Deserialized { value, data: rest } =
            <PlayCraftRecipeResponseSpecFields>::mc_deserialize(data)?;
        let (window_id, recipe) = value;
        Deserialized::ok(PlayCraftRecipeResponseSpec { window_id, recipe }, rest)
    }
}

impl ProtocolType for PlayCraftRecipeResponseSpec {
    open spec fn legal(&self) -> bool {
        self.fields().legal()
    }

    open spec fn self_delimiting() -> bool {
        <PlayCraftRecipeResponseSpecFields>::self_delimiting()
    }

    proof fn lemma_round_trip(&self, rest: Seq<u8>) {
        self.fields().lemma_round_trip(rest);
    }
}

/// What the packet `PlayServerPlayerAbilities` holds.
#[derive(Debug, Clone, PartialEq)]
pub struct PlayServerPlayerAbilitiesSpec {
    pub flags: PlayerAbilityFlags,
    pub flying_speed: Float,
    pub field_of_view_modifier: Float,
}

/// The fields of [`PlayServerPlayerAbilitiesSpec`] in the order they travel.
pub type PlayServerPlayerAbilitiesSpecFields = (PlayerAbilityFlags, Float, Float);

impl PlayServerPlayerAbilitiesSpec {
    pub open spec fn fields(&self) -> PlayServerPlayerAbilitiesSpecFields {
        (self.flags, self.flying_speed, self.field_of_view_modifier)
    }
}

impl Serialize for PlayServerPlayerAbilitiesSpec {
    /// The fields' encodings, one behind the other.
    open spec fn wire(&self) -> Seq<u8> {
        self.fields().wire()
    }

    fn mc_serialize<S: Serializer>(&self, to: &mut S) -> (res: SerializeResult) {
        let ghost before = to.written();
        self.flags.mc_serialize(to)?;
        self.flying_speed.mc_serialize(to)?;
        let res = self.field_of_view_modifier.mc_serialize(to);
        proof {
            broadcast use lemma_concat_assoc;

            lemma_tuple3_wire(&self.fields());
        }
        res
    }
}

impl Deserialize for PlayServerPlayerAbilitiesSpec {
    type Model = <PlayServerPlayerAbilitiesSpecFields as Deserialize>::Model;

    open spec fn model(&self) -> Self::Model {
        self.fields().model()
    }

    /// Each field from what the one before left over.
    open spec fn decoding(data: Seq<u8>) -> Parsed<Self::Model> {
        <PlayServerPlayerAbilitiesSpecFields>::decoding(data)
    }

    proof fn lemma_remainder(data: Seq<u8>) {
        <PlayServerPlayerAbilitiesSpecFields>::lemma_remainder(data);
    }

    fn mc_deserialize(data: &[u8]) -> (res: DeserializeResult<'_, Self>) {
        let Deserialized { value, data: rest } =
            <PlayServerPlayerAbilitiesSpecFields>::mc_deserialize(data)?;
        let (flags, flying_speed, field_of_view_modifier) = value;
        Deserialized::ok(PlayServerPlayerAbilitiesSpec {
            flags, flying_speed, field_of_view_modifier,
        }, rest)
    }
}

impl ProtocolType for PlayServerPlayerAbilitiesSpec {
    open spec fn legal(&self) -> bool {
        self.fields().legal()
    }

    open spec fn self_delimiting() -> bool {
        <PlayServerPlayerAbilitiesSpecFields>::self_delimiting()
    }

    proof fn lemma_round_trip(&self, rest: Seq<u8>) {
        self.fields().lemma_round_trip(rest);
    }
}

/// What the packet `PlayCombatEvent` holds.
#[derive(Debug, Clone, PartialEq)]
pub struct PlayCombatEventSpec {
    pub event: CombatEvent,
}

/// The fields of [`PlayCombatEventSpec`] in the order they travel.
pub type PlayCombatEventSpecFields = CombatEvent;

impl PlayCombatEventSpec {
    pub open spec fn fields(&self) -> PlayCombatEventSpecFields {
        self.event
    }
}

impl Serialize for PlayCombatEventSpec {
    /// The fields' encodings, one behind the other.
    open spec fn wire(&self) -> Seq<u8> {
        self.fields().wire()
    }

    fn mc_serialize<S: Serializer>(&self, to: &mut S) -> (res: SerializeResult) {
        self.event.mc_serialize(to)
    }
}

impl Deserialize for PlayCombatEventSpec {
    type Model = <PlayCombatEventSpecFields as Deserialize>::Model;

    open spec fn model(&self) -> Self::Model {
        self.fields().model()
    }

    /// Each field from what the one before left over.
    open spec fn decoding(data: Seq<u8>) -> Parsed<Self::Model> {
        <PlayCombatEventSpecFields>::decoding(data)
    }

    proof fn lemma_remainder(data: Seq<u8>) {
        <PlayCombatEventSpecFields>::lemma_remainder(data);
    }

    fn mc_deserialize(data: &[u8]) -> (res: DeserializeResult<'_, Self>) {
        let Deserialized { value: event, data: rest } =
            <PlayCombatEventSpecFields>::mc_deserialize(data)?;
        Deserialized::ok(PlayCombatEventSpec { event }, rest)
    }
}

impl ProtocolType for PlayCombatEventSpec {
    open spec fn legal(&self) -> bool {
        self.fields().legal()
    }

    open spec fn self_delimiting() -> bool {
        <PlayCombatEventSpecFields>::self_delimiting()
    }

    proof fn lemma_round_trip(&self, rest: Seq<u8>) {
        self.fields().lemma_round_trip(rest);
    }
}

/// What the packet `PlayPlayerInfo` holds.
#[derive(Debug, Clone, PartialEq)]
pub struct PlayPlayerInfoSpec {
    pub actions: PlayerInfoActionList,
}

/// The fields of [`PlayPlayerInfoSpec`] in the order they travel.
pub type PlayPlayerInfoSpecFields = PlayerInfoActionList;

impl PlayPlayerInfoSpec {
    pub open spec fn fields(&self) -> PlayPlayerInfoSpecFields {
        self.actions
    }
}

impl Serialize for PlayPlayerInfoSpec {
    /// The fields' encodings, one behind the other.
    open spec fn wire(&self) -> Seq<u8> {
        self.fields().wire()
    }

    fn mc_serialize<S: Serializer>(&self, to: &mut S) -> (res: SerializeResult) {
        self.actions.mc_serialize(to)
    }
}

impl Deserialize for PlayPlayerInfoSpec {
    type Model = <PlayPlayerInfoSpecFields as Deserialize>::Model;

    open spec fn model(&self) -> Self::Model {
        self.fields().model()
    }

    /// Each field from what the one before left over.
    open spec fn decoding(data: Seq<u8>) -> Parsed<Self::Model> {
        <PlayPlayerInfoSpecFields>::decoding(data)
    }

    proof fn lemma_remainder(data: Seq<u8>) {
        <PlayPlayerInfoSpecFields>::lemma_remainder(data);
    }

    fn mc_deserialize(data: &[u8]) -> (res: DeserializeResult<'_, Self>) {
        let Deserialized { value: actions, data: rest } =
            <PlayPlayerInfoSpecFields>::mc_deserialize(data)?;
        Deserialized::ok(PlayPlayerInfoSpec { actions }, rest)
    }
}

impl ProtocolType for PlayPlayerInfoSpec {
    open spec fn legal(&self) -> bool {
        self.fields().legal()
    }

    open spec fn self_delimiting() -> bool {
        <PlayPlayerInfoSpecFields>::self_delimiting()
    }

    proof fn lemma_round_trip(&self, rest: Seq<u8>) {
        self.fields().lemma_round_trip(rest);
    }
}

/// What the packet `PlayFacePlayer` holds.
#[derive(Debug, Clone, PartialEq)]
pub struct PlayFacePlayerSpec {
    pub face_kind: FacePlayerKind,
    pub target_x: Double,
    pub target_y: Double,
    pub target_z: Double,
    pub entity: Option<FacePlayerEntityTarget>,
}

/// The fields of [`PlayFacePlayerSpec`] in the order they travel.
pub type PlayFacePlayerSpecFields = (
    FacePlayerKind, Double, Double, Double, Option<FacePlayerEntityTarget>,
);

impl PlayFacePlayerSpec {
    pub open spec fn fields(&self) -> PlayFacePlayerSpecFields {
        (self.face_kind, self.target_x, self.target_y, self.target_z, self.entity)
    }
}

impl Serialize for PlayFacePlayerSpec {
    /// The fields' encodings, one behind the other.
    open spec fn wire(&self) -> Seq<u8> {
        self.fields().wire()
    }

    fn mc_serialize<S: Serializer>(&self, to: &mut S) -> (res: SerializeResult) {
        let ghost before = to.written();
        self.face_kind.mc_serialize(to)?;
        self.target_x.mc_serialize(to)?;
        self.target_y.mc_serialize(to)?;
        self.target_z.mc_serialize(to)?;
        let res = self.entity.mc_serialize(to);
        proof {
            broadcast use lemma_concat_assoc;

            lemma_tuple5_wire(&self.fields());
        }
        res
    }
}

impl Deserialize for PlayFacePlayerSpec {
    type Model = <PlayFacePlayerSpecFields as Deserialize>::Model;

    open spec fn model(&self) -> Self::Model {
        self.fields().model()
    }

    /// Each field from what the one before left over.
    open spec fn decoding(data: Seq<u8>) -> Parsed<Self::Model> {
        <PlayFacePlayerSpecFields>::decoding(data)
    }

    proof fn lemma_remainder(data: Seq<u8>) {
        <PlayFacePlayerSpecFields>::lemma_remainder(data);
    }

    fn mc_deserialize(data: &[u8]) -> (res: DeserializeResult<'_, Self>) {
        let Deserialized { value, data: rest } = <PlayFacePlayerSpecFields>::mc_deserialize(data)?;
        let (face_kind, target_x, target_y, target_z, entity) = value;
        Deserialized::ok(PlayFacePlayerSpec {
            face_kind, target_x, target_y, target_z, entity,
        }, rest)
    }
}

impl ProtocolType for PlayFacePlayerSpec {
    open spec fn legal(&self) -> bool {
        self.fields().legal()
    }

    open spec fn self_delimiting() -> bool {
        <PlayFacePlayerSpecFields>::self_delimiting()
    }

    proof fn lemma_round_trip(&self, rest: Seq<u8>) {
        self.fields().lemma_round_trip(rest);
    }
}

/// What the packet `PlayServerPlayerPositionAndLook` holds.
#[derive(Debug, Clone, PartialEq)]
pub struct PlayServerPlayerPositionAndLookSpec {
    pub x: Double,
    pub y: Double,
    pub z: Double,
    pub yaw: Float,
    pub pitch: Float,
    pub flags: PositionAndLookFlags,
    pub teleport_id: VarInt,
}

/// The fields of [`PlayServerPlayerPositionAndLookSpec`] in the order they travel.
pub type PlayServerPlayerPositionAndLookSpecFields = (
    Double, Double, Double, Float, Float, PositionAndLookFlags, VarInt,
);

impl PlayServerPlayerPositionAndLookSpec {
    pub open spec fn fields(&self) -> PlayServerPlayerPositionAndLookSpecFields {
        (self.x, self.y, self.z, self.yaw, self.pitch, self.flags, self.teleport_id)
    }
}

impl Serialize for PlayServerPlayerPositionAndLookSpec {
    /// The fields' encodings, one behind the other.
    open spec fn wire(&self) -> Seq<u8> {
        self.fields().wire()
    }

    fn mc_serialize<S: Serializer>(&self, to: &mut S) -> (res: SerializeResult) {
        let ghost before = to.written();
        self.x.mc_serialize(to)?;
        self.y.mc_serialize(to)?;
        self.z.mc_serialize(to)?;
        self.yaw.mc_serialize(to)?;
        self.pitch.mc_serialize(to)?;
        self.flags.mc_serialize(to)?;
        let res = self.teleport_id.mc_serialize(to);
        proof {
            broadcast use lemma_concat_assoc;

            lemma_tuple7_wire(&self.fields());
        }
        res
    }
}

impl Deserialize for PlayServerPlayerPositionAndLookSpec {
    type Model = <PlayServerPlayerPositionAndLookSpecFields as Deserialize>::Model;

    open spec fn model(&self) -> Self::Model {
        self.fields().model()
    }

    /// Each field from what the one before left over.
    open spec fn decoding(data: Seq<u8>) -> Parsed<Self::Model> {
        <PlayServerPlayerPositionAndLookSpecFields>::decoding(data)
    }

    proof fn lemma_remainder(data: Seq<u8>) {
        <PlayServerPlayerPositionAndLookSpecFields>::lemma_remainder(data);
    }

    fn mc_deserialize(data: &[u8]) -> (res: DeserializeResult<'_, Self>) {
        let Deserialized { value, data: rest } =
            <PlayServerPlayerPositionAndLookSpecFields>::mc_deserialize(data)?;
        let (x, y, z, yaw, pitch, flags, teleport_id) = value;
        Deserialized::ok(PlayServerPlayerPositionAndLookSpec {
            x, y, z, yaw, pitch, flags, teleport_id,
        }, rest)
    }
}

impl ProtocolType for PlayServerPlayerPositionAndLookSpec {
    open spec fn legal(&self) -> bool {
        self.fields().legal()
    }

    open spec fn self_delimiting() -> bool {
        <PlayServerPlayerPositionAndLookSpecFields>::self_delimiting()
    }

    proof fn lemma_round_trip(&self, rest: Seq<u8>) {
        self.fields().lemma_round_trip(rest);
    }
}

/// What the packet `PlayUnlockRecipes` holds.
#[derive(Debug, Clone, PartialEq)]
pub struct PlayUnlockRecipesSpec {
    pub action: RecipeUnlockAction,
    pub crafting_book_open: bool,
    pub crafting_book_active: bool,
    pub smelting_book_open: bool,
    pub smelting_book_active: bool,
    pub recipe_ids: VarIntCountedArray<String>,
    pub other_recipe_ids: RemainingBytes,
}

/// The fields of [`PlayUnlockRecipesSpec`] in the order they travel.
pub type PlayUnlockRecipesSpecFields = (
    RecipeUnlockAction, bool, bool, bool, bool, VarIntCountedArray<String>, RemainingBytes,
);

impl PlayUnlockRecipesSpec {
    pub open spec fn fields(&self) -> PlayUnlockRecipesSpecFields {
        (
            self.action, self.crafting_book_open, self.crafting_book_active,
            self.smelting_book_open, self.smelting_book_active, self.recipe_ids,
            self.other_recipe_ids,
        )
    }
}

impl Serialize for PlayUnlockRecipesSpec {
    /// The fields' encodings, one behind the other.
    open spec fn wire(&self) -> Seq<u8> {
        self.fields().wire()
    }

    fn mc_serialize<S: Serializer>(&self, to: &mut S) -> (res: SerializeResult) {
        let ghost before = to.written();
        self.action.mc_serialize(to)?;
        self.crafting_book_open.mc_serialize(to)?;
        self.crafting_book_active.mc_serialize(to)?;
        self.smelting_book_open.mc_serialize(to)?;
        self.smelting_book_active.mc_serialize(to)?;
        self.recipe_ids.mc_serialize(to)?;
        let res = self.other_recipe_ids.mc_serialize(to);
        proof {
            broadcast use lemma_concat_assoc;

            lemma_tuple7_wire(&self.fields());
        }
        res
    }
}

impl Deserialize for PlayUnlockRecipesSpec {
    type Model = <PlayUnlockRecipesSpecFields as Deserialize>::Model;

    open spec fn model(&self) -> Self::Model {
        self.fields().model()
    }

    /// Each field from what the one before left over.
    open spec fn decoding(data: Seq<u8>) -> Parsed<Self::Model> {
        <PlayUnlockRecipesSpecFields>::decoding(data)
    }

    proof fn lemma_remainder(data: Seq<u8>) {
        <PlayUnlockRecipesSpecFields>::lemma_remainder(data);
    }

    fn mc_deserialize(data: &[u8]) -> (res: DeserializeResult<'_, Self>) {
        let Deserialized { value, data: rest } =
            <PlayUnlockRecipesSpecFields>::mc_deserialize(data)?;
        let (
            action, crafting_book_open, crafting_book_active, smelting_book_open,
            smelting_book_active, recipe_ids, other_recipe_ids,
        ) = value;
        Deserialized::ok(PlayUnlockRecipesSpec {
            action, crafting_book_open, crafting_book_active, smelting_book_open,
            smelting_book_active, recipe_ids, other_recipe_ids,
        }, rest)
    }
}

impl ProtocolType for PlayUnlockRecipesSpec {
    open spec fn legal(&self) -> bool {
        self.fields().legal()
    }

    open spec fn self_delimiting() -> bool {
        <PlayUnlockRecipesSpecFields>::self_delimiting()
    }

    proof fn lemma_round_trip(&self, rest: Seq<u8>) {
        self.fields().lemma_round_trip(rest);
    }
}

/// What the packet `PlayDestroyEntities` holds.
#[derive(Debug, Clone, PartialEq)]
pub struct PlayDestroyEntitiesSpec {
    pub entity_ids: VarIntCountedArray<VarInt>,
}

/// The fields of [`PlayDestroyEntitiesSpec`] in the order they travel.
pub type PlayDestroyEntitiesSpecFields = VarIntCountedArray<VarInt>;

impl PlayDestroyEntitiesSpec {
    pub open spec fn fields(&self) -> PlayDestroyEntitiesSpecFields {
        self.entity_ids
    }
}

impl Serialize for PlayDestroyEntitiesSpec {
    /// The fields' encodings, one behind the other.
    open spec fn wire(&self) -> Seq<u8> {
        self.fields().wire()
    }

    fn mc_serialize<S: Serializer>(&self, to: &mut S) -> (res: SerializeResult) {
        self.entity_ids.mc_serialize(to)
    }
}

impl Deserialize for PlayDestroyEntitiesSpec {
    type Model = <PlayDestroyEntitiesSpecFields as Deserialize>::Model;

    open spec fn model(&self) -> Self::Model {
        self.fields().model()
    }

    /// Each field from what the one before left over.
    open spec fn decoding(data: Seq<u8>) -> Parsed<Self::Model> {
        <PlayDestroyEntitiesSpecFields>::decoding(data)
    }

    proof fn lemma_remainder(data: Seq<u8>) {
        <PlayDestroyEntitiesSpecFields>::lemma_remainder(data);
    }

    fn mc_deserialize(data: &[u8]) -> (res: DeserializeResult<'_, Self>) {
        let Deserialized { value: entity_ids, data: rest } =
            <PlayDestroyEntitiesSpecFields>::mc_deserialize(data)?;
        Deserialized::ok(PlayDestroyEntitiesSpec { entity_ids }, rest)
    }
}

impl ProtocolType for PlayDestroyEntitiesSpec {
    open spec fn legal(&self) -> bool {
        self.fields().legal()
    }

    open spec fn self_delimiting() -> bool {
        <PlayDestroyEntitiesSpecFields>::self_delimiting()
    }

    proof fn lemma_round_trip(&self, rest: Seq<u8>) {
        self.fields().lemma_round_trip(rest);
    }
}

/// What the packet `PlayRemoveEntityEffect` holds.
#[derive(Debug, Clone, PartialEq)]
pub struct PlayRemoveEntityEffectSpec {
    pub entity_id: VarInt,
    pub effect: EntityEffectKind,
}

/// The fields of [`PlayRemoveEntityEffectSpec`] in the order they travel.
pub type PlayRemoveEntityEffectSpecFields = (VarInt, EntityEffectKind);

impl PlayRemoveEntityEffectSpec {
    pub open spec fn fields(&self) -> PlayRemoveEntityEffectSpecFields {
        (self.entity_id, self.effect)
    }
}

impl Serialize for PlayRemoveEntityEffectSpec {
    /// The fields' encodings, one behind the other.
    open spec fn wire(&self) -> Seq<u8> {
        self.fields().wire()
    }

    fn mc_serialize<S: Serializer>(&self, to: &mut S) -> (res: SerializeResult) {
        let ghost before = to.written();
        self.entity_id.mc_serialize(to)?;
        let res = self.effect.mc_serialize(to);
        proof {
            broadcast use lemma_concat_assoc;

            lemma_tuple2_wire(&self.fields());
        }
        res
    }
}

impl Deserialize for PlayRemoveEntityEffectSpec {
    type Model = <PlayRemoveEntityEffectSpecFields as Deserialize>::Model;

    open spec fn model(&self) -> Self::Model {
        self.fields().model()
    }

    /// Each field from what the one before left over.
    open spec fn decoding(data: Seq<u8>) -> Parsed<Self::Model> {
        <PlayRemoveEntityEffectSpecFields>::decoding(data)
    }

    proof fn lemma_remainder(data: Seq<u8>) {
        <PlayRemoveEntityEffectSpecFields>::lemma_remainder(data);
    }

    fn mc_deserialize(data: &[u8]) -> (res: DeserializeResult<'_, Self>) {
        let Deserialized { value, data: rest } =
            <PlayRemoveEntityEffectSpecFields>::mc_deserialize(data)?;
        let (entity_id, effect) = value;
        Deserialized::ok(PlayRemoveEntityEffectSpec { entity_id, effect }, rest)
    }
}

impl ProtocolType for PlayRemoveEntityEffectSpec {
    open spec fn legal(&self) -> bool {
        self.fields().legal()
    }

    open spec fn self_delimiting() -> bool {
        <PlayRemoveEntityEffectSpecFields>::self_delimiting()
    }

    proof fn lemma_round_trip(&self, rest: Seq<u8>) {
        self.fields().lemma_round_trip(rest);
    }
}

/// What the packet `PlayResourcePackSend` holds.
#[derive(Debug, Clone, PartialEq)]
pub struct PlayResourcePackSendSpec {
    pub url: String,
    pub hash: String,
}

/// The fields of [`PlayResourcePackSendSpec`] in the order they travel.
pub type PlayResourcePackSendSpecFields = (String, String);

impl PlayResourcePackSendSpec {
    pub open spec fn fields(&self) -> PlayResourcePackSendSpecFields {
        (self.url, self.hash)
    }
}

impl Serialize for PlayResourcePackSendSpec {
    /// The fields' encodings, one behind the other.
    open spec fn wire(&self) -> Seq<u8> {
        self.fields().wire()
    }

    fn mc_serialize<S: Serializer>(&self, to: &mut S) -> (res: SerializeResult) {
        let ghost before = to.written();
        self.url.mc_serialize(to)?;
        let res = self.hash.mc_serialize(to);
        proof {
            broadcast use lemma_concat_assoc;

            lemma_tuple2_wire(&self.fields());
        }
        res
    }
}

impl Deserialize for PlayResourcePackSendSpec {
    type Model = <PlayResourcePackSendSpecFields as Deserialize>::Model;

    open spec fn model(&self) -> Self::Model {
        self.fields().model()
    }

    /// Each field from what the one before left over.
    open spec fn decoding(data: Seq<u8>) -> Parsed<Self::Model> {
        <PlayResourcePackSendSpecFields>::decoding(data)
    }

    proof fn lemma_remainder(data: Seq<u8>) {
        <PlayResourcePackSendSpecFields>::lemma_remainder(data);
    }

    fn mc_deserialize(data: &[u8]) -> (res: DeserializeResult<'_, Self>) {
        let Deserialized { value, data: rest } =
            <PlayResourcePackSendSpecFields>::mc_deserialize(data)?;
        let (url, hash) = value;
        Deserialized::ok(PlayResourcePackSendSpec { url, hash }, rest)
    }
}

impl ProtocolType for PlayResourcePackSendSpec {
    open spec fn legal(&self) -> bool {
        self.fields().legal()
    }

    open spec fn self_delimiting() -> bool {
        <PlayResourcePackSendSpecFields>::self_delimiting()
    }

    proof fn lemma_round_trip(&self, rest: Seq<u8>) {
        self.fields().lemma_round_trip(rest);
    }
}

/// What the packet `PlayRespawn` holds.
#[derive(Debug, Clone, PartialEq)]
pub struct PlayRespawnSpec {
    pub dimension: Dimension,
    pub hashed_seed: i64,
    pub gamemode: GameMode,
    pub level_type: String,
}

/// The fields of [`PlayRespawnSpec`] in the order they travel.
pub type PlayRespawnSpecFields = (Dimension, i64, GameMode, String);

impl PlayRespawnSpec {
    pub open spec fn fields(&self) -> PlayRespawnSpecFields {
        (self.dimension, self.hashed_seed, self.gamemode, self.level_type)
    }
}

impl Serialize for PlayRespawnSpec {
    /// The fields' encodings, one behind the other.
    open spec fn wire(&self) -> Seq<u8> {
        self.fields().wire()
    }

    fn mc_serialize<S: Serializer>(&self, to: &mut S) -> (res: SerializeResult) {
        let ghost before = to.written();
        self.dimension.mc_serialize(to)?;
        self.hashed_seed.mc_serialize(to)?;
        self.gamemode.mc_serialize(to)?;
        let res = self.level_type.mc_serialize(to);
        proof {
            broadcast use lemma_concat_assoc;

            lemma_tuple4_wire(&self.fields());
        }
        res
    }
}

impl Deserialize for PlayRespawnSpec {
    type Model = <PlayRespawnSpecFields as Deserialize>::Model;

    open spec fn model(&self) -> Self::Model {
        self.fields().model()
    }

    /// Each field from what the one before left over.
    open spec fn decoding(data: Seq<u8>) -> Parsed<Self::Model> {
        <PlayRespawnSpecFields>::decoding(data)
    }

    proof fn lemma_remainder(data: Seq<u8>) {
        <PlayRespawnSpecFields>::lemma_remainder(data);
    }

    fn mc_deserialize(data: &[u8]) -> (res: DeserializeResult<'_, Self>) {
        let Deserialized { value, data: rest } = <PlayRespawnSpecFields>::mc_deserialize(data)?;
        let (dimension, hashed_seed, gamemode, level_type) = value;
        Deserialized::ok(PlayRespawnSpec { dimension, hashed_seed, gamemode, level_type }, rest)
    }
}

impl ProtocolType for PlayRespawnSpec {
    open spec fn legal(&self) -> bool {
        self.fields().legal()
    }

    open spec fn self_delimiting() -> bool {
        <PlayRespawnSpecFields>::self_delimiting()
    }

    proof fn lemma_round_trip(&self, rest: Seq<u8>) {
        self.fields().lemma_round_trip(rest);
    }
}

/// What the packet `PlayEntityHeadLook` holds.
#[derive(Debug, Clone, PartialEq)]
pub struct PlayEntityHeadLookSpec {
    pub entity_id: VarInt,
    pub head_yaw: Angle,
}

/// The fields of [`PlayEntityHeadLookSpec`] in the order they travel.
pub type PlayEntityHeadLookSpecFields = (VarInt, Angle);

impl PlayEntityHeadLookSpec {
    pub open spec fn fields(&self) -> PlayEntityHeadLookSpecFields {
        (self.entity_id, self.head_yaw)
    }
}

impl Serialize for PlayEntityHeadLookSpec {
    /// The fields' encodings, one behind the other.
    open spec fn wire(&self) -> Seq<u8> {
        self.fields().wire()
    }

    fn mc_serialize<S: Serializer>(&self, to: &mut S) -> (res: SerializeResult) {
        let ghost before = to.written();
        self.entity_id.mc_serialize(to)?;
        let res = self.head_yaw.mc_serialize(to);
        proof {
            broadcast use lemma_concat_assoc;

            lemma_tuple2_wire(&self.fields());
        }
        res
    }
}

impl Deserialize for PlayEntityHeadLookSpec {
    type Model = <PlayEntityHeadLookSpecFields as Deserialize>::Model;

    open spec fn model(&self) -> Self::Model {
        self.fields().model()
    }

    /// Each field from what the one before left over.
    open spec fn decoding(data: Seq<u8>) -> Parsed<Self::Model> {
        <PlayEntityHeadLookSpecFields>::decoding(data)
    }

    proof fn lemma_remainder(data: Seq<u8>) {
        <PlayEntityHeadLookSpecFields>::lemma_remainder(data);
    }

    fn mc_deserialize(data: &[u8]) -> (res: DeserializeResult<'_, Self>) {
        let Deserialized { value, data: rest } =
            <PlayEntityHeadLookSpecFields>::mc_deserialize(data)?;
        let (entity_id, head_yaw) = value;
        Deserialized::ok(PlayEntityHeadLookSpec { entity_id, head_yaw }, rest)
    }
}

impl ProtocolType for PlayEntityHeadLookSpec {
    open spec fn legal(&self) -> bool {
        self.fields().legal()
    }

    open spec fn self_delimiting() -> bool {
        <PlayEntityHeadLookSpecFields>::self_delimiting()
    }

    proof fn lemma_round_trip(&self, rest: Seq<u8>) {
        self.fields().lemma_round_trip(rest);
    }
}

/// What the packet `PlaySelectAdvancementTab` holds.
#[derive(Debug, Clone, PartialEq)]
pub struct PlaySelectAdvancementTabSpec {
    pub identifier: Option<String>,
}

/// The fields of [`PlaySelectAdvancementTabSpec`] in the order they travel.
pub type PlaySelectAdvancementTabSpecFields = Option<String>;

impl PlaySelectAdvancementTabSpec {
    pub open spec fn fields(&self) -> PlaySelectAdvancementTabSpecFields {
        self.identifier
    }
}

impl Serialize for PlaySelectAdvancementTabSpec {
    /// The fields' encodings, one behind the other.
    open spec fn wire(&self) -> Seq<u8> {
        self.fields().wire()
    }

    fn mc_serialize<S: Serializer>(&self, to: &mut S) -> (res: SerializeResult) {
        self.identifier.mc_serialize(to)
    }
}

impl Deserialize for PlaySelectAdvancementTabSpec {
    type Model = <PlaySelectAdvancementTabSpecFields as Deserialize>::Model;

    open spec fn model(&self) -> Self::Model {
        self.fields().model()
    }

    /// Each field from what the one before left over.
    open spec fn decoding(data: Seq<u8>) -> Parsed<Self::Model> {
        <PlaySelectAdvancementTabSpecFields>::decoding(data)
    }

    proof fn lemma_remainder(data: Seq<u8>) {
        <PlaySelectAdvancementTabSpecFields>::lemma_remainder(data);
    }

    fn mc_deserialize(data: &[u8]) -> (res: DeserializeResult<'_, Self>) {
        let Deserialized { value: identifier, data: rest } =
            <PlaySelectAdvancementTabSpecFields>::mc_deserialize(data)?;
        Deserialized::ok(PlaySelectAdvancementTabSpec { identifier }, rest)
    }
}

impl ProtocolType for PlaySelectAdvancementTabSpec {
    open spec fn legal(&self) -> bool {
        self.fields().legal()
    }

    open spec fn self_delimiting() -> bool {
        <PlaySelectAdvancementTabSpecFields>::self_delimiting()
    }

    proof fn lemma_round_trip(&self, rest: Seq<u8>) {
        self.fields().lemma_round_trip(rest);
    }
}

/// What the packet `PlayWorldBorder` holds.
#[derive(Debug, Clone, PartialEq)]
pub struct PlayWorldBorderSpec {
    pub action: WorldBorderAction,
}

/// The fields of [`PlayWorldBorderSpec`] in the order they travel.
pub type PlayWorldBorderSpecFields = WorldBorderAction;

impl PlayWorldBorderSpec {
    pub open spec fn fields(&self) -> PlayWorldBorderSpecFields {
        self.action
    }
}

impl Serialize for PlayWorldBorderSpec {
    /// The fields' encodings, one behind the other.
    open spec fn wire(&self) -> Seq<u8> {
        self.fields().wire()
    }

    fn mc_serialize<S: Serializer>(&self, to: &mut S) -> (res: SerializeResult) {
        self.action.mc_serialize(to)
    }
}

impl Deserialize for PlayWorldBorderSpec {
    type Model = <PlayWorldBorderSpecFields as Deserialize>::Model;

    open spec fn model(&self) -> Self::Model {
        self.fields().model()
    }

    /// Each field from what the one before left over.
    open spec fn decoding(data: Seq<u8>) -> Parsed<Self::Model> {
        <PlayWorldBorderSpecFields>::decoding(data)
    }

    proof fn lemma_remainder(data: Seq<u8>) {
        <PlayWorldBorderSpecFields>::lemma_remainder(data);
    }

    fn mc_deserialize(data: &[u8]) -> (res: DeserializeResult<'_, Self>) {
        let Deserialized { value: action, data: rest } =
            <PlayWorldBorderSpecFields>::mc_deserialize(data)?;
        Deserialized::ok(PlayWorldBorderSpec { action }, rest)
    }
}

impl ProtocolType for PlayWorldBorderSpec {
    open spec fn legal(&self) -> bool {
        self.fields().legal()
    }

    open spec fn self_delimiting() -> bool {
        <PlayWorldBorderSpecFields>::self_delimiting()
    }

    proof fn lemma_round_trip(&self, rest: Seq<u8>) {
        self.fields().lemma_round_trip(rest);
    }
}

/// What the packet `PlayCamera` holds.
#[derive(Debug, Clone, PartialEq)]
pub struct PlayCameraSpec {
    pub camera_id: VarInt,
}

/// The fields of [`PlayCameraSpec`] in the order they travel.
pub type PlayCameraSpecFields = VarInt;

impl PlayCameraSpec {
    pub open spec fn fields(&self) -> PlayCameraSpecFields {
        self.camera_id
    }
}

impl Serialize for PlayCameraSpec {
    /// The fields' encodings, one behind the other.
    open spec fn wire(&self) -> Seq<u8> {
        self.fields().wire()
    }

    fn mc_serialize<S: Serializer>(&self, to: &mut S) -> (res: SerializeResult) {
        self.camera_id.mc_serialize(to)
    }
}

impl Deserialize for PlayCameraSpec {
    type Model = <PlayCameraSpecFields as Deserialize>::Model;

    open spec fn model(&self) -> Self::Model {
        self.fields().model()
    }

    /// Each field from what the one before left over.
    open spec fn decoding(data: Seq<u8>) -> Parsed<Self::Model> {
        <PlayCameraSpecFields>::decoding(data)
    }

    proof fn lemma_remainder(data: Seq<u8>) {
        <PlayCameraSpecFields>::lemma_remainder(data);
    }

    fn mc_deserialize(data: &[u8]) -> (res: DeserializeResult<'_, Self>) {
        let Deserialized { value: camera_id, data: rest } =
            <PlayCameraSpecFields>::mc_deserialize(data)?;
        Deserialized::ok(PlayCameraSpec { camera_id }, rest)
    }
}

impl ProtocolType for PlayCameraSpec {
    open spec fn legal(&self) -> bool {
        self.fields().legal()
    }

    open spec fn self_delimiting() -> bool {
        <PlayCameraSpecFields>::self_delimiting()
    }

    proof fn lemma_round_trip(&self, rest: Seq<u8>) {
        self.fields().lemma_round_trip(rest);
    }
}

/// What the packet `PlayServerHeldItemChange` holds.
#[derive(Debug, Clone, PartialEq)]
pub struct PlayServerHeldItemChangeSpec {
    pub slot: i8,
}

/// The fields of [`PlayServerHeldItemChangeSpec`] in the order they travel.
pub type PlayServerHeldItemChangeSpecFields = i8;

impl PlayServerHeldItemChangeSpec {
    pub open spec fn fields(&self) -> PlayServerHeldItemChangeSpecFields {
        self.slot
    }
}

impl Serialize for PlayServerHeldItemChangeSpec {
    /// The fields' encodings, one behind the other.
    open spec fn wire(&self) -> Seq<u8> {
        self.fields().wire()
    }

    fn mc_serialize<S: Serializer>(&self, to: &mut S) -> (res: SerializeResult) {
        self.slot.mc_serialize(to)
    }
}

impl Deserialize for PlayServerHeldItemChangeSpec {
    type Model = <PlayServerHeldItemChangeSpecFields as Deserialize>::Model;

    open spec fn model(&self) -> Self::Model {
        self.fields().model()
    }

    /// Each field from what the one before left over.
    open spec fn decoding(data: Seq<u8>) -> Parsed<Self::Model> {
        <PlayServerHeldItemChangeSpecFields>::decoding(data)
    }

    proof fn lemma_remainder(data: Seq<u8>) {
        <PlayServerHeldItemChangeSpecFields>::lemma_remainder(data);
    }

    fn mc_deserialize(data: &[u8]) -> (res: DeserializeResult<'_, Self>) {
        let Deserialized { value: slot, data: rest } =
            <PlayServerHeldItemChangeSpecFields>::mc_deserialize(data)?;
        Deserialized::ok(PlayServerHeldItemChangeSpec { slot }, rest)
    }
}

impl ProtocolType for PlayServerHeldItemChangeSpec {
    open spec fn legal(&self) -> bool {
        self.fields().legal()
    }

    open spec fn self_delimiting() -> bool {
        <PlayServerHeldItemChangeSpecFields>::self_delimiting()
    }

    proof fn lemma_round_trip(&self, rest: Seq<u8>) {
        self.fields().lemma_round_trip(rest);
    }
}

/// What the packet `PlayUpdateViewPosition` holds.
#[derive(Debug, Clone, PartialEq)]
pub struct PlayUpdateViewPositionSpec {
    pub chunk_x: VarInt,
    pub chunk_z: VarInt,
}

/// The fields of [`PlayUpdateViewPositionSpec`] in the order they travel.
pub type PlayUpdateViewPositionSpecFields = (VarInt, VarInt);

impl PlayUpdateViewPositionSpec {
    pub open spec fn fields(&self) -> PlayUpdateViewPositionSpecFields {
        (self.chunk_x, self.chunk_z)
    }
}

impl Serialize for PlayUpdateViewPositionSpec {
    /// The fields' encodings, one behind the other.
    open spec fn wire(&self) -> Seq<u8> {
        self.fields().wire()
    }

    fn mc_serialize<S: Serializer>(&self, to: &mut S) -> (res: SerializeResult) {
        let ghost before = to.written();
        self.chunk_x.mc_serialize(to)?;
        let res = self.chunk_z.mc_serialize(to);
        proof {
            broadcast use lemma_concat_assoc;

            lemma_tuple2_wire(&self.fields());
        }
        res
    }
}

impl Deserialize for PlayUpdateViewPositionSpec {
    type Model = <PlayUpdateViewPositionSpecFields as Deserialize>::Model;

    open spec fn model(&self) -> Self::Model {
        self.fields().model()
    }

    /// Each field from what the one before left over.
    open spec fn decoding(data: Seq<u8>) -> Parsed<Self::Model> {
        <PlayUpdateViewPositionSpecFields>::decoding(data)
    }

    proof fn lemma_remainder(data: Seq<u8>) {
        <PlayUpdateViewPositionSpecFields>::lemma_remainder(data);
    }

    fn mc_deserialize(data: &[u8]) -> (res: DeserializeResult<'_, Self>) {
        let Deserialized { value, data: rest } =
            <PlayUpdateViewPositionSpecFields>::mc_deserialize(data)?;
        let (chunk_x, chunk_z) = value;
        Deserialized::ok(PlayUpdateViewPositionSpec { chunk_x, chunk_z }, rest)
    }
}

impl ProtocolType for PlayUpdateViewPositionSpec {
    open spec fn legal(&self) -> bool {
        self.fields().legal()
    }

    open spec fn self_delimiting() -> bool {
        <PlayUpdateViewPositionSpecFields>::self_delimiting()
    }

    proof fn lemma_round_trip(&self, rest: Seq<u8>) {
        self.fields().lemma_round_trip(rest);
    }
}

/// What the packet `PlayUpdateViewDistance` holds.
#[derive(Debug, Clone, PartialEq)]
pub struct PlayUpdateViewDistanceSpec {
    pub view_distance: VarInt,
}

/// The fields of [`PlayUpdateViewDistanceSpec`] in the order they travel.
pub type PlayUpdateViewDistanceSpecFields = VarInt;

impl PlayUpdateViewDistanceSpec {
    pub open spec fn fields(&self) -> PlayUpdateViewDistanceSpecFields {
        self.view_distance
    }
}

impl Serialize for PlayUpdateViewDistanceSpec {
    /// The fields' encodings, one behind the other.
    open spec fn wire(&self) -> Seq<u8> {
        self.fields().wire()
    }

    fn mc_serialize<S: Serializer>(&self, to: &mut S) -> (res: SerializeResult) {
        self.view_distance.mc_serialize(to)
    }
}

impl Deserialize for PlayUpdateViewDistanceSpec {
    type Model = <PlayUpdateViewDistanceSpecFields as Deserialize>::Model;

    open spec fn model(&self) -> Self::Model {
        self.fields().model()
    }

    /// Each field from what the one before left over.
    open spec fn decoding(data: Seq<u8>) -> Parsed<Self::Model> {
        <PlayUpdateViewDistanceSpecFields>::decoding(data)
    }

    proof fn lemma_remainder(data: Seq<u8>) {
        <PlayUpdateViewDistanceSpecFields>::lemma_remainder(data);
    }

    fn mc_deserialize(data: &[u8]) -> (res: DeserializeResult<'_, Self>) {
        let Deserialized { value: view_distance, data: rest } =
            <PlayUpdateViewDistanceSpecFields>::mc_deserialize(data)?;
        Deserialized::ok(PlayUpdateViewDistanceSpec { view_distance }, rest)
    }
}

impl ProtocolType for PlayUpdateViewDistanceSpec {
    open spec fn legal(&self) -> bool {
        self.fields().legal()
    }

    open spec fn self_delimiting() -> bool {
        <PlayUpdateViewDistanceSpecFields>::self_delimiting()
    }

    proof fn lemma_round_trip(&self, rest: Seq<u8>) {
        self.fields().lemma_round_trip(rest);
    }
}

/// What the packet `PlayDisplayScoreboard` holds.
#[derive(Debug, Clone, PartialEq)]
pub struct PlayDisplayScoreboardSpec {
    pub position: ScoreboardPosition,
    pub score_name: String,
}

/// The fields of [`PlayDisplayScoreboardSpec`] in the order they travel.
pub type PlayDisplayScoreboardSpecFields = (ScoreboardPosition, String);

impl PlayDisplayScoreboardSpec {
    pub open spec fn fields(&self) -> PlayDisplayScoreboardSpecFields {
        (self.position, self.score_name)
    }
}

impl Serialize for PlayDisplayScoreboardSpec {
    /// The fields' encodings, one behind the other.
    open spec fn wire(&self) -> Seq<u8> {
        self.fields().wire()
    }

    fn mc_serialize<S: Serializer>(&self, to: &mut S) -> (res: SerializeResult) {
        let ghost before = to.written();
        self.position.mc_serialize(to)?;
        let res = self.score_name.mc_serialize(to);
        proof {
            broadcast use lemma_concat_assoc;

            lemma_tuple2_wire(&self.fields());
        }
        res
    }
}

impl Deserialize for PlayDisplayScoreboardSpec {
    type Model = <PlayDisplayScoreboardSpecFields as Deserialize>::Model;

    open spec fn model(&self) -> Self::Model {
        self.fields().model()
    }

    /// Each field from what the one before left over.
    open spec fn decoding(data: Seq<u8>) -> Parsed<Self::Model> {
        <PlayDisplayScoreboardSpecFields>::decoding(data)
    }

    proof fn lemma_remainder(data: Seq<u8>) {
        <PlayDisplayScoreboardSpecFields>::lemma_remainder(data);
    }

    fn mc_deserialize(data: &[u8]) -> (res: DeserializeResult<'_, Self>) {
        let Deserialized { value, data: rest } =
            <PlayDisplayScoreboardSpecFields>::mc_deserialize(data)?;
        let (position, score_name) = value;
        Deserialized::ok(PlayDisplayScoreboardSpec { position, score_name }, rest)
    }
}

impl ProtocolType for PlayDisplayScoreboardSpec {
    open spec fn legal(&self) -> bool {
        self.fields().legal()
    }

    open spec fn self_delimiting() -> bool {
        <PlayDisplayScoreboardSpecFields>::self_delimiting()
    }

    proof fn lemma_round_trip(&self, rest: Seq<u8>) {
        self.fields().lemma_round_trip(rest);
    }
}

/// What the packet `PlayEntityMetadata` holds.
#[derive(Debug, Clone, PartialEq)]
pub struct PlayEntityMetadataSpec {
    pub entity_id: VarInt,
    pub metadata_raw: RemainingBytes,
}

/// The fields of [`PlayEntityMetadataSpec`] in the order they travel.
pub type PlayEntityMetadataSpecFields = (VarInt, RemainingBytes);

impl PlayEntityMetadataSpec {
    pub open spec fn fields(&self) -> PlayEntityMetadataSpecFields {
        (self.entity_id, self.metadata_raw)
    }
}

impl Serialize for PlayEntityMetadataSpec {
    /// The fields' encodings, one behind the other.
    open spec fn wire(&self) -> Seq<u8> {
        self.fields().wire()
    }

    fn mc_serialize<S: Serializer>(&self, to: &mut S) -> (res: SerializeResult) {
        let ghost before = to.written();
        self.entity_id.mc_serialize(to)?;
        let res = self.metadata_raw.mc_serialize(to);
        proof {
            broadcast use lemma_concat_assoc;

            lemma_tuple2_wire(&self.fields());
        }
        res
    }
}

impl Deserialize for PlayEntityMetadataSpec {
    type Model = <PlayEntityMetadataSpecFields as Deserialize>::Model;

    open spec fn model(&self) -> Self::Model {
        self.fields().model()
    }

    /// Each field from what the one before left over.
    open spec fn decoding(data: Seq<u8>) -> Parsed<Self::Model> {
        <PlayEntityMetadataSpecFields>::decoding(data)
    }

    proof fn lemma_remainder(data: Seq<u8>) {
        <PlayEntityMetadataSpecFields>::lemma_remainder(data);
    }

    fn mc_deserialize(data: &[u8]) -> (res: DeserializeResult<'_, Self>) {
        let Deserialized { value, data: rest } =
            <PlayEntityMetadataSpecFields>::mc_deserialize(data)?;
        let (entity_id, metadata_raw) = value;
        Deserialized::ok(PlayEntityMetadataSpec { entity_id, metadata_raw }, rest)
    }
}

impl ProtocolType for PlayEntityMetadataSpec {
    open spec fn legal(&self) -> bool {
        self.fields().legal()
    }

    open spec fn self_delimiting() -> bool {
        <PlayEntityMetadataSpecFields>::self_delimiting()
    }

    proof fn lemma_round_trip(&self, rest: Seq<u8>) {
        self.fields().lemma_round_trip(rest);
    }
}

/// What the packet `PlayAttachEntity` holds.
#[derive(Debug, Clone, PartialEq)]
pub struct PlayAttachEntitySpec {
    pub attached_entity_id: i32,
    pub holding_entity_id: i32,
}

/// The fields of [`PlayAttachEntitySpec`] in the order they travel.
pub type PlayAttachEntitySpecFields = (i32, i32);

impl PlayAttachEntitySpec {
    pub open spec fn fields(&self) -> PlayAttachEntitySpecFields {
        (self.attached_entity_id, self.holding_entity_id)
    }
}

impl Serialize for PlayAttachEntitySpec {
    /// The fields' encodings, one behind the other.
    open spec fn wire(&self) -> Seq<u8> {
        self.fields().wire()
    }

    fn mc_serialize<S: Serializer>(&self, to: &mut S) -> (res: SerializeResult) {
        let ghost before = to.written();
        self.attached_entity_id.mc_serialize(to)?;
        let res = self.holding_entity_id.mc_serialize(to);
        proof {
            broadcast use lemma_concat_assoc;

            lemma_tuple2_wire(&self.fields());
        }
        res
    }
}

impl Deserialize for PlayAttachEntitySpec {
    type Model = <PlayAttachEntitySpecFields as Deserialize>::Model;

    open spec fn model(&self) -> Self::Model {
        self.fields().model()
    }

    /// Each field from what the one before left over.
    open spec fn decoding(data: Seq<u8>) -> Parsed<Self::Model> {
        <PlayAttachEntitySpecFields>::decoding(data)
    }

    proof fn lemma_remainder(data: Seq<u8>) {
        <PlayAttachEntitySpecFields>::lemma_remainder(data);
    }

    fn mc_deserialize(data: &[u8]) -> (res: DeserializeResult<'_, Self>) {
        let Deserialized { value, data: rest } =
            <PlayAttachEntitySpecFields>::mc_deserialize(data)?;
        let (attached_entity_id, holding_entity_id) = value;
        Deserialized::ok(PlayAttachEntitySpec { attached_entity_id, holding_entity_id }, rest)
    }
}

impl ProtocolType for PlayAttachEntitySpec {
    open spec fn legal(&self) -> bool {
        self.fields().legal()
    }

    open spec fn self_delimiting() -> bool {
        <PlayAttachEntitySpecFields>::self_delimiting()
    }

    proof fn lemma_round_trip(&self, rest: Seq<u8>) {
        self.fields().lemma_round_trip(rest);
    }
}

/// What the packet `PlayEntityVelocity` holds.
#[derive(Debug, Clone, PartialEq)]
pub struct PlayEntityVelocitySpec {
    pub entity_id: VarInt,
    pub velocity_x: i16,
    pub velocity_y: i16,
    pub velocity_z: i16,
}

/// The fields of [`PlayEntityVelocitySpec`] in the order they travel.
pub type PlayEntityVelocitySpecFields = (VarInt, i16, i16, i16);

impl PlayEntityVelocitySpec {
    pub open spec fn fields(&self) -> PlayEntityVelocitySpecFields {
        (self.entity_id, self.velocity_x, self.velocity_y, self.velocity_z)
    }
}

impl Serialize for PlayEntityVelocitySpec {
    /// The fields' encodings, one behind the other.
    open spec fn wire(&self) -> Seq<u8> {
        self.fields().wire()
    }

    fn mc_serialize<S: Serializer>(&self, to: &mut S) -> (res: SerializeResult) {
        let ghost before = to.written();
        self.entity_id.mc_serialize(to)?;
        self.velocity_x.mc_serialize(to)?;
        self.velocity_y.mc_serialize(to)?;
        let res = self.velocity_z.mc_serialize(to);
        proof {
            broadcast use lemma_concat_assoc;

            lemma_tuple4_wire(&self.fields());
        }
        res
    }
}

impl Deserialize for PlayEntityVelocitySpec {
    type Model = <PlayEntityVelocitySpecFields as Deserialize>::Model;

    open spec fn model(&self) -> Self::Model {
        self.fields().model()
    }

    /// Each field from what the one before left over.
    open spec fn decoding(data: Seq<u8>) -> Parsed<Self::Model> {
        <PlayEntityVelocitySpecFields>::decoding(data)
    }

    proof fn lemma_remainder(data: Seq<u8>) {
        <PlayEntityVelocitySpecFields>::lemma_remainder(data);
    }

    fn mc_deserialize(data: &[u8]) -> (res: DeserializeResult<'_, Self>) {
        let Deserialized { value, data: rest } =
            <PlayEntityVelocitySpecFields>::mc_deserialize(data)?;
        let (entity_id, velocity_x, velocity_y, velocity_z) = value;
        Deserialized::ok(PlayEntityVelocitySpec {
            entity_id, velocity_x, velocity_y, velocity_z,
        }, rest)
    }
}

impl ProtocolType for PlayEntityVelocitySpec {
    open spec fn legal(&self) -> bool {
        self.fields().legal()
    }

    open spec fn self_delimiting() -> bool {
        <PlayEntityVelocitySpecFields>::self_delimiting()
    }

    proof fn lemma_round_trip(&self, rest: Seq<u8>) {
        self.fields().lemma_round_trip(rest);
    }
}

/// What the packet `PlayEntityEquipment` holds.
#[derive(Debug, Clone, PartialEq)]
pub struct PlayEntityEquiptmentSpec {
    pub entity_id: VarInt,
    pub slot: EquipmentSlot,
    pub item: Option<Slot>,
}

/// The fields of [`PlayEntityEquiptmentSpec`] in the order they travel.
pub type PlayEntityEquiptmentSpecFields = (VarInt, EquipmentSlot, Option<Slot>);

impl PlayEntityEquiptmentSpec {
    pub open spec fn fields(&self) -> PlayEntityEquiptmentSpecFields {
        (self.entity_id, self.slot, self.item)
    }
}

impl Serialize for PlayEntityEquiptmentSpec {
    /// The fields' encodings, one behind the other.
    open spec fn wire(&self) -> Seq<u8> {
        self.fields().wire()
    }

    fn mc_serialize<S: Serializer>(&self, to: &mut S) -> (res: SerializeResult) {
        let ghost before = to.written();
        self.entity_id.mc_serialize(to)?;
        self.slot.mc_serialize(to)?;
        let res = self.item.mc_serialize(to);
        proof {
            broadcast use lemma_concat_assoc;

            lemma_tuple3_wire(&self.fields());
        }
        res
    }
}

impl Deserialize for PlayEntityEquiptmentSpec {
    type Model = <PlayEntityEquiptmentSpecFields as Deserialize>::Model;

    open spec fn model(&self) -> Self::Model {
        self.fields().model()
    }

    /// Each field from what the one before left over.
    open spec fn decoding(data: Seq<u8>) -> Parsed<Self::Model> {
        <PlayEntityEquiptmentSpecFields>::decoding(data)
    }

    proof fn lemma_remainder(data: Seq<u8>) {
        <PlayEntityEquiptmentSpecFields>::lemma_remainder(data);
    }

    fn mc_deserialize(data: &[u8]) -> (res: DeserializeResult<'_, Self>) {
        let Deserialized { value, data: rest } =
            <PlayEntityEquiptmentSpecFields>::mc_deserialize(data)?;
        let (entity_id, slot, item) = value;
        Deserialized::ok(PlayEntityEquiptmentSpec { entity_id, slot, item }, rest)
    }
}

impl ProtocolType for PlayEntityEquiptmentSpec {
    open spec fn legal(&self) -> bool {
        self.fields().legal()
    }

    open spec fn self_delimiting() -> bool {
        <PlayEntityEquiptmentSpecFields>::self_delimiting()
    }

    proof fn lemma_round_trip(&self, rest: Seq<u8>) {
        self.fields().lemma_round_trip(rest);
    }
}

/// What the packet `PlaySetExperience` holds.
#[derive(Debug, Clone, PartialEq)]
pub struct PlaySetExperienceSpec {
    pub experience_bar: Float,
    pub level: VarInt,
    pub total_experience: VarInt,
}

/// The fields of [`PlaySetExperienceSpec`] in the order they travel.
pub type PlaySetExperienceSpecFields = (Float, VarInt, VarInt);

impl PlaySetExperienceSpec {
    pub open spec fn fields(&self) -> PlaySetExperienceSpecFields {
        (self.experience_bar, self.level, self.total_experience)
    }
}

impl Serialize for PlaySetExperienceSpec {
    /// The fields' encodings, one behind the other.
    open spec fn wire(&self) -> Seq<u8> {
        self.fields().wire()
    }

    fn mc_serialize<S: Serializer>(&self, to: &mut S) -> (res: SerializeResult) {
        let ghost before = to.written();
        self.experience_bar.mc_serialize(to)?;
        self.level.mc_serialize(to)?;
        let res = self.total_experience.mc_serialize(to);
        proof {
            broadcast use lemma_concat_assoc;

            lemma_tuple3_wire(&self.fields());
        }
        res
    }
}

impl Deserialize for PlaySetExperienceSpec {
    type Model = <PlaySetExperienceSpecFields as Deserialize>::Model;

    open spec fn model(&self) -> Self::Model {
        self.fields().model()
    }

    /// Each field from what the one before left over.
    open spec fn decoding(data: Seq<u8>) -> Parsed<Self::Model> {
        <PlaySetExperienceSpecFields>::decoding(data)
    }

    proof fn lemma_remainder(data: Seq<u8>) {
        <PlaySetExperienceSpecFields>::lemma_remainder(data);
    }

    fn mc_deserialize(data: &[u8]) -> (res: DeserializeResult<'_, Self>) {
        let Deserialized { value, data: rest } =
            <PlaySetExperienceSpecFields>::mc_deserialize(data)?;
        let (experience_bar, level, total_experience) = value;
        Deserialized::ok(PlaySetExperienceSpec { experience_bar, level, total_experience }, rest)
    }
}

impl ProtocolType for PlaySetExperienceSpec {
    open spec fn legal(&self) -> bool {
        self.fields().legal()
    }

    open spec fn self_delimiting() -> bool {
        <PlaySetExperienceSpecFields>::self_delimiting()
    }

    proof fn lemma_round_trip(&self, rest: Seq<u8>) {
        self.fields().lemma_round_trip(rest);
    }
}

/// What the packet `PlayUpdatehealth` holds.
#[derive(Debug, Clone, PartialEq)]
pub struct PlayUpdateHealthSpec {
    pub health: Float,
    pub food: VarInt,
    pub saturation: Float,
}

/// The fields of [`PlayUpdateHealthSpec`] in the order they travel.
pub type PlayUpdateHealthSpecFields = (Float, VarInt, Float);

impl PlayUpdateHealthSpec {
    pub open spec fn fields(&self) -> PlayUpdateHealthSpecFields {
        (self.health, self.food, self.saturation)
    }
}

impl Serialize for PlayUpdateHealthSpec {
    /// The fields' encodings, one behind the other.
    open spec fn wire(&self) -> Seq<u8> {
        self.fields().wire()
    }

    fn mc_serialize<S: Serializer>(&self, to: &mut S) -> (res: SerializeResult) {
        let ghost before = to.written();
        self.health.mc_serialize(to)?;
        self.food.mc_serialize(to)?;
        let res = self.saturation.mc_serialize(to);
        proof {
            broadcast use lemma_concat_assoc;

            lemma_tuple3_wire(&self.fields());
        }
        res
    }
}

impl Deserialize for PlayUpdateHealthSpec {
    type Model = <PlayUpdateHealthSpecFields as Deserialize>::Model;

    open spec fn model(&self) -> Self::Model {
        self.fields().model()
    }

    /// Each field from what the one before left over.
    open spec fn decoding(data: Seq<u8>) -> Parsed<Self::Model> {
        <PlayUpdateHealthSpecFields>::decoding(data)
    }

    proof fn lemma_remainder(data: Seq<u8>) {
        <PlayUpdateHealthSpecFields>::lemma_remainder(data);
    }

    fn mc_deserialize(data: &[u8]) -> (res: DeserializeResult<'_, Self>) {
        let Deserialized { value, data: rest } =
            <PlayUpdateHealthSpecFields>::mc_deserialize(data)?;
        let (health, food, saturation) = value;
        Deserialized::ok(PlayUpdateHealthSpec { health, food, saturation }, rest)
    }
}

impl ProtocolType for PlayUpdateHealthSpec {
    open spec fn legal(&self) -> bool {
        self.fields().legal()
    }

    open spec fn self_delimiting() -> bool {
        <PlayUpdateHealthSpecFields>::self_delimiting()
    }

    proof fn lemma_round_trip(&self, rest: Seq<u8>) {
        self.fields().lemma_round_trip(rest);
    }
}

/// What the packet `PlayScoreboardObjective` holds.
#[derive(Debug, Clone, PartialEq)]
pub struct PlayScoreboardObjectiveSpec {
    pub objective_name: String,
    pub action: ScoreboardObjectiveAction,
}

/// The fields of [`PlayScoreboardObjectiveSpec`] in the order they travel.
pub type PlayScoreboardObjectiveSpecFields = (String, ScoreboardObjectiveAction);

impl PlayScoreboardObjectiveSpec {
    pub open spec fn fields(&self) -> PlayScoreboardObjectiveSpecFields {
        (self.objective_name, self.action)
    }
}

impl Serialize for PlayScoreboardObjectiveSpec {
    /// The fields' encodings, one behind the other.
    open spec fn wire(&self) -> Seq<u8> {
        self.fields().wire()
    }

    fn mc_serialize<S: Serializer>(&self, to: &mut S) -> (res: SerializeResult) {
        let ghost before = to.written();
        self.objective_name.mc_serialize(to)?;
        let res = self.action.mc_serialize(to);
        proof {
            broadcast use lemma_concat_assoc;

            lemma_tuple2_wire(&self.fields());
        }
        res
    }
}

impl Deserialize for PlayScoreboardObjectiveSpec {
    type Model = <PlayScoreboardObjectiveSpecFields as Deserialize>::Model;

    open spec fn model(&self) -> Self::Model {
        self.fields().model()
    }

    /// Each field from what the one before left over.
    open spec fn decoding(data: Seq<u8>) -> Parsed<Self::Model> {
        <PlayScoreboardObjectiveSpecFields>::decoding(data)
    }

    proof fn lemma_remainder(data: Seq<u8>) {
        <PlayScoreboardObjectiveSpecFields>::lemma_remainder(data);
    }

    fn mc_deserialize(data: &[u8]) -> (res: DeserializeResult<'_, Self>) {
        let Deserialized { value, data: rest } =
            <PlayScoreboardObjectiveSpecFields>::mc_deserialize(data)?;
        let (objective_name, action) = value;
        Deserialized::ok(PlayScoreboardObjectiveSpec { objective_name, action }, rest)
    }
}

impl ProtocolType for PlayScoreboardObjectiveSpec {
    open spec fn legal(&self) -> bool {
        self.fields().legal()
    }

    open spec fn self_delimiting() -> bool {
        <PlayScoreboardObjectiveSpecFields>::self_delimiting()
    }

    proof fn lemma_round_trip(&self, rest: Seq<u8>) {
        self.fields().lemma_round_trip(rest);
    }
}

/// What the packet `PlaySetPassengers` holds.
#[derive(Debug, Clone, PartialEq)]
pub struct PlaySetPassengersSpec {
    pub entity_id: VarInt,
    pub passenger_entitiy_ids: VarIntCountedArray<VarInt>,
}

/// The fields of [`PlaySetPassengersSpec`] in the order they travel.
pub type PlaySetPassengersSpecFields = (VarInt, VarIntCountedArray<VarInt>);

impl PlaySetPassengersSpec {
    pub open spec fn fields(&self) -> PlaySetPassengersSpecFields {
        (self.entity_id, self.passenger_entitiy_ids)
    }
}

impl Serialize for PlaySetPassengersSpec {
    /// The fields' encodings, one behind the other.
    open spec fn wire(&self) -> Seq<u8> {
        self.fields().wire()
    }

    fn mc_serialize<S: Serializer>(&self, to: &mut S) -> (res: SerializeResult) {
        let ghost before = to.written();
        self.entity_id.mc_serialize(to)?;
        let res = self.passenger_entitiy_ids.mc_serialize(to);
        proof {
            broadcast use lemma_concat_assoc;

            lemma_tuple2_wire(&self.fields());
        }
        res
    }
}

impl Deserialize for PlaySetPassengersSpec {
    type Model = <PlaySetPassengersSpecFields as Deserialize>::Model;

    open spec fn model(&self) -> Self::Model {
        self.fields().model()
    }

    /// Each field from what the one before left over.
    open spec fn decoding(data: Seq<u8>) -> Parsed<Self::Model> {
        <PlaySetPassengersSpecFields>::decoding(data)
    }

    proof fn lemma_remainder(data: Seq<u8>) {
        <PlaySetPassengersSpecFields>::lemma_remainder(data);
    }

    fn mc_deserialize(data: &[u8]) -> (res: DeserializeResult<'_, Self>) {
        let Deserialized { value, data: rest } =
            <PlaySetPassengersSpecFields>::mc_deserialize(data)?;
        let (entity_id, passenger_entitiy_ids) = value;
        Deserialized::ok(PlaySetPassengersSpec { entity_id, passenger_entitiy_ids }, rest)
    }
}

impl ProtocolType for PlaySetPassengersSpec {
    open spec fn legal(&self) -> bool {
        self.fields().legal()
    }

    open spec fn self_delimiting() -> bool {
        <PlaySetPassengersSpecFields>::self_delimiting()
    }

    proof fn lemma_round_trip(&self, rest: Seq<u8>) {
        self.fields().lemma_round_trip(rest);
    }
}

/// What the packet `PlaySpawnPosition` holds.
#[derive(Debug, Clone, PartialEq)]
pub struct PlaySpawnPositionSpec {
    pub location: IntPosition,
}

/// The fields of [`PlaySpawnPositionSpec`] in the order they travel.
pub type PlaySpawnPositionSpecFields = IntPosition;

impl PlaySpawnPositionSpec {
    pub open spec fn fields(&self) -> PlaySpawnPositionSpecFields {
        self.location
    }
}

impl Serialize for PlaySpawnPositionSpec {
    /// The fields' encodings, one behind the other.
    open spec fn wire(&self) -> Seq<u8> {
        self.fields().wire()
    }

    fn mc_serialize<S: Serializer>(&self, to: &mut S) -> (res: SerializeResult) {
        self.location.mc_serialize(to)
    }
}

impl Deserialize for PlaySpawnPositionSpec {
    type Model = <PlaySpawnPositionSpecFields as Deserialize>::Model;

    open spec fn model(&self) -> Self::Model {
        self.fields().model()
    }

    /// Each field from what the one before left over.
    open spec fn decoding(data: Seq<u8>) -> Parsed<Self::Model> {
        <PlaySpawnPositionSpecFields>::decoding(data)
    }

    proof fn lemma_remainder(data: Seq<u8>) {
        <PlaySpawnPositionSpecFields>::lemma_remainder(data);
    }

    fn mc_deserialize(data: &[u8]) -> (res: DeserializeResult<'_, Self>) {
        let Deserialized { value: location, data: rest } =
            <PlaySpawnPositionSpecFields>::mc_deserialize(data)?;
        Deserialized::ok(PlaySpawnPositionSpec { location }, rest)
    }
}

impl ProtocolType for PlaySpawnPositionSpec {
    open spec fn legal(&self) -> bool {
        self.fields().legal()
    }

    open spec fn self_delimiting() -> bool {
        <PlaySpawnPositionSpecFields>::self_delimiting()
    }

    proof fn lemma_round_trip(&self, rest: Seq<u8>) {
        self.fields().lemma_round_trip(rest);
    }
}

/// What the packet `PlayTimeUpdate` holds.
#[derive(Debug, Clone, PartialEq)]
pub struct PlayTimeUpdateSpec {
    pub world_age: i64,
    pub time_of_day: i64,
}

/// The fields of [`PlayTimeUpdateSpec`] in the order they travel.
pub type PlayTimeUpdateSpecFields = (i64, i64);

impl PlayTimeUpdateSpec {
    pub open spec fn fields(&self) -> PlayTimeUpdateSpecFields {
        (self.world_age, self.time_of_day)
    }
}

impl Serialize for PlayTimeUpdateSpec {
    /// The fields' encodings, one behind the other.
    open spec fn wire(&self) -> Seq<u8> {
        self.fields().wire()
    }

    fn mc_serialize<S: Serializer>(&self, to: &mut S) -> (res: SerializeResult) {
        let ghost before = to.written();
        self.world_age.mc_serialize(to)?;
        let res = self.time_of_day.mc_serialize(to);
        proof {
            broadcast use lemma_concat_assoc;

            lemma_tuple2_wire(&self.fields());
        }
        res
    }
}

impl Deserialize for PlayTimeUpdateSpec {
    type Model = <PlayTimeUpdateSpecFields as Deserialize>::Model;

    open spec fn model(&self) -> Self::Model {
        self.fields().model()
    }

    /// Each field from what the one before left over.
    open spec fn decoding(data: Seq<u8>) -> Parsed<Self::Model> {
        <PlayTimeUpdateSpecFields>::decoding(data)
    }

    proof fn lemma_remainder(data: Seq<u8>) {
        <PlayTimeUpdateSpecFields>::lemma_remainder(data);
    }

    fn mc_deserialize(data: &[u8]) -> (res: DeserializeResult<'_, Self>) {
        let Deserialized { value, data: rest } = <PlayTimeUpdateSpecFields>::mc_deserialize(data)?;
        let (world_age, time_of_day) = value;
        Deserialized::ok(PlayTimeUpdateSpec { world_age, time_of_day }, rest)
    }
}

impl ProtocolType for PlayTimeUpdateSpec {
    open spec fn legal(&self) -> bool {
        self.fields().legal()
    }

    open spec fn self_delimiting() -> bool {
        <PlayTimeUpdateSpecFields>::self_delimiting()
    }

    proof fn lemma_round_trip(&self, rest: Seq<u8>) {
        self.fields().lemma_round_trip(rest);
    }
}

/// What the packet `PlayEntitySoundEffect` holds.
#[derive(Debug, Clone, PartialEq)]
pub struct PlayEntitySoundEffectSpec {
    pub sound_id: VarInt,
    pub sound_category: SoundCategory,
    pub entity_id: VarInt,
    pub volume: Float,
    pub pitch: Float,
}

/// The fields of [`PlayEntitySoundEffectSpec`] in the order they travel.
pub type PlayEntitySoundEffectSpecFields = (VarInt, SoundCategory, VarInt, Float, Float);

impl PlayEntitySoundEffectSpec {
    pub open spec fn fields(&self) -> PlayEntitySoundEffectSpecFields {
        (self.sound_id, self.sound_category, self.entity_id, self.volume, self.pitch)
    }
}

impl Serialize for PlayEntitySoundEffectSpec {
    /// The fields' encodings, one behind the other.
    open spec fn wire(&self) -> Seq<u8> {
        self.fields().wire()
    }

    fn mc_serialize<S: Serializer>(&self, to: &mut S) -> (res: SerializeResult) {
        let ghost before = to.written();
        self.sound_id.mc_serialize(to)?;
        self.sound_category.mc_serialize(to)?;
        self.entity_id.mc_serialize(to)?;
        self.volume.mc_serialize(to)?;
        let res = self.pitch.mc_serialize(to);
        proof {
            broadcast use lemma_concat_assoc;

            lemma_tuple5_wire(&self.fields());
        }
        res
    }
}

impl Deserialize for PlayEntitySoundEffectSpec {
    type Model = <PlayEntitySoundEffectSpecFields as Deserialize>::Model;

    open spec fn model(&self) -> Self::Model {
        self.fields().model()
    }

    /// Each field from what the one before left over.
    open spec fn decoding(data: Seq<u8>) -> Parsed<Self::Model> {
        <PlayEntitySoundEffectSpecFields>::decoding(data)
    }

    proof fn lemma_remainder(data: Seq<u8>) {
        <PlayEntitySoundEffectSpecFields>::lemma_remainder(data);
    }

    fn mc_deserialize(data: &[u8]) -> (res: DeserializeResult<'_, Self>) {
        let Deserialized { value, data: rest } =
            <PlayEntitySoundEffectSpecFields>::mc_deserialize(data)?;
        let (sound_id, sound_category, entity_id, volume, pitch) = value;
        Deserialized::ok(PlayEntitySoundEffectSpec {
            sound_id, sound_category, entity_id, volume, pitch,
        }, rest)
    }
}

impl ProtocolType for PlayEntitySoundEffectSpec {
    open spec fn legal(&self) -> bool {
        self.fields().legal()
    }

    open spec fn self_delimiting() -> bool {
        <PlayEntitySoundEffectSpecFields>::self_delimiting()
    }

    proof fn lemma_round_trip(&self, rest: Seq<u8>) {
        self.fields().lemma_round_trip(rest);
    }
}

/// What the packet `PlaySoundEffect` holds.
#[derive(Debug, Clone, PartialEq)]
pub struct PlaySoundEffectSpec {
    pub sound_id: VarInt,
    pub sound_category: SoundCategory,
    pub position_x: FixedInt,
    pub position_y: FixedInt,
    pub position_z: FixedInt,
    pub volume: Float,
    pub pitch: Float,
}

/// The fields of [`PlaySoundEffectSpec`] in the order they travel.
pub type PlaySoundEffectSpecFields = (
    VarInt, SoundCategory, FixedInt, FixedInt, FixedInt, Float, Float,
);

impl PlaySoundEffectSpec {
    pub open spec fn fields(&self) -> PlaySoundEffectSpecFields {
        (
            self.sound_id, self.sound_category, self.position_x, self.position_y,
            self.position_z, self.volume, self.pitch,
        )
    }
}

impl Serialize for PlaySoundEffectSpec {
    /// The fields' encodings, one behind the other.
    open spec fn wire(&self) -> Seq<u8> {
        self.fields().wire()
    }

    fn mc_serialize<S: Serializer>(&self, to: &mut S) -> (res: SerializeResult) {
        let ghost before = to.written();
        self.sound_id.mc_serialize(to)?;
        self.sound_category.mc_serialize(to)?;
        self.position_x.mc_serialize(to)?;
        self.position_y.mc_serialize(to)?;
        self.position_z.mc_serialize(to)?;
        self.volume.mc_serialize(to)?;
        let res = self.pitch.mc_serialize(to);
        proof {
            broadcast use lemma_concat_assoc;

            lemma_tuple7_wire(&self.fields());
        }
        res
    }
}

impl Deserialize for PlaySoundEffectSpec {
    type Model = <PlaySoundEffectSpecFields as Deserialize>::Model;

    open spec fn model(&self) -> Self::Model {
        self.fields().model()
    }

    /// Each field from what the one before left over.
    open spec fn decoding(data: Seq<u8>) -> Parsed<Self::Model> {
        <PlaySoundEffectSpecFields>::decoding(data)
    }

    proof fn lemma_remainder(data: Seq<u8>) {
        <PlaySoundEffectSpecFields>::lemma_remainder(data);
    }

    fn mc_deserialize(data: &[u8]) -> (res: DeserializeResult<'_, Self>) {
        let Deserialized { value, data: rest } = <PlaySoundEffectSpecFields>::mc_deserialize(data)?;
        let (sound_id, sound_category, position_x, position_y, position_z, volume, pitch) = value;
        Deserialized::ok(PlaySoundEffectSpec {
            sound_id, sound_category, position_x, position_y, position_z, volume, pitch,
        }, rest)
    }
}

impl ProtocolType for PlaySoundEffectSpec {
    open spec fn legal(&self) -> bool {
        self.fields().legal()
    }

    open spec fn self_delimiting() -> bool {
        <PlaySoundEffectSpecFields>::self_delimiting()
    }

    proof fn lemma_round_trip(&self, rest: Seq<u8>) {
        self.fields().lemma_round_trip(rest);
    }
}

/// What the packet `PlayerPlayerListHeaderAndFooter` holds.
#[derive(Debug, Clone, PartialEq)]
pub struct PlayPlayerListHeaderAndFooterSpec {
    pub header: JsonText,
    pub footer: JsonText,
}

/// The fields of [`PlayPlayerListHeaderAndFooterSpec`] in the order they travel.
pub type PlayPlayerListHeaderAndFooterSpecFields = (JsonText, JsonText);

impl PlayPlayerListHeaderAndFooterSpec {
    pub open spec fn fields(&self) -> PlayPlayerListHeaderAndFooterSpecFields {
        (self.header, self.footer)
    }
}

impl Serialize for PlayPlayerListHeaderAndFooterSpec {
    /// The fields' encodings, one behind the other.
    open spec fn wire(&self) -> Seq<u8> {
        self.fields().wire()
    }

    fn mc_serialize<S: Serializer>(&self, to: &mut S) -> (res: SerializeResult) {
        let ghost before = to.written();
        self.header.mc_serialize(to)?;
        let res = self.footer.mc_serialize(to);
        proof {
            broadcast use lemma_concat_assoc;

            lemma_tuple2_wire(&self.fields());
        }
        res
    }
}

impl Deserialize for PlayPlayerListHeaderAndFooterSpec {
    type Model = <PlayPlayerListHeaderAndFooterSpecFields as Deserialize>::Model;

    open spec fn model(&self) -> Self::Model {
        self.fields().model()
    }

    /// Each field from what the one before left over.
    open spec fn decoding(data: Seq<u8>) -> Parsed<Self::Model> {
        <PlayPlayerListHeaderAndFooterSpecFields>::decoding(data)
    }

    proof fn lemma_remainder(data: Seq<u8>) {
        <PlayPlayerListHeaderAndFooterSpecFields>::lemma_remainder(data);
    }

    fn mc_deserialize(data: &[u8]) -> (res: DeserializeResult<'_, Self>) {
        let Deserialized { value, data: rest } =
            <PlayPlayerListHeaderAndFooterSpecFields>::mc_deserialize(data)?;
        let (header, footer) = value;
        Deserialized::ok(PlayPlayerListHeaderAndFooterSpec { header, footer }, rest)
    }
}

impl ProtocolType for PlayPlayerListHeaderAndFooterSpec {
    open spec fn legal(&self) -> bool {
        self.fields().legal()
    }

    open spec fn self_delimiting() -> bool {
        <PlayPlayerListHeaderAndFooterSpecFields>::self_delimiting()
    }

    proof fn lemma_round_trip(&self, rest: Seq<u8>) {
        self.fields().lemma_round_trip(rest);
    }
}

/// What the packet `PlayNbtQueryResponse` holds.
#[derive(Debug, Clone, PartialEq)]
pub struct PlayNbtQueryResponseSpec {
    pub transaction_id: VarInt,
    pub nbt: NamedNbtTag,
}

/// The fields of [`PlayNbtQueryResponseSpec`] in the order they travel.
pub type PlayNbtQueryResponseSpecFields = (VarInt, NamedNbtTag);

impl PlayNbtQueryResponseSpec {
    pub open spec fn fields(&self) -> PlayNbtQueryResponseSpecFields {
        (self.transaction_id, self.nbt)
    }
}

impl Serialize for PlayNbtQueryResponseSpec {
    /// The fields' encodings, one behind the other.
    open spec fn wire(&self) -> Seq<u8> {
        self.fields().wire()
    }

    fn mc_serialize<S: Serializer>(&self, to: &mut S) -> (res: SerializeResult) {
        let ghost before = to.written();
        self.transaction_id.mc_serialize(to)?;
        let res = self.nbt.mc_serialize(to);
        proof {
            broadcast use lemma_concat_assoc;

            lemma_tuple2_wire(&self.fields());
        }
        res
    }
}

impl Deserialize for PlayNbtQueryResponseSpec {
    type Model = <PlayNbtQueryResponseSpecFields as Deserialize>::Model;

    open spec fn model(&self) -> Self::Model {
        self.fields().model()
    }

    /// Each field from what the one before left over.
    open spec fn decoding(data: Seq<u8>) -> Parsed<Self::Model> {
        <PlayNbtQueryResponseSpecFields>::decoding(data)
    }

    proof fn lemma_remainder(data: Seq<u8>) {
        <PlayNbtQueryResponseSpecFields>::lemma_remainder(data);
    }

    fn mc_deserialize(data: &[u8]) -> (res: DeserializeResult<'_, Self>) {
        let Deserialized { value, data: rest } =
            <PlayNbtQueryResponseSpecFields>::mc_deserialize(data)?;
        let (transaction_id, nbt) = value;
        Deserialized::ok(PlayNbtQueryResponseSpec { transaction_id, nbt }, rest)
    }
}

impl ProtocolType for PlayNbtQueryResponseSpec {
    open spec fn legal(&self) -> bool {
        self.fields().legal()
    }

    open spec fn self_delimiting() -> bool {
        <PlayNbtQueryResponseSpecFields>::self_delimiting()
    }

    proof fn lemma_round_trip(&self, rest: Seq<u8>) {
        self.fields().lemma_round_trip(rest);
    }
}

/// What the packet `PlayCollectItem` holds.
#[derive(Debug, Clone, PartialEq)]
pub struct PlayCollectItemSpec {
    pub collected_entity_id: VarInt,
    pub collector_entity_id: VarInt,
    pub pickup_item_count: VarInt,
}

/// The fields of [`PlayCollectItemSpec`] in the order they travel.
pub type PlayCollectItemSpecFields = (VarInt, VarInt, VarInt);

impl PlayCollectItemSpec {
    pub open spec fn fields(&self) -> PlayCollectItemSpecFields {
        (self.collected_entity_id, self.collector_entity_id, self.pickup_item_count)
    }
}

impl Serialize for PlayCollectItemSpec {
    /// The fields' encodings, one behind the other.
    open spec fn wire(&self) -> Seq<u8> {
        self.fields().wire()
    }

    fn mc_serialize<S: Serializer>(&self, to: &mut S) -> (res: SerializeResult) {
        let ghost before = to.written();
        self.collected_entity_id.mc_serialize(to)?;
        self.collector_entity_id.mc_serialize(to)?;
        let res = self.pickup_item_count.mc_serialize(to);
        proof {
            broadcast use lemma_concat_assoc;

            lemma_tuple3_wire(&self.fields());
        }
        res
    }
}

impl Deserialize for PlayCollectItemSpec {
    type Model = <PlayCollectItemSpecFields as Deserialize>::Model;

    open spec fn model(&self) -> Self::Model {
        self.fields().model()
    }

    /// Each field from what the one before left over.
    open spec fn decoding(data: Seq<u8>) -> Parsed<Self::Model> {
        <PlayCollectItemSpecFields>::decoding(data)
    }

    proof fn lemma_remainder(data: Seq<u8>) {
        <PlayCollectItemSpecFields>::lemma_remainder(data);
    }

    fn mc_deserialize(data: &[u8]) -> (res: DeserializeResult<'_, Self>) {
        let Deserialized { value, data: rest } = <PlayCollectItemSpecFields>::mc_deserialize(data)?;
        let (collected_entity_id, collector_entity_id, pickup_item_count) = value;
        Deserialized::ok(PlayCollectItemSpec {
            collected_entity_id, collector_entity_id, pickup_item_count,
        }, rest)
    }
}

impl ProtocolType for PlayCollectItemSpec {
    open spec fn legal(&self) -> bool {
        self.fields().legal()
    }

    open spec fn self_delimiting() -> bool {
        <PlayCollectItemSpecFields>::self_delimiting()
    }

    proof fn lemma_round_trip(&self, rest: Seq<u8>) {
        self.fields().lemma_round_trip(rest);
    }
}

/// What the packet `PlayEntityTeleport` holds.
#[derive(Debug, Clone, PartialEq)]
pub struct PlayEntityTeleportSpec {
    pub entity_id: VarInt,
    pub x: Double,
    pub y: Double,
    pub z: Double,
    pub yaw: Angle,
    pub pitch: Angle,
    pub on_ground: bool,
}

/// The fields of [`PlayEntityTeleportSpec`] in the order they travel.
pub type PlayEntityTeleportSpecFields = (VarInt, Double, Double, Double, Angle, Angle, bool);

impl PlayEntityTeleportSpec {
    pub open spec fn fields(&self) -> PlayEntityTeleportSpecFields {
        (self.entity_id, self.x, self.y, self.z, self.yaw, self.pitch, self.on_ground)
    }
}

impl Serialize for PlayEntityTeleportSpec {
    /// The fields' encodings, one behind the other.
    open spec fn wire(&self) -> Seq<u8> {
        self.fields().wire()
    }

    fn mc_serialize<S: Serializer>(&self, to: &mut S) -> (res: SerializeResult) {
        let ghost before = to.written();
        self.entity_id.mc_serialize(to)?;
        self.x.mc_serialize(to)?;
        self.y.mc_serialize(to)?;
        self.z.mc_serialize(to)?;
        self.yaw.mc_serialize(to)?;
        self.pitch.mc_serialize(to)?;
        let res = self.on_ground.mc_serialize(to);
        proof {
            broadcast use lemma_concat_assoc;

            lemma_tuple7_wire(&self.fields());
        }
        res
    }
}

impl Deserialize for PlayEntityTeleportSpec {
    type Model = <PlayEntityTeleportSpecFields as Deserialize>::Model;

    open spec fn model(&self) -> Self::Model {
        self.fields().model()
    }

    /// Each field from what the one before left over.
    open spec fn decoding(data: Seq<u8>) -> Parsed<Self::Model> {
        <PlayEntityTeleportSpecFields>::decoding(data)
    }

    proof fn lemma_remainder(data: Seq<u8>) {
        <PlayEntityTeleportSpecFields>::lemma_remainder(data);
    }

    fn mc_deserialize(data: &[u8]) -> (res: DeserializeResult<'_, Self>) {
        let Deserialized { value, data: rest } =
            <PlayEntityTeleportSpecFields>::mc_deserialize(data)?;
        let (entity_id, x, y, z, yaw, pitch, on_ground) = value;
        Deserialized::ok(PlayEntityTeleportSpec {
            entity_id, x, y, z, yaw, pitch, on_ground,
        }, rest)
    }
}

impl ProtocolType for PlayEntityTeleportSpec {
    open spec fn legal(&self) -> bool {
        self.fields().legal()
    }

    open spec fn self_delimiting() -> bool {
        <PlayEntityTeleportSpecFields>::self_delimiting()
    }

    proof fn lemma_round_trip(&self, rest: Seq<u8>) {
        self.fields().lemma_round_trip(rest);
    }
}

/// What the packet `PlayAdvancements` holds.
#[derive(Debug, Clone, PartialEq)]
pub struct PlayAdvancementsSpec {
    pub raw: RemainingBytes,
}

/// The fields of [`PlayAdvancementsSpec`] in the order they travel.
pub type PlayAdvancementsSpecFields = RemainingBytes;

impl PlayAdvancementsSpec {
    pub open spec fn fields(&self) -> PlayAdvancementsSpecFields {
        self.raw
    }
}

impl Serialize for PlayAdvancementsSpec {
    /// The fields' encodings, one behind the other.
    open spec fn wire(&self) -> Seq<u8> {
        self.fields().wire()
    }

    fn mc_serialize<S: Serializer>(&self, to: &mut S) -> (res: SerializeResult) {
        self.raw.mc_serialize(to)
    }
}

impl Deserialize for PlayAdvancementsSpec {
    type Model = <PlayAdvancementsSpecFields as Deserialize>::Model;

    open spec fn model(&self) -> Self::Model {
        self.fields().model()
    }

    /// Each field from what the one before left over.
    open spec fn decoding(data: Seq<u8>) -> Parsed<Self::Model> {
        <PlayAdvancementsSpecFields>::decoding(data)
    }

    proof fn lemma_remainder(data: Seq<u8>) {
        <PlayAdvancementsSpecFields>::lemma_remainder(data);
    }

    fn mc_deserialize(data: &[u8]) -> (res: DeserializeResult<'_, Self>) {
        let Deserialized { value: raw, data: rest } =
            <PlayAdvancementsSpecFields>::mc_deserialize(data)?;
        Deserialized::ok(PlayAdvancementsSpec { raw }, rest)
    }
}

impl ProtocolType for PlayAdvancementsSpec {
    open spec fn legal(&self) -> bool {
        self.fields().legal()
    }

    open spec fn self_delimiting() -> bool {
        <PlayAdvancementsSpecFields>::self_delimiting()
    }

    proof fn lemma_round_trip(&self, rest: Seq<u8>) {
        self.fields().lemma_round_trip(rest);
    }
}

/// What the packet `PlayEntityProperties` holds.
#[derive(Debug, Clone, PartialEq)]
pub struct PlayEntityPropertiesSpec {
    pub entity_id: VarInt,
    pub properties: IntCountedArray<EntityPropertySpec>,
}

/// The fields of [`PlayEntityPropertiesSpec`] in the order they travel.
pub type PlayEntityPropertiesSpecFields = (VarInt, IntCountedArray<EntityPropertySpec>);

impl PlayEntityPropertiesSpec {
    pub open spec fn fields(&self) -> PlayEntityPropertiesSpecFields {
        (self.entity_id, self.properties)
    }
}

impl Serialize for PlayEntityPropertiesSpec {
    /// The fields' encodings, one behind the other.
    open spec fn wire(&self) -> Seq<u8> {
        self.fields().wire()
    }

    fn mc_serialize<S: Serializer>(&self, to: &mut S) -> (res: SerializeResult) {
        let ghost before = to.written();
        self.entity_id.mc_serialize(to)?;
        let res = self.properties.mc_serialize(to);
        proof {
            broadcast use lemma_concat_assoc;

            lemma_tuple2_wire(&self.fields());
        }
        res
    }
}

impl Deserialize for PlayEntityPropertiesSpec {
    type Model = <PlayEntityPropertiesSpecFields as Deserialize>::Model;

    open spec fn model(&self) -> Self::Model {
        self.fields().model()
    }

    /// Each field from what the one before left over.
    open spec fn decoding(data: Seq<u8>) -> Parsed<Self::Model> {
        <PlayEntityPropertiesSpecFields>::decoding(data)
    }

    proof fn lemma_remainder(data: Seq<u8>) {
        <PlayEntityPropertiesSpecFields>::lemma_remainder(data);
    }

    fn mc_deserialize(data: &[u8]) -> (res: DeserializeResult<'_, Self>) {
        let Deserialized { value, data: rest } =
            <PlayEntityPropertiesSpecFields>::mc_deserialize(data)?;
        let (entity_id, properties) = value;
        Deserialized::ok(PlayEntityPropertiesSpec { entity_id, properties }, rest)
    }
}

impl ProtocolType for PlayEntityPropertiesSpec {
    open spec fn legal(&self) -> bool {
        self.fields().legal()
    }

    open spec fn self_delimiting() -> bool {
        <PlayEntityPropertiesSpecFields>::self_delimiting()
    }

    proof fn lemma_round_trip(&self, rest: Seq<u8>) {
        self.fields().lemma_round_trip(rest);
    }
}

/// What the packet `PlayEntityEffect` holds.
#[derive(Debug, Clone, PartialEq)]
pub struct PlayEntityEffectSpec {
    pub entity_id: VarInt,
    pub effect_id: EntityEffectKind,
    pub amplifier: i8,
    pub duration_ticks: VarInt,
    pub flags: EntityEffectFlags,
}

/// The fields of [`PlayEntityEffectSpec`] in the order they travel.
pub type PlayEntityEffectSpecFields = (VarInt, EntityEffectKind, i8, VarInt, EntityEffectFlags);

impl PlayEntityEffectSpec {
    pub open spec fn fields(&self) -> PlayEntityEffectSpecFields {
        (self.entity_id, self.effect_id, self.amplifier, self.duration_ticks, self.flags)
    }
}

impl Serialize for PlayEntityEffectSpec {
    /// The fields' encodings, one behind the other.
    open spec fn wire(&self) -> Seq<u8> {
        self.fields().wire()
    }

    fn mc_serialize<S: Serializer>(&self, to: &mut S) -> (res: SerializeResult) {
        let ghost before = to.written();
        self.entity_id.mc_serialize(to)?;
        self.effect_id.mc_serialize(to)?;
        self.amplifier.mc_serialize(to)?;
        self.duration_ticks.mc_serialize(to)?;
        let res = self.flags.mc_serialize(to);
        proof {
            broadcast use lemma_concat_assoc;

            lemma_tuple5_wire(&self.fields());
        }
        res
    }
}

impl Deserialize for PlayEntityEffectSpec {
    type Model = <PlayEntityEffectSpecFields as Deserialize>::Model;

    open spec fn model(&self) -> Self::Model {
        self.fields().model()
    }

    /// Each field from what the one before left over.
    open spec fn decoding(data: Seq<u8>) -> Parsed<Self::Model> {
        <PlayEntityEffectSpecFields>::decoding(data)
    }

    proof fn lemma_remainder(data: Seq<u8>) {
        <PlayEntityEffectSpecFields>::lemma_remainder(data);
    }

    fn mc_deserialize(data: &[u8]) -> (res: DeserializeResult<'_, Self>) {
        let Deserialized { value, data: rest } =
            <PlayEntityEffectSpecFields>::mc_deserialize(data)?;
        let (entity_id, effect_id, amplifier, duration_ticks, flags) = value;
        Deserialized::ok(PlayEntityEffectSpec {
            entity_id, effect_id, amplifier, duration_ticks, flags,
        }, rest)
    }
}

impl ProtocolType for PlayEntityEffectSpec {
    open spec fn legal(&self) -> bool {
        self.fields().legal()
    }

    open spec fn self_delimiting() -> bool {
        <PlayEntityEffectSpecFields>::self_delimiting()
    }

    proof fn lemma_round_trip(&self, rest: Seq<u8>) {
        self.fields().lemma_round_trip(rest);
    }
}

/// What the packet `PlayDeclareRecipes` holds.
#[derive(Debug, Clone, PartialEq)]
pub struct PlayDeclareRecipesSpec {
    pub recipes: VarIntCountedArray<RecipeSpec>,
}

/// The fields of [`PlayDeclareRecipesSpec`] in the order they travel.
pub type PlayDeclareRecipesSpecFields = VarIntCountedArray<RecipeSpec>;

impl PlayDeclareRecipesSpec {
    pub open spec fn fields(&self) -> PlayDeclareRecipesSpecFields {
        self.recipes
    }
}

impl Serialize for PlayDeclareRecipesSpec {
    /// The fields' encodings, one behind the other.
    open spec fn wire(&self) -> Seq<u8> {
        self.fields().wire()
    }

    fn mc_serialize<S: Serializer>(&self, to: &mut S) -> (res: SerializeResult) {
        self.recipes.mc_serialize(to)
    }
}

impl Deserialize for PlayDeclareRecipesSpec {
    type Model = <PlayDeclareRecipesSpecFields as Deserialize>::Model;

    open spec fn model(&self) -> Self::Model {
        self.fields().model()
    }

    /// Each field from what the one before left over.
    open spec fn decoding(data: Seq<u8>) -> Parsed<Self::Model> {
        <PlayDeclareRecipesSpecFields>::decoding(data)
    }

    proof fn lemma_remainder(data: Seq<u8>) {
        <PlayDeclareRecipesSpecFields>::lemma_remainder(data);
    }

    fn mc_deserialize(data: &[u8]) -> (res: DeserializeResult<'_, Self>) {
        let Deserialized { value: recipes, data: rest } =
            <PlayDeclareRecipesSpecFields>::mc_deserialize(data)?;
        Deserialized::ok(PlayDeclareRecipesSpec { recipes }, rest)
    }
}

impl ProtocolType for PlayDeclareRecipesSpec {
    open spec fn legal(&self) -> bool {
        self.fields().legal()
    }

    open spec fn self_delimiting() -> bool {
        <PlayDeclareRecipesSpecFields>::self_delimiting()
    }

    proof fn lemma_round_trip(&self, rest: Seq<u8>) {
        self.fields().lemma_round_trip(rest);
    }
}

/// What the packet `PlayTags` holds.
#[derive(Debug, Clone, PartialEq)]
pub struct PlayTagsSpec {
    pub block_tags: VarIntCountedArray<TagSpec>,
    pub item_tags: VarIntCountedArray<TagSpec>,
    pub fluid_tags: VarIntCountedArray<TagSpec>,
    pub entity_tags: VarIntCountedArray<TagSpec>,
}

/// The fields of [`PlayTagsSpec`] in the order they travel.
pub type PlayTagsSpecFields = (
    VarIntCountedArray<TagSpec>, VarIntCountedArray<TagSpec>, VarIntCountedArray<TagSpec>,
    VarIntCountedArray<TagSpec>,
);

impl PlayTagsSpec {
    pub open spec fn fields(&self) -> PlayTagsSpecFields {
        (self.block_tags, self.item_tags, self.fluid_tags, self.entity_tags)
    }
}

impl Serialize for PlayTagsSpec {
    /// The fields' encodings, one behind the other.
    open spec fn wire(&self) -> Seq<u8> {
        self.fields().wire()
    }

    fn mc_serialize<S: Serializer>(&self, to: &mut S) -> (res: SerializeResult) {
        let ghost before = to.written();
        self.block_tags.mc_serialize(to)?;
        self.item_tags.mc_serialize(to)?;
        self.fluid_tags.mc_serialize(to)?;
        let res = self.entity_tags.mc_serialize(to);
        proof {
            broadcast use lemma_concat_assoc;

            lemma_tuple4_wire(&self.fields());
        }
        res
    }
}

impl Deserialize for PlayTagsSpec {
    type Model = <PlayTagsSpecFields as Deserialize>::Model;

    open spec fn model(&self) -> Self::Model {
        self.fields().model()
    }

    /// Each field from what the one before left over.
    open spec fn decoding(data: Seq<u8>) -> Parsed<Self::Model> {
        <PlayTagsSpecFields>::decoding(data)
    }

    proof fn lemma_remainder(data: Seq<u8>) {
        <PlayTagsSpecFields>::lemma_remainder(data);
    }

    fn mc_deserialize(data: &[u8]) -> (res: DeserializeResult<'_, Self>) {
        let Deserialized { value, data: rest } = <PlayTagsSpecFields>::mc_deserialize(data)?;
        let (block_tags, item_tags, fluid_tags, entity_tags) = value;
        Deserialized::ok(PlayTagsSpec { block_tags, item_tags, fluid_tags, entity_tags }, rest)
    }
}

impl ProtocolType for PlayTagsSpec {
    open spec fn legal(&self) -> bool {
        self.fields().legal()
    }

    open spec fn self_delimiting() -> bool {
        <PlayTagsSpecFields>::self_delimiting()
    }

    proof fn lemma_round_trip(&self, rest: Seq<u8>) {
        self.fields().lemma_round_trip(rest);
    }
}

/// What the packet `PlayTeleportConfirm` holds.
#[derive(Debug, Clone, PartialEq)]
pub struct PlayTeleportConfirmSpec {
    pub teleport_id: VarInt,
}

/// The fields of [`PlayTeleportConfirmSpec`] in the order they travel.
pub type PlayTeleportConfirmSpecFields = VarInt;

impl PlayTeleportConfirmSpec {
    pub open spec fn fields(&self) -> PlayTeleportConfirmSpecFields {
        self.teleport_id
    }
}

impl Serialize for PlayTeleportConfirmSpec {
    /// The fields' encodings, one behind the other.
    open spec fn wire(&self) -> Seq<u8> {
        self.fields().wire()
    }

    fn mc_serialize<S: Serializer>(&self, to: &mut S) -> (res: SerializeResult) {
        self.teleport_id.mc_serialize(to)
    }
}

impl Deserialize for PlayTeleportConfirmSpec {
    type Model = <PlayTeleportConfirmSpecFields as Deserialize>::Model;

    open spec fn model(&self) -> Self::Model {
        self.fields().model()
    }

    /// Each field from what the one before left over.
    open spec fn decoding(data: Seq<u8>) -> Parsed<Self::Model> {
        <PlayTeleportConfirmSpecFields>::decoding(data)
    }

    proof fn lemma_remainder(data: Seq<u8>) {
        <PlayTeleportConfirmSpecFields>::lemma_remainder(data);
    }

    fn mc_deserialize(data: &[u8]) -> (res: DeserializeResult<'_, Self>) {
        let Deserialized { value: teleport_id, data: rest } =
            <PlayTeleportConfirmSpecFields>::mc_deserialize(data)?;
        Deserialized::ok(PlayTeleportConfirmSpec { teleport_id }, rest)
    }
}

impl ProtocolType for PlayTeleportConfirmSpec {
    open spec fn legal(&self) -> bool {
        self.fields().legal()
    }

    open spec fn self_delimiting() -> bool {
        <PlayTeleportConfirmSpecFields>::self_delimiting()
    }

    proof fn lemma_round_trip(&self, rest: Seq<u8>) {
        self.fields().lemma_round_trip(rest);
    }
}

/// What the packet `PlayQueryBlockNbt` holds.
#[derive(Debug, Clone, PartialEq)]
pub struct PlayQueryBlockNbtSpec {
    pub transaction_id: VarInt,
    pub location: IntPosition,
}

/// The fields of [`PlayQueryBlockNbtSpec`] in the order they travel.
pub type PlayQueryBlockNbtSpecFields = (VarInt, IntPosition);

impl PlayQueryBlockNbtSpec {
    pub open spec fn fields(&self) -> PlayQueryBlockNbtSpecFields {
        (self.transaction_id, self.location)
    }
}

impl Serialize for PlayQueryBlockNbtSpec {
    /// The fields' encodings, one behind the other.
    open spec fn wire(&self) -> Seq<u8> {
        self.fields().wire()
    }

    fn mc_serialize<S: Serializer>(&self, to: &mut S) -> (res: SerializeResult) {
        let ghost before = to.written();
        self.transaction_id.mc_serialize(to)?;
        let res = self.location.mc_serialize(to);
        proof {
            broadcast use lemma_concat_assoc;

            lemma_tuple2_wire(&self.fields());
        }
        res
    }
}

impl Deserialize for PlayQueryBlockNbtSpec {
    type Model = <PlayQueryBlockNbtSpecFields as Deserialize>::Model;

    open spec fn model(&self) -> Self::Model {
        self.fields().model()
    }

    /// Each field from what the one before left over.
    open spec fn decoding(data: Seq<u8>) -> Parsed<Self::Model> {
        <PlayQueryBlockNbtSpecFields>::decoding(data)
    }

    proof fn lemma_remainder(data: Seq<u8>) {
        <PlayQueryBlockNbtSpecFields>::lemma_remainder(data);
    }

    fn mc_deserialize(data: &[u8]) -> (res: DeserializeResult<'_, Self>) {
        let Deserialized { value, data: rest } =
            <PlayQueryBlockNbtSpecFields>::mc_deserialize(data)?;
        let (transaction_id, location) = value;
        Deserialized::ok(PlayQueryBlockNbtSpec { transaction_id, location }, rest)
    }
}

impl ProtocolType for PlayQueryBlockNbtSpec {
    open spec fn legal(&self) -> bool {
        self.fields().legal()
    }

    open spec fn self_delimiting() -> bool {
        <PlayQueryBlockNbtSpecFields>::self_delimiting()
    }

    proof fn lemma_round_trip(&self, rest: Seq<u8>) {
        self.fields().lemma_round_trip(rest);
    }
}

/// What the packet `PlayQueryEntityNbt` holds.
#[derive(Debug, Clone, PartialEq)]
pub struct PlayQueryEntityNbtSpec {
    pub transaction_id: VarInt,
    pub entity_id: VarInt,
}

/// The fields of [`PlayQueryEntityNbtSpec`] in the order they travel.
pub type PlayQueryEntityNbtSpecFields = (VarInt, VarInt);

impl PlayQueryEntityNbtSpec {
    pub open spec fn fields(&self) -> PlayQueryEntityNbtSpecFields {
        (self.transaction_id, self.entity_id)
    }
}

impl Serialize for PlayQueryEntityNbtSpec {
    /// The fields' encodings, one behind the other.
    open spec fn wire(&self) -> Seq<u8> {
        self.fields().wire()
    }

    fn mc_serialize<S: Serializer>(&self, to: &mut S) -> (res: SerializeResult) {
        let ghost before = to.written();
        self.transaction_id.mc_serialize(to)?;
        let res = self.entity_id.mc_serialize(to);
        proof {
            broadcast use lemma_concat_assoc;

            lemma_tuple2_wire(&self.fields());
        }
        res
    }
}

impl Deserialize for PlayQueryEntityNbtSpec {
    type Model = <PlayQueryEntityNbtSpecFields as Deserialize>::Model;

    open spec fn model(&self) -> Self::Model {
        self.fields().model()
    }

    /// Each field from what the one before left over.
    open spec fn decoding(data: Seq<u8>) -> Parsed<Self::Model> {
        <PlayQueryEntityNbtSpecFields>::decoding(data)
    }

    proof fn lemma_remainder(data: Seq<u8>) {
        <PlayQueryEntityNbtSpecFields>::lemma_remainder(data);
    }

    fn mc_deserialize(data: &[u8]) -> (res: DeserializeResult<'_, Self>) {
        let Deserialized { value, data: rest } =
            <PlayQueryEntityNbtSpecFields>::mc_deserialize(data)?;
        let (transaction_id, entity_id) = value;
        Deserialized::ok(PlayQueryEntityNbtSpec { transaction_id, entity_id }, rest)
    }
}

impl ProtocolType for PlayQueryEntityNbtSpec {
    open spec fn legal(&self) -> bool {
        self.fields().legal()
    }

    open spec fn self_delimiting() -> bool {
        <PlayQueryEntityNbtSpecFields>::self_delimiting()
    }

    proof fn lemma_round_trip(&self, rest: Seq<u8>) {
        self.fields().lemma_round_trip(rest);
    }
}

/// What the packet `PlaySetDifficulty` holds.
#[derive(Debug, Clone, PartialEq)]
pub struct PlaySetDifficultySpec {
    pub new_difficulty: Difficulty,
}

/// The fields of [`PlaySetDifficultySpec`] in the order they travel.
pub type PlaySetDifficultySpecFields = Difficulty;

impl PlaySetDifficultySpec {
    pub open spec fn fields(&self) -> PlaySetDifficultySpecFields {
        self.new_difficulty
    }
}

impl Serialize for PlaySetDifficultySpec {
    /// The fields' encodings, one behind the other.
    open spec fn wire(&self) -> Seq<u8> {
        self.fields().wire()
    }

    fn mc_serialize<S: Serializer>(&self, to: &mut S) -> (res: SerializeResult) {
        self.new_difficulty.mc_serialize(to)
    }
}

impl Deserialize for PlaySetDifficultySpec {
    type Model = <PlaySetDifficultySpecFields as Deserialize>::Model;

    open spec fn model(&self) -> Self::Model {
        self.fields().model()
    }

    /// Each field from what the one before left over.
    open spec fn decoding(data: Seq<u8>) -> Parsed<Self::Model> {
        <PlaySetDifficultySpecFields>::decoding(data)
    }

    proof fn lemma_remainder(data: Seq<u8>) {
        <PlaySetDifficultySpecFields>::lemma_remainder(data);
    }

    fn mc_deserialize(data: &[u8]) -> (res: DeserializeResult<'_, Self>) {
        let Deserialized { value: new_difficulty, data: rest } =
            <PlaySetDifficultySpecFields>::mc_deserialize(data)?;
        Deserialized::ok(PlaySetDifficultySpec { new_difficulty }, rest)
    }
}

impl ProtocolType for PlaySetDifficultySpec {
    open spec fn legal(&self) -> bool {
        self.fields().legal()
    }

    open spec fn self_delimiting() -> bool {
        <PlaySetDifficultySpecFields>::self_delimiting()
    }

    proof fn lemma_round_trip(&self, rest: Seq<u8>) {
        self.fields().lemma_round_trip(rest);
    }
}

/// What the packet `PlayClientChatMessage` holds.
#[derive(Debug, Clone, PartialEq)]
pub struct PlayClientChatMessageSpec {
    pub message: String,
}

/// The fields of [`PlayClientChatMessageSpec`] in the order they travel.
pub type PlayClientChatMessageSpecFields = String;

impl PlayClientChatMessageSpec {
    pub open spec fn fields(&self) -> PlayClientChatMessageSpecFields {
        self.message
    }
}

impl Serialize for PlayClientChatMessageSpec {
    /// The fields' encodings, one behind the other.
    open spec fn wire(&self) -> Seq<u8> {
        self.fields().wire()
    }

    fn mc_serialize<S: Serializer>(&self, to: &mut S) -> (res: SerializeResult) {
        self.message.mc_serialize(to)
    }
}

impl Deserialize for PlayClientChatMessageSpec {
    type Model = <PlayClientChatMessageSpecFields as Deserialize>::Model;

    open spec fn model(&self) -> Self::Model {
        self.fields().model()
    }

    /// Each field from what the one before left over.
    open spec fn decoding(data: Seq<u8>) -> Parsed<Self::Model> {
        <PlayClientChatMessageSpecFields>::decoding(data)
    }

    proof fn lemma_remainder(data: Seq<u8>) {
        <PlayClientChatMessageSpecFields>::lemma_remainder(data);
    }

    fn mc_deserialize(data: &[u8]) -> (res: DeserializeResult<'_, Self>) {
        let Deserialized { value: message, data: rest } =
            <PlayClientChatMessageSpecFields>::mc_deserialize(data)?;
        Deserialized::ok(PlayClientChatMessageSpec { message }, rest)
    }
}

impl ProtocolType for PlayClientChatMessageSpec {
    open spec fn legal(&self) -> bool {
        self.fields().legal()
    }

    open spec fn self_delimiting() -> bool {
        <PlayClientChatMessageSpecFields>::self_delimiting()
    }

    proof fn lemma_round_trip(&self, rest: Seq<u8>) {
        self.fields().lemma_round_trip(rest);
    }
}

/// What the packet `PlayClientStatus` holds.
#[derive(Debug, Clone, PartialEq)]
pub struct PlayClientStatusSpec {
    pub action: ClientStatusAction,
}

/// The fields of [`PlayClientStatusSpec`] in the order they travel.
pub type PlayClientStatusSpecFields = ClientStatusAction;

impl PlayClientStatusSpec {
    pub open spec fn fields(&self) -> PlayClientStatusSpecFields {
        self.action
    }
}

impl Serialize for PlayClientStatusSpec {
    /// The fields' encodings, one behind the other.
    open spec fn wire(&self) -> Seq<u8> {
        self.fields().wire()
    }

    fn mc_serialize<S: Serializer>(&self, to: &mut S) -> (res: SerializeResult) {
        self.action.mc_serialize(to)
    }
}

impl Deserialize for PlayClientStatusSpec {
    type Model = <PlayClientStatusSpecFields as Deserialize>::Model;

    open spec fn model(&self) -> Self::Model {
        self.fields().model()
    }

    /// Each field from what the one before left over.
    open spec fn decoding(data: Seq<u8>) -> Parsed<Self::Model> {
        <PlayClientStatusSpecFields>::decoding(data)
    }

    proof fn lemma_remainder(data: Seq<u8>) {
        <PlayClientStatusSpecFields>::lemma_remainder(data);
    }

    fn mc_deserialize(data: &[u8]) -> (res: DeserializeResult<'_, Self>) {
        let Deserialized { value: action, data: rest } =
            <PlayClientStatusSpecFields>::mc_deserialize(data)?;
        Deserialized::ok(PlayClientStatusSpec { action }, rest)
    }
}

impl ProtocolType for PlayClientStatusSpec {
    open spec fn legal(&self) -> bool {
        self.fields().legal()
    }

    open spec fn self_delimiting() -> bool {
        <PlayClientStatusSpecFields>::self_delimiting()
    }

    proof fn lemma_round_trip(&self, rest: Seq<u8>) {
        self.fields().lemma_round_trip(rest);
    }
}

/// What the packet `PlayClientSettings` holds.
#[derive(Debug, Clone, PartialEq)]
pub struct PlayClientSettingsSpec {
    pub locale: String,
    pub view_distance: i8,
    pub chat_mode: ClientChatMode,
    pub chat_colors: bool,
    pub displayed_skin_parts: ClientDisplayedSkinParts,
    pub main_hand: ClientMainHand,
}

/// The fields of [`PlayClientSettingsSpec`] in the order they travel.
pub type PlayClientSettingsSpecFields = (
    String, i8, ClientChatMode, bool, ClientDisplayedSkinParts, ClientMainHand,
);

impl PlayClientSettingsSpec {
    pub open spec fn fields(&self) -> PlayClientSettingsSpecFields {
        (
            self.locale, self.view_distance, self.chat_mode, self.chat_colors,
            self.displayed_skin_parts, self.main_hand,
        )
    }
}

impl Serialize for PlayClientSettingsSpec {
    /// The fields' encodings, one behind the other.
    open spec fn wire(&self) -> Seq<u8> {
        self.fields().wire()
    }

    fn mc_serialize<S: Serializer>(&self, to: &mut S) -> (res: SerializeResult) {
        let ghost before = to.written();
        self.locale.mc_serialize(to)?;
        self.view_distance.mc_serialize(to)?;
        self.chat_mode.mc_serialize(to)?;
        self.chat_colors.mc_serialize(to)?;
        self.displayed_skin_parts.mc_serialize(to)?;
        let res = self.main_hand.mc_serialize(to);
        proof {
            broadcast use lemma_concat_assoc;

            lemma_tuple6_wire(&self.fields());
        }
        res
    }
}

impl Deserialize for PlayClientSettingsSpec {
    type Model = <PlayClientSettingsSpecFields as Deserialize>::Model;

    open spec fn model(&self) -> Self::Model {
        self.fields().model()
    }

    /// Each field from what the one before left over.
    open spec fn decoding(data: Seq<u8>) -> Parsed<Self::Model> {
        <PlayClientSettingsSpecFields>::decoding(data)
    }

    proof fn lemma_remainder(data: Seq<u8>) {
        <PlayClientSettingsSpecFields>::lemma_remainder(data);
    }

    fn mc_deserialize(data: &[u8]) -> (res: DeserializeResult<'_, Self>) {
        let Deserialized { value, data: rest } =
            <PlayClientSettingsSpecFields>::mc_deserialize(data)?;
        let (
            locale, view_distance, chat_mode, chat_colors, displayed_skin_parts, main_hand,
        ) = value;
        Deserialized::ok(PlayClientSettingsSpec {
            locale, view_distance, chat_mode, chat_colors, displayed_skin_parts, main_hand,
        }, rest)
    }
}

impl ProtocolType for PlayClientSettingsSpec {
    open spec fn legal(&self) -> bool {
        self.fields().legal()
    }

    open spec fn self_delimiting() -> bool {
        <PlayClientSettingsSpecFields>::self_delimiting()
    }

    proof fn lemma_round_trip(&self, rest: Seq<u8>) {
        self.fields().lemma_round_trip(rest);
    }
}

/// What the packet `PlayClientTabComplete` holds.
#[derive(Debug, Clone, PartialEq)]
pub struct PlayClientTabCompleteSpec {
    pub transaction_id: VarInt,
    pub text: String,
}

/// The fields of [`PlayClientTabCompleteSpec`] in the order they travel.
pub type PlayClientTabCompleteSpecFields = (VarInt, String);

impl PlayClientTabCompleteSpec {
    pub open spec fn fields(&self) -> PlayClientTabCompleteSpecFields {
        (self.transaction_id, self.text)
    }
}

impl Serialize for PlayClientTabCompleteSpec {
    /// The fields' encodings, one behind the other.
    open spec fn wire(&self) -> Seq<u8> {
        self.fields().wire()
    }

    fn mc_serialize<S: Serializer>(&self, to: &mut S) -> (res: SerializeResult) {
        let ghost before = to.written();
        self.transaction_id.mc_serialize(to)?;
        let res = self.text.mc_serialize(to);
        proof {
            broadcast use lemma_concat_assoc;

            lemma_tuple2_wire(&self.fields());
        }
        res
    }
}

impl Deserialize for PlayClientTabCompleteSpec {
    type Model = <PlayClientTabCompleteSpecFields as Deserialize>::Model;

    open spec fn model(&self) -> Self::Model {
        self.fields().model()
    }

    /// Each field from what the one before left over.
    open spec fn decoding(data: Seq<u8>) -> Parsed<Self::Model> {
        <PlayClientTabCompleteSpecFields>::decoding(data)
    }

    proof fn lemma_remainder(data: Seq<u8>) {
        <PlayClientTabCompleteSpecFields>::lemma_remainder(data);
    }

    fn mc_deserialize(data: &[u8]) -> (res: DeserializeResult<'_, Self>) {
        let Deserialized { value, data: rest } =
            <PlayClientTabCompleteSpecFields>::mc_deserialize(data)?;
        let (transaction_id, text) = value;
        Deserialized::ok(PlayClientTabCompleteSpec { transaction_id, text }, rest)
    }
}

impl ProtocolType for PlayClientTabCompleteSpec {
    open spec fn legal(&self) -> bool {
        self.fields().legal()
    }

    open spec fn self_delimiting() -> bool {
        <PlayClientTabCompleteSpecFields>::self_delimiting()
    }

    proof fn lemma_round_trip(&self, rest: Seq<u8>) {
        self.fields().lemma_round_trip(rest);
    }
}

/// What the packet `PlayClientWindowConfirmation` holds.
#[derive(Debug, Clone, PartialEq)]
pub struct PlayClientWindowConfirmationSpec {
    pub window_id: i8,
    pub action_num: i16,
    pub accepted: bool,
}

/// The fields of [`PlayClientWindowConfirmationSpec`] in the order they travel.
pub type PlayClientWindowConfirmationSpecFields = (i8, i16, bool);

impl PlayClientWindowConfirmationSpec {
    pub open spec fn fields(&self) -> PlayClientWindowConfirmationSpecFields {
        (self.window_id, self.action_num, self.accepted)
    }
}

impl Serialize for PlayClientWindowConfirmationSpec {
    /// The fields' encodings, one behind the other.
    open spec fn wire(&self) -> Seq<u8> {
        self.fields().wire()
    }

    fn mc_serialize<S: Serializer>(&self, to: &mut S) -> (res: SerializeResult) {
        let ghost before = to.written();
        self.window_id.mc_serialize(to)?;
        self.action_num.mc_serialize(to)?;
        let res = self.accepted.mc_serialize(to);
        proof {
            broadcast use lemma_concat_assoc;

            lemma_tuple3_wire(&self.fields());
        }
        res
    }
}

impl Deserialize for PlayClientWindowConfirmationSpec {
    type Model = <PlayClientWindowConfirmationSpecFields as Deserialize>::Model;

    open spec fn model(&self) -> Self::Model {
        self.fields().model()
    }

    /// Each field from what the one before left over.
    open spec fn decoding(data: Seq<u8>) -> Parsed<Self::Model> {
        <PlayClientWindowConfirmationSpecFields>::decoding(data)
    }

    proof fn lemma_remainder(data: Seq<u8>) {
        <PlayClientWindowConfirmationSpecFields>::lemma_remainder(data);
    }

    fn mc_deserialize(data: &[u8]) -> (res: DeserializeResult<'_, Self>) {
        let Deserialized { value, data: rest } =
            <PlayClientWindowConfirmationSpecFields>::mc_deserialize(data)?;
        let (window_id, action_num, accepted) = value;
        Deserialized::ok(PlayClientWindowConfirmationSpec {
            window_id, action_num, accepted,
        }, rest)
    }
}

impl ProtocolType for PlayClientWindowConfirmationSpec {
    open spec fn legal(&self) -> bool {
        self.fields().legal()
    }

    open spec fn self_delimiting() -> bool {
        <PlayClientWindowConfirmationSpecFields>::self_delimiting()
    }

    proof fn lemma_round_trip(&self, rest: Seq<u8>) {
        self.fields().lemma_round_trip(rest);
    }
}

/// What the packet `PlayClickWindowButton` holds.
#[derive(Debug, Clone, PartialEq)]
pub struct PlayClickWindowButtonSpec {
    pub window_id: i8,
    pub button_id: i8,
}

/// The fields of [`PlayClickWindowButtonSpec`] in the order they travel.
pub type PlayClickWindowButtonSpecFields = (i8, i8);

impl PlayClickWindowButtonSpec {
    pub open spec fn fields(&self) -> PlayClickWindowButtonSpecFields {
        (self.window_id, self.button_id)
    }
}

impl Serialize for PlayClickWindowButtonSpec {
    /// The fields' encodings, one behind the other.
    open spec fn wire(&self) -> Seq<u8> {
        self.fields().wire()
    }

    fn mc_serialize<S: Serializer>(&self, to: &mut S) -> (res: SerializeResult) {
        let ghost before = to.written();
        self.window_id.mc_serialize(to)?;
        let res = self.button_id.mc_serialize(to);
        proof {
            broadcast use lemma_concat_assoc;

            lemma_tuple2_wire(&self.fields());
        }
        res
    }
}

impl Deserialize for PlayClickWindowButtonSpec {
    type Model = <PlayClickWindowButtonSpecFields as Deserialize>::Model;

    open spec fn model(&self) -> Self::Model {
        self.fields().model()
    }

    /// Each field from what the one before left over.
    open spec fn decoding(data: Seq<u8>) -> Parsed<Self::Model> {
        <PlayClickWindowButtonSpecFields>::decoding(data)
    }

    proof fn lemma_remainder(data: Seq<u8>) {
        <PlayClickWindowButtonSpecFields>::lemma_remainder(data);
    }

    fn mc_deserialize(data: &[u8]) -> (res: DeserializeResult<'_, Self>) {
        let Deserialized { value, data: rest } =
            <PlayClickWindowButtonSpecFields>::mc_deserialize(data)?;
        let (window_id, button_id) = value;
        Deserialized::ok(PlayClickWindowButtonSpec { window_id, button_id }, rest)
    }
}

impl ProtocolType for PlayClickWindowButtonSpec {
    open spec fn legal(&self) -> bool {
        self.fields().legal()
    }

    open spec fn self_delimiting() -> bool {
        <PlayClickWindowButtonSpecFields>::self_delimiting()
    }

    proof fn lemma_round_trip(&self, rest: Seq<u8>) {
        self.fields().lemma_round_trip(rest);
    }
}

/// What the packet `PlayClickWindow` holds.
#[derive(Debug, Clone, PartialEq)]
pub struct PlayClickWindowSpec {
    pub window_id: u8,
    pub slot: i16,
    pub button: i8,
    pub action_number: i16,
    pub mode: InventoryOperationMode,
    pub clicked_item: Option<Slot>,
}

/// The fields of [`PlayClickWindowSpec`] in the order they travel.
pub type PlayClickWindowSpecFields = (u8, i16, i8, i16, InventoryOperationMode, Option<Slot>);

impl PlayClickWindowSpec {
    pub open spec fn fields(&self) -> PlayClickWindowSpecFields {
        (self.window_id, self.slot, self.button, self.action_number, self.mode, self.clicked_item)
    }
}

impl Serialize for PlayClickWindowSpec {
    /// The fields' encodings, one behind the other.
    open spec fn wire(&self) -> Seq<u8> {
        self.fields().wire()
    }

    fn mc_serialize<S: Serializer>(&self, to: &mut S) -> (res: SerializeResult) {
        let ghost before = to.written();
        self.window_id.mc_serialize(to)?;
        self.slot.mc_serialize(to)?;
        self.button.mc_serialize(to)?;
        self.action_number.mc_serialize(to)?;
        self.mode.mc_serialize(to)?;
        let res = self.clicked_item.mc_serialize(to);
        proof {
            broadcast use lemma_concat_assoc;

            lemma_tuple6_wire(&self.fields());
        }
        res
    }
}

impl Deserialize for PlayClickWindowSpec {
    type Model = <PlayClickWindowSpecFields as Deserialize>::Model;

    open spec fn model(&self) -> Self::Model {
        self.fields().model()
    }

    /// Each field from what the one before left over.
    open spec fn decoding(data: Seq<u8>) -> Parsed<Self::Model> {
        <PlayClickWindowSpecFields>::decoding(data)
    }

    proof fn lemma_remainder(data: Seq<u8>) {
        <PlayClickWindowSpecFields>::lemma_remainder(data);
    }

    fn mc_deserialize(data: &[u8]) -> (res: DeserializeResult<'_, Self>) {
        let Deserialized { value, data: rest } = <PlayClickWindowSpecFields>::mc_deserialize(data)?;
        let (window_id, slot, button, action_number, mode, clicked_item) = value;
        Deserialized::ok(PlayClickWindowSpec {
            window_id, slot, button, action_number, mode, clicked_item,
        }, rest)
    }
}

impl ProtocolType for PlayClickWindowSpec {
    open spec fn legal(&self) -> bool {
        self.fields().legal()
    }

    open spec fn self_delimiting() -> bool {
        <PlayClickWindowSpecFields>::self_delimiting()
    }

    proof fn lemma_round_trip(&self, rest: Seq<u8>) {
        self.fields().lemma_round_trip(rest);
    }
}

/// What the packet `PlayClientCloseWindow` holds.
#[derive(Debug, Clone, PartialEq)]
pub struct PlayClientCloseWindowSpec {
    pub window_id: u8,
}

/// The fields of [`PlayClientCloseWindowSpec`] in the order they travel.
pub type PlayClientCloseWindowSpecFields = u8;

impl PlayClientCloseWindowSpec {
    pub open spec fn fields(&self) -> PlayClientCloseWindowSpecFields {
        self.window_id
    }
}

impl Serialize for PlayClientCloseWindowSpec {
    /// The fields' encodings, one behind the other.
    open spec fn wire(&self) -> Seq<u8> {
        self.fields().wire()
    }

    fn mc_serialize<S: Serializer>(&self, to: &mut S) -> (res: SerializeResult) {
        self.window_id.mc_serialize(to)
    }
}

impl Deserialize for PlayClientCloseWindowSpec {
    type Model = <PlayClientCloseWindowSpecFields as Deserialize>::Model;

    open spec fn model(&self) -> Self::Model {
        self.fields().model()
    }

    /// Each field from what the one before left over.
    open spec fn decoding(data: Seq<u8>) -> Parsed<Self::Model> {
        <PlayClientCloseWindowSpecFields>::decoding(data)
    }

    proof fn lemma_remainder(data: Seq<u8>) {
        <PlayClientCloseWindowSpecFields>::lemma_remainder(data);
    }

    fn mc_deserialize(data: &[u8]) -> (res: DeserializeResult<'_, Self>) {
        let Deserialized { value: window_id, data: rest } =
            <PlayClientCloseWindowSpecFields>::mc_deserialize(data)?;
        Deserialized::ok(PlayClientCloseWindowSpec { window_id }, rest)
    }
}

impl ProtocolType for PlayClientCloseWindowSpec {
    open spec fn legal(&self) -> bool {
        self.fields().legal()
    }

    open spec fn self_delimiting() -> bool {
        <PlayClientCloseWindowSpecFields>::self_delimiting()
    }

    proof fn lemma_round_trip(&self, rest: Seq<u8>) {
        self.fields().lemma_round_trip(rest);
    }
}

/// What the packet `PlayClientPluginMessage` holds.
#[derive(Debug, Clone, PartialEq)]
pub struct PlayClientPluginMessageSpec {
    pub channel: String,
    pub data: RemainingBytes,
}

/// The fields of [`PlayClientPluginMessageSpec`] in the order they travel.
pub type PlayClientPluginMessageSpecFields = (String, RemainingBytes);

impl PlayClientPluginMessageSpec {
    pub open spec fn fields(&self) -> PlayClientPluginMessageSpecFields {
        (self.channel, self.data)
    }
}

impl Serialize for PlayClientPluginMessageSpec {
    /// The fields' encodings, one behind the other.
    open spec fn wire(&self) -> Seq<u8> {
        self.fields().wire()
    }

    fn mc_serialize<S: Serializer>(&self, to: &mut S) -> (res: SerializeResult) {
        let ghost before = to.written();
        self.channel.mc_serialize(to)?;
        let res = self.data.mc_serialize(to);
        proof {
            broadcast use lemma_concat_assoc;

            lemma_tuple2_wire(&self.fields());
        }
        res
    }
}

impl Deserialize for PlayClientPluginMessageSpec {
    type Model = <PlayClientPluginMessageSpecFields as Deserialize>::Model;

    open spec fn model(&self) -> Self::Model {
        self.fields().model()
    }

    /// Each field from what the one before left over.
    open spec fn decoding(data: Seq<u8>) -> Parsed<Self::Model> {
        <PlayClientPluginMessageSpecFields>::decoding(data)
    }

    proof fn lemma_remainder(data: Seq<u8>) {
        <PlayClientPluginMessageSpecFields>::lemma_remainder(data);
    }

    fn mc_deserialize(data: &[u8]) -> (res: DeserializeResult<'_, Self>) {
        let Deserialized { value, data: rest } =
            <PlayClientPluginMessageSpecFields>::mc_deserialize(data)?;
        let (channel, data) = value;
        Deserialized::ok(PlayClientPluginMessageSpec { channel, data }, rest)
    }
}

impl ProtocolType for PlayClientPluginMessageSpec {
    open spec fn legal(&self) -> bool {
        self.fields().legal()
    }

    open spec fn self_delimiting() -> bool {
        <PlayClientPluginMessageSpecFields>::self_delimiting()
    }

    proof fn lemma_round_trip(&self, rest: Seq<u8>) {
        self.fields().lemma_round_trip(rest);
    }
}

/// What the packet `PlayEditBook` holds.
#[derive(Debug, Clone, PartialEq)]
pub struct PlayEditBookSpec {
    pub new_book: Option<Slot>,
    pub is_signing: bool,
    pub hand: Hand,
}

/// The fields of [`PlayEditBookSpec`] in the order they travel.
pub type PlayEditBookSpecFields = (Option<Slot>, bool, Hand);

impl PlayEditBookSpec {
    pub open spec fn fields(&self) -> PlayEditBookSpecFields {
        (self.new_book, self.is_signing, self.hand)
    }
}

impl Serialize for PlayEditBookSpec {
    /// The fields' encodings, one behind the other.
    open spec fn wire(&self) -> Seq<u8> {
        self.fields().wire()
    }

    fn mc_serialize<S: Serializer>(&self, to: &mut S) -> (res: SerializeResult) {
        let ghost before = to.written();
        self.new_book.mc_serialize(to)?;
        self.is_signing.mc_serialize(to)?;
        let res = self.hand.mc_serialize(to);
        proof {
            broadcast use lemma_concat_assoc;

            lemma_tuple3_wire(&self.fields());
        }
        res
    }
}

impl Deserialize for PlayEditBookSpec {
    type Model = <PlayEditBookSpecFields as Deserialize>::Model;

    open spec fn model(&self) -> Self::Model {
        self.fields().model()
    }

    /// Each field from what the one before left over.
    open spec fn decoding(data: Seq<u8>) -> Parsed<Self::Model> {
        <PlayEditBookSpecFields>::decoding(data)
    }

    proof fn lemma_remainder(data: Seq<u8>) {
        <PlayEditBookSpecFields>::lemma_remainder(data);
    }

    fn mc_deserialize(data: &[u8]) -> (res: DeserializeResult<'_, Self>) {
        let Deserialized { value, data: rest } = <PlayEditBookSpecFields>::mc_deserialize(data)?;
        let (new_book, is_signing, hand) = value;
        Deserialized::ok(PlayEditBookSpec { new_book, is_signing, hand }, rest)
    }
}

impl ProtocolType for PlayEditBookSpec {
    open spec fn legal(&self) -> bool {
        self.fields().legal()
    }

    open spec fn self_delimiting() -> bool {
        <PlayEditBookSpecFields>::self_delimiting()
    }

    proof fn lemma_round_trip(&self, rest: Seq<u8>) {
        self.fields().lemma_round_trip(rest);
    }
}

/// What the packet `PlayInteractEntity` holds.
#[derive(Debug, Clone, PartialEq)]
pub struct PlayInteractEntitySpec {
    pub entity_id: VarInt,
    pub kind: InteractKind,
}

/// The fields of [`PlayInteractEntitySpec`] in the order they travel.
pub type PlayInteractEntitySpecFields = (VarInt, InteractKind);

impl PlayInteractEntitySpec {
    pub open spec fn fields(&self) -> PlayInteractEntitySpecFields {
        (self.entity_id, self.kind)
    }
}

impl Serialize for PlayInteractEntitySpec {
    /// The fields' encodings, one behind the other.
    open spec fn wire(&self) -> Seq<u8> {
        self.fields().wire()
    }

    fn mc_serialize<S: Serializer>(&self, to: &mut S) -> (res: SerializeResult) {
        let ghost before = to.written();
        self.entity_id.mc_serialize(to)?;
        let res = self.kind.mc_serialize(to);
        proof {
            broadcast use lemma_concat_assoc;

            lemma_tuple2_wire(&self.fields());
        }
        res
    }
}

impl Deserialize for PlayInteractEntitySpec {
    type Model = <PlayInteractEntitySpecFields as Deserialize>::Model;

    open spec fn model(&self) -> Self::Model {
        self.fields().model()
    }

    /// Each field from what the one before left over.
    open spec fn decoding(data: Seq<u8>) -> Parsed<Self::Model> {
        <PlayInteractEntitySpecFields>::decoding(data)
    }

    proof fn lemma_remainder(data: Seq<u8>) {
        <PlayInteractEntitySpecFields>::lemma_remainder(data);
    }

    fn mc_deserialize(data: &[u8]) -> (res: DeserializeResult<'_, Self>) {
        let Deserialized { value, data: rest } =
            <PlayInteractEntitySpecFields>::mc_deserialize(data)?;
        let (entity_id, kind) = value;
        Deserialized::ok(PlayInteractEntitySpec { entity_id, kind }, rest)
    }
}

impl ProtocolType for PlayInteractEntitySpec {
    open spec fn legal(&self) -> bool {
        self.fields().legal()
    }

    open spec fn self_delimiting() -> bool {
        <PlayInteractEntitySpecFields>::self_delimiting()
    }

    proof fn lemma_round_trip(&self, rest: Seq<u8>) {
        self.fields().lemma_round_trip(rest);
    }
}

/// What the packet `PlayClientKeepAlive` holds.
#[derive(Debug, Clone, PartialEq)]
pub struct PlayClientKeepAliveSpec {
    pub id: i64,
}

/// The fields of [`PlayClientKeepAliveSpec`] in the order they travel.
pub type PlayClientKeepAliveSpecFields = i64;

impl PlayClientKeepAliveSpec {
    pub open spec fn fields(&self) -> PlayClientKeepAliveSpecFields {
        self.id
    }
}

impl Serialize for PlayClientKeepAliveSpec {
    /// The fields' encodings, one behind the other.
    open spec fn wire(&self) -> Seq<u8> {
        self.fields().wire()
    }

    fn mc_serialize<S: Serializer>(&self, to: &mut S) -> (res: SerializeResult) {
        self.id.mc_serialize(to)
    }
}

impl Deserialize for PlayClientKeepAliveSpec {
    type Model = <PlayClientKeepAliveSpecFields as Deserialize>::Model;

    open spec fn model(&self) -> Self::Model {
        self.fields().model()
    }

    /// Each field from what the one before left over.
    open spec fn decoding(data: Seq<u8>) -> Parsed<Self::Model> {
        <PlayClientKeepAliveSpecFields>::decoding(data)
    }

    proof fn lemma_remainder(data: Seq<u8>) {
        <PlayClientKeepAliveSpecFields>::lemma_remainder(data);
    }

    fn mc_deserialize(data: &[u8]) -> (res: DeserializeResult<'_, Self>) {
        let Deserialized { value: id, data: rest } =
            <PlayClientKeepAliveSpecFields>::mc_deserialize(data)?;
        Deserialized::ok(PlayClientKeepAliveSpec { id }, rest)
    }
}

impl ProtocolType for PlayClientKeepAliveSpec {
    open spec fn legal(&self) -> bool {
        self.fields().legal()
    }

    open spec fn self_delimiting() -> bool {
        <PlayClientKeepAliveSpecFields>::self_delimiting()
    }

    proof fn lemma_round_trip(&self, rest: Seq<u8>) {
        self.fields().lemma_round_trip(rest);
    }
}

/// What the packet `PlayLockDifficulty` holds.
#[derive(Debug, Clone, PartialEq)]
pub struct PlayLockDifficultySpec {
    pub locked: bool,
}

/// The fields of [`PlayLockDifficultySpec`] in the order they travel.
pub type PlayLockDifficultySpecFields = bool;

impl PlayLockDifficultySpec {
    pub open spec fn fields(&self) -> PlayLockDifficultySpecFields {
        self.locked
    }
}

impl Serialize for PlayLockDifficultySpec {
    /// The fields' encodings, one behind the other.
    open spec fn wire(&self) -> Seq<u8> {
        self.fields().wire()
    }

    fn mc_serialize<S: Serializer>(&self, to: &mut S) -> (res: SerializeResult) {
        self.locked.mc_serialize(to)
    }
}

impl Deserialize for PlayLockDifficultySpec {
    type Model = <PlayLockDifficultySpecFields as Deserialize>::Model;

    open spec fn model(&self) -> Self::Model {
        self.fields().model()
    }

    /// Each field from what the one before left over.
    open spec fn decoding(data: Seq<u8>) -> Parsed<Self::Model> {
        <PlayLockDifficultySpecFields>::decoding(data)
    }

    proof fn lemma_remainder(data: Seq<u8>) {
        <PlayLockDifficultySpecFields>::lemma_remainder(data);
    }

    fn mc_deserialize(data: &[u8]) -> (res: DeserializeResult<'_, Self>) {
        let Deserialized { value: locked, data: rest } =
            <PlayLockDifficultySpecFields>::mc_deserialize(data)?;
        Deserialized::ok(PlayLockDifficultySpec { locked }, rest)
    }
}

impl ProtocolType for PlayLockDifficultySpec {
    open spec fn legal(&self) -> bool {
        self.fields().legal()
    }

    open spec fn self_delimiting() -> bool {
        <PlayLockDifficultySpecFields>::self_delimiting()
    }

    proof fn lemma_round_trip(&self, rest: Seq<u8>) {
        self.fields().lemma_round_trip(rest);
    }
}

/// What the packet `PlayPlayerPosition` holds.
#[derive(Debug, Clone, PartialEq)]
pub struct PlayPlayerPositionSpec {
    pub x: Double,
    pub feet_y: Double,
    pub z: Double,
    pub on_ground: bool,
}

/// The fields of [`PlayPlayerPositionSpec`] in the order they travel.
pub type PlayPlayerPositionSpecFields = (Double, Double, Double, bool);

impl PlayPlayerPositionSpec {
    pub open spec fn fields(&self) -> PlayPlayerPositionSpecFields {
        (self.x, self.feet_y, self.z, self.on_ground)
    }
}

impl Serialize for PlayPlayerPositionSpec {
    /// The fields' encodings, one behind the other.
    open spec fn wire(&self) -> Seq<u8> {
        self.fields().wire()
    }

    fn mc_serialize<S: Serializer>(&self, to: &mut S) -> (res: SerializeResult) {
        let ghost before = to.written();
        self.x.mc_serialize(to)?;
        self.feet_y.mc_serialize(to)?;
        self.z.mc_serialize(to)?;
        let res = self.on_ground.mc_serialize(to);
        proof {
            broadcast use lemma_concat_assoc;

            lemma_tuple4_wire(&self.fields());
        }
        res
    }
}

impl Deserialize for PlayPlayerPositionSpec {
    type Model = <PlayPlayerPositionSpecFields as Deserialize>::Model;

    open spec fn model(&self) -> Self::Model {
        self.fields().model()
    }

    /// Each field from what the one before left over.
    open spec fn decoding(data: Seq<u8>) -> Parsed<Self::Model> {
        <PlayPlayerPositionSpecFields>::decoding(data)
    }

    proof fn lemma_remainder(data: Seq<u8>) {
        <PlayPlayerPositionSpecFields>::lemma_remainder(data);
    }

    fn mc_deserialize(data: &[u8]) -> (res: DeserializeResult<'_, Self>) {
        let Deserialized { value, data: rest } =
            <PlayPlayerPositionSpecFields>::mc_deserialize(data)?;
        let (x, feet_y, z, on_ground) = value;
        Deserialized::ok(PlayPlayerPositionSpec { x, feet_y, z, on_ground }, rest)
    }
}

impl ProtocolType for PlayPlayerPositionSpec {
    open spec fn legal(&self) -> bool {
        self.fields().legal()
    }

    open spec fn self_delimiting() -> bool {
        <PlayPlayerPositionSpecFields>::self_delimiting()
    }

    proof fn lemma_round_trip(&self, rest: Seq<u8>) {
        self.fields().lemma_round_trip(rest);
    }
}

/// What the packet `PlayClientPlayerPositionAndRotation` holds.
#[derive(Debug, Clone, PartialEq)]
pub struct PlayClientPlayerPositionAndRotationSpec {
    pub x: Double,
    pub feet_y: Double,
    pub z: Double,
    pub yaw: Float,
    pub pitch: Float,
    pub on_ground: bool,
}

/// The fields of [`PlayClientPlayerPositionAndRotationSpec`] in the order they travel.
pub type PlayClientPlayerPositionAndRotationSpecFields = (
    Double, Double, Double, Float, Float, bool,
);

impl PlayClientPlayerPositionAndRotationSpec {
    pub open spec fn fields(&self) -> PlayClientPlayerPositionAndRotationSpecFields {
        (self.x, self.feet_y, self.z, self.yaw, self.pitch, self.on_ground)
    }
}

impl Serialize for PlayClientPlayerPositionAndRotationSpec {
    /// The fields' encodings, one behind the other.
    open spec fn wire(&self) -> Seq<u8> {
        self.fields().wire()
    }

    fn mc_serialize<S: Serializer>(&self, to: &mut S) -> (res: SerializeResult) {
        let ghost before = to.written();
        self.x.mc_serialize(to)?;
        self.feet_y.mc_serialize(to)?;
        self.z.mc_serialize(to)?;
        self.yaw.mc_serialize(to)?;
        self.pitch.mc_serialize(to)?;
        let res = self.on_ground.mc_serialize(to);
        proof {
            broadcast use lemma_concat_assoc;

            lemma_tuple6_wire(&self.fields());
        }
        res
    }
}

impl Deserialize for PlayClientPlayerPositionAndRotationSpec {
    type Model = <PlayClientPlayerPositionAndRotationSpecFields as Deserialize>::Model;

    open spec fn model(&self) -> Self::Model {
        self.fields().model()
    }

    /// Each field from what the one before left over.
    open spec fn decoding(data: Seq<u8>) -> Parsed<Self::Model> {
        <PlayClientPlayerPositionAndRotationSpecFields>::decoding(data)
    }

    proof fn lemma_remainder(data: Seq<u8>) {
        <PlayClientPlayerPositionAndRotationSpecFields>::lemma_remainder(data);
    }

    fn mc_deserialize(data: &[u8]) -> (res: DeserializeResult<'_, Self>) {
        let Deserialized { value, data: rest } =
            <PlayClientPlayerPositionAndRotationSpecFields>::mc_deserialize(data)?;
        let (x, feet_y, z, yaw, pitch, on_ground) = value;
        Deserialized::ok(PlayClientPlayerPositionAndRotationSpec {
            x, feet_y, z, yaw, pitch, on_ground,
        }, rest)
    }
}

impl ProtocolType for PlayClientPlayerPositionAndRotationSpec {
    open spec fn legal(&self) -> bool {
        self.fields().legal()
    }

    open spec fn self_delimiting() -> bool {
        <PlayClientPlayerPositionAndRotationSpecFields>::self_delimiting()
    }

    proof fn lemma_round_trip(&self, rest: Seq<u8>) {
        self.fields().lemma_round_trip(rest);
    }
}

/// What the packet `PlayPlayerRotation` holds.
#[derive(Debug, Clone, PartialEq)]
pub struct PlayPlayerRotationSpec {
    pub yaw: Float,
    pub pitch: Float,
    pub on_ground: bool,
}

/// The fields of [`PlayPlayerRotationSpec`] in the order they travel.
pub type PlayPlayerRotationSpecFields = (Float, Float, bool);

impl PlayPlayerRotationSpec {
    pub open spec fn fields(&self) -> PlayPlayerRotationSpecFields {
        (self.yaw, self.pitch, self.on_ground)
    }
}

impl Serialize for PlayPlayerRotationSpec {
    /// The fields' encodings, one behind the other.
    open spec fn wire(&self) -> Seq<u8> {
        self.fields().wire()
    }

    fn mc_serialize<S: Serializer>(&self, to: &mut S) -> (res: SerializeResult) {
        let ghost before = to.written();
        self.yaw.mc_serialize(to)?;
        self.pitch.mc_serialize(to)?;
        let res = self.on_ground.mc_serialize(to);
        proof {
            broadcast use lemma_concat_assoc;

            lemma_tuple3_wire(&self.fields());
        }
        res
    }
}

impl Deserialize for PlayPlayerRotationSpec {
    type Model = <PlayPlayerRotationSpecFields as Deserialize>::Model;

    open spec fn model(&self) -> Self::Model {
        self.fields().model()
    }

    /// Each field from what the one before left over.
    open spec fn decoding(data: Seq<u8>) -> Parsed<Self::Model> {
        <PlayPlayerRotationSpecFields>::decoding(data)
    }

    proof fn lemma_remainder(data: Seq<u8>) {
        <PlayPlayerRotationSpecFields>::lemma_remainder(data);
    }

    fn mc_deserialize(data: &[u8]) -> (res: DeserializeResult<'_, Self>) {
        let Deserialized { value, data: rest } =
            <PlayPlayerRotationSpecFields>::mc_deserialize(data)?;
        let (yaw, pitch, on_ground) = value;
        Deserialized::ok(PlayPlayerRotationSpec { yaw, pitch, on_ground }, rest)
    }
}

impl ProtocolType for PlayPlayerRotationSpec {
    open spec fn legal(&self) -> bool {
        self.fields().legal()
    }

    open spec fn self_delimiting() -> bool {
        <PlayPlayerRotationSpecFields>::self_delimiting()
    }

    proof fn lemma_round_trip(&self, rest: Seq<u8>) {
        self.fields().lemma_round_trip(rest);
    }
}

/// What the packet `PlayPlayerMovement` holds.
#[derive(Debug, Clone, PartialEq)]
pub struct PlayPlayerMovementSpec {
    pub on_ground: bool,
}

/// The fields of [`PlayPlayerMovementSpec`] in the order they travel.
pub type PlayPlayerMovementSpecFields = bool;

impl PlayPlayerMovementSpec {
    pub open spec fn fields(&self) -> PlayPlayerMovementSpecFields {
        self.on_ground
    }
}

impl Serialize for PlayPlayerMovementSpec {
    /// The fields' encodings, one behind the other.
    open spec fn wire(&self) -> Seq<u8> {
        self.fields().wire()
    }

    fn mc_serialize<S: Serializer>(&self, to: &mut S) -> (res: SerializeResult) {
        self.on_ground.mc_serialize(to)
    }
}

impl Deserialize for PlayPlayerMovementSpec {
    type Model = <PlayPlayerMovementSpecFields as Deserialize>::Model;

    open spec fn model(&self) -> Self::Model {
        self.fields().model()
    }

    /// Each field from what the one before left over.
    open spec fn decoding(data: Seq<u8>) -> Parsed<Self::Model> {
        <PlayPlayerMovementSpecFields>::decoding(data)
    }

    proof fn lemma_remainder(data: Seq<u8>) {
        <PlayPlayerMovementSpecFields>::lemma_remainder(data);
    }

    fn mc_deserialize(data: &[u8]) -> (res: DeserializeResult<'_, Self>) {
        let Deserialized { value: on_ground, data: rest } =
            <PlayPlayerMovementSpecFields>::mc_deserialize(data)?;
        Deserialized::ok(PlayPlayerMovementSpec { on_ground }, rest)
    }
}

impl ProtocolType for PlayPlayerMovementSpec {
    open spec fn legal(&self) -> bool {
        self.fields().legal()
    }

    open spec fn self_delimiting() -> bool {
        <PlayPlayerMovementSpecFields>::self_delimiting()
    }

    proof fn lemma_round_trip(&self, rest: Seq<u8>) {
        self.fields().lemma_round_trip(rest);
    }
}

/// What the packet `PlayClientVehicleMove` holds.
#[derive(Debug, Clone, PartialEq)]
pub struct PlayClientVehicleMoveSpec {
    pub x: Double,
    pub y: Double,
    pub z: Double,
    pub yaw: Float,
    pub pitch: Float,
}

/// The fields of [`PlayClientVehicleMoveSpec`] in the order they travel.
pub type PlayClientVehicleMoveSpecFields = (Double, Double, Double, Float, Float);

impl PlayClientVehicleMoveSpec {
    pub open spec fn fields(&self) -> PlayClientVehicleMoveSpecFields {
        (self.x, self.y, self.z, self.yaw, self.pitch)
    }
}

impl Serialize for PlayClientVehicleMoveSpec {
    /// The fields' encodings, one behind the other.
    open spec fn wire(&self) -> Seq<u8> {
        self.fields().wire()
    }

    fn mc_serialize<S: Serializer>(&self, to: &mut S) -> (res: SerializeResult) {
        let ghost before = to.written();
        self.x.mc_serialize(to)?;
        self.y.mc_serialize(to)?;
        self.z.mc_serialize(to)?;
        self.yaw.mc_serialize(to)?;
        let res = self.pitch.mc_serialize(to);
        proof {
            broadcast use lemma_concat_assoc;

            lemma_tuple5_wire(&self.fields());
        }
        res
    }
}

impl Deserialize for PlayClientVehicleMoveSpec {
    type Model = <PlayClientVehicleMoveSpecFields as Deserialize>::Model;

    open spec fn model(&self) -> Self::Model {
        self.fields().model()
    }

    /// Each field from what the one before left over.
    open spec fn decoding(data: Seq<u8>) -> Parsed<Self::Model> {
        <PlayClientVehicleMoveSpecFields>::decoding(data)
    }

    proof fn lemma_remainder(data: Seq<u8>) {
        <PlayClientVehicleMoveSpecFields>::lemma_remainder(data);
    }

    fn mc_deserialize(data: &[u8]) -> (res: DeserializeResult<'_, Self>) {
        let Deserialized { value, data: rest } =
            <PlayClientVehicleMoveSpecFields>::mc_deserialize(data)?;
        let (x, y, z, yaw, pitch) = value;
        Deserialized::ok(PlayClientVehicleMoveSpec { x, y, z, yaw, pitch }, rest)
    }
}

impl ProtocolType for PlayClientVehicleMoveSpec {
    open spec fn legal(&self) -> bool {
        self.fields().legal()
    }

    open spec fn self_delimiting() -> bool {
        <PlayClientVehicleMoveSpecFields>::self_delimiting()
    }

    proof fn lemma_round_trip(&self, rest: Seq<u8>) {
        self.fields().lemma_round_trip(rest);
    }
}

/// What the packet `PlaySteerBoat` holds.
#[derive(Debug, Clone, PartialEq)]
pub struct PlaySteerBoatSpec {
    pub left_paddle_turning: bool,
    pub right_paddle_turning: bool,
}

/// The fields of [`PlaySteerBoatSpec`] in the order they travel.
pub type PlaySteerBoatSpecFields = (bool, bool);

impl PlaySteerBoatSpec {
    pub open spec fn fields(&self) -> PlaySteerBoatSpecFields {
        (self.left_paddle_turning, self.right_paddle_turning)
    }
}

impl Serialize for PlaySteerBoatSpec {
    /// The fields' encodings, one behind the other.
    open spec fn wire(&self) -> Seq<u8> {
        self.fields().wire()
    }

    fn mc_serialize<S: Serializer>(&self, to: &mut S) -> (res: SerializeResult) {
        let ghost before = to.written();
        self.left_paddle_turning.mc_serialize(to)?;
        let res = self.right_paddle_turning.mc_serialize(to);
        proof {
            broadcast use lemma_concat_assoc;

            lemma_tuple2_wire(&self.fields());
        }
        res
    }
}

impl Deserialize for PlaySteerBoatSpec {
    type Model = <PlaySteerBoatSpecFields as Deserialize>::Model;

    open spec fn model(&self) -> Self::Model {
        self.fields().model()
    }

    /// Each field from what the one before left over.
    open spec fn decoding(data: Seq<u8>) -> Parsed<Self::Model> {
        <PlaySteerBoatSpecFields>::decoding(data)
    }

    proof fn lemma_remainder(data: Seq<u8>) {
        <PlaySteerBoatSpecFields>::lemma_remainder(data);
    }

    fn mc_deserialize(data: &[u8]) -> (res: DeserializeResult<'_, Self>) {
        let Deserialized { value, data: rest } = <PlaySteerBoatSpecFields>::mc_deserialize(data)?;
        let (left_paddle_turning, right_paddle_turning) = value;
        Deserialized::ok(PlaySteerBoatSpec { left_paddle_turning, right_paddle_turning }, rest)
    }
}

impl ProtocolType for PlaySteerBoatSpec {
    open spec fn legal(&self) -> bool {
        self.fields().legal()
    }

    open spec fn self_delimiting() -> bool {
        <PlaySteerBoatSpecFields>::self_delimiting()
    }

    proof fn lemma_round_trip(&self, rest: Seq<u8>) {
        self.fields().lemma_round_trip(rest);
    }
}

/// What the packet `PlayPickItem` holds.
#[derive(Debug, Clone, PartialEq)]
pub struct PlayPickItemSpec {
    pub slot_idx: VarInt,
}

/// The fields of [`PlayPickItemSpec`] in the order they travel.
pub type PlayPickItemSpecFields = VarInt;

impl PlayPickItemSpec {
    pub open spec fn fields(&self) -> PlayPickItemSpecFields {
        self.slot_idx
    }
}

impl Serialize for PlayPickItemSpec {
    /// The fields' encodings, one behind the other.
    open spec fn wire(&self) -> Seq<u8> {
        self.fields().wire()
    }

    fn mc_serialize<S: Serializer>(&self, to: &mut S) -> (res: SerializeResult) {
        self.slot_idx.mc_serialize(to)
    }
}

impl Deserialize for PlayPickItemSpec {
    type Model = <PlayPickItemSpecFields as Deserialize>::Model;

    open spec fn model(&self) -> Self::Model {
        self.fields().model()
    }

    /// Each field from what the one before left over.
    open spec fn decoding(data: Seq<u8>) -> Parsed<Self::Model> {
        <PlayPickItemSpecFields>::decoding(data)
    }

    proof fn lemma_remainder(data: Seq<u8>) {
        <PlayPickItemSpecFields>::lemma_remainder(data);
    }

    fn mc_deserialize(data: &[u8]) -> (res: DeserializeResult<'_, Self>) {
        let Deserialized { value: slot_idx, data: rest } =
            <PlayPickItemSpecFields>::mc_deserialize(data)?;
        Deserialized::ok(PlayPickItemSpec { slot_idx }, rest)
    }
}

impl ProtocolType for PlayPickItemSpec {
    open spec fn legal(&self) -> bool {
        self.fields().legal()
    }

    open spec fn self_delimiting() -> bool {
        <PlayPickItemSpecFields>::self_delimiting()
    }

    proof fn lemma_round_trip(&self, rest: Seq<u8>) {
        self.fields().lemma_round_trip(rest);
    }
}

/// What the packet `PlayCraftRecipeRequest` holds.
#[derive(Debug, Clone, PartialEq)]
pub struct PlayCraftRecipeRequestSpec {
    pub window_id: i8,
    pub recipe: String,
    pub make_all: bool,
}

/// The fields of [`PlayCraftRecipeRequestSpec`] in the order they travel.
pub type PlayCraftRecipeRequestSpecFields = (i8, String, bool);

impl PlayCraftRecipeRequestSpec {
    pub open spec fn fields(&self) -> PlayCraftRecipeRequestSpecFields {
        (self.window_id, self.recipe, self.make_all)
    }
}

impl Serialize for PlayCraftRecipeRequestSpec {
    /// The fields' encodings, one behind the other.
    open spec fn wire(&self) -> Seq<u8> {
        self.fields().wire()
    }

    fn mc_serialize<S: Serializer>(&self, to: &mut S) -> (res: SerializeResult) {
        let ghost before = to.written();
        self.window_id.mc_serialize(to)?;
        self.recipe.mc_serialize(to)?;
        let res = self.make_all.mc_serialize(to);
        proof {
            broadcast use lemma_concat_assoc;

            lemma_tuple3_wire(&self.fields());
        }
        res
    }
}

impl Deserialize for PlayCraftRecipeRequestSpec {
    type Model = <PlayCraftRecipeRequestSpecFields as Deserialize>::Model;

    open spec fn model(&self) -> Self::Model {
        self.fields().model()
    }

    /// Each field from what the one before left over.
    open spec fn decoding(data: Seq<u8>) -> Parsed<Self::Model> {
        <PlayCraftRecipeRequestSpecFields>::decoding(data)
    }

    proof fn lemma_remainder(data: Seq<u8>) {
        <PlayCraftRecipeRequestSpecFields>::lemma_remainder(data);
    }

    fn mc_deserialize(data: &[u8]) -> (res: DeserializeResult<'_, Self>) {
        let Deserialized { value, data: rest } =
            <PlayCraftRecipeRequestSpecFields>::mc_deserialize(data)?;
        let (window_id, recipe, make_all) = value;
        Deserialized::ok(PlayCraftRecipeRequestSpec { window_id, recipe, make_all }, rest)
    }
}

impl ProtocolType for PlayCraftRecipeRequestSpec {
    open spec fn legal(&self) -> bool {
        self.fields().legal()
    }

    open spec fn self_delimiting() -> bool {
        <PlayCraftRecipeRequestSpecFields>::self_delimiting()
    }

    proof fn lemma_round_trip(&self, rest: Seq<u8>) {
        self.fields().lemma_round_trip(rest);
    }
}

/// What the packet `PlayClientPlayerAbilities` holds.
#[derive(Debug, Clone, PartialEq)]
pub struct PlayClientPlayerAbilitiesSpec {
    pub flags: ClientPlayerAbilities,
    pub flying_speed: Float,
    pub walking_speed: Float,
}

/// The fields of [`PlayClientPlayerAbilitiesSpec`] in the order they travel.
pub type PlayClientPlayerAbilitiesSpecFields = (ClientPlayerAbilities, Float, Float);

impl PlayClientPlayerAbilitiesSpec {
    pub open spec fn fields(&self) -> PlayClientPlayerAbilitiesSpecFields {
        (self.flags, self.flying_speed, self.walking_speed)
    }
}

impl Serialize for PlayClientPlayerAbilitiesSpec {
    /// The fields' encodings, one behind the other.
    open spec fn wire(&self) -> Seq<u8> {
        self.fields().wire()
    }

    fn mc_serialize<S: Serializer>(&self, to: &mut S) -> (res: SerializeResult) {
        let ghost before = to.written();
        self.flags.mc_serialize(to)?;
        self.flying_speed.mc_serialize(to)?;
        let res = self.walking_speed.mc_serialize(to);
        proof {
            broadcast use lemma_concat_assoc;

            lemma_tuple3_wire(&self.fields());
        }
        res
    }
}

impl Deserialize for PlayClientPlayerAbilitiesSpec {
    type Model = <PlayClientPlayerAbilitiesSpecFields as Deserialize>::Model;

    open spec fn model(&self) -> Self::Model {
        self.fields().model()
    }

    /// Each field from what the one before left over.
    open spec fn decoding(data: Seq<u8>) -> Parsed<Self::Model> {
        <PlayClientPlayerAbilitiesSpecFields>::decoding(data)
    }

    proof fn lemma_remainder(data: Seq<u8>) {
        <PlayClientPlayerAbilitiesSpecFields>::lemma_remainder(data);
    }

    fn mc_deserialize(data: &[u8]) -> (res: DeserializeResult<'_, Self>) {
        let Deserialized { value, data: rest } =
            <PlayClientPlayerAbilitiesSpecFields>::mc_deserialize(data)?;
        let (flags, flying_speed, walking_speed) = value;
        Deserialized::ok(PlayClientPlayerAbilitiesSpec {
            flags, flying_speed, walking_speed,
        }, rest)
    }
}

impl ProtocolType for PlayClientPlayerAbilitiesSpec {
    open spec fn legal(&self) -> bool {
        self.fields().legal()
    }

    open spec fn self_delimiting() -> bool {
        <PlayClientPlayerAbilitiesSpecFields>::self_delimiting()
    }

    proof fn lemma_round_trip(&self, rest: Seq<u8>) {
        self.fields().lemma_round_trip(rest);
    }
}

/// What the packet `PlayPlayerDigging` holds.
#[derive(Debug, Clone, PartialEq)]
pub struct PlayPlayerDiggingSpec {
    pub status: PlayerDiggingStatus,
    pub location: IntPosition,
    pub face: DiggingFace,
}

/// The fields of [`PlayPlayerDiggingSpec`] in the order they travel.
pub type PlayPlayerDiggingSpecFields = (PlayerDiggingStatus, IntPosition, DiggingFace);

impl PlayPlayerDiggingSpec {
    pub open spec fn fields(&self) -> PlayPlayerDiggingSpecFields {
        (self.status, self.location, self.face)
    }
}

impl Serialize for PlayPlayerDiggingSpec {
    /// The fields' encodings, one behind the other.
    open spec fn wire(&self) -> Seq<u8> {
        self.fields().wire()
    }

    fn mc_serialize<S: Serializer>(&self, to: &mut S) -> (res: SerializeResult) {
        let ghost before = to.written();
        self.status.mc_serialize(to)?;
        self.location.mc_serialize(to)?;
        let res = self.face.mc_serialize(to);
        proof {
            broadcast use lemma_concat_assoc;

            lemma_tuple3_wire(&self.fields());
        }
        res
    }
}

impl Deserialize for PlayPlayerDiggingSpec {
    type Model = <PlayPlayerDiggingSpecFields as Deserialize>::Model;

    open spec fn model(&self) -> Self::Model {
        self.fields().model()
    }

    /// Each field from what the one before left over.
    open spec fn decoding(data: Seq<u8>) -> Parsed<Self::Model> {
        <PlayPlayerDiggingSpecFields>::decoding(data)
    }

    proof fn lemma_remainder(data: Seq<u8>) {
        <PlayPlayerDiggingSpecFields>::lemma_remainder(data);
    }

    fn mc_deserialize(data: &[u8]) -> (res: DeserializeResult<'_, Self>) {
        let Deserialized { value, data: rest } =
            <PlayPlayerDiggingSpecFields>::mc_deserialize(data)?;
        let (status, location, face) = value;
        Deserialized::ok(PlayPlayerDiggingSpec { status, location, face }, rest)
    }
}

impl ProtocolType for PlayPlayerDiggingSpec {
    open spec fn legal(&self) -> bool {
        self.fields().legal()
    }

    open spec fn self_delimiting() -> bool {
        <PlayPlayerDiggingSpecFields>::self_delimiting()
    }

    proof fn lemma_round_trip(&self, rest: Seq<u8>) {
        self.fields().lemma_round_trip(rest);
    }
}

/// What the packet `PlayEntityAction` holds.
#[derive(Debug, Clone, PartialEq)]
pub struct PlayEntityActionSpec {
    pub entity_id: VarInt,
    pub action: EntityActionKind,
    pub jump_boot: VarInt,
}

/// The fields of [`PlayEntityActionSpec`] in the order they travel.
pub type PlayEntityActionSpecFields = (VarInt, EntityActionKind, VarInt);

impl PlayEntityActionSpec {
    pub open spec fn fields(&self) -> PlayEntityActionSpecFields {
        (self.entity_id, self.action, self.jump_boot)
    }
}

impl Serialize for PlayEntityActionSpec {
    /// The fields' encodings, one behind the other.
    open spec fn wire(&self) -> Seq<u8> {
        self.fields().wire()
    }

    fn mc_serialize<S: Serializer>(&self, to: &mut S) -> (res: SerializeResult) {
        let ghost before = to.written();
        self.entity_id.mc_serialize(to)?;
        self.action.mc_serialize(to)?;
        let res = self.jump_boot.mc_serialize(to);
        proof {
            broadcast use lemma_concat_assoc;

            lemma_tuple3_wire(&self.fields());
        }
        res
    }
}

impl Deserialize for PlayEntityActionSpec {
    type Model = <PlayEntityActionSpecFields as Deserialize>::Model;

    open spec fn model(&self) -> Self::Model {
        self.fields().model()
    }

    /// Each field from what the one before left over.
    open spec fn decoding(data: Seq<u8>) -> Parsed<Self::Model> {
        <PlayEntityActionSpecFields>::decoding(data)
    }

    proof fn lemma_remainder(data: Seq<u8>) {
        <PlayEntityActionSpecFields>::lemma_remainder(data);
    }

    fn mc_deserialize(data: &[u8]) -> (res: DeserializeResult<'_, Self>) {
        let Deserialized { value, data: rest } =
            <PlayEntityActionSpecFields>::mc_deserialize(data)?;
        let (entity_id, action, jump_boot) = value;
        Deserialized::ok(PlayEntityActionSpec { entity_id, action, jump_boot }, rest)
    }
}

impl ProtocolType for PlayEntityActionSpec {
    open spec fn legal(&self) -> bool {
        self.fields().legal()
    }

    open spec fn self_delimiting() -> bool {
        <PlayEntityActionSpecFields>::self_delimiting()
    }

    proof fn lemma_round_trip(&self, rest: Seq<u8>) {
        self.fields().lemma_round_trip(rest);
    }
}

/// What the packet `PlaySteerVehicle` holds.
#[derive(Debug, Clone, PartialEq)]
pub struct PlaySteerVehicleSpec {
    pub sideways: Float,
    pub forward: Float,
    pub flags: SteerVehicleFlags,
}

/// The fields of [`PlaySteerVehicleSpec`] in the order they travel.
pub type PlaySteerVehicleSpecFields = (Float, Float, SteerVehicleFlags);

impl PlaySteerVehicleSpec {
    pub open spec fn fields(&self) -> PlaySteerVehicleSpecFields {
        (self.sideways, self.forward, self.flags)
    }
}

impl Serialize for PlaySteerVehicleSpec {
    /// The fields' encodings, one behind the other.
    open spec fn wire(&self) -> Seq<u8> {
        self.fields().wire()
    }

    fn mc_serialize<S: Serializer>(&self, to: &mut S) -> (res: SerializeResult) {
        let ghost before = to.written();
        self.sideways.mc_serialize(to)?;
        self.forward.mc_serialize(to)?;
        let res = self.flags.mc_serialize(to);
        proof {
            broadcast use lemma_concat_assoc;

            lemma_tuple3_wire(&self.fields());
        }
        res
    }
}

impl Deserialize for PlaySteerVehicleSpec {
    type Model = <PlaySteerVehicleSpecFields as Deserialize>::Model;

    open spec fn model(&self) -> Self::Model {
        self.fields().model()
    }

    /// Each field from what the one before left over.
    open spec fn decoding(data: Seq<u8>) -> Parsed<Self::Model> {
        <PlaySteerVehicleSpecFields>::decoding(data)
    }

    proof fn lemma_remainder(data: Seq<u8>) {
        <PlaySteerVehicleSpecFields>::lemma_remainder(data);
    }

    fn mc_deserialize(data: &[u8]) -> (res: DeserializeResult<'_, Self>) {
        let Deserialized { value, data: rest } =
            <PlaySteerVehicleSpecFields>::mc_deserialize(data)?;
        let (sideways, forward, flags) = value;
        Deserialized::ok(PlaySteerVehicleSpec { sideways, forward, flags }, rest)
    }
}

impl ProtocolType for PlaySteerVehicleSpec {
    open spec fn legal(&self) -> bool {
        self.fields().legal()
    }

    open spec fn self_delimiting() -> bool {
        <PlaySteerVehicleSpecFields>::self_delimiting()
    }

    proof fn lemma_round_trip(&self, rest: Seq<u8>) {
        self.fields().lemma_round_trip(rest);
    }
}

/// What the packet `PlayNameItem` holds.
#[derive(Debug, Clone, PartialEq)]
pub struct PlayNameItemSpec {
    pub name: String,
}

/// The fields of [`PlayNameItemSpec`] in the order they travel.
pub type PlayNameItemSpecFields = String;

impl PlayNameItemSpec {
    pub open spec fn fields(&self) -> PlayNameItemSpecFields {
        self.name
    }
}

impl Serialize for PlayNameItemSpec {
    /// The fields' encodings, one behind the other.
    open spec fn wire(&self) -> Seq<u8> {
        self.fields().wire()
    }

    fn mc_serialize<S: Serializer>(&self, to: &mut S) -> (res: SerializeResult) {
        self.name.mc_serialize(to)
    }
}

impl Deserialize for PlayNameItemSpec {
    type Model = <PlayNameItemSpecFields as Deserialize>::Model;

    open spec fn model(&self) -> Self::Model {
        self.fields().model()
    }

    /// Each field from what the one before left over.
    open spec fn decoding(data: Seq<u8>) -> Parsed<Self::Model> {
        <PlayNameItemSpecFields>::decoding(data)
    }

    proof fn lemma_remainder(data: Seq<u8>) {
        <PlayNameItemSpecFields>::lemma_remainder(data);
    }

    fn mc_deserialize(data: &[u8]) -> (res: DeserializeResult<'_, Self>) {
        let Deserialized { value: name, data: rest } =
            <PlayNameItemSpecFields>::mc_deserialize(data)?;
        Deserialized::ok(PlayNameItemSpec { name }, rest)
    }
}

impl ProtocolType for PlayNameItemSpec {
    open spec fn legal(&self) -> bool {
        self.fields().legal()
    }

    open spec fn self_delimiting() -> bool {
        <PlayNameItemSpecFields>::self_delimiting()
    }

    proof fn lemma_round_trip(&self, rest: Seq<u8>) {
        self.fields().lemma_round_trip(rest);
    }
}

/// What the packet `PlayResourcePackStatus` holds.
#[derive(Debug, Clone, PartialEq)]
pub struct PlayResourcePackStatusSpec {
    pub status: ResourcePackStatus,
}

/// The fields of [`PlayResourcePackStatusSpec`] in the order they travel.
pub type PlayResourcePackStatusSpecFields = ResourcePackStatus;

impl PlayResourcePackStatusSpec {
    pub open spec fn fields(&self) -> PlayResourcePackStatusSpecFields {
        self.status
    }
}

impl Serialize for PlayResourcePackStatusSpec {
    /// The fields' encodings, one behind the other.
    open spec fn wire(&self) -> Seq<u8> {
        self.fields().wire()
    }

    fn mc_serialize<S: Serializer>(&self, to: &mut S) -> (res: SerializeResult) {
        self.status.mc_serialize(to)
    }
}

impl Deserialize for PlayResourcePackStatusSpec {
    type Model = <PlayResourcePackStatusSpecFields as Deserialize>::Model;

    open spec fn model(&self) -> Self::Model {
        self.fields().model()
    }

    /// Each field from what the one before left over.
    open spec fn decoding(data: Seq<u8>) -> Parsed<Self::Model> {
        <PlayResourcePackStatusSpecFields>::decoding(data)
    }

    proof fn lemma_remainder(data: Seq<u8>) {
        <PlayResourcePackStatusSpecFields>::lemma_remainder(data);
    }

    fn mc_deserialize(data: &[u8]) -> (res: DeserializeResult<'_, Self>) {
        let Deserialized { value: status, data: rest } =
            <PlayResourcePackStatusSpecFields>::mc_deserialize(data)?;
        Deserialized::ok(PlayResourcePackStatusSpec { status }, rest)
    }
}

impl ProtocolType for PlayResourcePackStatusSpec {
    open spec fn legal(&self) -> bool {
        self.fields().legal()
    }

    open spec fn self_delimiting() -> bool {
        <PlayResourcePackStatusSpecFields>::self_delimiting()
    }

    proof fn lemma_round_trip(&self, rest: Seq<u8>) {
        self.fields().lemma_round_trip(rest);
    }
}

/// What the packet `PlaySelectTrade` holds.
#[derive(Debug, Clone, PartialEq)]
pub struct PlaySelectTradeSpec {
    pub selected_slot: VarInt,
}

/// The fields of [`PlaySelectTradeSpec`] in the order they travel.
pub type PlaySelectTradeSpecFields = VarInt;

impl PlaySelectTradeSpec {
    pub open spec fn fields(&self) -> PlaySelectTradeSpecFields {
        self.selected_slot
    }
}

impl Serialize for PlaySelectTradeSpec {
    /// The fields' encodings, one behind the other.
    open spec fn wire(&self) -> Seq<u8> {
        self.fields().wire()
    }

    fn mc_serialize<S: Serializer>(&self, to: &mut S) -> (res: SerializeResult) {
        self.selected_slot.mc_serialize(to)
    }
}

impl Deserialize for PlaySelectTradeSpec {
    type Model = <PlaySelectTradeSpecFields as Deserialize>::Model;

    open spec fn model(&self) -> Self::Model {
        self.fields().model()
    }

    /// Each field from what the one before left over.
    open spec fn decoding(data: Seq<u8>) -> Parsed<Self::Model> {
        <PlaySelectTradeSpecFields>::decoding(data)
    }

    proof fn lemma_remainder(data: Seq<u8>) {
        <PlaySelectTradeSpecFields>::lemma_remainder(data);
    }

    fn mc_deserialize(data: &[u8]) -> (res: DeserializeResult<'_, Self>) {
        let Deserialized { value: selected_slot, data: rest } =
            <PlaySelectTradeSpecFields>::mc_deserialize(data)?;
        Deserialized::ok(PlaySelectTradeSpec { selected_slot }, rest)
    }
}

impl ProtocolType for PlaySelectTradeSpec {
    open spec fn legal(&self) -> bool {
        self.fields().legal()
    }

    open spec fn self_delimiting() -> bool {
        <PlaySelectTradeSpecFields>::self_delimiting()
    }

    proof fn lemma_round_trip(&self, rest: Seq<u8>) {
        self.fields().lemma_round_trip(rest);
    }
}

/// What the packet `PlaySetBeaconEffect` holds.
#[derive(Debug, Clone, PartialEq)]
pub struct PlaySetBeaconEffectSpec {
    pub primary_effect: VarInt,
    pub secondary_effect: VarInt,
}

/// The fields of [`PlaySetBeaconEffectSpec`] in the order they travel.
pub type PlaySetBeaconEffectSpecFields = (VarInt, VarInt);

impl PlaySetBeaconEffectSpec {
    pub open spec fn fields(&self) -> PlaySetBeaconEffectSpecFields {
        (self.primary_effect, self.secondary_effect)
    }
}

impl Serialize for PlaySetBeaconEffectSpec {
    /// The fields' encodings, one behind the other.
    open spec fn wire(&self) -> Seq<u8> {
        self.fields().wire()
    }

    fn mc_serialize<S: Serializer>(&self, to: &mut S) -> (res: SerializeResult) {
        let ghost before = to.written();
        self.primary_effect.mc_serialize(to)?;
        let res = self.secondary_effect.mc_serialize(to);
        proof {
            broadcast use lemma_concat_assoc;

            lemma_tuple2_wire(&self.fields());
        }
        res
    }
}

impl Deserialize for PlaySetBeaconEffectSpec {
    type Model = <PlaySetBeaconEffectSpecFields as Deserialize>::Model;

    open spec fn model(&self) -> Self::Model {
        self.fields().model()
    }

    /// Each field from what the one before left over.
    open spec fn decoding(data: Seq<u8>) -> Parsed<Self::Model> {
        <PlaySetBeaconEffectSpecFields>::decoding(data)
    }

    proof fn lemma_remainder(data: Seq<u8>) {
        <PlaySetBeaconEffectSpecFields>::lemma_remainder(data);
    }

    fn mc_deserialize(data: &[u8]) -> (res: DeserializeResult<'_, Self>) {
        let Deserialized { value, data: rest } =
            <PlaySetBeaconEffectSpecFields>::mc_deserialize(data)?;
        let (primary_effect, secondary_effect) = value;
        Deserialized::ok(PlaySetBeaconEffectSpec { primary_effect, secondary_effect }, rest)
    }
}

impl ProtocolType for PlaySetBeaconEffectSpec {
    open spec fn legal(&self) -> bool {
        self.fields().legal()
    }

    open spec fn self_delimiting() -> bool {
        <PlaySetBeaconEffectSpecFields>::self_delimiting()
    }

    proof fn lemma_round_trip(&self, rest: Seq<u8>) {
        self.fields().lemma_round_trip(rest);
    }
}

/// What the packet `PlayClientHeldItemChange` holds.
#[derive(Debug, Clone, PartialEq)]
pub struct PlayClientHeldItemChangeSpec {
    pub slot: i16,
}

/// The fields of [`PlayClientHeldItemChangeSpec`] in the order they travel.
pub type PlayClientHeldItemChangeSpecFields = i16;

impl PlayClientHeldItemChangeSpec {
    pub open spec fn fields(&self) -> PlayClientHeldItemChangeSpecFields {
        self.slot
    }
}

impl Serialize for PlayClientHeldItemChangeSpec {
    /// The fields' encodings, one behind the other.
    open spec fn wire(&self) -> Seq<u8> {
        self.fields().wire()
    }

    fn mc_serialize<S: Serializer>(&self, to: &mut S) -> (res: SerializeResult) {
        self.slot.mc_serialize(to)
    }
}

impl Deserialize for PlayClientHeldItemChangeSpec {
    type Model = <PlayClientHeldItemChangeSpecFields as Deserialize>::Model;

    open spec fn model(&self) -> Self::Model {
        self.fields().model()
    }

    /// Each field from what the one before left over.
    open spec fn decoding(data: Seq<u8>) -> Parsed<Self::Model> {
        <PlayClientHeldItemChangeSpecFields>::decoding(data)
    }

    proof fn lemma_remainder(data: Seq<u8>) {
        <PlayClientHeldItemChangeSpecFields>::lemma_remainder(data);
    }

    fn mc_deserialize(data: &[u8]) -> (res: DeserializeResult<'_, Self>) {
        let Deserialized { value: slot, data: rest } =
            <PlayClientHeldItemChangeSpecFields>::mc_deserialize(data)?;
        Deserialized::ok(PlayClientHeldItemChangeSpec { slot }, rest)
    }
}

impl ProtocolType for PlayClientHeldItemChangeSpec {
    open spec fn legal(&self) -> bool {
        self.fields().legal()
    }

    open spec fn self_delimiting() -> bool {
        <PlayClientHeldItemChangeSpecFields>::self_delimiting()
    }

    proof fn lemma_round_trip(&self, rest: Seq<u8>) {
        self.fields().lemma_round_trip(rest);
    }
}

/// What the packet `PlayUpdateCommandBlock` holds.
#[derive(Debug, Clone, PartialEq)]
pub struct PlayUpdateCommandBlockSpec {
    pub location: IntPosition,
    pub command: String,
    pub mode: CommandBlockMode,
    pub flags: CommandBlockFlags,
}

/// The fields of [`PlayUpdateCommandBlockSpec`] in the order they travel.
pub type PlayUpdateCommandBlockSpecFields = (
    IntPosition, String, CommandBlockMode, CommandBlockFlags,
);

impl PlayUpdateCommandBlockSpec {
    pub open spec fn fields(&self) -> PlayUpdateCommandBlockSpecFields {
        (self.location, self.command, self.mode, self.flags)
    }
}

impl Serialize for PlayUpdateCommandBlockSpec {
    /// The fields' encodings, one behind the other.
    open spec fn wire(&self) -> Seq<u8> {
        self.fields().wire()
    }

    fn mc_serialize<S: Serializer>(&self, to: &mut S) -> (res: SerializeResult) {
        let ghost before = to.written();
        self.location.mc_serialize(to)?;
        self.command.mc_serialize(to)?;
        self.mode.mc_serialize(to)?;
        let res = self.flags.mc_serialize(to);
        proof {
            broadcast use lemma_concat_assoc;

            lemma_tuple4_wire(&self.fields());
        }
        res
    }
}

impl Deserialize for PlayUpdateCommandBlockSpec {
    type Model = <PlayUpdateCommandBlockSpecFields as Deserialize>::Model;

    open spec fn model(&self) -> Self::Model {
        self.fields().model()
    }

    /// Each field from what the one before left over.
    open spec fn decoding(data: Seq<u8>) -> Parsed<Self::Model> {
        <PlayUpdateCommandBlockSpecFields>::decoding(data)
    }

    proof fn lemma_remainder(data: Seq<u8>) {
        <PlayUpdateCommandBlockSpecFields>::lemma_remainder(data);
    }

    fn mc_deserialize(data: &[u8]) -> (res: DeserializeResult<'_, Self>) {
        let Deserialized { value, data: rest } =
            <PlayUpdateCommandBlockSpecFields>::mc_deserialize(data)?;
        let (location, command, mode, flags) = value;
        Deserialized::ok(PlayUpdateCommandBlockSpec { location, command, mode, flags }, rest)
    }
}

impl ProtocolType for PlayUpdateCommandBlockSpec {
    open spec fn legal(&self) -> bool {
        self.fields().legal()
    }

    open spec fn self_delimiting() -> bool {
        <PlayUpdateCommandBlockSpecFields>::self_delimiting()
    }

    proof fn lemma_round_trip(&self, rest: Seq<u8>) {
        self.fields().lemma_round_trip(rest);
    }
}

/// What the packet `PlayUpdateCommandBlockMinecart` holds.
#[derive(Debug, Clone, PartialEq)]
pub struct PlayUpdateCommandBlockMinecartSpec {
    pub entity_id: VarInt,
    pub command: String,
    pub track_output: bool,
}

/// The fields of [`PlayUpdateCommandBlockMinecartSpec`] in the order they travel.
pub type PlayUpdateCommandBlockMinecartSpecFields = (VarInt, String, bool);

impl PlayUpdateCommandBlockMinecartSpec {
    pub open spec fn fields(&self) -> PlayUpdateCommandBlockMinecartSpecFields {
        (self.entity_id, self.command, self.track_output)
    }
}

impl Serialize for PlayUpdateCommandBlockMinecartSpec {
    /// The fields' encodings, one behind the other.
    open spec fn wire(&self) -> Seq<u8> {
        self.fields().wire()
    }

    fn mc_serialize<S: Serializer>(&self, to: &mut S) -> (res: SerializeResult) {
        let ghost before = to.written();
        self.entity_id.mc_serialize(to)?;
        self.command.mc_serialize(to)?;
        let res = self.track_output.mc_serialize(to);
        proof {
            broadcast use lemma_concat_assoc;

            lemma_tuple3_wire(&self.fields());
        }
        res
    }
}

impl Deserialize for PlayUpdateCommandBlockMinecartSpec {
    type Model = <PlayUpdateCommandBlockMinecartSpecFields as Deserialize>::Model;

    open spec fn model(&self) -> Self::Model {
        self.fields().model()
    }

    /// Each field from what the one before left over.
    open spec fn decoding(data: Seq<u8>) -> Parsed<Self::Model> {
        <PlayUpdateCommandBlockMinecartSpecFields>::decoding(data)
    }

    proof fn lemma_remainder(data: Seq<u8>) {
        <PlayUpdateCommandBlockMinecartSpecFields>::lemma_remainder(data);
    }

    fn mc_deserialize(data: &[u8]) -> (res: DeserializeResult<'_, Self>) {
        let Deserialized { value, data: rest } =
            <PlayUpdateCommandBlockMinecartSpecFields>::mc_deserialize(data)?;
        let (entity_id, command, track_output) = value;
        Deserialized::ok(PlayUpdateCommandBlockMinecartSpec {
            entity_id, command, track_output,
        }, rest)
    }
}

impl ProtocolType for PlayUpdateCommandBlockMinecartSpec {
    open spec fn legal(&self) -> bool {
        self.fields().legal()
    }

    open spec fn self_delimiting() -> bool {
        <PlayUpdateCommandBlockMinecartSpecFields>::self_delimiting()
    }

    proof fn lemma_round_trip(&self, rest: Seq<u8>) {
        self.fields().lemma_round_trip(rest);
    }
}

/// What the packet `PlayCreativeInventoryAction` holds.
#[derive(Debug, Clone, PartialEq)]
pub struct PlayCreativeInventoryActionSpec {
    pub slot: i16,
    pub clicked_item: Option<Slot>,
}

/// The fields of [`PlayCreativeInventoryActionSpec`] in the order they travel.
pub type PlayCreativeInventoryActionSpecFields = (i16, Option<Slot>);

impl PlayCreativeInventoryActionSpec {
    pub open spec fn fields(&self) -> PlayCreativeInventoryActionSpecFields {
        (self.slot, self.clicked_item)
    }
}

impl Serialize for PlayCreativeInventoryActionSpec {
    /// The fields' encodings, one behind the other.
    open spec fn wire(&self) -> Seq<u8> {
        self.fields().wire()
    }

    fn mc_serialize<S: Serializer>(&self, to: &mut S) -> (res: SerializeResult) {
        let ghost before = to.written();
        self.slot.mc_serialize(to)?;
        let res = self.clicked_item.mc_serialize(to);
        proof {
            broadcast use lemma_concat_assoc;

            lemma_tuple2_wire(&self.fields());
        }
        res
    }
}

impl Deserialize for PlayCreativeInventoryActionSpec {
    type Model = <PlayCreativeInventoryActionSpecFields as Deserialize>::Model;

    open spec fn model(&self) -> Self::Model {
        self.fields().model()
    }

    /// Each field from what the one before left over.
    open spec fn decoding(data: Seq<u8>) -> Parsed<Self::Model> {
        <PlayCreativeInventoryActionSpecFields>::decoding(data)
    }

    proof fn lemma_remainder(data: Seq<u8>) {
        <PlayCreativeInventoryActionSpecFields>::lemma_remainder(data);
    }

    fn mc_deserialize(data: &[u8]) -> (res: DeserializeResult<'_, Self>) {
        let Deserialized { value, data: rest } =
            <PlayCreativeInventoryActionSpecFields>::mc_deserialize(data)?;
        let (slot, clicked_item) = value;
        Deserialized::ok(PlayCreativeInventoryActionSpec { slot, clicked_item }, rest)
    }
}

impl ProtocolType for PlayCreativeInventoryActionSpec {
    open spec fn legal(&self) -> bool {
        self.fields().legal()
    }

    open spec fn self_delimiting() -> bool {
        <PlayCreativeInventoryActionSpecFields>::self_delimiting()
    }

    proof fn lemma_round_trip(&self, rest: Seq<u8>) {
        self.fields().lemma_round_trip(rest);
    }
}

/// What the packet `PlayUpdateJigsawBlock` holds.
#[derive(Debug, Clone, PartialEq)]
pub struct PlayUpdateJigsawBlockSpec {
    pub location: IntPosition,
    pub attachment_type: String,
    pub target_pool: String,
    pub final_state: String,
}

/// The fields of [`PlayUpdateJigsawBlockSpec`] in the order they travel.
pub type PlayUpdateJigsawBlockSpecFields = (IntPosition, String, String, String);

impl PlayUpdateJigsawBlockSpec {
    pub open spec fn fields(&self) -> PlayUpdateJigsawBlockSpecFields {
        (self.location, self.attachment_type, self.target_pool, self.final_state)
    }
}

impl Serialize for PlayUpdateJigsawBlockSpec {
    /// The fields' encodings, one behind the other.
    open spec fn wire(&self) -> Seq<u8> {
        self.fields().wire()
    }

    fn mc_serialize<S: Serializer>(&self, to: &mut S) -> (res: SerializeResult) {
        let ghost before = to.written();
        self.location.mc_serialize(to)?;
        self.attachment_type.mc_serialize(to)?;
        self.target_pool.mc_serialize(to)?;
        let res = self.final_state.mc_serialize(to);
        proof {
            broadcast use lemma_concat_assoc;

            lemma_tuple4_wire(&self.fields());
        }
        res
    }
}

impl Deserialize for PlayUpdateJigsawBlockSpec {
    type Model = <PlayUpdateJigsawBlockSpecFields as Deserialize>::Model;

    open spec fn model(&self) -> Self::Model {
        self.fields().model()
    }

    /// Each field from what the one before left over.
    open spec fn decoding(data: Seq<u8>) -> Parsed<Self::Model> {
        <PlayUpdateJigsawBlockSpecFields>::decoding(data)
    }

    proof fn lemma_remainder(data: Seq<u8>) {
        <PlayUpdateJigsawBlockSpecFields>::lemma_remainder(data);
    }

    fn mc_deserialize(data: &[u8]) -> (res: DeserializeResult<'_, Self>) {
        let Deserialized { value, data: rest } =
            <PlayUpdateJigsawBlockSpecFields>::mc_deserialize(data)?;
        let (location, attachment_type, target_pool, final_state) = value;
        Deserialized::ok(PlayUpdateJigsawBlockSpec {
            location, attachment_type, target_pool, final_state,
        }, rest)
    }
}

impl ProtocolType for PlayUpdateJigsawBlockSpec {
    open spec fn legal(&self) -> bool {
        self.fields().legal()
    }

    open spec fn self_delimiting() -> bool {
        <PlayUpdateJigsawBlockSpecFields>::self_delimiting()
    }

    proof fn lemma_round_trip(&self, rest: Seq<u8>) {
        self.fields().lemma_round_trip(rest);
    }
}

/// What the packet `PlayUpdateStructureBlock` holds.
#[derive(Debug, Clone, PartialEq)]
pub struct PlayUpdateStructureBlockSpec {
    pub location: IntPosition,
    pub action: UpdateStructureBlockAction,
    pub mode: UpdateStructureBlockMode,
    pub name: String,
    pub offset_x: i8,
    pub offset_y: i8,
    pub offset_z: i8,
    pub size_x: i8,
    pub size_y: i8,
    pub size_z: i8,
    pub mirror: UpdateStructureBlockMirror,
    pub rotation: UpdateStructureBlockRotation,
    pub metadata: String,
    pub integrity: Float,
    pub seed: VarLong,
    pub flags: UpdateStructureBlockFlags,
}

/// The fields of [`PlayUpdateStructureBlockSpec`] in the order they travel.
pub type PlayUpdateStructureBlockSpecFields = (
    IntPosition, UpdateStructureBlockAction, UpdateStructureBlockMode, String, i8, i8, i8, i8,
    i8, i8, UpdateStructureBlockMirror, UpdateStructureBlockRotation, String, Float, VarLong,
    UpdateStructureBlockFlags,
);

impl PlayUpdateStructureBlockSpec {
    pub open spec fn fields(&self) -> PlayUpdateStructureBlockSpecFields {
        (
            self.location, self.action, self.mode, self.name, self.offset_x, self.offset_y,
            self.offset_z, self.size_x, self.size_y, self.size_z, self.mirror, self.rotation,
            self.metadata, self.integrity, self.seed, self.flags,
        )
    }
}

impl Serialize for PlayUpdateStructureBlockSpec {
    /// The fields' encodings, one behind the other.
    open spec fn wire(&self) -> Seq<u8> {
        self.fields().wire()
    }

    fn mc_serialize<S: Serializer>(&self, to: &mut S) -> (res: SerializeResult) {
        let ghost before = to.written();
        self.location.mc_serialize(to)?;
        self.action.mc_serialize(to)?;
        self.mode.mc_serialize(to)?;
        self.name.mc_serialize(to)?;
        self.offset_x.mc_serialize(to)?;
        self.offset_y.mc_serialize(to)?;
        self.offset_z.mc_serialize(to)?;
        self.size_x.mc_serialize(to)?;
        self.size_y.mc_serialize(to)?;
        self.size_z.mc_serialize(to)?;
        self.mirror.mc_serialize(to)?;
        self.rotation.mc_serialize(to)?;
        self.metadata.mc_serialize(to)?;
        self.integrity.mc_serialize(to)?;
        self.seed.mc_serialize(to)?;
        let res = self.flags.mc_serialize(to);
        proof {
            broadcast use lemma_concat_assoc;

            lemma_tuple16_wire(&self.fields());
        }
        res
    }
}

impl Deserialize for PlayUpdateStructureBlockSpec {
    type Model = <PlayUpdateStructureBlockSpecFields as Deserialize>::Model;

    open spec fn model(&self) -> Self::Model {
        self.fields().model()
    }

    /// Each field from what the one before left over.
    open spec fn decoding(data: Seq<u8>) -> Parsed<Self::Model> {
        <PlayUpdateStructureBlockSpecFields>::decoding(data)
    }

    proof fn lemma_remainder(data: Seq<u8>) {
        <PlayUpdateStructureBlockSpecFields>::lemma_remainder(data);
    }

    fn mc_deserialize(data: &[u8]) -> (res: DeserializeResult<'_, Self>) {
        let Deserialized { value, data: rest } =
            <PlayUpdateStructureBlockSpecFields>::mc_deserialize(data)?;
        let (
            location, action, mode, name, offset_x, offset_y, offset_z, size_x, size_y, size_z,
            mirror, rotation, metadata, integrity, seed, flags,
        ) = value;
        Deserialized::ok(PlayUpdateStructureBlockSpec {
            location, action, mode, name, offset_x, offset_y, offset_z, size_x, size_y, size_z,
            mirror, rotation, metadata, integrity, seed, flags,
        }, rest)
    }
}

impl ProtocolType for PlayUpdateStructureBlockSpec {
    open spec fn legal(&self) -> bool {
        self.fields().legal()
    }

    open spec fn self_delimiting() -> bool {
        <PlayUpdateStructureBlockSpecFields>::self_delimiting()
    }

    proof fn lemma_round_trip(&self, rest: Seq<u8>) {
        self.fields().lemma_round_trip(rest);
    }
}

/// What the packet `PlayUpdateSign` holds.
#[derive(Debug, Clone, PartialEq)]
pub struct PlayUpdateSignSpec {
    pub location: IntPosition,
    pub line1: String,
    pub line2: String,
    pub line3: String,
    pub line4: String,
}

/// The fields of [`PlayUpdateSignSpec`] in the order they travel.
pub type PlayUpdateSignSpecFields = (IntPosition, String, String, String, String);

impl PlayUpdateSignSpec {
    pub open spec fn fields(&self) -> PlayUpdateSignSpecFields {
        (self.location, self.line1, self.line2, self.line3, self.line4)
    }
}

impl Serialize for PlayUpdateSignSpec {
    /// The fields' encodings, one behind the other.
    open spec fn wire(&self) -> Seq<u8> {
        self.fields().wire()
    }

    fn mc_serialize<S: Serializer>(&self, to: &mut S) -> (res: SerializeResult) {
        let ghost before = to.written();
        self.location.mc_serialize(to)?;
        self.line1.mc_serialize(to)?;
        self.line2.mc_serialize(to)?;
        self.line3.mc_serialize(to)?;
        let res = self.line4.mc_serialize(to);
        proof {
            broadcast use lemma_concat_assoc;

            lemma_tuple5_wire(&self.fields());
        }
        res
    }
}

impl Deserialize for PlayUpdateSignSpec {
    type Model = <PlayUpdateSignSpecFields as Deserialize>::Model;

    open spec fn model(&self) -> Self::Model {
        self.fields().model()
    }

    /// Each field from what the one before left over.
    open spec fn decoding(data: Seq<u8>) -> Parsed<Self::Model> {
        <PlayUpdateSignSpecFields>::decoding(data)
    }

    proof fn lemma_remainder(data: Seq<u8>) {
        <PlayUpdateSignSpecFields>::lemma_remainder(data);
    }

    fn mc_deserialize(data: &[u8]) -> (res: DeserializeResult<'_, Self>) {
        let Deserialized { value, data: rest } = <PlayUpdateSignSpecFields>::mc_deserialize(data)?;
        let (location, line1, line2, line3, line4) = value;
        Deserialized::ok(PlayUpdateSignSpec { location, line1, line2, line3, line4 }, rest)
    }
}

impl ProtocolType for PlayUpdateSignSpec {
    open spec fn legal(&self) -> bool {
        self.fields().legal()
    }

    open spec fn self_delimiting() -> bool {
        <PlayUpdateSignSpecFields>::self_delimiting()
    }

    proof fn lemma_round_trip(&self, rest: Seq<u8>) {
        self.fields().lemma_round_trip(rest);
    }
}

/// What the packet `PlayClientAnimation` holds.
#[derive(Debug, Clone, PartialEq)]
pub struct PlayClientAnimationSpec {
    pub hand: Hand,
}

/// The fields of [`PlayClientAnimationSpec`] in the order they travel.
pub type PlayClientAnimationSpecFields = Hand;

impl PlayClientAnimationSpec {
    pub open spec fn fields(&self) -> PlayClientAnimationSpecFields {
        self.hand
    }
}

impl Serialize for PlayClientAnimationSpec {
    /// The fields' encodings, one behind the other.
    open spec fn wire(&self) -> Seq<u8> {
        self.fields().wire()
    }

    fn mc_serialize<S: Serializer>(&self, to: &mut S) -> (res: SerializeResult) {
        self.hand.mc_serialize(to)
    }
}

impl Deserialize for PlayClientAnimationSpec {
    type Model = <PlayClientAnimationSpecFields as Deserialize>::Model;

    open spec fn model(&self) -> Self::Model {
        self.fields().model()
    }

    /// Each field from what the one before left over.
    open spec fn decoding(data: Seq<u8>) -> Parsed<Self::Model> {
        <PlayClientAnimationSpecFields>::decoding(data)
    }

    proof fn lemma_remainder(data: Seq<u8>) {
        <PlayClientAnimationSpecFields>::lemma_remainder(data);
    }

    fn mc_deserialize(data: &[u8]) -> (res: DeserializeResult<'_, Self>) {
        let Deserialized { value: hand, data: rest } =
            <PlayClientAnimationSpecFields>::mc_deserialize(data)?;
        Deserialized::ok(PlayClientAnimationSpec { hand }, rest)
    }
}

impl ProtocolType for PlayClientAnimationSpec {
    open spec fn legal(&self) -> bool {
        self.fields().legal()
    }

    open spec fn self_delimiting() -> bool {
        <PlayClientAnimationSpecFields>::self_delimiting()
    }

    proof fn lemma_round_trip(&self, rest: Seq<u8>) {
        self.fields().lemma_round_trip(rest);
    }
}

/// What the packet `PlaySpectate` holds.
#[derive(Debug, Clone, PartialEq)]
pub struct PlaySpectateSpec {
    pub target: UUID4,
}

/// The fields of [`PlaySpectateSpec`] in the order they travel.
pub type PlaySpectateSpecFields = UUID4;

impl PlaySpectateSpec {
    pub open spec fn fields(&self) -> PlaySpectateSpecFields {
        self.target
    }
}

impl Serialize for PlaySpectateSpec {
    /// The fields' encodings, one behind the other.
    open spec fn wire(&self) -> Seq<u8> {
        self.fields().wire()
    }

    fn mc_serialize<S: Serializer>(&self, to: &mut S) -> (res: SerializeResult) {
        self.target.mc_serialize(to)
    }
}

impl Deserialize for PlaySpectateSpec {
    type Model = <PlaySpectateSpecFields as Deserialize>::Model;

    open spec fn model(&self) -> Self::Model {
        self.fields().model()
    }

    /// Each field from what the one before left over.
    open spec fn decoding(data: Seq<u8>) -> Parsed<Self::Model> {
        <PlaySpectateSpecFields>::decoding(data)
    }

    proof fn lemma_remainder(data: Seq<u8>) {
        <PlaySpectateSpecFields>::lemma_remainder(data);
    }

    fn mc_deserialize(data: &[u8]) -> (res: DeserializeResult<'_, Self>) {
        let Deserialized { value: target, data: rest } =
            <PlaySpectateSpecFields>::mc_deserialize(data)?;
        Deserialized::ok(PlaySpectateSpec { target }, rest)
    }
}

impl ProtocolType for PlaySpectateSpec {
    open spec fn legal(&self) -> bool {
        self.fields().legal()
    }

    open spec fn self_delimiting() -> bool {
        <PlaySpectateSpecFields>::self_delimiting()
    }

    proof fn lemma_round_trip(&self, rest: Seq<u8>) {
        self.fields().lemma_round_trip(rest);
    }
}

/// What the packet `PlayBlockPlacement` holds.
#[derive(Debug, Clone, PartialEq)]
pub struct PlayBlockPlacementSpec {
    pub hand: Hand,
    pub location: IntPosition,
    pub face: DiggingFace,
    pub cursor_position_x: Float,
    pub cursor_position_y: Float,
    pub cursor_position_z: Float,
    pub inside_block: bool,
}

/// The fields of [`PlayBlockPlacementSpec`] in the order they travel.
pub type PlayBlockPlacementSpecFields = (
    Hand, IntPosition, DiggingFace, Float, Float, Float, bool,
);

impl PlayBlockPlacementSpec {
    pub open spec fn fields(&self) -> PlayBlockPlacementSpecFields {
        (
            self.hand, self.location, self.face, self.cursor_position_x, self.cursor_position_y,
            self.cursor_position_z, self.inside_block,
        )
    }
}

impl Serialize for PlayBlockPlacementSpec {
    /// The fields' encodings, one behind the other.
    open spec fn wire(&self) -> Seq<u8> {
        self.fields().wire()
    }

    fn mc_serialize<S: Serializer>(&self, to: &mut S) -> (res: SerializeResult) {
        let ghost before = to.written();
        self.hand.mc_serialize(to)?;
        self.location.mc_serialize(to)?;
        self.face.mc_serialize(to)?;
        self.cursor_position_x.mc_serialize(to)?;
        self.cursor_position_y.mc_serialize(to)?;
        self.cursor_position_z.mc_serialize(to)?;
        let res = self.inside_block.mc_serialize(to);
        proof {
            broadcast use lemma_concat_assoc;

            lemma_tuple7_wire(&self.fields());
        }
        res
    }
}

impl Deserialize for PlayBlockPlacementSpec {
    type Model = <PlayBlockPlacementSpecFields as Deserialize>::Model;

    open spec fn model(&self) -> Self::Model {
        self.fields().model()
    }

    /// Each field from what the one before left over.
    open spec fn decoding(data: Seq<u8>) -> Parsed<Self::Model> {
        <PlayBlockPlacementSpecFields>::decoding(data)
    }

    proof fn lemma_remainder(data: Seq<u8>) {
        <PlayBlockPlacementSpecFields>::lemma_remainder(data);
    }

    fn mc_deserialize(data: &[u8]) -> (res: DeserializeResult<'_, Self>) {
        let Deserialized { value, data: rest } =
            <PlayBlockPlacementSpecFields>::mc_deserialize(data)?;
        let (
            hand, location, face, cursor_position_x, cursor_position_y, cursor_position_z,
            inside_block,
        ) = value;
        Deserialized::ok(PlayBlockPlacementSpec {
            hand, location, face, cursor_position_x, cursor_position_y, cursor_position_z,
            inside_block,
        }, rest)
    }
}

impl ProtocolType for PlayBlockPlacementSpec {
    open spec fn legal(&self) -> bool {
        self.fields().legal()
    }

    open spec fn self_delimiting() -> bool {
        <PlayBlockPlacementSpecFields>::self_delimiting()
    }

    proof fn lemma_round_trip(&self, rest: Seq<u8>) {
        self.fields().lemma_round_trip(rest);
    }
}

/// What the packet `PlayUseItem` holds.
#[derive(Debug, Clone, PartialEq)]
pub struct PlayUseItemSpec {
    pub hand: Hand,
}

/// The fields of [`PlayUseItemSpec`] in the order they travel.
pub type PlayUseItemSpecFields = Hand;

impl PlayUseItemSpec {
    pub open spec fn fields(&self) -> PlayUseItemSpecFields {
        self.hand
    }
}

impl Serialize for PlayUseItemSpec {
    /// The fields' encodings, one behind the other.
    open spec fn wire(&self) -> Seq<u8> {
        self.fields().wire()
    }

    fn mc_serialize<S: Serializer>(&self, to: &mut S) -> (res: SerializeResult) {
        self.hand.mc_serialize(to)
    }
}

impl Deserialize for PlayUseItemSpec {
    type Model = <PlayUseItemSpecFields as Deserialize>::Model;

    open spec fn model(&self) -> Self::Model {
        self.fields().model()
    }

    /// Each field from what the one before left over.
    open spec fn decoding(data: Seq<u8>) -> Parsed<Self::Model> {
        <PlayUseItemSpecFields>::decoding(data)
    }

    proof fn lemma_remainder(data: Seq<u8>) {
        <PlayUseItemSpecFields>::lemma_remainder(data);
    }

    fn mc_deserialize(data: &[u8]) -> (res: DeserializeResult<'_, Self>) {
        let Deserialized { value: hand, data: rest } =
            <PlayUseItemSpecFields>::mc_deserialize(data)?;
        Deserialized::ok(PlayUseItemSpec { hand }, rest)
    }
}

impl ProtocolType for PlayUseItemSpec {
    open spec fn legal(&self) -> bool {
        self.fields().legal()
    }

    open spec fn self_delimiting() -> bool {
        <PlayUseItemSpecFields>::self_delimiting()
    }

    proof fn lemma_round_trip(&self, rest: Seq<u8>) {
        self.fields().lemma_round_trip(rest);
    }
}

} // verus!
