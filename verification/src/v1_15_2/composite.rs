use crate::deserialize::{Deserialize, DeserializeErr, DeserializeResult, Deserialized, Fault};
use crate::protocol::ProtocolType;
use crate::serialize::{Serialize, SerializeResult, Serializer};
use crate::tag_tree::{NamedNbtTag, Slot};
use crate::tuples::{lemma_tuple2_wire, lemma_tuple3_wire, lemma_tuple5_wire, tuple2_decoding};
use crate::types::{
    i32_bits, i32_to_bits, lemma_text_round_trip, length_prefix, length_prefix_of, text_wire,
    JsonText, VarInt,
};
use crate::utils::{
    cannot_understand, debug_string, debug_text, decimal_string, decimal_text, hex_string,
    hex_text, str_eq,
};
use crate::uuid::UUID4;
use crate::v1_15_2::bodies::{
    BossBarAddSpec, BossBarUpdateFlagsSpec, BossBarUpdateHealthSpec, BossBarUpdateStyleSpec,
    BossBarUpdateTitleSpec, CombatEndSpec, CombatEntityDeadSpec, InteractAtSpec, MapColumnsSpec,
    PlayerAddActionSpec, RecipeCraftingShapelessSpec, RecipeIngredient, RecipeSmeltingSpec,
    RecipeStonecuttingSpec, ScoreboardObjectiveSpec, WorldBorderInitiaializeSpec,
    WorldBorderLerpSizeSpec, WorldBorderSetCenterSpec, WorldBorderSetSizeSpec,
    WorldBorderWarningBlocksSpec, WorldBorderWarningTimeSpec,
};
use crate::v1_15_2::values::GameMode;
use crate::v1_15_2::{
    all_legal, decoding_many, deserialize_many, deserialize_vec_directly, lemma_many_remainder,
    lemma_many_round_trip, models_of, serialize_vec_directly, wire_many, VarIntCountedArray,
};
use crate::wire::{lemma_concat_assoc, lemma_suffix_refl, lemma_suffix_trans, Parsed};
use vstd::array::ArrayAdditionalExecFns;
use vstd::prelude::*;
use vstd::utf8::{encode_utf8, is_ascii_chars_encode_utf8};

verus! {

/// A number that announces a form, and the form: both read back, the number
/// first.
pub proof fn lemma_tagged_round_trip<T: ProtocolType, B: ProtocolType>(
    tag: T,
    body: B,
    rest: Seq<u8>,
)
    requires
        tag.legal(),
        T::self_delimiting(),
        body.legal(),
        B::self_delimiting() || rest.len() == 0,
    ensures
        T::decoding((tag.wire() + body.wire()) + rest) == Ok::<(T::Model, Seq<u8>), Fault>(
            (tag.model(), body.wire() + rest),
        ),
        B::decoding(body.wire() + rest) == Ok::<(B::Model, Seq<u8>), Fault>((body.model(), rest)),
{
    tag.lemma_round_trip(body.wire() + rest);
    body.lemma_round_trip(rest);
    lemma_concat_assoc(tag.wire(), body.wire(), rest);
}

/// A block's place within its column of a chunk: two numbers below sixteen in
/// one byte, `rel_x` in the high half.
#[derive(Copy, Clone, PartialEq, Eq, Debug)]
pub struct BlockChangeHorizontalPosition {
    pub rel_x: u8,
    pub rel_y: u8,
}

impl Serialize for BlockChangeHorizontalPosition {
    /// Each number cut down to four bits.
    open spec fn wire(&self) -> Seq<u8> {
        seq![((self.rel_x % 16) * 16 + self.rel_y % 16) as u8]
    }

    fn mc_serialize<S: Serializer>(&self, to: &mut S) -> (res: SerializeResult) {
        to.serialize_byte((self.rel_x % 16) * 16 + self.rel_y % 16)
    }
}

impl Deserialize for BlockChangeHorizontalPosition {
    type Model = BlockChangeHorizontalPosition;

    open spec fn model(&self) -> BlockChangeHorizontalPosition {
        *self
    }

    open spec fn decoding(data: Seq<u8>) -> Parsed<BlockChangeHorizontalPosition> {
        match u8::decoding(data) {
            Err(e) => Err(e),
            Ok((b, rest)) => Ok(
                (BlockChangeHorizontalPosition { rel_x: b / 16, rel_y: b % 16 }, rest),
            ),
        }
    }

    proof fn lemma_remainder(data: Seq<u8>) {
        u8::lemma_remainder(data);
    }

    fn mc_deserialize(data: &[u8]) -> (res: DeserializeResult<'_, Self>) {
        let Deserialized { value: b, data: rest } = u8::mc_deserialize(data)?;
        Deserialized::ok(BlockChangeHorizontalPosition { rel_x: b / 16, rel_y: b % 16 }, rest)
    }
}

impl ProtocolType for BlockChangeHorizontalPosition {
    open spec fn legal(&self) -> bool {
        self.rel_x < 16 && self.rel_y < 16
    }

    open spec fn self_delimiting() -> bool {
        true
    }

    proof fn lemma_round_trip(&self, rest: Seq<u8>) {
        let b = ((self.rel_x % 16) * 16 + self.rel_y % 16) as u8;
        b.lemma_round_trip(rest);
    }
}

/// The part of a map that changed, if any did.
#[derive(Clone, PartialEq, Debug)]
pub enum MapColumns {
    NoUpdates,
    Updated(MapColumnsSpec),
}

impl Serialize for MapColumns {
    /// A single zero where nothing changed; else the changed part, whose own
    /// first byte is its number of columns.
    open spec fn wire(&self) -> Seq<u8> {
        match self {
            MapColumns::NoUpdates => 0u8.wire(),
            MapColumns::Updated(body) => body.wire(),
        }
    }

    fn mc_serialize<S: Serializer>(&self, to: &mut S) -> (res: SerializeResult) {
        match self {
            MapColumns::NoUpdates => 0u8.mc_serialize(to),
            MapColumns::Updated(body) => body.mc_serialize(to),
        }
    }
}

impl Deserialize for MapColumns {
    type Model = Option<<MapColumnsSpec as Deserialize>::Model>;

    open spec fn model(&self) -> Self::Model {
        match self {
            MapColumns::NoUpdates => None,
            MapColumns::Updated(body) => Some(body.model()),
        }
    }

    /// The first byte decides: zero columns is no update and ends there,
    /// anything else is the start of a changed part.
    open spec fn decoding(data: Seq<u8>) -> Parsed<Self::Model> {
        match u8::decoding(data) {
            Err(e) => Err(e),
            Ok((columns, rest)) => if columns == 0 {
                Ok((None, rest))
            } else {
                match MapColumnsSpec::decoding(data) {
                    Err(e) => Err(e),
                    Ok((body, rest)) => Ok((Some(body), rest)),
                }
            },
        }
    }

    proof fn lemma_remainder(data: Seq<u8>) {
        u8::lemma_remainder(data);
        MapColumnsSpec::lemma_remainder(data);
    }

    fn mc_deserialize(data: &[u8]) -> (res: DeserializeResult<'_, Self>) {
        let Deserialized { value: columns, data: rest } = u8::mc_deserialize(data)?;
        match columns {
            0x00 => Deserialized::ok(MapColumns::NoUpdates, rest),
            _ => {
                let Deserialized { value: body, data: rest } = MapColumnsSpec::mc_deserialize(
                    data,
                )?;
                Deserialized::ok(MapColumns::Updated(body), rest)
            },
        }
    }
}

impl ProtocolType for MapColumns {
    /// A changed part with no columns would read back as no update.
    open spec fn legal(&self) -> bool {
        match self {
            MapColumns::NoUpdates => true,
            MapColumns::Updated(body) => body.legal() && body.columns != 0,
        }
    }

    open spec fn self_delimiting() -> bool {
        MapColumnsSpec::self_delimiting()
    }

    proof fn lemma_round_trip(&self, rest: Seq<u8>) {
        match self {
            MapColumns::NoUpdates => {
                0u8.lemma_round_trip(rest);
            },
            MapColumns::Updated(body) => {
                body.lemma_round_trip(rest);
                lemma_first_byte_of_columns(*body, rest);
            },
        }
    }
}

/// What a changed part of a map is written as begins with its number of
/// columns.
pub proof fn lemma_first_byte_of_columns(body: MapColumnsSpec, rest: Seq<u8>)
    ensures
        (body.wire() + rest).len() > 0,
        (body.wire() + rest)[0] == body.columns,
{
    lemma_tuple5_wire(&body.fields());
}

impl From<Option<MapColumnsSpec>> for MapColumns {
    fn from(other: Option<MapColumnsSpec>) -> (res: Self) {
        match other {
            Some(body) => MapColumns::Updated(body),
            None => MapColumns::NoUpdates,
        }
    }
}

impl vstd::std_specs::convert::FromSpecImpl<Option<MapColumnsSpec>> for MapColumns {
    open spec fn obeys_from_spec() -> bool {
        true
    }

    open spec fn from_spec(other: Option<MapColumnsSpec>) -> Self {
        match other {
            Some(body) => MapColumns::Updated(body),
            None => MapColumns::NoUpdates,
        }
    }
}

impl From<MapColumns> for Option<MapColumnsSpec> {
    fn from(other: MapColumns) -> (res: Self) {
        match other {
            MapColumns::NoUpdates => None,
            MapColumns::Updated(body) => Some(body),
        }
    }
}

impl vstd::std_specs::convert::FromSpecImpl<MapColumns> for Option<MapColumnsSpec> {
    open spec fn obeys_from_spec() -> bool {
        true
    }

    open spec fn from_spec(other: MapColumns) -> Self {
        match other {
            MapColumns::NoUpdates => None,
            MapColumns::Updated(body) => Some(body),
        }
    }
}

/// Where on the screen a scoreboard is shown.
#[derive(Clone, Copy, PartialEq, Debug, Eq)]
pub enum ScoreboardPosition {
    List,
    Sidebar,
    BelowName,
    /// The sidebar of one team; teams are numbered from 0 to 9.
    TeamSpecific(i8),
}

impl ScoreboardPosition {
    /// The number the position travels as. A team number too large to add 3 to
    /// wraps round.
    pub open spec fn spec_id(&self) -> i8 {
        match self {
            ScoreboardPosition::List => 0x00,
            ScoreboardPosition::Sidebar => 0x01,
            ScoreboardPosition::BelowName => 0x02,
            ScoreboardPosition::TeamSpecific(team_id) => if *team_id + 3 > i8::MAX {
                (*team_id + 3 - 0x100) as i8
            } else {
                (*team_id + 3) as i8
            },
        }
    }

    pub fn id(&self) -> (res: i8)
        ensures
            res == self.spec_id(),
    {
        match self {
            ScoreboardPosition::List => 0x00,
            ScoreboardPosition::Sidebar => 0x01,
            ScoreboardPosition::BelowName => 0x02,
            ScoreboardPosition::TeamSpecific(team_id) => {
                let wide: i16 = *team_id as i16 + 3;
                if wide > i8::MAX as i16 {
                    (wide - 0x100) as i8
                } else {
                    wide as i8
                }
            },
        }
    }
}

impl Serialize for ScoreboardPosition {
    open spec fn wire(&self) -> Seq<u8> {
        self.spec_id().wire()
    }

    fn mc_serialize<S: Serializer>(&self, to: &mut S) -> (res: SerializeResult) {
        self.id().mc_serialize(to)
    }
}

impl Deserialize for ScoreboardPosition {
    type Model = ScoreboardPosition;

    open spec fn model(&self) -> ScoreboardPosition {
        *self
    }

    /// 0, 1 and 2 are the fixed places; 3 to 12 are the ten teams.
    open spec fn decoding(data: Seq<u8>) -> Parsed<ScoreboardPosition> {
        match i8::decoding(data) {
            Err(e) => Err(e),
            Ok((id, rest)) => if id == 0 {
                Ok((ScoreboardPosition::List, rest))
            } else if id == 1 {
                Ok((ScoreboardPosition::Sidebar, rest))
            } else if id == 2 {
                Ok((ScoreboardPosition::BelowName, rest))
            } else if 3 <= id <= 12 {
                Ok((ScoreboardPosition::TeamSpecific((id - 3) as i8), rest))
            } else {
                Err(
                    Fault::CannotUnderstandValue(
                        "invalid scoreboard position id "@ + decimal_text(id as int),
                    ),
                )
            },
        }
    }

    proof fn lemma_remainder(data: Seq<u8>) {
        i8::lemma_remainder(data);
    }

    fn mc_deserialize(data: &[u8]) -> (res: DeserializeResult<'_, Self>) {
        let Deserialized { value: id, data: rest } = i8::mc_deserialize(data)?;
        match id {
            0x00 => Deserialized::ok(ScoreboardPosition::List, rest),
            0x01 => Deserialized::ok(ScoreboardPosition::Sidebar, rest),
            0x02 => Deserialized::ok(ScoreboardPosition::BelowName, rest),
            other => {
                if other >= 3 && other <= 12 {
                    Deserialized::ok(ScoreboardPosition::TeamSpecific(other - 0x03), rest)
                } else {
                    Err(
                        cannot_understand(
                            "invalid scoreboard position id ",
                            decimal_string(id as i64).as_str(),
                        ),
                    )
                }
            },
        }
    }
}

impl ProtocolType for ScoreboardPosition {
    open spec fn legal(&self) -> bool {
        match self {
            ScoreboardPosition::TeamSpecific(team_id) => 0 <= *team_id <= 9,
            _ => true,
        }
    }

    open spec fn self_delimiting() -> bool {
        true
    }

    proof fn lemma_round_trip(&self, rest: Seq<u8>) {
        self.spec_id().lemma_round_trip(rest);
    }
}

/// One player, and what is said of that player.
#[derive(Clone, PartialEq, Debug)]
pub struct PlayerInfoAction<A> {
    pub uuid: UUID4,
    pub action: A,
}

impl<A> Serialize for PlayerInfoAction<A> where A: Serialize {
    open spec fn wire(&self) -> Seq<u8> {
        self.uuid.wire() + self.action.wire()
    }

    fn mc_serialize<S: Serializer>(&self, to: &mut S) -> (res: SerializeResult) {
        let ghost before = to.written();
        self.uuid.mc_serialize(to)?;
        let res = self.action.mc_serialize(to);
        proof {
            broadcast use lemma_concat_assoc;

        }
        res
    }
}

impl<A> Deserialize for PlayerInfoAction<A> where A: Deserialize {
    type Model = (u128, A::Model);

    open spec fn model(&self) -> (u128, A::Model) {
        (self.uuid.model(), self.action.model())
    }

    open spec fn decoding(data: Seq<u8>) -> Parsed<(u128, A::Model)> {
        <(UUID4, A)>::decoding(data)
    }

    proof fn lemma_remainder(data: Seq<u8>) {
        <(UUID4, A)>::lemma_remainder(data);
    }

    fn mc_deserialize(data: &[u8]) -> (res: DeserializeResult<'_, Self>) {
        let Deserialized { value: fields, data: rest } = <(UUID4, A)>::mc_deserialize(data)?;
        let (uuid, action) = fields;
        Deserialized::ok(Self { uuid, action }, rest)
    }
}

impl<A: ProtocolType> ProtocolType for PlayerInfoAction<A> {
    open spec fn legal(&self) -> bool {
        self.action.legal()
    }

    open spec fn self_delimiting() -> bool {
        A::self_delimiting()
    }

    proof fn lemma_round_trip(&self, rest: Seq<u8>) {
        let fields = (self.uuid, self.action);
        lemma_tuple2_wire(&fields);
        fields.lemma_round_trip(rest);
    }
}

/// What is to be done to a boss bar.
#[derive(Debug, Clone, PartialEq)]
pub enum BossBarAction {
    Add(BossBarAddSpec),
    Remove,
    UpdateHealth(BossBarUpdateHealthSpec),
    UpdateTitle(BossBarUpdateTitleSpec),
    UpdateStyle(BossBarUpdateStyleSpec),
    UpdateFlags(BossBarUpdateFlagsSpec),
}

/// [`BossBarAction`] as mathematics sees it.
pub enum BossBarActionModel {
    Add(<BossBarAddSpec as Deserialize>::Model),
    Remove,
    UpdateHealth(<BossBarUpdateHealthSpec as Deserialize>::Model),
    UpdateTitle(<BossBarUpdateTitleSpec as Deserialize>::Model),
    UpdateStyle(<BossBarUpdateStyleSpec as Deserialize>::Model),
    UpdateFlags(<BossBarUpdateFlagsSpec as Deserialize>::Model),
}

impl BossBarAction {
    /// The number that says which form follows.
    pub open spec fn spec_id(&self) -> VarInt {
        match self {
            BossBarAction::Add(_) => VarInt(0x00),
            BossBarAction::Remove => VarInt(0x01),
            BossBarAction::UpdateHealth(_) => VarInt(0x02),
            BossBarAction::UpdateTitle(_) => VarInt(0x03),
            BossBarAction::UpdateStyle(_) => VarInt(0x04),
            BossBarAction::UpdateFlags(_) => VarInt(0x05),
        }
    }

    pub fn id(&self) -> (res: VarInt)
        ensures
            res == self.spec_id(),
    {
        match self {
            BossBarAction::Add(_) => VarInt(0x00),
            BossBarAction::Remove => VarInt(0x01),
            BossBarAction::UpdateHealth(_) => VarInt(0x02),
            BossBarAction::UpdateTitle(_) => VarInt(0x03),
            BossBarAction::UpdateStyle(_) => VarInt(0x04),
            BossBarAction::UpdateFlags(_) => VarInt(0x05),
        }
    }
}

impl Serialize for BossBarAction {
    /// The number, then the form it announces.
    open spec fn wire(&self) -> Seq<u8> {
        match self {
            BossBarAction::Add(body) => self.spec_id().wire() + body.wire(),
            BossBarAction::Remove => self.spec_id().wire(),
            BossBarAction::UpdateHealth(body) => self.spec_id().wire() + body.wire(),
            BossBarAction::UpdateTitle(body) => self.spec_id().wire() + body.wire(),
            BossBarAction::UpdateStyle(body) => self.spec_id().wire() + body.wire(),
            BossBarAction::UpdateFlags(body) => self.spec_id().wire() + body.wire(),
        }
    }

    fn mc_serialize<S: Serializer>(&self, to: &mut S) -> (res: SerializeResult) {
        self.id().mc_serialize(to)?;
        let res = match self {
            BossBarAction::Add(body) => body.mc_serialize(to),
            BossBarAction::Remove => Ok(()),
            BossBarAction::UpdateHealth(body) => body.mc_serialize(to),
            BossBarAction::UpdateTitle(body) => body.mc_serialize(to),
            BossBarAction::UpdateStyle(body) => body.mc_serialize(to),
            BossBarAction::UpdateFlags(body) => body.mc_serialize(to),
        };
        proof {
            broadcast use lemma_concat_assoc;

        }
        res
    }
}

impl Deserialize for BossBarAction {
    type Model = BossBarActionModel;

    open spec fn model(&self) -> BossBarActionModel {
        match self {
            BossBarAction::Add(body) => BossBarActionModel::Add(body.model()),
            BossBarAction::Remove => BossBarActionModel::Remove,
            BossBarAction::UpdateHealth(body) => BossBarActionModel::UpdateHealth(body.model()),
            BossBarAction::UpdateTitle(body) => BossBarActionModel::UpdateTitle(body.model()),
            BossBarAction::UpdateStyle(body) => BossBarActionModel::UpdateStyle(body.model()),
            BossBarAction::UpdateFlags(body) => BossBarActionModel::UpdateFlags(body.model()),
        }
    }

    /// A number that announces no form is an error that says so.
    open spec fn decoding(data: Seq<u8>) -> Parsed<BossBarActionModel> {
        match VarInt::decoding(data) {
            Err(e) => Err(e),
            Ok((id, rest)) => if id.0 == 0x00 {
                match <BossBarAddSpec>::decoding(rest) {
                    Err(e) => Err(e),
                    Ok((body, rest)) => Ok((BossBarActionModel::Add(body), rest)),
                }
            } else if id.0 == 0x01 {
                Ok((BossBarActionModel::Remove, rest))
            } else if id.0 == 0x02 {
                match <BossBarUpdateHealthSpec>::decoding(rest) {
                    Err(e) => Err(e),
                    Ok((body, rest)) => Ok((BossBarActionModel::UpdateHealth(body), rest)),
                }
            } else if id.0 == 0x03 {
                match <BossBarUpdateTitleSpec>::decoding(rest) {
                    Err(e) => Err(e),
                    Ok((body, rest)) => Ok((BossBarActionModel::UpdateTitle(body), rest)),
                }
            } else if id.0 == 0x04 {
                match <BossBarUpdateStyleSpec>::decoding(rest) {
                    Err(e) => Err(e),
                    Ok((body, rest)) => Ok((BossBarActionModel::UpdateStyle(body), rest)),
                }
            } else if id.0 == 0x05 {
                match <BossBarUpdateFlagsSpec>::decoding(rest) {
                    Err(e) => Err(e),
                    Ok((body, rest)) => Ok((BossBarActionModel::UpdateFlags(body), rest)),
                }
            } else {
                Err(
                    Fault::CannotUnderstandValue(
                        "invalid boss bar action id "@ + hex_text(i32_bits(id.0) as nat),
                    ),
                )
            },
        }
    }

    proof fn lemma_remainder(data: Seq<u8>) {
        VarInt::lemma_remainder(data);
        match VarInt::decoding(data) {
            Ok((id, rest)) => {
                <BossBarAddSpec>::lemma_remainder(rest);
                match <BossBarAddSpec>::decoding(rest) {
                    Ok((_, rest2)) => {
                        lemma_suffix_trans(rest2, rest, data);
                    },
                    Err(_) => {},
                }
                <BossBarUpdateHealthSpec>::lemma_remainder(rest);
                match <BossBarUpdateHealthSpec>::decoding(rest) {
                    Ok((_, rest2)) => {
                        lemma_suffix_trans(rest2, rest, data);
                    },
                    Err(_) => {},
                }
                <BossBarUpdateTitleSpec>::lemma_remainder(rest);
                match <BossBarUpdateTitleSpec>::decoding(rest) {
                    Ok((_, rest2)) => {
                        lemma_suffix_trans(rest2, rest, data);
                    },
                    Err(_) => {},
                }
                <BossBarUpdateStyleSpec>::lemma_remainder(rest);
                match <BossBarUpdateStyleSpec>::decoding(rest) {
                    Ok((_, rest2)) => {
                        lemma_suffix_trans(rest2, rest, data);
                    },
                    Err(_) => {},
                }
                <BossBarUpdateFlagsSpec>::lemma_remainder(rest);
                match <BossBarUpdateFlagsSpec>::decoding(rest) {
                    Ok((_, rest2)) => {
                        lemma_suffix_trans(rest2, rest, data);
                    },
                    Err(_) => {},
                }
            },
            Err(_) => {},
        }
    }

    fn mc_deserialize(data: &[u8]) -> (res: DeserializeResult<'_, Self>) {
        let Deserialized { value: id, data: rest } = VarInt::mc_deserialize(data)?;
        match id.0 {
            0x00 => {
                let Deserialized { value: body, data: rest } =
                    <BossBarAddSpec>::mc_deserialize(rest)?;
                Deserialized::ok(BossBarAction::Add(body), rest)
            },
            0x01 => Deserialized::ok(BossBarAction::Remove, rest),
            0x02 => {
                let Deserialized { value: body, data: rest } =
                    <BossBarUpdateHealthSpec>::mc_deserialize(rest)?;
                Deserialized::ok(BossBarAction::UpdateHealth(body), rest)
            },
            0x03 => {
                let Deserialized { value: body, data: rest } =
                    <BossBarUpdateTitleSpec>::mc_deserialize(rest)?;
                Deserialized::ok(BossBarAction::UpdateTitle(body), rest)
            },
            0x04 => {
                let Deserialized { value: body, data: rest } =
                    <BossBarUpdateStyleSpec>::mc_deserialize(rest)?;
                Deserialized::ok(BossBarAction::UpdateStyle(body), rest)
            },
            0x05 => {
                let Deserialized { value: body, data: rest } =
                    <BossBarUpdateFlagsSpec>::mc_deserialize(rest)?;
                Deserialized::ok(BossBarAction::UpdateFlags(body), rest)
            },
            _ => Err(
                cannot_understand(
                    "invalid boss bar action id ",
                    hex_string(i32_to_bits(id.0)).as_str(),
                ),
            ),
        }
    }
}

impl ProtocolType for BossBarAction {
    open spec fn legal(&self) -> bool {
        match self {
            BossBarAction::Add(body) => body.legal(),
            BossBarAction::Remove => true,
            BossBarAction::UpdateHealth(body) => body.legal(),
            BossBarAction::UpdateTitle(body) => body.legal(),
            BossBarAction::UpdateStyle(body) => body.legal(),
            BossBarAction::UpdateFlags(body) => body.legal(),
        }
    }

    open spec fn self_delimiting() -> bool {
        &&& <BossBarAddSpec>::self_delimiting()
        &&& <BossBarUpdateHealthSpec>::self_delimiting()
        &&& <BossBarUpdateTitleSpec>::self_delimiting()
        &&& <BossBarUpdateStyleSpec>::self_delimiting()
        &&& <BossBarUpdateFlagsSpec>::self_delimiting()
    }

    proof fn lemma_round_trip(&self, rest: Seq<u8>) {
        match self {
            BossBarAction::Add(body) => {
                lemma_tagged_round_trip(self.spec_id(), *body, rest);
            },
            BossBarAction::Remove => {
                self.spec_id().lemma_round_trip(rest);
            },
            BossBarAction::UpdateHealth(body) => {
                lemma_tagged_round_trip(self.spec_id(), *body, rest);
            },
            BossBarAction::UpdateTitle(body) => {
                lemma_tagged_round_trip(self.spec_id(), *body, rest);
            },
            BossBarAction::UpdateStyle(body) => {
                lemma_tagged_round_trip(self.spec_id(), *body, rest);
            },
            BossBarAction::UpdateFlags(body) => {
                lemma_tagged_round_trip(self.spec_id(), *body, rest);
            },
        }
    }
}

/// A turn in a fight.
#[derive(Debug, Clone, PartialEq)]
pub enum CombatEvent {
    Enter,
    End(CombatEndSpec),
    EntityDead(CombatEntityDeadSpec),
}

/// [`CombatEvent`] as mathematics sees it.
pub enum CombatEventModel {
    Enter,
    End(<CombatEndSpec as Deserialize>::Model),
    EntityDead(<CombatEntityDeadSpec as Deserialize>::Model),
}

impl CombatEvent {
    /// The number that says which form follows.
    pub open spec fn spec_id(&self) -> VarInt {
        match self {
            CombatEvent::Enter => VarInt(0x00),
            CombatEvent::End(_) => VarInt(0x01),
            CombatEvent::EntityDead(_) => VarInt(0x02),
        }
    }

    pub fn id(&self) -> (res: VarInt)
        ensures
            res == self.spec_id(),
    {
        match self {
            CombatEvent::Enter => VarInt(0x00),
            CombatEvent::End(_) => VarInt(0x01),
            CombatEvent::EntityDead(_) => VarInt(0x02),
        }
    }
}

impl Serialize for CombatEvent {
    /// The number, then the form it announces.
    open spec fn wire(&self) -> Seq<u8> {
        match self {
            CombatEvent::Enter => self.spec_id().wire(),
            CombatEvent::End(body) => self.spec_id().wire() + body.wire(),
            CombatEvent::EntityDead(body) => self.spec_id().wire() + body.wire(),
        }
    }

    fn mc_serialize<S: Serializer>(&self, to: &mut S) -> (res: SerializeResult) {
        self.id().mc_serialize(to)?;
        let res = match self {
            CombatEvent::Enter => Ok(()),
            CombatEvent::End(body) => body.mc_serialize(to),
            CombatEvent::EntityDead(body) => body.mc_serialize(to),
        };
        proof {
            broadcast use lemma_concat_assoc;

        }
        res
    }
}

impl Deserialize for CombatEvent {
    type Model = CombatEventModel;

    open spec fn model(&self) -> CombatEventModel {
        match self {
            CombatEvent::Enter => CombatEventModel::Enter,
            CombatEvent::End(body) => CombatEventModel::End(body.model()),
            CombatEvent::EntityDead(body) => CombatEventModel::EntityDead(body.model()),
        }
    }

    /// A number that announces no form is an error that says so.
    open spec fn decoding(data: Seq<u8>) -> Parsed<CombatEventModel> {
        match VarInt::decoding(data) {
            Err(e) => Err(e),
            Ok((id, rest)) => if id.0 == 0x00 {
                Ok((CombatEventModel::Enter, rest))
            } else if id.0 == 0x01 {
                match <CombatEndSpec>::decoding(rest) {
                    Err(e) => Err(e),
                    Ok((body, rest)) => Ok((CombatEventModel::End(body), rest)),
                }
            } else if id.0 == 0x02 {
                match <CombatEntityDeadSpec>::decoding(rest) {
                    Err(e) => Err(e),
                    Ok((body, rest)) => Ok((CombatEventModel::EntityDead(body), rest)),
                }
            } else {
                Err(
                    Fault::CannotUnderstandValue(
                        "invalid combat event id "@ + decimal_text(id.0 as int),
                    ),
                )
            },
        }
    }

    proof fn lemma_remainder(data: Seq<u8>) {
        VarInt::lemma_remainder(data);
        match VarInt::decoding(data) {
            Ok((id, rest)) => {
                <CombatEndSpec>::lemma_remainder(rest);
                match <CombatEndSpec>::decoding(rest) {
                    Ok((_, rest2)) => {
                        lemma_suffix_trans(rest2, rest, data);
                    },
                    Err(_) => {},
                }
                <CombatEntityDeadSpec>::lemma_remainder(rest);
                match <CombatEntityDeadSpec>::decoding(rest) {
                    Ok((_, rest2)) => {
                        lemma_suffix_trans(rest2, rest, data);
                    },
                    Err(_) => {},
                }
            },
            Err(_) => {},
        }
    }

    fn mc_deserialize(data: &[u8]) -> (res: DeserializeResult<'_, Self>) {
        let Deserialized { value: id, data: rest } = VarInt::mc_deserialize(data)?;
        match id.0 {
            0x00 => Deserialized::ok(CombatEvent::Enter, rest),
            0x01 => {
                let Deserialized { value: body, data: rest } =
                    <CombatEndSpec>::mc_deserialize(rest)?;
                Deserialized::ok(CombatEvent::End(body), rest)
            },
            0x02 => {
                let Deserialized { value: body, data: rest } =
                    <CombatEntityDeadSpec>::mc_deserialize(rest)?;
                Deserialized::ok(CombatEvent::EntityDead(body), rest)
            },
            _ => Err(
                cannot_understand("invalid combat event id ", decimal_string(id.0 as i64).as_str()),
            ),
        }
    }
}

impl ProtocolType for CombatEvent {
    open spec fn legal(&self) -> bool {
        match self {
            CombatEvent::Enter => true,
            CombatEvent::End(body) => body.legal(),
            CombatEvent::EntityDead(body) => body.legal(),
        }
    }

    open spec fn self_delimiting() -> bool {
        &&& <CombatEndSpec>::self_delimiting()
        &&& <CombatEntityDeadSpec>::self_delimiting()
    }

    proof fn lemma_round_trip(&self, rest: Seq<u8>) {
        match self {
            CombatEvent::Enter => {
                self.spec_id().lemma_round_trip(rest);
            },
            CombatEvent::End(body) => {
                lemma_tagged_round_trip(self.spec_id(), *body, rest);
            },
            CombatEvent::EntityDead(body) => {
                lemma_tagged_round_trip(self.spec_id(), *body, rest);
            },
        }
    }
}

/// A change to the border of the world.
#[derive(Debug, Clone, PartialEq)]
pub enum WorldBorderAction {
    SetSize(WorldBorderSetSizeSpec),
    LerpSize(WorldBorderLerpSizeSpec),
    SetCenter(WorldBorderSetCenterSpec),
    Initialize(WorldBorderInitiaializeSpec),
    SetWarningTime(WorldBorderWarningTimeSpec),
    SetWarningBlocks(WorldBorderWarningBlocksSpec),
}

/// [`WorldBorderAction`] as mathematics sees it.
pub enum WorldBorderActionModel {
    SetSize(<WorldBorderSetSizeSpec as Deserialize>::Model),
    LerpSize(<WorldBorderLerpSizeSpec as Deserialize>::Model),
    SetCenter(<WorldBorderSetCenterSpec as Deserialize>::Model),
    Initialize(<WorldBorderInitiaializeSpec as Deserialize>::Model),
    SetWarningTime(<WorldBorderWarningTimeSpec as Deserialize>::Model),
    SetWarningBlocks(<WorldBorderWarningBlocksSpec as Deserialize>::Model),
}

impl WorldBorderAction {
    /// The number that says which form follows.
    pub open spec fn spec_id(&self) -> VarInt {
        match self {
            WorldBorderAction::SetSize(_) => VarInt(0x00),
            WorldBorderAction::LerpSize(_) => VarInt(0x01),
            WorldBorderAction::SetCenter(_) => VarInt(0x02),
            WorldBorderAction::Initialize(_) => VarInt(0x03),
            WorldBorderAction::SetWarningTime(_) => VarInt(0x04),
            WorldBorderAction::SetWarningBlocks(_) => VarInt(0x05),
        }
    }

    pub fn id(&self) -> (res: VarInt)
        ensures
            res == self.spec_id(),
    {
        match self {
            WorldBorderAction::SetSize(_) => VarInt(0x00),
            WorldBorderAction::LerpSize(_) => VarInt(0x01),
            WorldBorderAction::SetCenter(_) => VarInt(0x02),
            WorldBorderAction::Initialize(_) => VarInt(0x03),
            WorldBorderAction::SetWarningTime(_) => VarInt(0x04),
            WorldBorderAction::SetWarningBlocks(_) => VarInt(0x05),
        }
    }
}

impl Serialize for WorldBorderAction {
    /// The number, then the form it announces.
    open spec fn wire(&self) -> Seq<u8> {
        match self {
            WorldBorderAction::SetSize(body) => self.spec_id().wire() + body.wire(),
            WorldBorderAction::LerpSize(body) => self.spec_id().wire() + body.wire(),
            WorldBorderAction::SetCenter(body) => self.spec_id().wire() + body.wire(),
            WorldBorderAction::Initialize(body) => self.spec_id().wire() + body.wire(),
            WorldBorderAction::SetWarningTime(body) => self.spec_id().wire() + body.wire(),
            WorldBorderAction::SetWarningBlocks(body) => self.spec_id().wire() + body.wire(),
        }
    }

    fn mc_serialize<S: Serializer>(&self, to: &mut S) -> (res: SerializeResult) {
        self.id().mc_serialize(to)?;
        let res = match self {
            WorldBorderAction::SetSize(body) => body.mc_serialize(to),
            WorldBorderAction::LerpSize(body) => body.mc_serialize(to),
            WorldBorderAction::SetCenter(body) => body.mc_serialize(to),
            WorldBorderAction::Initialize(body) => body.mc_serialize(to),
            WorldBorderAction::SetWarningTime(body) => body.mc_serialize(to),
            WorldBorderAction::SetWarningBlocks(body) => body.mc_serialize(to),
        };
        proof {
            broadcast use lemma_concat_assoc;

        }
        res
    }
}

impl Deserialize for WorldBorderAction {
    type Model = WorldBorderActionModel;

    open spec fn model(&self) -> WorldBorderActionModel {
        match self {
            WorldBorderAction::SetSize(body) => WorldBorderActionModel::SetSize(body.model()),
            WorldBorderAction::LerpSize(body) => WorldBorderActionModel::LerpSize(body.model()),
            WorldBorderAction::SetCenter(body) => WorldBorderActionModel::SetCenter(body.model()),
            WorldBorderAction::Initialize(body) => WorldBorderActionModel::Initialize(body.model()),
            WorldBorderAction::SetWarningTime(body) => WorldBorderActionModel::SetWarningTime(
                body.model(),
            ),
            WorldBorderAction::SetWarningBlocks(body) => WorldBorderActionModel::SetWarningBlocks(
                body.model(),
            ),
        }
    }

    /// A number that announces no form is an error that says so.
    open spec fn decoding(data: Seq<u8>) -> Parsed<WorldBorderActionModel> {
        match VarInt::decoding(data) {
            Err(e) => Err(e),
            Ok((id, rest)) => if id.0 == 0x00 {
                match <WorldBorderSetSizeSpec>::decoding(rest) {
                    Err(e) => Err(e),
                    Ok((body, rest)) => Ok((WorldBorderActionModel::SetSize(body), rest)),
                }
            } else if id.0 == 0x01 {
                match <WorldBorderLerpSizeSpec>::decoding(rest) {
                    Err(e) => Err(e),
                    Ok((body, rest)) => Ok((WorldBorderActionModel::LerpSize(body), rest)),
                }
            } else if id.0 == 0x02 {
                match <WorldBorderSetCenterSpec>::decoding(rest) {
                    Err(e) => Err(e),
                    Ok((body, rest)) => Ok((WorldBorderActionModel::SetCenter(body), rest)),
                }
            } else if id.0 == 0x03 {
                match <WorldBorderInitiaializeSpec>::decoding(rest) {
                    Err(e) => Err(e),
                    Ok((body, rest)) => Ok((WorldBorderActionModel::Initialize(body), rest)),
                }
            } else if id.0 == 0x04 {
                match <WorldBorderWarningTimeSpec>::decoding(rest) {
                    Err(e) => Err(e),
                    Ok((body, rest)) => Ok((WorldBorderActionModel::SetWarningTime(body), rest)),
                }
            } else if id.0 == 0x05 {
                match <WorldBorderWarningBlocksSpec>::decoding(rest) {
                    Err(e) => Err(e),
                    Ok((body, rest)) => Ok((WorldBorderActionModel::SetWarningBlocks(body), rest)),
                }
            } else {
                Err(
                    Fault::CannotUnderstandValue(
                        "invalid world border action id "@ + decimal_text(id.0 as int),
                    ),
                )
            },
        }
    }

    proof fn lemma_remainder(data: Seq<u8>) {
        VarInt::lemma_remainder(data);
        match VarInt::decoding(data) {
            Ok((id, rest)) => {
                <WorldBorderSetSizeSpec>::lemma_remainder(rest);
                match <WorldBorderSetSizeSpec>::decoding(rest) {
                    Ok((_, rest2)) => {
                        lemma_suffix_trans(rest2, rest, data);
                    },
                    Err(_) => {},
                }
                <WorldBorderLerpSizeSpec>::lemma_remainder(rest);
                match <WorldBorderLerpSizeSpec>::decoding(rest) {
                    Ok((_, rest2)) => {
                        lemma_suffix_trans(rest2, rest, data);
                    },
                    Err(_) => {},
                }
                <WorldBorderSetCenterSpec>::lemma_remainder(rest);
                match <WorldBorderSetCenterSpec>::decoding(rest) {
                    Ok((_, rest2)) => {
                        lemma_suffix_trans(rest2, rest, data);
                    },
                    Err(_) => {},
                }
                <WorldBorderInitiaializeSpec>::lemma_remainder(rest);
                match <WorldBorderInitiaializeSpec>::decoding(rest) {
                    Ok((_, rest2)) => {
                        lemma_suffix_trans(rest2, rest, data);
                    },
                    Err(_) => {},
                }
                <WorldBorderWarningTimeSpec>::lemma_remainder(rest);
                match <WorldBorderWarningTimeSpec>::decoding(rest) {
                    Ok((_, rest2)) => {
                        lemma_suffix_trans(rest2, rest, data);
                    },
                    Err(_) => {},
                }
                <WorldBorderWarningBlocksSpec>::lemma_remainder(rest);
                match <WorldBorderWarningBlocksSpec>::decoding(rest) {
                    Ok((_, rest2)) => {
                        lemma_suffix_trans(rest2, rest, data);
                    },
                    Err(_) => {},
                }
            },
            Err(_) => {},
        }
    }

    fn mc_deserialize(data: &[u8]) -> (res: DeserializeResult<'_, Self>) {
        let Deserialized { value: id, data: rest } = VarInt::mc_deserialize(data)?;
        match id.0 {
            0x00 => {
                let Deserialized { value: body, data: rest } =
                    <WorldBorderSetSizeSpec>::mc_deserialize(rest)?;
                Deserialized::ok(WorldBorderAction::SetSize(body), rest)
            },
            0x01 => {
                let Deserialized { value: body, data: rest } =
                    <WorldBorderLerpSizeSpec>::mc_deserialize(rest)?;
                Deserialized::ok(WorldBorderAction::LerpSize(body), rest)
            },
            0x02 => {
                let Deserialized { value: body, data: rest } =
                    <WorldBorderSetCenterSpec>::mc_deserialize(rest)?;
                Deserialized::ok(WorldBorderAction::SetCenter(body), rest)
            },
            0x03 => {
                let Deserialized { value: body, data: rest } =
                    <WorldBorderInitiaializeSpec>::mc_deserialize(rest)?;
                Deserialized::ok(WorldBorderAction::Initialize(body), rest)
            },
            0x04 => {
                let Deserialized { value: body, data: rest } =
                    <WorldBorderWarningTimeSpec>::mc_deserialize(rest)?;
                Deserialized::ok(WorldBorderAction::SetWarningTime(body), rest)
            },
            0x05 => {
                let Deserialized { value: body, data: rest } =
                    <WorldBorderWarningBlocksSpec>::mc_deserialize(rest)?;
                Deserialized::ok(WorldBorderAction::SetWarningBlocks(body), rest)
            },
            _ => Err(
                cannot_understand(
                    "invalid world border action id ",
                    decimal_string(id.0 as i64).as_str(),
                ),
            ),
        }
    }
}

impl ProtocolType for WorldBorderAction {
    open spec fn legal(&self) -> bool {
        match self {
            WorldBorderAction::SetSize(body) => body.legal(),
            WorldBorderAction::LerpSize(body) => body.legal(),
            WorldBorderAction::SetCenter(body) => body.legal(),
            WorldBorderAction::Initialize(body) => body.legal(),
            WorldBorderAction::SetWarningTime(body) => body.legal(),
            WorldBorderAction::SetWarningBlocks(body) => body.legal(),
        }
    }

    open spec fn self_delimiting() -> bool {
        &&& <WorldBorderSetSizeSpec>::self_delimiting()
        &&& <WorldBorderLerpSizeSpec>::self_delimiting()
        &&& <WorldBorderSetCenterSpec>::self_delimiting()
        &&& <WorldBorderInitiaializeSpec>::self_delimiting()
        &&& <WorldBorderWarningTimeSpec>::self_delimiting()
        &&& <WorldBorderWarningBlocksSpec>::self_delimiting()
    }

    proof fn lemma_round_trip(&self, rest: Seq<u8>) {
        match self {
            WorldBorderAction::SetSize(body) => {
                lemma_tagged_round_trip(self.spec_id(), *body, rest);
            },
            WorldBorderAction::LerpSize(body) => {
                lemma_tagged_round_trip(self.spec_id(), *body, rest);
            },
            WorldBorderAction::SetCenter(body) => {
                lemma_tagged_round_trip(self.spec_id(), *body, rest);
            },
            WorldBorderAction::Initialize(body) => {
                lemma_tagged_round_trip(self.spec_id(), *body, rest);
            },
            WorldBorderAction::SetWarningTime(body) => {
                lemma_tagged_round_trip(self.spec_id(), *body, rest);
            },
            WorldBorderAction::SetWarningBlocks(body) => {
                lemma_tagged_round_trip(self.spec_id(), *body, rest);
            },
        }
    }
}

/// What is to be done to a scoreboard objective.
#[derive(Debug, Clone, PartialEq)]
pub enum ScoreboardObjectiveAction {
    Create(ScoreboardObjectiveSpec),
    Remove,
    UpdateText(ScoreboardObjectiveSpec),
}

/// [`ScoreboardObjectiveAction`] as mathematics sees it.
pub enum ScoreboardObjectiveActionModel {
    Create(<ScoreboardObjectiveSpec as Deserialize>::Model),
    Remove,
    UpdateText(<ScoreboardObjectiveSpec as Deserialize>::Model),
}

impl ScoreboardObjectiveAction {
    /// The number that says which form follows.
    pub open spec fn spec_id(&self) -> i8 {
        match self {
            ScoreboardObjectiveAction::Create(_) => 0x00,
            ScoreboardObjectiveAction::Remove => 0x01,
            ScoreboardObjectiveAction::UpdateText(_) => 0x02,
        }
    }

    pub fn id(&self) -> (res: i8)
        ensures
            res == self.spec_id(),
    {
        match self {
            ScoreboardObjectiveAction::Create(_) => 0x00,
            ScoreboardObjectiveAction::Remove => 0x01,
            ScoreboardObjectiveAction::UpdateText(_) => 0x02,
        }
    }
}

impl Serialize for ScoreboardObjectiveAction {
    /// The number, then the form it announces.
    open spec fn wire(&self) -> Seq<u8> {
        match self {
            ScoreboardObjectiveAction::Create(body) => self.spec_id().wire() + body.wire(),
            ScoreboardObjectiveAction::Remove => self.spec_id().wire(),
            ScoreboardObjectiveAction::UpdateText(body) => self.spec_id().wire() + body.wire(),
        }
    }

    fn mc_serialize<S: Serializer>(&self, to: &mut S) -> (res: SerializeResult) {
        self.id().mc_serialize(to)?;
        let res = match self {
            ScoreboardObjectiveAction::Create(body) => body.mc_serialize(to),
            ScoreboardObjectiveAction::Remove => Ok(()),
            ScoreboardObjectiveAction::UpdateText(body) => body.mc_serialize(to),
        };
        proof {
            broadcast use lemma_concat_assoc;

        }
        res
    }
}

impl Deserialize for ScoreboardObjectiveAction {
    type Model = ScoreboardObjectiveActionModel;

    open spec fn model(&self) -> ScoreboardObjectiveActionModel {
        match self {
            ScoreboardObjectiveAction::Create(body) => ScoreboardObjectiveActionModel::Create(
                body.model(),
            ),
            ScoreboardObjectiveAction::Remove => ScoreboardObjectiveActionModel::Remove,
            ScoreboardObjectiveAction::UpdateText(body) => {
                ScoreboardObjectiveActionModel::UpdateText(body.model())
            },
        }
    }

    /// A number that announces no form is an error that says so.
    open spec fn decoding(data: Seq<u8>) -> Parsed<ScoreboardObjectiveActionModel> {
        match i8::decoding(data) {
            Err(e) => Err(e),
            Ok((id, rest)) => if id == 0x00 {
                match <ScoreboardObjectiveSpec>::decoding(rest) {
                    Err(e) => Err(e),
                    Ok((body, rest)) => Ok((ScoreboardObjectiveActionModel::Create(body), rest)),
                }
            } else if id == 0x01 {
                Ok((ScoreboardObjectiveActionModel::Remove, rest))
            } else if id == 0x02 {
                match <ScoreboardObjectiveSpec>::decoding(rest) {
                    Err(e) => Err(e),
                    Ok((body, rest)) => Ok(
                        (ScoreboardObjectiveActionModel::UpdateText(body), rest),
                    ),
                }
            } else {
                Err(
                    Fault::CannotUnderstandValue(
                        "invalid scoreboard objective action id "@ + decimal_text(id as int),
                    ),
                )
            },
        }
    }

    proof fn lemma_remainder(data: Seq<u8>) {
        i8::lemma_remainder(data);
        match i8::decoding(data) {
            Ok((id, rest)) => {
                <ScoreboardObjectiveSpec>::lemma_remainder(rest);
                match <ScoreboardObjectiveSpec>::decoding(rest) {
                    Ok((_, rest2)) => {
                        lemma_suffix_trans(rest2, rest, data);
                    },
                    Err(_) => {},
                }
            },
            Err(_) => {},
        }
    }

    fn mc_deserialize(data: &[u8]) -> (res: DeserializeResult<'_, Self>) {
        let Deserialized { value: id, data: rest } = i8::mc_deserialize(data)?;
        match id {
            0x00 => {
                let Deserialized { value: body, data: rest } =
                    <ScoreboardObjectiveSpec>::mc_deserialize(rest)?;
                Deserialized::ok(ScoreboardObjectiveAction::Create(body), rest)
            },
            0x01 => Deserialized::ok(ScoreboardObjectiveAction::Remove, rest),
            0x02 => {
                let Deserialized { value: body, data: rest } =
                    <ScoreboardObjectiveSpec>::mc_deserialize(rest)?;
                Deserialized::ok(ScoreboardObjectiveAction::UpdateText(body), rest)
            },
            _ => Err(
                cannot_understand(
                    "invalid scoreboard objective action id ",
                    decimal_string(id as i64).as_str(),
                ),
            ),
        }
    }
}

impl ProtocolType for ScoreboardObjectiveAction {
    open spec fn legal(&self) -> bool {
        match self {
            ScoreboardObjectiveAction::Create(body) => body.legal(),
            ScoreboardObjectiveAction::Remove => true,
            ScoreboardObjectiveAction::UpdateText(body) => body.legal(),
        }
    }

    open spec fn self_delimiting() -> bool {
        &&& <ScoreboardObjectiveSpec>::self_delimiting()
    }

    proof fn lemma_round_trip(&self, rest: Seq<u8>) {
        match self {
            ScoreboardObjectiveAction::Create(body) => {
                lemma_tagged_round_trip(self.spec_id(), *body, rest);
            },
            ScoreboardObjectiveAction::Remove => {
                self.spec_id().lemma_round_trip(rest);
            },
            ScoreboardObjectiveAction::UpdateText(body) => {
                lemma_tagged_round_trip(self.spec_id(), *body, rest);
            },
        }
    }
}

/// How a player touches an entity.
#[derive(Debug, Clone, PartialEq)]
pub enum InteractKind {
    Interact,
    Attack,
    InteractAt(InteractAtSpec),
}

/// [`InteractKind`] as mathematics sees it.
pub enum InteractKindModel {
    Interact,
    Attack,
    InteractAt(<InteractAtSpec as Deserialize>::Model),
}

impl InteractKind {
    /// The number that says which form follows.
    pub open spec fn spec_id(&self) -> VarInt {
        match self {
            InteractKind::Interact => VarInt(0x00),
            InteractKind::Attack => VarInt(0x01),
            InteractKind::InteractAt(_) => VarInt(0x02),
        }
    }

    pub fn id(&self) -> (res: VarInt)
        ensures
            res == self.spec_id(),
    {
        match self {
            InteractKind::Interact => VarInt(0x00),
            InteractKind::Attack => VarInt(0x01),
            InteractKind::InteractAt(_) => VarInt(0x02),
        }
    }
}

impl Serialize for InteractKind {
    /// The number, then the form it announces.
    open spec fn wire(&self) -> Seq<u8> {
        match self {
            InteractKind::Interact => self.spec_id().wire(),
            InteractKind::Attack => self.spec_id().wire(),
            InteractKind::InteractAt(body) => self.spec_id().wire() + body.wire(),
        }
    }

    fn mc_serialize<S: Serializer>(&self, to: &mut S) -> (res: SerializeResult) {
        self.id().mc_serialize(to)?;
        let res = match self {
            InteractKind::Interact => Ok(()),
            InteractKind::Attack => Ok(()),
            InteractKind::InteractAt(body) => body.mc_serialize(to),
        };
        proof {
            broadcast use lemma_concat_assoc;

        }
        res
    }
}

impl Deserialize for InteractKind {
    type Model = InteractKindModel;

    open spec fn model(&self) -> InteractKindModel {
        match self {
            InteractKind::Interact => InteractKindModel::Interact,
            InteractKind::Attack => InteractKindModel::Attack,
            InteractKind::InteractAt(body) => InteractKindModel::InteractAt(body.model()),
        }
    }

    /// A number that announces no form is an error that says so.
    open spec fn decoding(data: Seq<u8>) -> Parsed<InteractKindModel> {
        match VarInt::decoding(data) {
            Err(e) => Err(e),
            Ok((id, rest)) => if id.0 == 0x00 {
                Ok((InteractKindModel::Interact, rest))
            } else if id.0 == 0x01 {
                Ok((InteractKindModel::Attack, rest))
            } else if id.0 == 0x02 {
                match <InteractAtSpec>::decoding(rest) {
                    Err(e) => Err(e),
                    Ok((body, rest)) => Ok((InteractKindModel::InteractAt(body), rest)),
                }
            } else {
                Err(
                    Fault::CannotUnderstandValue(
                        "invalid entity interact kind id "@ + decimal_text(id.0 as int),
                    ),
                )
            },
        }
    }

    proof fn lemma_remainder(data: Seq<u8>) {
        VarInt::lemma_remainder(data);
        match VarInt::decoding(data) {
            Ok((id, rest)) => {
                <InteractAtSpec>::lemma_remainder(rest);
                match <InteractAtSpec>::decoding(rest) {
                    Ok((_, rest2)) => {
                        lemma_suffix_trans(rest2, rest, data);
                    },
                    Err(_) => {},
                }
            },
            Err(_) => {},
        }
    }

    fn mc_deserialize(data: &[u8]) -> (res: DeserializeResult<'_, Self>) {
        let Deserialized { value: id, data: rest } = VarInt::mc_deserialize(data)?;
        match id.0 {
            0x00 => Deserialized::ok(InteractKind::Interact, rest),
            0x01 => Deserialized::ok(InteractKind::Attack, rest),
            0x02 => {
                let Deserialized { value: body, data: rest } =
                    <InteractAtSpec>::mc_deserialize(rest)?;
                Deserialized::ok(InteractKind::InteractAt(body), rest)
            },
            _ => Err(
                cannot_understand(
                    "invalid entity interact kind id ",
                    decimal_string(id.0 as i64).as_str(),
                ),
            ),
        }
    }
}

impl ProtocolType for InteractKind {
    open spec fn legal(&self) -> bool {
        match self {
            InteractKind::Interact => true,
            InteractKind::Attack => true,
            InteractKind::InteractAt(body) => body.legal(),
        }
    }

    open spec fn self_delimiting() -> bool {
        &&& <InteractAtSpec>::self_delimiting()
    }

    proof fn lemma_round_trip(&self, rest: Seq<u8>) {
        match self {
            InteractKind::Interact => {
                self.spec_id().lemma_round_trip(rest);
            },
            InteractKind::Attack => {
                self.spec_id().lemma_round_trip(rest);
            },
            InteractKind::InteractAt(body) => {
                lemma_tagged_round_trip(self.spec_id(), *body, rest);
            },
        }
    }
}

/// What is said of a list of players; the same thing of each.
#[derive(Clone, PartialEq, Debug)]
pub enum PlayerInfoActionList {
    Add(Vec<PlayerInfoAction<PlayerAddActionSpec>>),
    UpdateGameMode(Vec<PlayerInfoAction<GameMode>>),
    UpdateLatency(Vec<PlayerInfoAction<VarInt>>),
    UpdateDisplayName(Vec<PlayerInfoAction<Option<JsonText>>>),
    Remove(Vec<UUID4>),
}

/// [`PlayerInfoActionList`] as mathematics sees it.
pub enum PlayerInfoActionListModel {
    Add(Seq<<PlayerInfoAction<PlayerAddActionSpec> as Deserialize>::Model>),
    UpdateGameMode(Seq<<PlayerInfoAction<GameMode> as Deserialize>::Model>),
    UpdateLatency(Seq<<PlayerInfoAction<VarInt> as Deserialize>::Model>),
    UpdateDisplayName(Seq<<PlayerInfoAction<Option<JsonText>> as Deserialize>::Model>),
    Remove(Seq<u128>),
}

/// The players that a list of statements is about, in order.
pub open spec fn uuids_of<A>(items: Seq<PlayerInfoAction<A>>) -> Seq<UUID4> {
    Seq::new(items.len(), |i: int| items[i].uuid)
}

fn collect_uuids<A>(items: &Vec<PlayerInfoAction<A>>) -> (res: Vec<UUID4>)
    ensures
        res@ == uuids_of(items@),
{
    let mut out: Vec<UUID4> = Vec::new();
    let mut i: usize = 0;
    while i < items.len()
        invariant
            i <= items.len(),
            out@ == uuids_of(items@.take(i as int)),
        decreases items.len() - i,
    {
        out.push(items[i].uuid);
        proof {
            assert(out@ =~= uuids_of(items@.take(i as int + 1)));
        }
        i += 1;
    }
    proof {
        assert(items@.take(items.len() as int) =~= items@);
    }
    out
}

fn copy_uuids(items: &Vec<UUID4>) -> (res: Vec<UUID4>)
    ensures
        res@ == items@,
{
    let mut out: Vec<UUID4> = Vec::new();
    let mut i: usize = 0;
    while i < items.len()
        invariant
            i <= items.len(),
            out@ == items@.take(i as int),
        decreases items.len() - i,
    {
        out.push(items[i]);
        proof {
            assert(out@ =~= items@.take(i as int + 1));
        }
        i += 1;
    }
    proof {
        assert(items@.take(items.len() as int) =~= items@);
    }
    out
}

/// `count` items behind a count that has been read already. A count below
/// zero is an error.
pub open spec fn decoding_counted<T: Deserialize>(count: VarInt, rest: Seq<u8>) -> Parsed<
    Seq<T::Model>,
> {
    if count.0 < 0 {
        Err(Fault::NegativeLength(count.0))
    } else {
        decoding_many::<T>(rest, count.0 as nat)
    }
}

fn deserialize_counted<I: Deserialize>(count: VarInt, rest: &[u8]) -> (res: DeserializeResult<
    '_,
    Vec<I>,
>)
    ensures
        match res {
            Ok(d) => decoding_counted::<I>(count, rest@) == Ok::<(Seq<I::Model>, Seq<u8>), Fault>(
                (models_of(d.value@), d.data@),
            ),
            Err(e) => decoding_counted::<I>(count, rest@) == Err::<(Seq<I::Model>, Seq<u8>), Fault>(
                e@,
            ),
        },
{
    if count.0 < 0 {
        return Err(DeserializeErr::NegativeLength(count));
    }
    deserialize_vec_directly(count.0 as usize, rest)
}

/// A list fits its count, its items are legal, and its items announce their
/// own end unless there is at most one.
pub open spec fn list_legal<T: ProtocolType>(items: Seq<T>) -> bool {
    &&& items.len() <= i32::MAX
    &&& all_legal(items)
    &&& T::self_delimiting() || items.len() <= 1
}

proof fn lemma_counted_round_trip<T: ProtocolType>(items: Seq<T>, rest: Seq<u8>)
    requires
        list_legal(items),
        T::self_delimiting() || rest.len() == 0,
    ensures
        decoding_counted::<T>(length_prefix(items.len()), wire_many(items) + rest) == Ok::<
            (Seq<T::Model>, Seq<u8>),
            Fault,
        >((models_of(items), rest)),
{
    lemma_many_round_trip(items, rest);
}

proof fn lemma_counted_remainder<T: Deserialize>(count: VarInt, rest: Seq<u8>)
    ensures
        decoding_counted::<T>(count, rest) matches Ok((_, rest2)) ==> crate::wire::is_suffix(
            rest2,
            rest,
        ),
{
    if count.0 >= 0 {
        lemma_many_remainder::<T>(rest, count.0 as nat);
    }
}

impl PlayerInfoActionList {
    pub open spec fn spec_player_ids(&self) -> Seq<UUID4> {
        match self {
            PlayerInfoActionList::Add(vec) => uuids_of(vec@),
            PlayerInfoActionList::UpdateGameMode(vec) => uuids_of(vec@),
            PlayerInfoActionList::UpdateLatency(vec) => uuids_of(vec@),
            PlayerInfoActionList::UpdateDisplayName(vec) => uuids_of(vec@),
            PlayerInfoActionList::Remove(vec) => vec@,
        }
    }

    /// The players spoken of, in order.
    pub fn player_ids(&self) -> (res: Vec<UUID4>)
        ensures
            res@ == self.spec_player_ids(),
    {
        match self {
            PlayerInfoActionList::Add(vec) => collect_uuids(vec),
            PlayerInfoActionList::UpdateGameMode(vec) => collect_uuids(vec),
            PlayerInfoActionList::UpdateLatency(vec) => collect_uuids(vec),
            PlayerInfoActionList::UpdateDisplayName(vec) => collect_uuids(vec),
            PlayerInfoActionList::Remove(vec) => copy_uuids(vec),
        }
    }

    /// The number that says what is said.
    pub open spec fn spec_id(&self) -> VarInt {
        match self {
            PlayerInfoActionList::Add(_) => VarInt(0x00),
            PlayerInfoActionList::UpdateGameMode(_) => VarInt(0x01),
            PlayerInfoActionList::UpdateLatency(_) => VarInt(0x02),
            PlayerInfoActionList::UpdateDisplayName(_) => VarInt(0x03),
            PlayerInfoActionList::Remove(_) => VarInt(0x04),
        }
    }

    pub fn id(&self) -> (res: VarInt)
        ensures
            res == self.spec_id(),
    {
        match self {
            PlayerInfoActionList::Add(_) => VarInt(0x00),
            PlayerInfoActionList::UpdateGameMode(_) => VarInt(0x01),
            PlayerInfoActionList::UpdateLatency(_) => VarInt(0x02),
            PlayerInfoActionList::UpdateDisplayName(_) => VarInt(0x03),
            PlayerInfoActionList::Remove(_) => VarInt(0x04),
        }
    }

    pub open spec fn spec_len(&self) -> nat {
        match self {
            PlayerInfoActionList::Add(vec) => vec@.len(),
            PlayerInfoActionList::UpdateGameMode(vec) => vec@.len(),
            PlayerInfoActionList::UpdateLatency(vec) => vec@.len(),
            PlayerInfoActionList::UpdateDisplayName(vec) => vec@.len(),
            PlayerInfoActionList::Remove(vec) => vec@.len(),
        }
    }

    /// How many players are spoken of.
    pub fn len(&self) -> (res: usize)
        ensures
            res == self.spec_len(),
    {
        match self {
            PlayerInfoActionList::Add(vec) => vec.len(),
            PlayerInfoActionList::UpdateGameMode(vec) => vec.len(),
            PlayerInfoActionList::UpdateLatency(vec) => vec.len(),
            PlayerInfoActionList::UpdateDisplayName(vec) => vec.len(),
            PlayerInfoActionList::Remove(vec) => vec.len(),
        }
    }

    /// The items as they are written, with neither number nor count in front.
    pub open spec fn wire_items(&self) -> Seq<u8> {
        match self {
            PlayerInfoActionList::Add(vec) => wire_many(vec@),
            PlayerInfoActionList::UpdateGameMode(vec) => wire_many(vec@),
            PlayerInfoActionList::UpdateLatency(vec) => wire_many(vec@),
            PlayerInfoActionList::UpdateDisplayName(vec) => wire_many(vec@),
            PlayerInfoActionList::Remove(vec) => wire_many(vec@),
        }
    }
}

impl Serialize for PlayerInfoActionList {
    /// The number, the count, the items.
    open spec fn wire(&self) -> Seq<u8> {
        self.spec_id().wire() + length_prefix(self.spec_len()).wire() + self.wire_items()
    }

    fn mc_serialize<S: Serializer>(&self, to: &mut S) -> (res: SerializeResult) {
        let id = self.id();
        id.mc_serialize(to)?;
        let len = length_prefix_of(self.len());
        len.mc_serialize(to)?;
        match self {
            PlayerInfoActionList::Add(body) => serialize_vec_directly(body, to),
            PlayerInfoActionList::UpdateGameMode(body) => serialize_vec_directly(body, to),
            PlayerInfoActionList::UpdateLatency(body) => serialize_vec_directly(body, to),
            PlayerInfoActionList::UpdateDisplayName(body) => serialize_vec_directly(body, to),
            PlayerInfoActionList::Remove(body) => serialize_vec_directly(body, to),
        }
    }
}

impl Deserialize for PlayerInfoActionList {
    type Model = PlayerInfoActionListModel;

    open spec fn model(&self) -> PlayerInfoActionListModel {
        match self {
            PlayerInfoActionList::Add(vec) => PlayerInfoActionListModel::Add(models_of(vec@)),
            PlayerInfoActionList::UpdateGameMode(vec) => PlayerInfoActionListModel::UpdateGameMode(
                models_of(vec@),
            ),
            PlayerInfoActionList::UpdateLatency(vec) => PlayerInfoActionListModel::UpdateLatency(
                models_of(vec@),
            ),
            PlayerInfoActionList::UpdateDisplayName(vec) => {
                PlayerInfoActionListModel::UpdateDisplayName(models_of(vec@))
            },
            PlayerInfoActionList::Remove(vec) => PlayerInfoActionListModel::Remove(models_of(vec@)),
        }
    }

    /// The number and the count are both read before the number is judged: an
    /// input that ends inside the count fails for that, whatever the number.
    open spec fn decoding(data: Seq<u8>) -> Parsed<PlayerInfoActionListModel> {
        match <(VarInt, VarInt)>::decoding(data) {
            Err(e) => Err(e),
            Ok(((id, count), rest)) => if id.0 == 0 {
                match decoding_counted::<PlayerInfoAction<PlayerAddActionSpec>>(count, rest) {
                    Err(e) => Err(e),
                    Ok((items, rest)) => Ok((PlayerInfoActionListModel::Add(items), rest)),
                }
            } else if id.0 == 1 {
                match decoding_counted::<PlayerInfoAction<GameMode>>(count, rest) {
                    Err(e) => Err(e),
                    Ok((items, rest)) => Ok(
                        (PlayerInfoActionListModel::UpdateGameMode(items), rest),
                    ),
                }
            } else if id.0 == 2 {
                match decoding_counted::<PlayerInfoAction<VarInt>>(count, rest) {
                    Err(e) => Err(e),
                    Ok((items, rest)) => Ok(
                        (PlayerInfoActionListModel::UpdateLatency(items), rest),
                    ),
                }
            } else if id.0 == 3 {
                match decoding_counted::<PlayerInfoAction<Option<JsonText>>>(count, rest) {
                    Err(e) => Err(e),
                    Ok((items, rest)) => Ok(
                        (PlayerInfoActionListModel::UpdateDisplayName(items), rest),
                    ),
                }
            } else if id.0 == 4 {
                match decoding_counted::<UUID4>(count, rest) {
                    Err(e) => Err(e),
                    Ok((items, rest)) => Ok((PlayerInfoActionListModel::Remove(items), rest)),
                }
            } else {
                Err(
                    Fault::CannotUnderstandValue(
                        "invalid player info action id "@ + decimal_text(id.0 as int),
                    ),
                )
            },
        }
    }

    proof fn lemma_remainder(data: Seq<u8>) {
        <(VarInt, VarInt)>::lemma_remainder(data);
        match <(VarInt, VarInt)>::decoding(data) {
            Ok(((id, count), rest)) => {
                lemma_counted_remainder::<PlayerInfoAction<PlayerAddActionSpec>>(count, rest);
                lemma_counted_remainder::<PlayerInfoAction<GameMode>>(count, rest);
                lemma_counted_remainder::<PlayerInfoAction<VarInt>>(count, rest);
                lemma_counted_remainder::<PlayerInfoAction<Option<JsonText>>>(count, rest);
                lemma_counted_remainder::<UUID4>(count, rest);
                assert forall|rest2: Seq<u8>| crate::wire::is_suffix(rest2, rest) implies 
                    crate::wire::is_suffix(rest2, data) by {
                    lemma_suffix_trans(rest2, rest, data);
                }
            },
            Err(_) => {},
        }
    }

    fn mc_deserialize(data: &[u8]) -> (res: DeserializeResult<'_, Self>) {
        let Deserialized { value: front, data: rest } = <(VarInt, VarInt)>::mc_deserialize(data)?;
        let (action_id, raw_count) = front;
        match action_id.0 {
            0x00 => {
                let Deserialized { value: v, data: rest } = deserialize_counted(raw_count, rest)?;
                Deserialized::ok(PlayerInfoActionList::Add(v), rest)
            },
            0x01 => {
                let Deserialized { value: v, data: rest } = deserialize_counted(raw_count, rest)?;
                Deserialized::ok(PlayerInfoActionList::UpdateGameMode(v), rest)
            },
            0x02 => {
                let Deserialized { value: v, data: rest } = deserialize_counted(raw_count, rest)?;
                Deserialized::ok(PlayerInfoActionList::UpdateLatency(v), rest)
            },
            0x03 => {
                let Deserialized { value: v, data: rest } = deserialize_counted(raw_count, rest)?;
                Deserialized::ok(PlayerInfoActionList::UpdateDisplayName(v), rest)
            },
            0x04 => {
                let Deserialized { value: v, data: rest } = deserialize_counted(raw_count, rest)?;
                Deserialized::ok(PlayerInfoActionList::Remove(v), rest)
            },
            other => Err(
                cannot_understand(
                    "invalid player info action id ",
                    decimal_string(other as i64).as_str(),
                ),
            ),
        }
    }
}

impl ProtocolType for PlayerInfoActionList {
    open spec fn legal(&self) -> bool {
        match self {
            PlayerInfoActionList::Add(vec) => list_legal(vec@),
            PlayerInfoActionList::UpdateGameMode(vec) => list_legal(vec@),
            PlayerInfoActionList::UpdateLatency(vec) => list_legal(vec@),
            PlayerInfoActionList::UpdateDisplayName(vec) => list_legal(vec@),
            PlayerInfoActionList::Remove(vec) => list_legal(vec@),
        }
    }

    open spec fn self_delimiting() -> bool {
        true
    }

    proof fn lemma_round_trip(&self, rest: Seq<u8>) {
        let id = self.spec_id();
        let count = length_prefix(self.spec_len());
        let items = self.wire_items();
        let front = (id, count);
        lemma_tuple2_wire(&front);
        front.lemma_round_trip(items + rest);
        lemma_concat_assoc(front.wire(), items, rest);
        match self {
            PlayerInfoActionList::Add(vec) => lemma_counted_round_trip(vec@, rest),
            PlayerInfoActionList::UpdateGameMode(vec) => lemma_counted_round_trip(vec@, rest),
            PlayerInfoActionList::UpdateLatency(vec) => lemma_counted_round_trip(vec@, rest),
            PlayerInfoActionList::UpdateDisplayName(vec) => lemma_counted_round_trip(vec@, rest),
            PlayerInfoActionList::Remove(vec) => lemma_counted_round_trip(vec@, rest),
        }
    }
}

/// A way of making one thing from others.
#[derive(Clone, PartialEq, Debug)]
pub enum Recipe {
    CraftingShapeless(RecipeCraftingShapelessSpec),
    CraftingShaped(RecipeCraftingShapedSpec),
    CraftingArmorDye,
    CraftingBookCloning,
    CraftingMapCloning,
    CraftingMapExtending,
    CraftingFireworkRocket,
    CraftingFireworkStar,
    CraftingFireworkStarFade,
    CraftingRepairItem,
    CraftingTippedArrow,
    CraftingBannerDuplicate,
    CraftingBannerAddPattern,
    CraftingShieldDecoration,
    CraftingShulkerBoxColoring,
    CraftingSuspiciousStew,
    Smelting(RecipeSmeltingSpec),
    Blasting(RecipeSmeltingSpec),
    Smoking(RecipeSmeltingSpec),
    CampfireCooking(RecipeSmeltingSpec),
    StoneCutting(RecipeStonecuttingSpec),
}

/// [`Recipe`] as mathematics sees it.
pub enum RecipeModel {
    CraftingShapeless(<RecipeCraftingShapelessSpec as Deserialize>::Model),
    CraftingShaped(<RecipeCraftingShapedSpec as Deserialize>::Model),
    CraftingArmorDye,
    CraftingBookCloning,
    CraftingMapCloning,
    CraftingMapExtending,
    CraftingFireworkRocket,
    CraftingFireworkStar,
    CraftingFireworkStarFade,
    CraftingRepairItem,
    CraftingTippedArrow,
    CraftingBannerDuplicate,
    CraftingBannerAddPattern,
    CraftingShieldDecoration,
    CraftingShulkerBoxColoring,
    CraftingSuspiciousStew,
    Smelting(<RecipeSmeltingSpec as Deserialize>::Model),
    Blasting(<RecipeSmeltingSpec as Deserialize>::Model),
    Smoking(<RecipeSmeltingSpec as Deserialize>::Model),
    CampfireCooking(<RecipeSmeltingSpec as Deserialize>::Model),
    StoneCutting(<RecipeStonecuttingSpec as Deserialize>::Model),
}

/// A recipe and the name it is known by.
#[derive(Clone, PartialEq, Debug)]
pub struct RecipeSpec {
    pub recipe: Recipe,
    pub id: String,
}

/// Which kind of recipe a name stands for, counting from nought; nothing for
/// a name that stands for none.
pub open spec fn recipe_kind_number(kind: Seq<char>) -> Option<nat> {
    if kind == "minecraft:crafting_shapeless"@ {
        Some(0)
    } else if kind == "minecraft:crafting_shaped"@ {
        Some(1)
    } else if kind == "minecraft:crafting_special_armordye"@ {
        Some(2)
    } else if kind == "minecraft:crafting_special_bookcloning"@ {
        Some(3)
    } else if kind == "minecraft:crafting_special_mapcloning"@ {
        Some(4)
    } else if kind == "minecraft:crafting_special_mapextending"@ {
        Some(5)
    } else if kind == "minecraft:crafting_special_firework_rocket"@ {
        Some(6)
    } else if kind == "minecraft:crafting_special_firework_star"@ {
        Some(7)
    } else if kind == "minecraft:crafting_special_firework_star_fade"@ {
        Some(8)
    } else if kind == "minecraft:crafting_special_repairitem"@ {
        Some(9)
    } else if kind == "minecraft:crafting_special_tippedarrow"@ {
        Some(10)
    } else if kind == "minecraft:crafting_special_bannerduplicate"@ {
        Some(11)
    } else if kind == "minecraft:crafting_special_banneraddpattern"@ {
        Some(12)
    } else if kind == "minecraft:crafting_special_shielddecoration"@ {
        Some(13)
    } else if kind == "minecraft:crafting_special_shulkerboxcoloring"@ {
        Some(14)
    } else if kind == "minecraft:crafting_special_suspiciousstew"@ {
        Some(15)
    } else if kind == "minecraft:smelting"@ {
        Some(16)
    } else if kind == "minecraft:blasting"@ {
        Some(17)
    } else if kind == "minecraft:smoking"@ {
        Some(18)
    } else if kind == "minecraft:campfire_cooking"@ {
        Some(19)
    } else if kind == "minecraft:stonecutting"@ {
        Some(20)
    } else {
        None
    }
}

/// The names of the kinds are plain ASCII and no two are the same.
pub proof fn lemma_recipe_kind_names()
    ensures
        recipe_kind_number("minecraft:crafting_shapeless"@) == Some(0nat),
        encode_utf8("minecraft:crafting_shapeless"@).len() == 28,
        recipe_kind_number("minecraft:crafting_shaped"@) == Some(1nat),
        encode_utf8("minecraft:crafting_shaped"@).len() == 25,
        recipe_kind_number("minecraft:crafting_special_armordye"@) == Some(2nat),
        encode_utf8("minecraft:crafting_special_armordye"@).len() == 35,
        recipe_kind_number("minecraft:crafting_special_bookcloning"@) == Some(3nat),
        encode_utf8("minecraft:crafting_special_bookcloning"@).len() == 38,
        recipe_kind_number("minecraft:crafting_special_mapcloning"@) == Some(4nat),
        encode_utf8("minecraft:crafting_special_mapcloning"@).len() == 37,
        recipe_kind_number("minecraft:crafting_special_mapextending"@) == Some(5nat),
        encode_utf8("minecraft:crafting_special_mapextending"@).len() == 39,
        recipe_kind_number("minecraft:crafting_special_firework_rocket"@) == Some(6nat),
        encode_utf8("minecraft:crafting_special_firework_rocket"@).len() == 42,
        recipe_kind_number("minecraft:crafting_special_firework_star"@) == Some(7nat),
        encode_utf8("minecraft:crafting_special_firework_star"@).len() == 40,
        recipe_kind_number("minecraft:crafting_special_firework_star_fade"@) == Some(8nat),
        encode_utf8("minecraft:crafting_special_firework_star_fade"@).len() == 45,
        recipe_kind_number("minecraft:crafting_special_repairitem"@) == Some(9nat),
        encode_utf8("minecraft:crafting_special_repairitem"@).len() == 37,
        recipe_kind_number("minecraft:crafting_special_tippedarrow"@) == Some(10nat),
        encode_utf8("minecraft:crafting_special_tippedarrow"@).len() == 38,
        recipe_kind_number("minecraft:crafting_special_bannerduplicate"@) == Some(11nat),
        encode_utf8("minecraft:crafting_special_bannerduplicate"@).len() == 42,
        recipe_kind_number("minecraft:crafting_special_banneraddpattern"@) == Some(12nat),
        encode_utf8("minecraft:crafting_special_banneraddpattern"@).len() == 43,
        recipe_kind_number("minecraft:crafting_special_shielddecoration"@) == Some(13nat),
        encode_utf8("minecraft:crafting_special_shielddecoration"@).len() == 43,
        recipe_kind_number("minecraft:crafting_special_shulkerboxcoloring"@) == Some(14nat),
        encode_utf8("minecraft:crafting_special_shulkerboxcoloring"@).len() == 45,
        recipe_kind_number("minecraft:crafting_special_suspiciousstew"@) == Some(15nat),
        encode_utf8("minecraft:crafting_special_suspiciousstew"@).len() == 41,
        recipe_kind_number("minecraft:smelting"@) == Some(16nat),
        encode_utf8("minecraft:smelting"@).len() == 18,
        recipe_kind_number("minecraft:blasting"@) == Some(17nat),
        encode_utf8("minecraft:blasting"@).len() == 18,
        recipe_kind_number("minecraft:smoking"@) == Some(18nat),
        encode_utf8("minecraft:smoking"@).len() == 17,
        recipe_kind_number("minecraft:campfire_cooking"@) == Some(19nat),
        encode_utf8("minecraft:campfire_cooking"@).len() == 26,
        recipe_kind_number("minecraft:stonecutting"@) == Some(20nat),
        encode_utf8("minecraft:stonecutting"@).len() == 22,
{
    reveal_strlit("minecraft:crafting_shapeless");
    reveal_strlit("minecraft:crafting_shaped");
    reveal_strlit("minecraft:crafting_special_armordye");
    reveal_strlit("minecraft:crafting_special_bookcloning");
    reveal_strlit("minecraft:crafting_special_mapcloning");
    reveal_strlit("minecraft:crafting_special_mapextending");
    reveal_strlit("minecraft:crafting_special_firework_rocket");
    reveal_strlit("minecraft:crafting_special_firework_star");
    reveal_strlit("minecraft:crafting_special_firework_star_fade");
    reveal_strlit("minecraft:crafting_special_repairitem");
    reveal_strlit("minecraft:crafting_special_tippedarrow");
    reveal_strlit("minecraft:crafting_special_bannerduplicate");
    reveal_strlit("minecraft:crafting_special_banneraddpattern");
    reveal_strlit("minecraft:crafting_special_shielddecoration");
    reveal_strlit("minecraft:crafting_special_shulkerboxcoloring");
    reveal_strlit("minecraft:crafting_special_suspiciousstew");
    reveal_strlit("minecraft:smelting");
    reveal_strlit("minecraft:blasting");
    reveal_strlit("minecraft:smoking");
    reveal_strlit("minecraft:campfire_cooking");
    reveal_strlit("minecraft:stonecutting");
    is_ascii_chars_encode_utf8("minecraft:crafting_shapeless"@);
    is_ascii_chars_encode_utf8("minecraft:crafting_shaped"@);
    is_ascii_chars_encode_utf8("minecraft:crafting_special_armordye"@);
    is_ascii_chars_encode_utf8("minecraft:crafting_special_bookcloning"@);
    is_ascii_chars_encode_utf8("minecraft:crafting_special_mapcloning"@);
    is_ascii_chars_encode_utf8("minecraft:crafting_special_mapextending"@);
    is_ascii_chars_encode_utf8("minecraft:crafting_special_firework_rocket"@);
    is_ascii_chars_encode_utf8("minecraft:crafting_special_firework_star"@);
    is_ascii_chars_encode_utf8("minecraft:crafting_special_firework_star_fade"@);
    is_ascii_chars_encode_utf8("minecraft:crafting_special_repairitem"@);
    is_ascii_chars_encode_utf8("minecraft:crafting_special_tippedarrow"@);
    is_ascii_chars_encode_utf8("minecraft:crafting_special_bannerduplicate"@);
    is_ascii_chars_encode_utf8("minecraft:crafting_special_banneraddpattern"@);
    is_ascii_chars_encode_utf8("minecraft:crafting_special_shielddecoration"@);
    is_ascii_chars_encode_utf8("minecraft:crafting_special_shulkerboxcoloring"@);
    is_ascii_chars_encode_utf8("minecraft:crafting_special_suspiciousstew"@);
    is_ascii_chars_encode_utf8("minecraft:smelting"@);
    is_ascii_chars_encode_utf8("minecraft:blasting"@);
    is_ascii_chars_encode_utf8("minecraft:smoking"@);
    is_ascii_chars_encode_utf8("minecraft:campfire_cooking"@);
    is_ascii_chars_encode_utf8("minecraft:stonecutting"@);
    assert(
        "minecraft:crafting_special_repairitem"@[27] != "minecraft:crafting_special_mapcloning"@[27]
    );
    assert(
        "minecraft:crafting_special_tippedarrow"@[27]
            != "minecraft:crafting_special_bookcloning"@[27]
    );
    assert(
        "minecraft:crafting_special_bannerduplicate"@[27]
            != "minecraft:crafting_special_firework_rocket"@[27]
    );
    assert(
        "minecraft:crafting_special_shielddecoration"@[27]
            != "minecraft:crafting_special_banneraddpattern"@[27]
    );
    assert(
        "minecraft:crafting_special_shulkerboxcoloring"@[27]
            != "minecraft:crafting_special_firework_star_fade"@[27]
    );
    assert("minecraft:blasting"@[10] != "minecraft:smelting"@[10]);
}

impl Recipe {
    /// The name of the kind.
    pub open spec fn spec_id(&self) -> Seq<char> {
        match self {
            Recipe::CraftingShapeless(_) => "minecraft:crafting_shapeless"@,
            Recipe::CraftingShaped(_) => "minecraft:crafting_shaped"@,
            Recipe::CraftingArmorDye => "minecraft:crafting_special_armordye"@,
            Recipe::CraftingBookCloning => "minecraft:crafting_special_bookcloning"@,
            Recipe::CraftingMapCloning => "minecraft:crafting_special_mapcloning"@,
            Recipe::CraftingMapExtending => "minecraft:crafting_special_mapextending"@,
            Recipe::CraftingFireworkRocket => "minecraft:crafting_special_firework_rocket"@,
            Recipe::CraftingFireworkStar => "minecraft:crafting_special_firework_star"@,
            Recipe::CraftingFireworkStarFade => "minecraft:crafting_special_firework_star_fade"@,
            Recipe::CraftingRepairItem => "minecraft:crafting_special_repairitem"@,
            Recipe::CraftingTippedArrow => "minecraft:crafting_special_tippedarrow"@,
            Recipe::CraftingBannerDuplicate => "minecraft:crafting_special_bannerduplicate"@,
            Recipe::CraftingBannerAddPattern => "minecraft:crafting_special_banneraddpattern"@,
            Recipe::CraftingShieldDecoration => "minecraft:crafting_special_shielddecoration"@,
            Recipe::CraftingShulkerBoxColoring => "minecraft:crafting_special_shulkerboxcoloring"@,
            Recipe::CraftingSuspiciousStew => "minecraft:crafting_special_suspiciousstew"@,
            Recipe::Smelting(_) => "minecraft:smelting"@,
            Recipe::Blasting(_) => "minecraft:blasting"@,
            Recipe::Smoking(_) => "minecraft:smoking"@,
            Recipe::CampfireCooking(_) => "minecraft:campfire_cooking"@,
            Recipe::StoneCutting(_) => "minecraft:stonecutting"@,
        }
    }

    pub fn id(&self) -> (res: String)
        ensures
            res@ == self.spec_id(),
    {
        match self {
            Recipe::CraftingShapeless(_) => "minecraft:crafting_shapeless",
            Recipe::CraftingShaped(_) => "minecraft:crafting_shaped",
            Recipe::CraftingArmorDye => "minecraft:crafting_special_armordye",
            Recipe::CraftingBookCloning => "minecraft:crafting_special_bookcloning",
            Recipe::CraftingMapCloning => "minecraft:crafting_special_mapcloning",
            Recipe::CraftingMapExtending => "minecraft:crafting_special_mapextending",
            Recipe::CraftingFireworkRocket => "minecraft:crafting_special_firework_rocket",
            Recipe::CraftingFireworkStar => "minecraft:crafting_special_firework_star",
            Recipe::CraftingFireworkStarFade => "minecraft:crafting_special_firework_star_fade",
            Recipe::CraftingRepairItem => "minecraft:crafting_special_repairitem",
            Recipe::CraftingTippedArrow => "minecraft:crafting_special_tippedarrow",
            Recipe::CraftingBannerDuplicate => "minecraft:crafting_special_bannerduplicate",
            Recipe::CraftingBannerAddPattern => "minecraft:crafting_special_banneraddpattern",
            Recipe::CraftingShieldDecoration => "minecraft:crafting_special_shielddecoration",
            Recipe::CraftingShulkerBoxColoring => "minecraft:crafting_special_shulkerboxcoloring",
            Recipe::CraftingSuspiciousStew => "minecraft:crafting_special_suspiciousstew",
            Recipe::Smelting(_) => "minecraft:smelting",
            Recipe::Blasting(_) => "minecraft:blasting",
            Recipe::Smoking(_) => "minecraft:smoking",
            Recipe::CampfireCooking(_) => "minecraft:campfire_cooking",
            Recipe::StoneCutting(_) => "minecraft:stonecutting",
        }.to_owned()
    }

    /// What follows the two names: the particulars of the kind, where it has
    /// any.
    pub open spec fn body_wire(&self) -> Seq<u8> {
        match self {
            Recipe::CraftingShapeless(body) => body.wire(),
            Recipe::CraftingShaped(body) => body.wire(),
            Recipe::Smelting(body) => body.wire(),
            Recipe::Blasting(body) => body.wire(),
            Recipe::Smoking(body) => body.wire(),
            Recipe::CampfireCooking(body) => body.wire(),
            Recipe::StoneCutting(body) => body.wire(),
            _ => Seq::empty(),
        }
    }

    pub open spec fn body_model(&self) -> RecipeModel {
        match self {
            Recipe::CraftingShapeless(body) => RecipeModel::CraftingShapeless(body.model()),
            Recipe::CraftingShaped(body) => RecipeModel::CraftingShaped(body.model()),
            Recipe::CraftingArmorDye => RecipeModel::CraftingArmorDye,
            Recipe::CraftingBookCloning => RecipeModel::CraftingBookCloning,
            Recipe::CraftingMapCloning => RecipeModel::CraftingMapCloning,
            Recipe::CraftingMapExtending => RecipeModel::CraftingMapExtending,
            Recipe::CraftingFireworkRocket => RecipeModel::CraftingFireworkRocket,
            Recipe::CraftingFireworkStar => RecipeModel::CraftingFireworkStar,
            Recipe::CraftingFireworkStarFade => RecipeModel::CraftingFireworkStarFade,
            Recipe::CraftingRepairItem => RecipeModel::CraftingRepairItem,
            Recipe::CraftingTippedArrow => RecipeModel::CraftingTippedArrow,
            Recipe::CraftingBannerDuplicate => RecipeModel::CraftingBannerDuplicate,
            Recipe::CraftingBannerAddPattern => RecipeModel::CraftingBannerAddPattern,
            Recipe::CraftingShieldDecoration => RecipeModel::CraftingShieldDecoration,
            Recipe::CraftingShulkerBoxColoring => RecipeModel::CraftingShulkerBoxColoring,
            Recipe::CraftingSuspiciousStew => RecipeModel::CraftingSuspiciousStew,
            Recipe::Smelting(body) => RecipeModel::Smelting(body.model()),
            Recipe::Blasting(body) => RecipeModel::Blasting(body.model()),
            Recipe::Smoking(body) => RecipeModel::Smoking(body.model()),
            Recipe::CampfireCooking(body) => RecipeModel::CampfireCooking(body.model()),
            Recipe::StoneCutting(body) => RecipeModel::StoneCutting(body.model()),
        }
    }

    pub open spec fn body_legal(&self) -> bool {
        match self {
            Recipe::CraftingShapeless(body) => body.legal(),
            Recipe::CraftingShaped(body) => body.legal(),
            Recipe::Smelting(body) => body.legal(),
            Recipe::Blasting(body) => body.legal(),
            Recipe::Smoking(body) => body.legal(),
            Recipe::CampfireCooking(body) => body.legal(),
            Recipe::StoneCutting(body) => body.legal(),
            _ => true,
        }
    }

    fn serialize_body<S: Serializer>(&self, to: &mut S) -> (res: SerializeResult)
        ensures
            old(to).reliable() ==> res is Ok && final(to).reliable(),
            res is Ok ==> final(to).written() == old(to).written() + self.body_wire(),
    {
        match self {
            Recipe::CraftingShapeless(body) => body.mc_serialize(to),
            Recipe::CraftingShaped(body) => body.mc_serialize(to),
            Recipe::Smelting(body) => body.mc_serialize(to),
            Recipe::Blasting(body) => body.mc_serialize(to),
            Recipe::Smoking(body) => body.mc_serialize(to),
            Recipe::CampfireCooking(body) => body.mc_serialize(to),
            Recipe::StoneCutting(body) => body.mc_serialize(to),
            _ => {
                proof {
                    assert(to.written() + Seq::<u8>::empty() =~= to.written());
                }
                Ok(())
            },
        }
    }
}

/// The particulars of a recipe of the kind that `kind` names. A name that
/// stands for no kind is an error that shows the name.
pub open spec fn recipe_body_decoding(kind: Seq<char>, rest: Seq<u8>) -> Parsed<RecipeModel> {
    let number = recipe_kind_number(kind);
    if number == Some(0nat) {
        match <RecipeCraftingShapelessSpec>::decoding(rest) {
            Err(e) => Err(e),
            Ok((body, rest)) => Ok((RecipeModel::CraftingShapeless(body), rest)),
        }
    } else if number == Some(1nat) {
        match <RecipeCraftingShapedSpec>::decoding(rest) {
            Err(e) => Err(e),
            Ok((body, rest)) => Ok((RecipeModel::CraftingShaped(body), rest)),
        }
    } else if number == Some(2nat) {
        Ok((RecipeModel::CraftingArmorDye, rest))
    } else if number == Some(3nat) {
        Ok((RecipeModel::CraftingBookCloning, rest))
    } else if number == Some(4nat) {
        Ok((RecipeModel::CraftingMapCloning, rest))
    } else if number == Some(5nat) {
        Ok((RecipeModel::CraftingMapExtending, rest))
    } else if number == Some(6nat) {
        Ok((RecipeModel::CraftingFireworkRocket, rest))
    } else if number == Some(7nat) {
        Ok((RecipeModel::CraftingFireworkStar, rest))
    } else if number == Some(8nat) {
        Ok((RecipeModel::CraftingFireworkStarFade, rest))
    } else if number == Some(9nat) {
        Ok((RecipeModel::CraftingRepairItem, rest))
    } else if number == Some(10nat) {
        Ok((RecipeModel::CraftingTippedArrow, rest))
    } else if number == Some(11nat) {
        Ok((RecipeModel::CraftingBannerDuplicate, rest))
    } else if number == Some(12nat) {
        Ok((RecipeModel::CraftingBannerAddPattern, rest))
    } else if number == Some(13nat) {
        Ok((RecipeModel::CraftingShieldDecoration, rest))
    } else if number == Some(14nat) {
        Ok((RecipeModel::CraftingShulkerBoxColoring, rest))
    } else if number == Some(15nat) {
        Ok((RecipeModel::CraftingSuspiciousStew, rest))
    } else if number == Some(16nat) {
        match <RecipeSmeltingSpec>::decoding(rest) {
            Err(e) => Err(e),
            Ok((body, rest)) => Ok((RecipeModel::Smelting(body), rest)),
        }
    } else if number == Some(17nat) {
        match <RecipeSmeltingSpec>::decoding(rest) {
            Err(e) => Err(e),
            Ok((body, rest)) => Ok((RecipeModel::Blasting(body), rest)),
        }
    } else if number == Some(18nat) {
        match <RecipeSmeltingSpec>::decoding(rest) {
            Err(e) => Err(e),
            Ok((body, rest)) => Ok((RecipeModel::Smoking(body), rest)),
        }
    } else if number == Some(19nat) {
        match <RecipeSmeltingSpec>::decoding(rest) {
            Err(e) => Err(e),
            Ok((body, rest)) => Ok((RecipeModel::CampfireCooking(body), rest)),
        }
    } else if number == Some(20nat) {
        match <RecipeStonecuttingSpec>::decoding(rest) {
            Err(e) => Err(e),
            Ok((body, rest)) => Ok((RecipeModel::StoneCutting(body), rest)),
        }
    } else {
        Err(Fault::CannotUnderstandValue("invalid crafting recipe kind "@ + debug_text(kind)))
    }
}

fn deserialize_recipe_body<'a>(kind: &str, rest: &'a [u8]) -> (res: DeserializeResult<'a, Recipe>)
    ensures
        match res {
            Ok(d) => recipe_body_decoding(kind@, rest@) == Ok::<(RecipeModel, Seq<u8>), Fault>(
                (d.value.body_model(), d.data@),
            ),
            Err(e) => recipe_body_decoding(kind@, rest@) == Err::<(RecipeModel, Seq<u8>), Fault>(
                e@,
            ),
        },
{
    if str_eq(kind, "minecraft:crafting_shapeless") {
        let Deserialized { value: body, data: rest } =
            <RecipeCraftingShapelessSpec>::mc_deserialize(rest)?;
        Deserialized::ok(Recipe::CraftingShapeless(body), rest)
    } else if str_eq(kind, "minecraft:crafting_shaped") {
        let Deserialized { value: body, data: rest } =
            <RecipeCraftingShapedSpec>::mc_deserialize(rest)?;
        Deserialized::ok(Recipe::CraftingShaped(body), rest)
    } else if str_eq(kind, "minecraft:crafting_special_armordye") {
        Deserialized::ok(Recipe::CraftingArmorDye, rest)
    } else if str_eq(kind, "minecraft:crafting_special_bookcloning") {
        Deserialized::ok(Recipe::CraftingBookCloning, rest)
    } else if str_eq(kind, "minecraft:crafting_special_mapcloning") {
        Deserialized::ok(Recipe::CraftingMapCloning, rest)
    } else if str_eq(kind, "minecraft:crafting_special_mapextending") {
        Deserialized::ok(Recipe::CraftingMapExtending, rest)
    } else if str_eq(kind, "minecraft:crafting_special_firework_rocket") {
        Deserialized::ok(Recipe::CraftingFireworkRocket, rest)
    } else if str_eq(kind, "minecraft:crafting_special_firework_star") {
        Deserialized::ok(Recipe::CraftingFireworkStar, rest)
    } else if str_eq(kind, "minecraft:crafting_special_firework_star_fade") {
        Deserialized::ok(Recipe::CraftingFireworkStarFade, rest)
    } else if str_eq(kind, "minecraft:crafting_special_repairitem") {
        Deserialized::ok(Recipe::CraftingRepairItem, rest)
    } else if str_eq(kind, "minecraft:crafting_special_tippedarrow") {
        Deserialized::ok(Recipe::CraftingTippedArrow, rest)
    } else if str_eq(kind, "minecraft:crafting_special_bannerduplicate") {
        Deserialized::ok(Recipe::CraftingBannerDuplicate, rest)
    } else if str_eq(kind, "minecraft:crafting_special_banneraddpattern") {
        Deserialized::ok(Recipe::CraftingBannerAddPattern, rest)
    } else if str_eq(kind, "minecraft:crafting_special_shielddecoration") {
        Deserialized::ok(Recipe::CraftingShieldDecoration, rest)
    } else if str_eq(kind, "minecraft:crafting_special_shulkerboxcoloring") {
        Deserialized::ok(Recipe::CraftingShulkerBoxColoring, rest)
    } else if str_eq(kind, "minecraft:crafting_special_suspiciousstew") {
        Deserialized::ok(Recipe::CraftingSuspiciousStew, rest)
    } else if str_eq(kind, "minecraft:smelting") {
        let Deserialized { value: body, data: rest } = <RecipeSmeltingSpec>::mc_deserialize(rest)?;
        Deserialized::ok(Recipe::Smelting(body), rest)
    } else if str_eq(kind, "minecraft:blasting") {
        let Deserialized { value: body, data: rest } = <RecipeSmeltingSpec>::mc_deserialize(rest)?;
        Deserialized::ok(Recipe::Blasting(body), rest)
    } else if str_eq(kind, "minecraft:smoking") {
        let Deserialized { value: body, data: rest } = <RecipeSmeltingSpec>::mc_deserialize(rest)?;
        Deserialized::ok(Recipe::Smoking(body), rest)
    } else if str_eq(kind, "minecraft:campfire_cooking") {
        let Deserialized { value: body, data: rest } = <RecipeSmeltingSpec>::mc_deserialize(rest)?;
        Deserialized::ok(Recipe::CampfireCooking(body), rest)
    } else if str_eq(kind, "minecraft:stonecutting") {
        let Deserialized { value: body, data: rest } =
            <RecipeStonecuttingSpec>::mc_deserialize(rest)?;
        Deserialized::ok(Recipe::StoneCutting(body), rest)
    } else {
        Err(cannot_understand("invalid crafting recipe kind ", debug_string(kind).as_str()))
    }
}

impl Serialize for RecipeSpec {
    /// The name of the kind, the recipe's own name, the particulars.
    open spec fn wire(&self) -> Seq<u8> {
        text_wire(self.recipe.spec_id()) + self.id.wire() + self.recipe.body_wire()
    }

    fn mc_serialize<S: Serializer>(&self, to: &mut S) -> (res: SerializeResult) {
        let kind = self.recipe.id();
        kind.mc_serialize(to)?;
        self.id.mc_serialize(to)?;
        self.recipe.serialize_body(to)
    }
}

impl Deserialize for RecipeSpec {
    type Model = (RecipeModel, Seq<char>);

    open spec fn model(&self) -> (RecipeModel, Seq<char>) {
        (self.recipe.body_model(), self.id@)
    }

    open spec fn decoding(data: Seq<u8>) -> Parsed<(RecipeModel, Seq<char>)> {
        match <(String, String)>::decoding(data) {
            Err(e) => Err(e),
            Ok(((kind, id), rest)) => match recipe_body_decoding(kind, rest) {
                Err(e) => Err(e),
                Ok((recipe, rest)) => Ok(((recipe, id), rest)),
            },
        }
    }

    proof fn lemma_remainder(data: Seq<u8>) {
        <(String, String)>::lemma_remainder(data);
        match <(String, String)>::decoding(data) {
            Ok(((kind, _), rest)) => {
                <RecipeCraftingShapelessSpec>::lemma_remainder(rest);
                <RecipeCraftingShapedSpec>::lemma_remainder(rest);
                <RecipeSmeltingSpec>::lemma_remainder(rest);
                <RecipeStonecuttingSpec>::lemma_remainder(rest);
                lemma_suffix_refl(rest);
                match recipe_body_decoding(kind, rest) {
                    Ok((_, rest2)) => {
                        lemma_suffix_trans(rest2, rest, data);
                    },
                    Err(_) => {},
                }
            },
            Err(_) => {},
        }
    }

    fn mc_deserialize(data: &[u8]) -> (res: DeserializeResult<'_, Self>) {
        let Deserialized { value: names, data: rest } = <(String, String)>::mc_deserialize(data)?;
        let (kind, recipe_id) = names;
        let Deserialized { value: recipe, data: rest } = deserialize_recipe_body(
            kind.as_str(),
            rest,
        )?;
        Deserialized::ok(RecipeSpec { id: recipe_id, recipe }, rest)
    }
}

impl ProtocolType for RecipeSpec {
    open spec fn legal(&self) -> bool {
        self.id.legal() && self.recipe.body_legal()
    }

    open spec fn self_delimiting() -> bool {
        &&& <RecipeCraftingShapelessSpec>::self_delimiting()
        &&& <RecipeCraftingShapedSpec>::self_delimiting()
        &&& <RecipeSmeltingSpec>::self_delimiting()
        &&& <RecipeStonecuttingSpec>::self_delimiting()
    }

    proof fn lemma_round_trip(&self, rest: Seq<u8>) {
        let kind = self.recipe.spec_id();
        let body = self.recipe.body_wire();
        lemma_recipe_kind_names();
        reveal(tuple2_decoding);
        lemma_text_round_trip(kind, self.id.wire() + (body + rest));
        self.id.lemma_round_trip(body + rest);
        lemma_concat_assoc(text_wire(kind) + self.id.wire(), body, rest);
        lemma_concat_assoc(text_wire(kind), self.id.wire(), body + rest);
        match self.recipe {
            Recipe::CraftingShapeless(inner) => {
                inner.lemma_round_trip(rest);
            },
            Recipe::CraftingShaped(inner) => {
                inner.lemma_round_trip(rest);
            },
            Recipe::Smelting(inner) => {
                inner.lemma_round_trip(rest);
            },
            Recipe::Blasting(inner) => {
                inner.lemma_round_trip(rest);
            },
            Recipe::Smoking(inner) => {
                inner.lemma_round_trip(rest);
            },
            Recipe::CampfireCooking(inner) => {
                inner.lemma_round_trip(rest);
            },
            Recipe::StoneCutting(inner) => {
                inner.lemma_round_trip(rest);
            },
            _ => {
                assert(body + rest =~= rest);
            },
        }
    }
}

/// A recipe laid out on a grid: `width` times `height` ingredients, row by
/// row.
#[derive(Debug, Clone, PartialEq)]
pub struct RecipeCraftingShapedSpec {
    pub width: VarInt,
    pub height: VarInt,
    pub group: String,
    pub ingredients: Vec<RecipeIngredient>,
    pub result: Option<Slot>,
}

/// The ingredients of a grid of the given size, one behind the other. A side
/// below zero is an error.
pub open spec fn decoding_grid(width: VarInt, height: VarInt, rest: Seq<u8>) -> Parsed<
    Seq<<RecipeIngredient as Deserialize>::Model>,
> {
    if width.0 < 0 {
        Err(Fault::NegativeLength(width.0))
    } else if height.0 < 0 {
        Err(Fault::NegativeLength(height.0))
    } else {
        decoding_many::<RecipeIngredient>(rest, (width.0 * height.0) as nat)
    }
}

impl Serialize for RecipeCraftingShapedSpec {
    /// The ingredients carry no count of their own: the two sides say how many
    /// there are.
    open spec fn wire(&self) -> Seq<u8> {
        (self.width, self.height, self.group).wire() + wire_many(self.ingredients@)
            + self.result.wire()
    }

    fn mc_serialize<S: Serializer>(&self, to: &mut S) -> (res: SerializeResult) {
        self.width.mc_serialize(to)?;
        self.height.mc_serialize(to)?;
        self.group.mc_serialize(to)?;
        serialize_vec_directly(&self.ingredients, to)?;
        let res = self.result.mc_serialize(to);
        proof {
            broadcast use lemma_concat_assoc;

            lemma_tuple3_wire(&(self.width, self.height, self.group));
        }
        res
    }
}

impl Deserialize for RecipeCraftingShapedSpec {
    type Model = (
        VarInt,
        VarInt,
        Seq<char>,
        Seq<<RecipeIngredient as Deserialize>::Model>,
        <Option<Slot> as Deserialize>::Model,
    );

    open spec fn model(&self) -> Self::Model {
        (
            self.width,
            self.height,
            self.group@,
            models_of(self.ingredients@),
            self.result.model(),
        )
    }

    open spec fn decoding(data: Seq<u8>) -> Parsed<Self::Model> {
        match <(VarInt, VarInt, String)>::decoding(data) {
            Err(e) => Err(e),
            Ok(((width, height, group), rest)) => match decoding_grid(width, height, rest) {
                Err(e) => Err(e),
                Ok((ingredients, rest)) => match <Option<Slot>>::decoding(rest) {
                    Err(e) => Err(e),
                    Ok((result, rest)) => Ok(((width, height, group, ingredients, result), rest)),
                },
            },
        }
    }

    proof fn lemma_remainder(data: Seq<u8>) {
        <(VarInt, VarInt, String)>::lemma_remainder(data);
        match <(VarInt, VarInt, String)>::decoding(data) {
            Ok(((width, height, _), rest)) => {
                if width.0 >= 0 && height.0 >= 0 {
                    lemma_many_remainder::<RecipeIngredient>(rest, (width.0 * height.0) as nat);
                }
                match decoding_grid(width, height, rest) {
                    Ok((_, rest2)) => {
                        lemma_suffix_trans(rest2, rest, data);
                        <Option<Slot>>::lemma_remainder(rest2);
                        match <Option<Slot>>::decoding(rest2) {
                            Ok((_, rest3)) => {
                                lemma_suffix_trans(rest3, rest2, data);
                            },
                            Err(_) => {},
                        }
                    },
                    Err(_) => {},
                }
            },
            Err(_) => {},
        }
    }

    fn mc_deserialize(data: &[u8]) -> (res: DeserializeResult<'_, Self>) {
        let Deserialized { value: head, data: rest } = <(VarInt, VarInt, String)>::mc_deserialize(
            data,
        )?;
        let (width, height, group) = head;
        if width.0 < 0 {
            return Err(DeserializeErr::NegativeLength(width));
        }
        if height.0 < 0 {
            return Err(DeserializeErr::NegativeLength(height));
        }
        proof {
            assert(0 <= width.0 * height.0 <= 0x7fff_ffff * 0x7fff_ffff) by (nonlinear_arith)
                requires
                    0 <= width.0 <= 0x7fff_ffff,
                    0 <= height.0 <= 0x7fff_ffff,
            ;
        }
        let ingredients_count: u64 = (width.0 as u64) * (height.0 as u64);
        let Deserialized { value: ingredients, data: rest } = deserialize_many(
            ingredients_count,
            rest,
        )?;
        let Deserialized { value: result, data: rest } = <Option<Slot>>::mc_deserialize(rest)?;
        Deserialized::ok(Self { width, height, group, ingredients, result }, rest)
    }
}

impl ProtocolType for RecipeCraftingShapedSpec {
    /// The sides are not below zero and the ingredients fill the grid exactly.
    open spec fn legal(&self) -> bool {
        &&& self.width.0 >= 0
        &&& self.height.0 >= 0
        &&& self.ingredients@.len() == self.width.0 * self.height.0
        &&& self.group.legal()
        &&& all_legal(self.ingredients@)
        &&& self.result.legal()
    }

    open spec fn self_delimiting() -> bool {
        true
    }

    proof fn lemma_round_trip(&self, rest: Seq<u8>) {
        let head = (self.width, self.height, self.group);
        let grid = wire_many(self.ingredients@);
        let last = self.result.wire();
        head.lemma_round_trip(grid + (last + rest));
        lemma_many_round_trip(self.ingredients@, last + rest);
        self.result.lemma_round_trip(rest);
        lemma_concat_assoc(head.wire() + grid, last, rest);
        lemma_concat_assoc(head.wire(), grid, last + rest);
    }
}

/// One column of the world, sixteen blocks square.
#[derive(Clone, PartialEq, Debug)]
pub struct ChunkData {
    pub chunk_x: i32,
    pub chunk_z: i32,
    pub primary_bit_mask: VarInt,
    pub heightmaps: NamedNbtTag,
    /// Present in a full chunk only.
    pub biomes: Option<[i32; 1024]>,
    pub data: VarIntCountedArray<u8>,
    pub block_entities: Vec<NamedNbtTag>,
}

/// The biomes of a chunk: 1024 numbers in a full chunk, nothing otherwise.
pub open spec fn decoding_biomes(full: bool, rest: Seq<u8>) -> Parsed<Option<Seq<i32>>> {
    if full {
        match decoding_many::<i32>(rest, 1024) {
            Err(e) => Err(e),
            Ok((biomes, rest)) => Ok((Some(biomes), rest)),
        }
    } else {
        Ok((None, rest))
    }
}

impl ChunkData {
    pub open spec fn is_full(&self) -> bool {
        self.biomes is Some
    }

    pub open spec fn biomes_wire(&self) -> Seq<u8> {
        match self.biomes {
            Some(biomes) => wire_many(biomes@),
            None => Seq::empty(),
        }
    }

    pub open spec fn biomes_model(&self) -> Option<Seq<i32>> {
        match self.biomes {
            Some(biomes) => Some(biomes@),
            None => None,
        }
    }
}

fn serialize_biomes<S: Serializer>(biomes: &[i32; 1024], to: &mut S) -> (res: SerializeResult)
    ensures
        old(to).reliable() ==> res is Ok && final(to).reliable(),
        res is Ok ==> final(to).written() == old(to).written() + wire_many(biomes@),
{
    let ghost before = to.written();
    let mut i: usize = 0;
    proof {
        assert(biomes@.skip(0) =~= biomes@);
    }
    while i < 1024
        invariant
            i <= 1024,
            biomes@.len() == 1024,
            old(to).reliable() ==> to.reliable(),
            before == old(to).written(),
            before + wire_many(biomes@) == to.written() + wire_many(biomes@.skip(i as int)),
        decreases 1024 - i,
    {
        let ghost so_far = to.written();
        biomes[i].mc_serialize(to)?;
        proof {
            let here = biomes@.skip(i as int);
            assert(here[0] == biomes@[i as int]);
            assert(here.skip(1) =~= biomes@.skip(i as int + 1));
            lemma_concat_assoc(so_far, here[0].wire(), wire_many(here.skip(1)));
        }
        i += 1;
    }
    proof {
        assert(to.written() + Seq::<u8>::empty() =~= to.written());
    }
    Ok(())
}

fn deserialize_biomes(rest: &[u8]) -> (res: DeserializeResult<'_, [i32; 1024]>)
    ensures
        match res {
            Ok(d) => decoding_many::<i32>(rest@, 1024) == Ok::<(Seq<i32>, Seq<u8>), Fault>(
                (d.value@, d.data@),
            ),
            Err(e) => decoding_many::<i32>(rest@, 1024) == Err::<(Seq<i32>, Seq<u8>), Fault>(e@),
        },
{
    proof {
        lemma_many_remainder::<i32>(rest@, 1024);
    }
    let Deserialized { value: numbers, data: rest } = deserialize_many::<i32>(1024, rest)?;
    let mut biomes: [i32; 1024] = [0i32;1024];
    let mut i: usize = 0;
    while i < 1024
        invariant
            i <= 1024,
            numbers@.len() == 1024,
            biomes@.len() == 1024,
            forall|k: int| 0 <= k < i ==> biomes@[k] == numbers@[k],
        decreases 1024 - i,
    {
        biomes.set(i, numbers[i]);
        i += 1;
    }
    proof {
        assert(biomes@ =~= models_of(numbers@));
    }
    Deserialized::ok(biomes, rest)
}

impl Serialize for ChunkData {
    /// Whether the chunk is full travels as a flag in the third place; the
    /// block entities travel behind a count of their own.
    open spec fn wire(&self) -> Seq<u8> {
        (self.chunk_x, self.chunk_z, self.is_full(), self.primary_bit_mask, self.heightmaps).wire()
            + self.biomes_wire() + self.data.wire() + length_prefix(
            self.block_entities@.len(),
        ).wire() + wire_many(self.block_entities@)
    }

    fn mc_serialize<S: Serializer>(&self, to: &mut S) -> (res: SerializeResult) {
        self.chunk_x.mc_serialize(to)?;
        self.chunk_z.mc_serialize(to)?;
        let full_chunk = self.biomes.is_some();
        full_chunk.mc_serialize(to)?;
        self.primary_bit_mask.mc_serialize(to)?;
        self.heightmaps.mc_serialize(to)?;
        match &self.biomes {
            Some(biomes) => {
                serialize_biomes(biomes, to)?;
            },
            None => {
                proof {
                    assert(to.written() + Seq::<u8>::empty() =~= to.written());
                }
            },
        }
        self.data.mc_serialize(to)?;
        let num_block_entities = length_prefix_of(self.block_entities.len());
        num_block_entities.mc_serialize(to)?;
        let res = serialize_vec_directly(&self.block_entities, to);
        proof {
            broadcast use lemma_concat_assoc;

            lemma_tuple5_wire(
                &(
                    self.chunk_x,
                    self.chunk_z,
                    self.is_full(),
                    self.primary_bit_mask,
                    self.heightmaps,
                ),
            );
        }
        res
    }
}

impl Deserialize for ChunkData {
    type Model = (i32, i32, VarInt, Seq<u8>, Option<Seq<i32>>, Seq<u8>, Seq<Seq<u8>>);

    open spec fn model(&self) -> Self::Model {
        (
            self.chunk_x,
            self.chunk_z,
            self.primary_bit_mask,
            self.heightmaps.model(),
            self.biomes_model(),
            self.data.model(),
            models_of(self.block_entities@),
        )
    }

    open spec fn decoding(data: Seq<u8>) -> Parsed<Self::Model> {
        match <(i32, i32, bool, VarInt, NamedNbtTag)>::decoding(data) {
            Err(e) => Err(e),
            Ok(((chunk_x, chunk_z, full, mask, heightmaps), rest)) => match decoding_biomes(
                full,
                rest,
            ) {
                Err(e) => Err(e),
                Ok((biomes, rest)) => match <(VarIntCountedArray<u8>, VarInt)>::decoding(rest) {
                    Err(e) => Err(e),
                    Ok(((blocks, count), rest)) => match decoding_counted::<NamedNbtTag>(
                        count,
                        rest,
                    ) {
                        Err(e) => Err(e),
                        Ok((entities, rest)) => Ok(
                            ((chunk_x, chunk_z, mask, heightmaps, biomes, blocks, entities), rest),
                        ),
                    },
                },
            },
        }
    }

    proof fn lemma_remainder(data: Seq<u8>) {
        <(i32, i32, bool, VarInt, NamedNbtTag)>::lemma_remainder(data);
        match <(i32, i32, bool, VarInt, NamedNbtTag)>::decoding(data) {
            Ok(((_, _, full, _, _), rest)) => {
                lemma_many_remainder::<i32>(rest, 1024);
                lemma_suffix_refl(rest);
                match decoding_biomes(full, rest) {
                    Ok((_, rest2)) => {
                        lemma_suffix_trans(rest2, rest, data);
                        <(VarIntCountedArray<u8>, VarInt)>::lemma_remainder(rest2);
                        match <(VarIntCountedArray<u8>, VarInt)>::decoding(rest2) {
                            Ok(((_, count), rest3)) => {
                                lemma_suffix_trans(rest3, rest2, data);
                                lemma_counted_remainder::<NamedNbtTag>(count, rest3);
                                match decoding_counted::<NamedNbtTag>(count, rest3) {
                                    Ok((_, rest4)) => {
                                        lemma_suffix_trans(rest4, rest3, data);
                                    },
                                    Err(_) => {},
                                }
                            },
                            Err(_) => {},
                        }
                    },
                    Err(_) => {},
                }
            },
            Err(_) => {},
        }
    }

    fn mc_deserialize(data: &[u8]) -> (res: DeserializeResult<'_, Self>) {
        let Deserialized { value: head, data: rest } = <(
            i32,
            i32,
            bool,
            VarInt,
            NamedNbtTag,
        )>::mc_deserialize(data)?;
        let (chunk_x, chunk_z, is_full_chunk, primary_bit_mask, heightmaps) = head;
        let (biomes, rest) = if is_full_chunk {
            let Deserialized { value: biomes, data: rest } = deserialize_biomes(rest)?;
            (Some(biomes), rest)
        } else {
            (None, rest)
        };
        let Deserialized { value: middle, data: rest } = <(
            VarIntCountedArray<u8>,
            VarInt,
        )>::mc_deserialize(rest)?;
        let (chunk_data, n_block_entities_raw) = middle;
        let Deserialized { value: block_entities, data: rest } = deserialize_counted(
            n_block_entities_raw,
            rest,
        )?;
        Deserialized::ok(
            ChunkData {
                chunk_x,
                chunk_z,
                primary_bit_mask,
                heightmaps,
                biomes,
                data: chunk_data,
                block_entities,
            },
            rest,
        )
    }
}

impl ProtocolType for ChunkData {
    open spec fn legal(&self) -> bool {
        &&& self.heightmaps.legal()
        &&& self.data.legal()
        &&& list_legal(self.block_entities@)
    }

    open spec fn self_delimiting() -> bool {
        true
    }

    proof fn lemma_round_trip(&self, rest: Seq<u8>) {
        let head = (
            self.chunk_x,
            self.chunk_z,
            self.is_full(),
            self.primary_bit_mask,
            self.heightmaps,
        );
        let biomes = self.biomes_wire();
        let middle = (self.data, length_prefix(self.block_entities@.len()));
        let entities = wire_many(self.block_entities@);
        lemma_tuple2_wire(&middle);
        head.lemma_round_trip(biomes + (middle.wire() + (entities + rest)));
        match self.biomes {
            Some(numbers) => {
                assert(all_legal(numbers@));
                lemma_many_round_trip(numbers@, middle.wire() + (entities + rest));
                assert(models_of(numbers@) =~= numbers@);
            },
            None => {
                assert(biomes + (middle.wire() + (entities + rest)) =~= middle.wire() + (entities
                    + rest));
            },
        }
        middle.lemma_round_trip(entities + rest);
        lemma_counted_round_trip(self.block_entities@, rest);
        assert(self.wire() + rest =~= head.wire() + (biomes + (middle.wire() + (entities
            + rest)))) by {
            broadcast use lemma_concat_assoc;

        }
    }
}

} // verus!
