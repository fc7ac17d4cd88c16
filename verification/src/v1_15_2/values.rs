use crate::deserialize::{Deserialize, DeserializeResult, Deserialized, Fault};
use crate::protocol::ProtocolType;
use crate::serialize::{Serialize, SerializeResult, Serializer};
use crate::types::VarInt;
use crate::utils::{
    cannot_understand, decimal_string, decimal_text, lemma_with_bits_keeps,
    lemma_with_bits_reads, set_bits, with_bits,
};
use crate::wire::Parsed;
use vstd::prelude::*;

verus! {

/// What a client wants after the handshake.
#[derive(PartialEq, Eq, Clone, Copy, Debug)]
pub enum HandshakeNextState {
    Status,
    Login,
}

impl HandshakeNextState {
    pub open spec fn spec_from_byte(b: u8) -> Option<Self> {
        if b == 0x01 {
            Some(HandshakeNextState::Status)
        } else if b == 0x02 {
            Some(HandshakeNextState::Login)
        } else {
            None
        }
    }

    /// The member that a number stands for, if it stands for one.
    pub fn from_byte(b: u8) -> (res: Option<Self>)
        ensures
            res == Self::spec_from_byte(b),
    {
        match b {
            0x01 => Some(HandshakeNextState::Status),
            0x02 => Some(HandshakeNextState::Login),
            _ => None,
        }
    }

    pub open spec fn spec_name(&self) -> Seq<char> {
        match self {
            HandshakeNextState::Status => "Status"@,
            HandshakeNextState::Login => "Login"@,
        }
    }

    pub fn name(&self) -> (res: &str)
        ensures
            res@ == self.spec_name(),
    {
        match self {
            HandshakeNextState::Status => "Status",
            HandshakeNextState::Login => "Login",
        }
    }

    pub open spec fn spec_as_byte(&self) -> u8 {
        match self {
            HandshakeNextState::Status => 0x01,
            HandshakeNextState::Login => 0x02,
        }
    }

    /// The number of a member; no two members share one.
    pub fn as_byte(&self) -> (res: u8)
        ensures
            res == self.spec_as_byte(),
            Self::spec_from_byte(res) == Some(*self),
    {
        match self {
            HandshakeNextState::Status => 0x01,
            HandshakeNextState::Login => 0x02,
        }
    }
}

impl Serialize for HandshakeNextState {
    open spec fn wire(&self) -> Seq<u8> {
        self.spec_as_byte().wire()
    }

    fn mc_serialize<S: Serializer>(&self, to: &mut S) -> (res: SerializeResult) {
        self.as_byte().mc_serialize(to)
    }
}

impl Deserialize for HandshakeNextState {
    type Model = HandshakeNextState;

    open spec fn model(&self) -> HandshakeNextState {
        *self
    }

    /// A number that names no member is an error that says so.
    open spec fn decoding(data: Seq<u8>) -> Parsed<HandshakeNextState> {
        match u8::decoding(data) {
            Err(e) => Err(e),
            Ok((id, rest)) => match Self::spec_from_byte(id) {
                Some(value) => Ok((value, rest)),
                None => Err(
                    Fault::CannotUnderstandValue(
                        "invalid HandshakeNextState "@ + decimal_text(id as int),
                    ),
                ),
            },
        }
    }

    proof fn lemma_remainder(data: Seq<u8>) {
        u8::lemma_remainder(data);
    }

    fn mc_deserialize(data: &[u8]) -> (res: DeserializeResult<'_, Self>) {
        let Deserialized { value: id, data: rest } = u8::mc_deserialize(data)?;
        match Self::from_byte(id) {
            Some(value) => Deserialized::ok(value, rest),
            None => Err(
                cannot_understand(
                    "invalid HandshakeNextState ",
                    decimal_string(id as i64).as_str(),
                ),
            ),
        }
    }
}

impl ProtocolType for HandshakeNextState {
    open spec fn legal(&self) -> bool {
        true
    }

    open spec fn self_delimiting() -> bool {
        true
    }

    proof fn lemma_round_trip(&self, rest: Seq<u8>) {
        self.spec_as_byte().lemma_round_trip(rest);
    }
}

/// One of the four points of the compass.
#[derive(PartialEq, Eq, Clone, Copy, Debug)]
pub enum CardinalDirection {
    South,
    West,
    North,
    East,
}

impl CardinalDirection {
    pub open spec fn spec_from_byte(b: u8) -> Option<Self> {
        if b == 0x00 {
            Some(CardinalDirection::South)
        } else if b == 0x01 {
            Some(CardinalDirection::West)
        } else if b == 0x02 {
            Some(CardinalDirection::North)
        } else if b == 0x03 {
            Some(CardinalDirection::East)
        } else {
            None
        }
    }

    /// The member that a number stands for, if it stands for one.
    pub fn from_byte(b: u8) -> (res: Option<Self>)
        ensures
            res == Self::spec_from_byte(b),
    {
        match b {
            0x00 => Some(CardinalDirection::South),
            0x01 => Some(CardinalDirection::West),
            0x02 => Some(CardinalDirection::North),
            0x03 => Some(CardinalDirection::East),
            _ => None,
        }
    }

    pub open spec fn spec_name(&self) -> Seq<char> {
        match self {
            CardinalDirection::South => "South"@,
            CardinalDirection::West => "West"@,
            CardinalDirection::North => "North"@,
            CardinalDirection::East => "East"@,
        }
    }

    pub fn name(&self) -> (res: &str)
        ensures
            res@ == self.spec_name(),
    {
        match self {
            CardinalDirection::South => "South",
            CardinalDirection::West => "West",
            CardinalDirection::North => "North",
            CardinalDirection::East => "East",
        }
    }

    pub open spec fn spec_as_byte(&self) -> u8 {
        match self {
            CardinalDirection::South => 0x00,
            CardinalDirection::West => 0x01,
            CardinalDirection::North => 0x02,
            CardinalDirection::East => 0x03,
        }
    }

    /// The number of a member; no two members share one.
    pub fn as_byte(&self) -> (res: u8)
        ensures
            res == self.spec_as_byte(),
            Self::spec_from_byte(res) == Some(*self),
    {
        match self {
            CardinalDirection::South => 0x00,
            CardinalDirection::West => 0x01,
            CardinalDirection::North => 0x02,
            CardinalDirection::East => 0x03,
        }
    }
}

impl Serialize for CardinalDirection {
    open spec fn wire(&self) -> Seq<u8> {
        self.spec_as_byte().wire()
    }

    fn mc_serialize<S: Serializer>(&self, to: &mut S) -> (res: SerializeResult) {
        self.as_byte().mc_serialize(to)
    }
}

impl Deserialize for CardinalDirection {
    type Model = CardinalDirection;

    open spec fn model(&self) -> CardinalDirection {
        *self
    }

    /// A number that names no member is an error that says so.
    open spec fn decoding(data: Seq<u8>) -> Parsed<CardinalDirection> {
        match u8::decoding(data) {
            Err(e) => Err(e),
            Ok((id, rest)) => match Self::spec_from_byte(id) {
                Some(value) => Ok((value, rest)),
                None => Err(
                    Fault::CannotUnderstandValue(
                        "invalid CardinalDirection "@ + decimal_text(id as int),
                    ),
                ),
            },
        }
    }

    proof fn lemma_remainder(data: Seq<u8>) {
        u8::lemma_remainder(data);
    }

    fn mc_deserialize(data: &[u8]) -> (res: DeserializeResult<'_, Self>) {
        let Deserialized { value: id, data: rest } = u8::mc_deserialize(data)?;
        match Self::from_byte(id) {
            Some(value) => Deserialized::ok(value, rest),
            None => Err(
                cannot_understand("invalid CardinalDirection ", decimal_string(id as i64).as_str()),
            ),
        }
    }
}

impl ProtocolType for CardinalDirection {
    open spec fn legal(&self) -> bool {
        true
    }

    open spec fn self_delimiting() -> bool {
        true
    }

    proof fn lemma_round_trip(&self, rest: Seq<u8>) {
        self.spec_as_byte().lemma_round_trip(rest);
    }
}

/// A movement that an entity is shown to make.
#[derive(PartialEq, Eq, Clone, Copy, Debug)]
pub enum EntityAnimationKind {
    SwingMainArm,
    TakeDamage,
    LeaveBed,
    SwingOffHand,
    CriticalEffect,
    MagicCriticalEffect,
}

impl EntityAnimationKind {
    pub open spec fn spec_from_byte(b: u8) -> Option<Self> {
        if b == 0x00 {
            Some(EntityAnimationKind::SwingMainArm)
        } else if b == 0x01 {
            Some(EntityAnimationKind::TakeDamage)
        } else if b == 0x02 {
            Some(EntityAnimationKind::LeaveBed)
        } else if b == 0x03 {
            Some(EntityAnimationKind::SwingOffHand)
        } else if b == 0x04 {
            Some(EntityAnimationKind::CriticalEffect)
        } else if b == 0x05 {
            Some(EntityAnimationKind::MagicCriticalEffect)
        } else {
            None
        }
    }

    /// The member that a number stands for, if it stands for one.
    pub fn from_byte(b: u8) -> (res: Option<Self>)
        ensures
            res == Self::spec_from_byte(b),
    {
        match b {
            0x00 => Some(EntityAnimationKind::SwingMainArm),
            0x01 => Some(EntityAnimationKind::TakeDamage),
            0x02 => Some(EntityAnimationKind::LeaveBed),
            0x03 => Some(EntityAnimationKind::SwingOffHand),
            0x04 => Some(EntityAnimationKind::CriticalEffect),
            0x05 => Some(EntityAnimationKind::MagicCriticalEffect),
            _ => None,
        }
    }

    pub open spec fn spec_name(&self) -> Seq<char> {
        match self {
            EntityAnimationKind::SwingMainArm => "SwingMainArm"@,
            EntityAnimationKind::TakeDamage => "TakeDamage"@,
            EntityAnimationKind::LeaveBed => "LeaveBed"@,
            EntityAnimationKind::SwingOffHand => "SwingOffHand"@,
            EntityAnimationKind::CriticalEffect => "CriticalEffect"@,
            EntityAnimationKind::MagicCriticalEffect => "MagicCriticalEffect"@,
        }
    }

    pub fn name(&self) -> (res: &str)
        ensures
            res@ == self.spec_name(),
    {
        match self {
            EntityAnimationKind::SwingMainArm => "SwingMainArm",
            EntityAnimationKind::TakeDamage => "TakeDamage",
            EntityAnimationKind::LeaveBed => "LeaveBed",
            EntityAnimationKind::SwingOffHand => "SwingOffHand",
            EntityAnimationKind::CriticalEffect => "CriticalEffect",
            EntityAnimationKind::MagicCriticalEffect => "MagicCriticalEffect",
        }
    }

    pub open spec fn spec_as_byte(&self) -> u8 {
        match self {
            EntityAnimationKind::SwingMainArm => 0x00,
            EntityAnimationKind::TakeDamage => 0x01,
            EntityAnimationKind::LeaveBed => 0x02,
            EntityAnimationKind::SwingOffHand => 0x03,
            EntityAnimationKind::CriticalEffect => 0x04,
            EntityAnimationKind::MagicCriticalEffect => 0x05,
        }
    }

    /// The number of a member; no two members share one.
    pub fn as_byte(&self) -> (res: u8)
        ensures
            res == self.spec_as_byte(),
            Self::spec_from_byte(res) == Some(*self),
    {
        match self {
            EntityAnimationKind::SwingMainArm => 0x00,
            EntityAnimationKind::TakeDamage => 0x01,
            EntityAnimationKind::LeaveBed => 0x02,
            EntityAnimationKind::SwingOffHand => 0x03,
            EntityAnimationKind::CriticalEffect => 0x04,
            EntityAnimationKind::MagicCriticalEffect => 0x05,
        }
    }
}

impl Serialize for EntityAnimationKind {
    open spec fn wire(&self) -> Seq<u8> {
        self.spec_as_byte().wire()
    }

    fn mc_serialize<S: Serializer>(&self, to: &mut S) -> (res: SerializeResult) {
        self.as_byte().mc_serialize(to)
    }
}

impl Deserialize for EntityAnimationKind {
    type Model = EntityAnimationKind;

    open spec fn model(&self) -> EntityAnimationKind {
        *self
    }

    /// A number that names no member is an error that says so.
    open spec fn decoding(data: Seq<u8>) -> Parsed<EntityAnimationKind> {
        match u8::decoding(data) {
            Err(e) => Err(e),
            Ok((id, rest)) => match Self::spec_from_byte(id) {
                Some(value) => Ok((value, rest)),
                None => Err(
                    Fault::CannotUnderstandValue(
                        "invalid EntityAnimationKind "@ + decimal_text(id as int),
                    ),
                ),
            },
        }
    }

    proof fn lemma_remainder(data: Seq<u8>) {
        u8::lemma_remainder(data);
    }

    fn mc_deserialize(data: &[u8]) -> (res: DeserializeResult<'_, Self>) {
        let Deserialized { value: id, data: rest } = u8::mc_deserialize(data)?;
        match Self::from_byte(id) {
            Some(value) => Deserialized::ok(value, rest),
            None => Err(
                cannot_understand(
                    "invalid EntityAnimationKind ",
                    decimal_string(id as i64).as_str(),
                ),
            ),
        }
    }
}

impl ProtocolType for EntityAnimationKind {
    open spec fn legal(&self) -> bool {
        true
    }

    open spec fn self_delimiting() -> bool {
        true
    }

    proof fn lemma_round_trip(&self, rest: Seq<u8>) {
        self.spec_as_byte().lemma_round_trip(rest);
    }
}

/// The kind of thing a statistic counts.
#[derive(PartialEq, Eq, Clone, Copy, Debug)]
pub enum StatisticCategory {
    Mined,
    Crafted,
    Used,
    Broken,
    PickedUp,
    Dropped,
    Killed,
    KilledBy,
    Custom,
}

impl StatisticCategory {
    pub open spec fn spec_from_varint(b: VarInt) -> Option<Self> {
        if b.0 == 0x00 {
            Some(StatisticCategory::Mined)
        } else if b.0 == 0x01 {
            Some(StatisticCategory::Crafted)
        } else if b.0 == 0x02 {
            Some(StatisticCategory::Used)
        } else if b.0 == 0x03 {
            Some(StatisticCategory::Broken)
        } else if b.0 == 0x04 {
            Some(StatisticCategory::PickedUp)
        } else if b.0 == 0x05 {
            Some(StatisticCategory::Dropped)
        } else if b.0 == 0x06 {
            Some(StatisticCategory::Killed)
        } else if b.0 == 0x07 {
            Some(StatisticCategory::KilledBy)
        } else if b.0 == 0x08 {
            Some(StatisticCategory::Custom)
        } else {
            None
        }
    }

    /// The member that a number stands for, if it stands for one.
    pub fn from_varint(b: VarInt) -> (res: Option<Self>)
        ensures
            res == Self::spec_from_varint(b),
    {
        match b.0 {
            0x00 => Some(StatisticCategory::Mined),
            0x01 => Some(StatisticCategory::Crafted),
            0x02 => Some(StatisticCategory::Used),
            0x03 => Some(StatisticCategory::Broken),
            0x04 => Some(StatisticCategory::PickedUp),
            0x05 => Some(StatisticCategory::Dropped),
            0x06 => Some(StatisticCategory::Killed),
            0x07 => Some(StatisticCategory::KilledBy),
            0x08 => Some(StatisticCategory::Custom),
            _ => None,
        }
    }

    pub open spec fn spec_name(&self) -> Seq<char> {
        match self {
            StatisticCategory::Mined => "Mined"@,
            StatisticCategory::Crafted => "Crafted"@,
            StatisticCategory::Used => "Used"@,
            StatisticCategory::Broken => "Broken"@,
            StatisticCategory::PickedUp => "PickedUp"@,
            StatisticCategory::Dropped => "Dropped"@,
            StatisticCategory::Killed => "Killed"@,
            StatisticCategory::KilledBy => "KilledBy"@,
            StatisticCategory::Custom => "Custom"@,
        }
    }

    pub fn name(&self) -> (res: &str)
        ensures
            res@ == self.spec_name(),
    {
        match self {
            StatisticCategory::Mined => "Mined",
            StatisticCategory::Crafted => "Crafted",
            StatisticCategory::Used => "Used",
            StatisticCategory::Broken => "Broken",
            StatisticCategory::PickedUp => "PickedUp",
            StatisticCategory::Dropped => "Dropped",
            StatisticCategory::Killed => "Killed",
            StatisticCategory::KilledBy => "KilledBy",
            StatisticCategory::Custom => "Custom",
        }
    }

    pub open spec fn spec_as_varint(&self) -> VarInt {
        match self {
            StatisticCategory::Mined => VarInt(0x00),
            StatisticCategory::Crafted => VarInt(0x01),
            StatisticCategory::Used => VarInt(0x02),
            StatisticCategory::Broken => VarInt(0x03),
            StatisticCategory::PickedUp => VarInt(0x04),
            StatisticCategory::Dropped => VarInt(0x05),
            StatisticCategory::Killed => VarInt(0x06),
            StatisticCategory::KilledBy => VarInt(0x07),
            StatisticCategory::Custom => VarInt(0x08),
        }
    }

    /// The number of a member; no two members share one.
    pub fn as_varint(&self) -> (res: VarInt)
        ensures
            res == self.spec_as_varint(),
            Self::spec_from_varint(res) == Some(*self),
    {
        match self {
            StatisticCategory::Mined => VarInt(0x00),
            StatisticCategory::Crafted => VarInt(0x01),
            StatisticCategory::Used => VarInt(0x02),
            StatisticCategory::Broken => VarInt(0x03),
            StatisticCategory::PickedUp => VarInt(0x04),
            StatisticCategory::Dropped => VarInt(0x05),
            StatisticCategory::Killed => VarInt(0x06),
            StatisticCategory::KilledBy => VarInt(0x07),
            StatisticCategory::Custom => VarInt(0x08),
        }
    }
}

impl Serialize for StatisticCategory {
    open spec fn wire(&self) -> Seq<u8> {
        self.spec_as_varint().wire()
    }

    fn mc_serialize<S: Serializer>(&self, to: &mut S) -> (res: SerializeResult) {
        self.as_varint().mc_serialize(to)
    }
}

impl Deserialize for StatisticCategory {
    type Model = StatisticCategory;

    open spec fn model(&self) -> StatisticCategory {
        *self
    }

    /// A number that names no member is an error that says so.
    open spec fn decoding(data: Seq<u8>) -> Parsed<StatisticCategory> {
        match VarInt::decoding(data) {
            Err(e) => Err(e),
            Ok((id, rest)) => match Self::spec_from_varint(id) {
                Some(value) => Ok((value, rest)),
                None => Err(
                    Fault::CannotUnderstandValue("invalid StatisticCategory "@ + id.spec_text()),
                ),
            },
        }
    }

    proof fn lemma_remainder(data: Seq<u8>) {
        VarInt::lemma_remainder(data);
    }

    fn mc_deserialize(data: &[u8]) -> (res: DeserializeResult<'_, Self>) {
        let Deserialized { value: id, data: rest } = VarInt::mc_deserialize(data)?;
        match Self::from_varint(id) {
            Some(value) => Deserialized::ok(value, rest),
            None => Err(cannot_understand("invalid StatisticCategory ", id.to_string().as_str())),
        }
    }
}

impl ProtocolType for StatisticCategory {
    open spec fn legal(&self) -> bool {
        true
    }

    open spec fn self_delimiting() -> bool {
        true
    }

    proof fn lemma_round_trip(&self, rest: Seq<u8>) {
        self.spec_as_varint().lemma_round_trip(rest);
    }
}

/// One of the counts kept for a player.
#[derive(PartialEq, Eq, Clone, Copy, Debug)]
pub enum StatisticKind {
    LeaveGame,
    PlayOneMinute,
    TimeSinceDeath,
    SneakTime,
    WealkOneCm,
    CrouchOneCm,
    SprintOneCm,
    SwimOneCm,
    FallOneCm,
    ClimbOneCm,
    FlyOneCm,
    DiveOneCm,
    MinecartOneCm,
    BoatOneCm,
    PigOneCm,
    HorseOneCm,
    AviateOneCm,
    Jumps,
    Drops,
    DamageDealt,
    DamageTaken,
    Deaths,
    MobKills,
    AnimalsBread,
    PlayerKills,
    FishCaught,
    TalkedToVillager,
    TradedWithVillager,
    EatCakeSlice,
    FillCauldron,
    UseCauldron,
    CleanArmor,
    CleanBanner,
    InteractWithBrewingStand,
    InteractWithBeaccon,
    InspectDropper,
    InspectHopper,
    InspectDispenser,
    PlayNoteBlock,
    TuneNoteBlock,
    PotFlower,
    TriggerTrappedChest,
    OpenEnderChest,
    EnchantItem,
    PlayRecord,
    InteractWithFurnace,
    InteractWithCraftingTable,
    OpenChest,
    SleepInBed,
    OpenShulkerBox,
}

impl StatisticKind {
    pub open spec fn spec_from_varint(b: VarInt) -> Option<Self> {
        if b.0 == 0x00 {
            Some(StatisticKind::LeaveGame)
        } else if b.0 == 0x01 {
            Some(StatisticKind::PlayOneMinute)
        } else if b.0 == 0x02 {
            Some(StatisticKind::TimeSinceDeath)
        } else if b.0 == 0x03 {
            Some(StatisticKind::SneakTime)
        } else if b.0 == 0x04 {
            Some(StatisticKind::WealkOneCm)
        } else if b.0 == 0x05 {
            Some(StatisticKind::CrouchOneCm)
        } else if b.0 == 0x06 {
            Some(StatisticKind::SprintOneCm)
        } else if b.0 == 0x07 {
            Some(StatisticKind::SwimOneCm)
        } else if b.0 == 0x08 {
            Some(StatisticKind::FallOneCm)
        } else if b.0 == 0x09 {
            Some(StatisticKind::ClimbOneCm)
        } else if b.0 == 0x0A {
            Some(StatisticKind::FlyOneCm)
        } else if b.0 == 0x0B {
            Some(StatisticKind::DiveOneCm)
        } else if b.0 == 0x0C {
            Some(StatisticKind::MinecartOneCm)
        } else if b.0 == 0x0D {
            Some(StatisticKind::BoatOneCm)
        } else if b.0 == 0x0E {
            Some(StatisticKind::PigOneCm)
        } else if b.0 == 0x0F {
            Some(StatisticKind::HorseOneCm)
        } else if b.0 == 0x10 {
            Some(StatisticKind::AviateOneCm)
        } else if b.0 == 0x11 {
            Some(StatisticKind::Jumps)
        } else if b.0 == 0x12 {
            Some(StatisticKind::Drops)
        } else if b.0 == 0x13 {
            Some(StatisticKind::DamageDealt)
        } else if b.0 == 0x14 {
            Some(StatisticKind::DamageTaken)
        } else if b.0 == 0x15 {
            Some(StatisticKind::Deaths)
        } else if b.0 == 0x16 {
            Some(StatisticKind::MobKills)
        } else if b.0 == 0x17 {
            Some(StatisticKind::AnimalsBread)
        } else if b.0 == 0x18 {
            Some(StatisticKind::PlayerKills)
        } else if b.0 == 0x19 {
            Some(StatisticKind::FishCaught)
        } else if b.0 == 0x1A {
            Some(StatisticKind::TalkedToVillager)
        } else if b.0 == 0x1B {
            Some(StatisticKind::TradedWithVillager)
        } else if b.0 == 0x1C {
            Some(StatisticKind::EatCakeSlice)
        } else if b.0 == 0x1D {
            Some(StatisticKind::FillCauldron)
        } else if b.0 == 0x1E {
            Some(StatisticKind::UseCauldron)
        } else if b.0 == 0x1F {
            Some(StatisticKind::CleanArmor)
        } else if b.0 == 0x20 {
            Some(StatisticKind::CleanBanner)
        } else if b.0 == 0x21 {
            Some(StatisticKind::InteractWithBrewingStand)
        } else if b.0 == 0x22 {
            Some(StatisticKind::InteractWithBeaccon)
        } else if b.0 == 0x23 {
            Some(StatisticKind::InspectDropper)
        } else if b.0 == 0x24 {
            Some(StatisticKind::InspectHopper)
        } else if b.0 == 0x25 {
            Some(StatisticKind::InspectDispenser)
        } else if b.0 == 0x26 {
            Some(StatisticKind::PlayNoteBlock)
        } else if b.0 == 0x27 {
            Some(StatisticKind::TuneNoteBlock)
        } else if b.0 == 0x28 {
            Some(StatisticKind::PotFlower)
        } else if b.0 == 0x29 {
            Some(StatisticKind::TriggerTrappedChest)
        } else if b.0 == 0x2A {
            Some(StatisticKind::OpenEnderChest)
        } else if b.0 == 0x2B {
            Some(StatisticKind::EnchantItem)
        } else if b.0 == 0x2C {
            Some(StatisticKind::PlayRecord)
        } else if b.0 == 0x2D {
            Some(StatisticKind::InteractWithFurnace)
        } else if b.0 == 0x2E {
            Some(StatisticKind::InteractWithCraftingTable)
        } else if b.0 == 0x2F {
            Some(StatisticKind::OpenChest)
        } else if b.0 == 0x30 {
            Some(StatisticKind::SleepInBed)
        } else if b.0 == 0x31 {
            Some(StatisticKind::OpenShulkerBox)
        } else {
            None
        }
    }

    /// The member that a number stands for, if it stands for one.
    pub fn from_varint(b: VarInt) -> (res: Option<Self>)
        ensures
            res == Self::spec_from_varint(b),
    {
        match b.0 {
            0x00 => Some(StatisticKind::LeaveGame),
            0x01 => Some(StatisticKind::PlayOneMinute),
            0x02 => Some(StatisticKind::TimeSinceDeath),
            0x03 => Some(StatisticKind::SneakTime),
            0x04 => Some(StatisticKind::WealkOneCm),
            0x05 => Some(StatisticKind::CrouchOneCm),
            0x06 => Some(StatisticKind::SprintOneCm),
            0x07 => Some(StatisticKind::SwimOneCm),
            0x08 => Some(StatisticKind::FallOneCm),
            0x09 => Some(StatisticKind::ClimbOneCm),
            0x0A => Some(StatisticKind::FlyOneCm),
            0x0B => Some(StatisticKind::DiveOneCm),
            0x0C => Some(StatisticKind::MinecartOneCm),
            0x0D => Some(StatisticKind::BoatOneCm),
            0x0E => Some(StatisticKind::PigOneCm),
            0x0F => Some(StatisticKind::HorseOneCm),
            0x10 => Some(StatisticKind::AviateOneCm),
            0x11 => Some(StatisticKind::Jumps),
            0x12 => Some(StatisticKind::Drops),
            0x13 => Some(StatisticKind::DamageDealt),
            0x14 => Some(StatisticKind::DamageTaken),
            0x15 => Some(StatisticKind::Deaths),
            0x16 => Some(StatisticKind::MobKills),
            0x17 => Some(StatisticKind::AnimalsBread),
            0x18 => Some(StatisticKind::PlayerKills),
            0x19 => Some(StatisticKind::FishCaught),
            0x1A => Some(StatisticKind::TalkedToVillager),
            0x1B => Some(StatisticKind::TradedWithVillager),
            0x1C => Some(StatisticKind::EatCakeSlice),
            0x1D => Some(StatisticKind::FillCauldron),
            0x1E => Some(StatisticKind::UseCauldron),
            0x1F => Some(StatisticKind::CleanArmor),
            0x20 => Some(StatisticKind::CleanBanner),
            0x21 => Some(StatisticKind::InteractWithBrewingStand),
            0x22 => Some(StatisticKind::InteractWithBeaccon),
            0x23 => Some(StatisticKind::InspectDropper),
            0x24 => Some(StatisticKind::InspectHopper),
            0x25 => Some(StatisticKind::InspectDispenser),
            0x26 => Some(StatisticKind::PlayNoteBlock),
            0x27 => Some(StatisticKind::TuneNoteBlock),
            0x28 => Some(StatisticKind::PotFlower),
            0x29 => Some(StatisticKind::TriggerTrappedChest),
            0x2A => Some(StatisticKind::OpenEnderChest),
            0x2B => Some(StatisticKind::EnchantItem),
            0x2C => Some(StatisticKind::PlayRecord),
            0x2D => Some(StatisticKind::InteractWithFurnace),
            0x2E => Some(StatisticKind::InteractWithCraftingTable),
            0x2F => Some(StatisticKind::OpenChest),
            0x30 => Some(StatisticKind::SleepInBed),
            0x31 => Some(StatisticKind::OpenShulkerBox),
            _ => None,
        }
    }

    pub open spec fn spec_name(&self) -> Seq<char> {
        match self {
            StatisticKind::LeaveGame => "LeaveGame"@,
            StatisticKind::PlayOneMinute => "PlayOneMinute"@,
            StatisticKind::TimeSinceDeath => "TimeSinceDeath"@,
            StatisticKind::SneakTime => "SneakTime"@,
            StatisticKind::WealkOneCm => "WealkOneCm"@,
            StatisticKind::CrouchOneCm => "CrouchOneCm"@,
            StatisticKind::SprintOneCm => "SprintOneCm"@,
            StatisticKind::SwimOneCm => "SwimOneCm"@,
            StatisticKind::FallOneCm => "FallOneCm"@,
            StatisticKind::ClimbOneCm => "ClimbOneCm"@,
            StatisticKind::FlyOneCm => "FlyOneCm"@,
            StatisticKind::DiveOneCm => "DiveOneCm"@,
            StatisticKind::MinecartOneCm => "MinecartOneCm"@,
            StatisticKind::BoatOneCm => "BoatOneCm"@,
            StatisticKind::PigOneCm => "PigOneCm"@,
            StatisticKind::HorseOneCm => "HorseOneCm"@,
            StatisticKind::AviateOneCm => "AviateOneCm"@,
            StatisticKind::Jumps => "Jumps"@,
            StatisticKind::Drops => "Drops"@,
            StatisticKind::DamageDealt => "DamageDealt"@,
            StatisticKind::DamageTaken => "DamageTaken"@,
            StatisticKind::Deaths => "Deaths"@,
            StatisticKind::MobKills => "MobKills"@,
            StatisticKind::AnimalsBread => "AnimalsBread"@,
            StatisticKind::PlayerKills => "PlayerKills"@,
            StatisticKind::FishCaught => "FishCaught"@,
            StatisticKind::TalkedToVillager => "TalkedToVillager"@,
            StatisticKind::TradedWithVillager => "TradedWithVillager"@,
            StatisticKind::EatCakeSlice => "EatCakeSlice"@,
            StatisticKind::FillCauldron => "FillCauldron"@,
            StatisticKind::UseCauldron => "UseCauldron"@,
            StatisticKind::CleanArmor => "CleanArmor"@,
            StatisticKind::CleanBanner => "CleanBanner"@,
            StatisticKind::InteractWithBrewingStand => "InteractWithBrewingStand"@,
            StatisticKind::InteractWithBeaccon => "InteractWithBeaccon"@,
            StatisticKind::InspectDropper => "InspectDropper"@,
            StatisticKind::InspectHopper => "InspectHopper"@,
            StatisticKind::InspectDispenser => "InspectDispenser"@,
            StatisticKind::PlayNoteBlock => "PlayNoteBlock"@,
            StatisticKind::TuneNoteBlock => "TuneNoteBlock"@,
            StatisticKind::PotFlower => "PotFlower"@,
            StatisticKind::TriggerTrappedChest => "TriggerTrappedChest"@,
            StatisticKind::OpenEnderChest => "OpenEnderChest"@,
            StatisticKind::EnchantItem => "EnchantItem"@,
            StatisticKind::PlayRecord => "PlayRecord"@,
            StatisticKind::InteractWithFurnace => "InteractWithFurnace"@,
            StatisticKind::InteractWithCraftingTable => "InteractWithCraftingTable"@,
            StatisticKind::OpenChest => "OpenChest"@,
            StatisticKind::SleepInBed => "SleepInBed"@,
            StatisticKind::OpenShulkerBox => "OpenShulkerBox"@,
        }
    }

    pub fn name(&self) -> (res: &str)
        ensures
            res@ == self.spec_name(),
    {
        match self {
            StatisticKind::LeaveGame => "LeaveGame",
            StatisticKind::PlayOneMinute => "PlayOneMinute",
            StatisticKind::TimeSinceDeath => "TimeSinceDeath",
            StatisticKind::SneakTime => "SneakTime",
            StatisticKind::WealkOneCm => "WealkOneCm",
            StatisticKind::CrouchOneCm => "CrouchOneCm",
            StatisticKind::SprintOneCm => "SprintOneCm",
            StatisticKind::SwimOneCm => "SwimOneCm",
            StatisticKind::FallOneCm => "FallOneCm",
            StatisticKind::ClimbOneCm => "ClimbOneCm",
            StatisticKind::FlyOneCm => "FlyOneCm",
            StatisticKind::DiveOneCm => "DiveOneCm",
            StatisticKind::MinecartOneCm => "MinecartOneCm",
            StatisticKind::BoatOneCm => "BoatOneCm",
            StatisticKind::PigOneCm => "PigOneCm",
            StatisticKind::HorseOneCm => "HorseOneCm",
            StatisticKind::AviateOneCm => "AviateOneCm",
            StatisticKind::Jumps => "Jumps",
            StatisticKind::Drops => "Drops",
            StatisticKind::DamageDealt => "DamageDealt",
            StatisticKind::DamageTaken => "DamageTaken",
            StatisticKind::Deaths => "Deaths",
            StatisticKind::MobKills => "MobKills",
            StatisticKind::AnimalsBread => "AnimalsBread",
            StatisticKind::PlayerKills => "PlayerKills",
            StatisticKind::FishCaught => "FishCaught",
            StatisticKind::TalkedToVillager => "TalkedToVillager",
            StatisticKind::TradedWithVillager => "TradedWithVillager",
            StatisticKind::EatCakeSlice => "EatCakeSlice",
            StatisticKind::FillCauldron => "FillCauldron",
            StatisticKind::UseCauldron => "UseCauldron",
            StatisticKind::CleanArmor => "CleanArmor",
            StatisticKind::CleanBanner => "CleanBanner",
            StatisticKind::InteractWithBrewingStand => "InteractWithBrewingStand",
            StatisticKind::InteractWithBeaccon => "InteractWithBeaccon",
            StatisticKind::InspectDropper => "InspectDropper",
            StatisticKind::InspectHopper => "InspectHopper",
            StatisticKind::InspectDispenser => "InspectDispenser",
            StatisticKind::PlayNoteBlock => "PlayNoteBlock",
            StatisticKind::TuneNoteBlock => "TuneNoteBlock",
            StatisticKind::PotFlower => "PotFlower",
            StatisticKind::TriggerTrappedChest => "TriggerTrappedChest",
            StatisticKind::OpenEnderChest => "OpenEnderChest",
            StatisticKind::EnchantItem => "EnchantItem",
            StatisticKind::PlayRecord => "PlayRecord",
            StatisticKind::InteractWithFurnace => "InteractWithFurnace",
            StatisticKind::InteractWithCraftingTable => "InteractWithCraftingTable",
            StatisticKind::OpenChest => "OpenChest",
            StatisticKind::SleepInBed => "SleepInBed",
            StatisticKind::OpenShulkerBox => "OpenShulkerBox",
        }
    }

    pub open spec fn spec_as_varint(&self) -> VarInt {
        match self {
            StatisticKind::LeaveGame => VarInt(0x00),
            StatisticKind::PlayOneMinute => VarInt(0x01),
            StatisticKind::TimeSinceDeath => VarInt(0x02),
            StatisticKind::SneakTime => VarInt(0x03),
            StatisticKind::WealkOneCm => VarInt(0x04),
            StatisticKind::CrouchOneCm => VarInt(0x05),
            StatisticKind::SprintOneCm => VarInt(0x06),
            StatisticKind::SwimOneCm => VarInt(0x07),
            StatisticKind::FallOneCm => VarInt(0x08),
            StatisticKind::ClimbOneCm => VarInt(0x09),
            StatisticKind::FlyOneCm => VarInt(0x0A),
            StatisticKind::DiveOneCm => VarInt(0x0B),
            StatisticKind::MinecartOneCm => VarInt(0x0C),
            StatisticKind::BoatOneCm => VarInt(0x0D),
            StatisticKind::PigOneCm => VarInt(0x0E),
            StatisticKind::HorseOneCm => VarInt(0x0F),
            StatisticKind::AviateOneCm => VarInt(0x10),
            StatisticKind::Jumps => VarInt(0x11),
            StatisticKind::Drops => VarInt(0x12),
            StatisticKind::DamageDealt => VarInt(0x13),
            StatisticKind::DamageTaken => VarInt(0x14),
            StatisticKind::Deaths => VarInt(0x15),
            StatisticKind::MobKills => VarInt(0x16),
            StatisticKind::AnimalsBread => VarInt(0x17),
            StatisticKind::PlayerKills => VarInt(0x18),
            StatisticKind::FishCaught => VarInt(0x19),
            StatisticKind::TalkedToVillager => VarInt(0x1A),
            StatisticKind::TradedWithVillager => VarInt(0x1B),
            StatisticKind::EatCakeSlice => VarInt(0x1C),
            StatisticKind::FillCauldron => VarInt(0x1D),
            StatisticKind::UseCauldron => VarInt(0x1E),
            StatisticKind::CleanArmor => VarInt(0x1F),
            StatisticKind::CleanBanner => VarInt(0x20),
            StatisticKind::InteractWithBrewingStand => VarInt(0x21),
            StatisticKind::InteractWithBeaccon => VarInt(0x22),
            StatisticKind::InspectDropper => VarInt(0x23),
            StatisticKind::InspectHopper => VarInt(0x24),
            StatisticKind::InspectDispenser => VarInt(0x25),
            StatisticKind::PlayNoteBlock => VarInt(0x26),
            StatisticKind::TuneNoteBlock => VarInt(0x27),
            StatisticKind::PotFlower => VarInt(0x28),
            StatisticKind::TriggerTrappedChest => VarInt(0x29),
            StatisticKind::OpenEnderChest => VarInt(0x2A),
            StatisticKind::EnchantItem => VarInt(0x2B),
            StatisticKind::PlayRecord => VarInt(0x2C),
            StatisticKind::InteractWithFurnace => VarInt(0x2D),
            StatisticKind::InteractWithCraftingTable => VarInt(0x2E),
            StatisticKind::OpenChest => VarInt(0x2F),
            StatisticKind::SleepInBed => VarInt(0x30),
            StatisticKind::OpenShulkerBox => VarInt(0x31),
        }
    }

    /// The number of a member; no two members share one.
    pub fn as_varint(&self) -> (res: VarInt)
        ensures
            res == self.spec_as_varint(),
            Self::spec_from_varint(res) == Some(*self),
    {
        match self {
            StatisticKind::LeaveGame => VarInt(0x00),
            StatisticKind::PlayOneMinute => VarInt(0x01),
            StatisticKind::TimeSinceDeath => VarInt(0x02),
            StatisticKind::SneakTime => VarInt(0x03),
            StatisticKind::WealkOneCm => VarInt(0x04),
            StatisticKind::CrouchOneCm => VarInt(0x05),
            StatisticKind::SprintOneCm => VarInt(0x06),
            StatisticKind::SwimOneCm => VarInt(0x07),
            StatisticKind::FallOneCm => VarInt(0x08),
            StatisticKind::ClimbOneCm => VarInt(0x09),
            StatisticKind::FlyOneCm => VarInt(0x0A),
            StatisticKind::DiveOneCm => VarInt(0x0B),
            StatisticKind::MinecartOneCm => VarInt(0x0C),
            StatisticKind::BoatOneCm => VarInt(0x0D),
            StatisticKind::PigOneCm => VarInt(0x0E),
            StatisticKind::HorseOneCm => VarInt(0x0F),
            StatisticKind::AviateOneCm => VarInt(0x10),
            StatisticKind::Jumps => VarInt(0x11),
            StatisticKind::Drops => VarInt(0x12),
            StatisticKind::DamageDealt => VarInt(0x13),
            StatisticKind::DamageTaken => VarInt(0x14),
            StatisticKind::Deaths => VarInt(0x15),
            StatisticKind::MobKills => VarInt(0x16),
            StatisticKind::AnimalsBread => VarInt(0x17),
            StatisticKind::PlayerKills => VarInt(0x18),
            StatisticKind::FishCaught => VarInt(0x19),
            StatisticKind::TalkedToVillager => VarInt(0x1A),
            StatisticKind::TradedWithVillager => VarInt(0x1B),
            StatisticKind::EatCakeSlice => VarInt(0x1C),
            StatisticKind::FillCauldron => VarInt(0x1D),
            StatisticKind::UseCauldron => VarInt(0x1E),
            StatisticKind::CleanArmor => VarInt(0x1F),
            StatisticKind::CleanBanner => VarInt(0x20),
            StatisticKind::InteractWithBrewingStand => VarInt(0x21),
            StatisticKind::InteractWithBeaccon => VarInt(0x22),
            StatisticKind::InspectDropper => VarInt(0x23),
            StatisticKind::InspectHopper => VarInt(0x24),
            StatisticKind::InspectDispenser => VarInt(0x25),
            StatisticKind::PlayNoteBlock => VarInt(0x26),
            StatisticKind::TuneNoteBlock => VarInt(0x27),
            StatisticKind::PotFlower => VarInt(0x28),
            StatisticKind::TriggerTrappedChest => VarInt(0x29),
            StatisticKind::OpenEnderChest => VarInt(0x2A),
            StatisticKind::EnchantItem => VarInt(0x2B),
            StatisticKind::PlayRecord => VarInt(0x2C),
            StatisticKind::InteractWithFurnace => VarInt(0x2D),
            StatisticKind::InteractWithCraftingTable => VarInt(0x2E),
            StatisticKind::OpenChest => VarInt(0x2F),
            StatisticKind::SleepInBed => VarInt(0x30),
            StatisticKind::OpenShulkerBox => VarInt(0x31),
        }
    }
}

impl Serialize for StatisticKind {
    open spec fn wire(&self) -> Seq<u8> {
        self.spec_as_varint().wire()
    }

    fn mc_serialize<S: Serializer>(&self, to: &mut S) -> (res: SerializeResult) {
        self.as_varint().mc_serialize(to)
    }
}

impl Deserialize for StatisticKind {
    type Model = StatisticKind;

    open spec fn model(&self) -> StatisticKind {
        *self
    }

    /// A number that names no member is an error that says so.
    open spec fn decoding(data: Seq<u8>) -> Parsed<StatisticKind> {
        match VarInt::decoding(data) {
            Err(e) => Err(e),
            Ok((id, rest)) => match Self::spec_from_varint(id) {
                Some(value) => Ok((value, rest)),
                None => Err(
                    Fault::CannotUnderstandValue("invalid StatisticKind "@ + id.spec_text()),
                ),
            },
        }
    }

    proof fn lemma_remainder(data: Seq<u8>) {
        VarInt::lemma_remainder(data);
    }

    fn mc_deserialize(data: &[u8]) -> (res: DeserializeResult<'_, Self>) {
        let Deserialized { value: id, data: rest } = VarInt::mc_deserialize(data)?;
        match Self::from_varint(id) {
            Some(value) => Deserialized::ok(value, rest),
            None => Err(cannot_understand("invalid StatisticKind ", id.to_string().as_str())),
        }
    }
}

impl ProtocolType for StatisticKind {
    open spec fn legal(&self) -> bool {
        true
    }

    open spec fn self_delimiting() -> bool {
        true
    }

    proof fn lemma_round_trip(&self, rest: Seq<u8>) {
        self.spec_as_varint().lemma_round_trip(rest);
    }
}

/// How far the digging of a block has come.
#[derive(PartialEq, Eq, Clone, Copy, Debug)]
pub enum DiggingStatus {
    Started,
    Cancelled,
    Finished,
}

impl DiggingStatus {
    pub open spec fn spec_from_byte(b: u8) -> Option<Self> {
        if b == 0x00 {
            Some(DiggingStatus::Started)
        } else if b == 0x01 {
            Some(DiggingStatus::Cancelled)
        } else if b == 0x02 {
            Some(DiggingStatus::Finished)
        } else {
            None
        }
    }

    /// The member that a number stands for, if it stands for one.
    pub fn from_byte(b: u8) -> (res: Option<Self>)
        ensures
            res == Self::spec_from_byte(b),
    {
        match b {
            0x00 => Some(DiggingStatus::Started),
            0x01 => Some(DiggingStatus::Cancelled),
            0x02 => Some(DiggingStatus::Finished),
            _ => None,
        }
    }

    pub open spec fn spec_name(&self) -> Seq<char> {
        match self {
            DiggingStatus::Started => "Started"@,
            DiggingStatus::Cancelled => "Cancelled"@,
            DiggingStatus::Finished => "Finished"@,
        }
    }

    pub fn name(&self) -> (res: &str)
        ensures
            res@ == self.spec_name(),
    {
        match self {
            DiggingStatus::Started => "Started",
            DiggingStatus::Cancelled => "Cancelled",
            DiggingStatus::Finished => "Finished",
        }
    }

    pub open spec fn spec_as_byte(&self) -> u8 {
        match self {
            DiggingStatus::Started => 0x00,
            DiggingStatus::Cancelled => 0x01,
            DiggingStatus::Finished => 0x02,
        }
    }

    /// The number of a member; no two members share one.
    pub fn as_byte(&self) -> (res: u8)
        ensures
            res == self.spec_as_byte(),
            Self::spec_from_byte(res) == Some(*self),
    {
        match self {
            DiggingStatus::Started => 0x00,
            DiggingStatus::Cancelled => 0x01,
            DiggingStatus::Finished => 0x02,
        }
    }
}

impl Serialize for DiggingStatus {
    open spec fn wire(&self) -> Seq<u8> {
        self.spec_as_byte().wire()
    }

    fn mc_serialize<S: Serializer>(&self, to: &mut S) -> (res: SerializeResult) {
        self.as_byte().mc_serialize(to)
    }
}

impl Deserialize for DiggingStatus {
    type Model = DiggingStatus;

    open spec fn model(&self) -> DiggingStatus {
        *self
    }

    /// A number that names no member is an error that says so.
    open spec fn decoding(data: Seq<u8>) -> Parsed<DiggingStatus> {
        match u8::decoding(data) {
            Err(e) => Err(e),
            Ok((id, rest)) => match Self::spec_from_byte(id) {
                Some(value) => Ok((value, rest)),
                None => Err(
                    Fault::CannotUnderstandValue(
                        "invalid DiggingStatus "@ + decimal_text(id as int),
                    ),
                ),
            },
        }
    }

    proof fn lemma_remainder(data: Seq<u8>) {
        u8::lemma_remainder(data);
    }

    fn mc_deserialize(data: &[u8]) -> (res: DeserializeResult<'_, Self>) {
        let Deserialized { value: id, data: rest } = u8::mc_deserialize(data)?;
        match Self::from_byte(id) {
            Some(value) => Deserialized::ok(value, rest),
            None => Err(
                cannot_understand("invalid DiggingStatus ", decimal_string(id as i64).as_str()),
            ),
        }
    }
}

impl ProtocolType for DiggingStatus {
    open spec fn legal(&self) -> bool {
        true
    }

    open spec fn self_delimiting() -> bool {
        true
    }

    proof fn lemma_round_trip(&self, rest: Seq<u8>) {
        self.spec_as_byte().lemma_round_trip(rest);
    }
}

/// What the data of a block entity is to be used for.
#[derive(PartialEq, Eq, Clone, Copy, Debug)]
pub enum BlockEntityDataAction {
    SetMobSpawnerData,
    SetCommandBlockText,
    SetBeaconLevelAndPower,
    SetMobHeadRotationAndSkin,
    DeclareConduit,
    SetBannerColorAndPatterns,
    SetStructureTileEntityData,
    SetEndGatewayDestination,
    SetSignText,
    DeclareBed,
    SetJigsawBlockData,
    SetCampfireItems,
    BeehiveInformation,
}

impl BlockEntityDataAction {
    pub open spec fn spec_from_byte(b: u8) -> Option<Self> {
        if b == 0x01 {
            Some(BlockEntityDataAction::SetMobSpawnerData)
        } else if b == 0x02 {
            Some(BlockEntityDataAction::SetCommandBlockText)
        } else if b == 0x03 {
            Some(BlockEntityDataAction::SetBeaconLevelAndPower)
        } else if b == 0x04 {
            Some(BlockEntityDataAction::SetMobHeadRotationAndSkin)
        } else if b == 0x05 {
            Some(BlockEntityDataAction::DeclareConduit)
        } else if b == 0x06 {
            Some(BlockEntityDataAction::SetBannerColorAndPatterns)
        } else if b == 0x07 {
            Some(BlockEntityDataAction::SetStructureTileEntityData)
        } else if b == 0x08 {
            Some(BlockEntityDataAction::SetEndGatewayDestination)
        } else if b == 0x09 {
            Some(BlockEntityDataAction::SetSignText)
        } else if b == 0x0B {
            Some(BlockEntityDataAction::DeclareBed)
        } else if b == 0x0C {
            Some(BlockEntityDataAction::SetJigsawBlockData)
        } else if b == 0x0D {
            Some(BlockEntityDataAction::SetCampfireItems)
        } else if b == 0x0E {
            Some(BlockEntityDataAction::BeehiveInformation)
        } else {
            None
        }
    }

    /// The member that a number stands for, if it stands for one.
    pub fn from_byte(b: u8) -> (res: Option<Self>)
        ensures
            res == Self::spec_from_byte(b),
    {
        match b {
            0x01 => Some(BlockEntityDataAction::SetMobSpawnerData),
            0x02 => Some(BlockEntityDataAction::SetCommandBlockText),
            0x03 => Some(BlockEntityDataAction::SetBeaconLevelAndPower),
            0x04 => Some(BlockEntityDataAction::SetMobHeadRotationAndSkin),
            0x05 => Some(BlockEntityDataAction::DeclareConduit),
            0x06 => Some(BlockEntityDataAction::SetBannerColorAndPatterns),
            0x07 => Some(BlockEntityDataAction::SetStructureTileEntityData),
            0x08 => Some(BlockEntityDataAction::SetEndGatewayDestination),
            0x09 => Some(BlockEntityDataAction::SetSignText),
            0x0B => Some(BlockEntityDataAction::DeclareBed),
            0x0C => Some(BlockEntityDataAction::SetJigsawBlockData),
            0x0D => Some(BlockEntityDataAction::SetCampfireItems),
            0x0E => Some(BlockEntityDataAction::BeehiveInformation),
            _ => None,
        }
    }

    pub open spec fn spec_name(&self) -> Seq<char> {
        match self {
            BlockEntityDataAction::SetMobSpawnerData => "SetMobSpawnerData"@,
            BlockEntityDataAction::SetCommandBlockText => "SetCommandBlockText"@,
            BlockEntityDataAction::SetBeaconLevelAndPower => "SetBeaconLevelAndPower"@,
            BlockEntityDataAction::SetMobHeadRotationAndSkin => "SetMobHeadRotationAndSkin"@,
            BlockEntityDataAction::DeclareConduit => "DeclareConduit"@,
            BlockEntityDataAction::SetBannerColorAndPatterns => "SetBannerColorAndPatterns"@,
            BlockEntityDataAction::SetStructureTileEntityData => "SetStructureTileEntityData"@,
            BlockEntityDataAction::SetEndGatewayDestination => "SetEndGatewayDestination"@,
            BlockEntityDataAction::SetSignText => "SetSignText"@,
            BlockEntityDataAction::DeclareBed => "DeclareBed"@,
            BlockEntityDataAction::SetJigsawBlockData => "SetJigsawBlockData"@,
            BlockEntityDataAction::SetCampfireItems => "SetCampfireItems"@,
            BlockEntityDataAction::BeehiveInformation => "BeehiveInformation"@,
        }
    }

    pub fn name(&self) -> (res: &str)
        ensures
            res@ == self.spec_name(),
    {
        match self {
            BlockEntityDataAction::SetMobSpawnerData => "SetMobSpawnerData",
            BlockEntityDataAction::SetCommandBlockText => "SetCommandBlockText",
            BlockEntityDataAction::SetBeaconLevelAndPower => "SetBeaconLevelAndPower",
            BlockEntityDataAction::SetMobHeadRotationAndSkin => "SetMobHeadRotationAndSkin",
            BlockEntityDataAction::DeclareConduit => "DeclareConduit",
            BlockEntityDataAction::SetBannerColorAndPatterns => "SetBannerColorAndPatterns",
            BlockEntityDataAction::SetStructureTileEntityData => "SetStructureTileEntityData",
            BlockEntityDataAction::SetEndGatewayDestination => "SetEndGatewayDestination",
            BlockEntityDataAction::SetSignText => "SetSignText",
            BlockEntityDataAction::DeclareBed => "DeclareBed",
            BlockEntityDataAction::SetJigsawBlockData => "SetJigsawBlockData",
            BlockEntityDataAction::SetCampfireItems => "SetCampfireItems",
            BlockEntityDataAction::BeehiveInformation => "BeehiveInformation",
        }
    }

    pub open spec fn spec_as_byte(&self) -> u8 {
        match self {
            BlockEntityDataAction::SetMobSpawnerData => 0x01,
            BlockEntityDataAction::SetCommandBlockText => 0x02,
            BlockEntityDataAction::SetBeaconLevelAndPower => 0x03,
            BlockEntityDataAction::SetMobHeadRotationAndSkin => 0x04,
            BlockEntityDataAction::DeclareConduit => 0x05,
            BlockEntityDataAction::SetBannerColorAndPatterns => 0x06,
            BlockEntityDataAction::SetStructureTileEntityData => 0x07,
            BlockEntityDataAction::SetEndGatewayDestination => 0x08,
            BlockEntityDataAction::SetSignText => 0x09,
            BlockEntityDataAction::DeclareBed => 0x0B,
            BlockEntityDataAction::SetJigsawBlockData => 0x0C,
            BlockEntityDataAction::SetCampfireItems => 0x0D,
            BlockEntityDataAction::BeehiveInformation => 0x0E,
        }
    }

    /// The number of a member; no two members share one.
    pub fn as_byte(&self) -> (res: u8)
        ensures
            res == self.spec_as_byte(),
            Self::spec_from_byte(res) == Some(*self),
    {
        match self {
            BlockEntityDataAction::SetMobSpawnerData => 0x01,
            BlockEntityDataAction::SetCommandBlockText => 0x02,
            BlockEntityDataAction::SetBeaconLevelAndPower => 0x03,
            BlockEntityDataAction::SetMobHeadRotationAndSkin => 0x04,
            BlockEntityDataAction::DeclareConduit => 0x05,
            BlockEntityDataAction::SetBannerColorAndPatterns => 0x06,
            BlockEntityDataAction::SetStructureTileEntityData => 0x07,
            BlockEntityDataAction::SetEndGatewayDestination => 0x08,
            BlockEntityDataAction::SetSignText => 0x09,
            BlockEntityDataAction::DeclareBed => 0x0B,
            BlockEntityDataAction::SetJigsawBlockData => 0x0C,
            BlockEntityDataAction::SetCampfireItems => 0x0D,
            BlockEntityDataAction::BeehiveInformation => 0x0E,
        }
    }
}

impl Serialize for BlockEntityDataAction {
    open spec fn wire(&self) -> Seq<u8> {
        self.spec_as_byte().wire()
    }

    fn mc_serialize<S: Serializer>(&self, to: &mut S) -> (res: SerializeResult) {
        self.as_byte().mc_serialize(to)
    }
}

impl Deserialize for BlockEntityDataAction {
    type Model = BlockEntityDataAction;

    open spec fn model(&self) -> BlockEntityDataAction {
        *self
    }

    /// A number that names no member is an error that says so.
    open spec fn decoding(data: Seq<u8>) -> Parsed<BlockEntityDataAction> {
        match u8::decoding(data) {
            Err(e) => Err(e),
            Ok((id, rest)) => match Self::spec_from_byte(id) {
                Some(value) => Ok((value, rest)),
                None => Err(
                    Fault::CannotUnderstandValue(
                        "invalid BlockEntityDataAction "@ + decimal_text(id as int),
                    ),
                ),
            },
        }
    }

    proof fn lemma_remainder(data: Seq<u8>) {
        u8::lemma_remainder(data);
    }

    fn mc_deserialize(data: &[u8]) -> (res: DeserializeResult<'_, Self>) {
        let Deserialized { value: id, data: rest } = u8::mc_deserialize(data)?;
        match Self::from_byte(id) {
            Some(value) => Deserialized::ok(value, rest),
            None => Err(
                cannot_understand(
                    "invalid BlockEntityDataAction ",
                    decimal_string(id as i64).as_str(),
                ),
            ),
        }
    }
}

impl ProtocolType for BlockEntityDataAction {
    open spec fn legal(&self) -> bool {
        true
    }

    open spec fn self_delimiting() -> bool {
        true
    }

    proof fn lemma_round_trip(&self, rest: Seq<u8>) {
        self.spec_as_byte().lemma_round_trip(rest);
    }
}

/// How hard the game is.
#[derive(PartialEq, Eq, Clone, Copy, Debug)]
pub enum Difficulty {
    Peaceful,
    Easy,
    Normal,
    Hard,
}

impl Difficulty {
    pub open spec fn spec_from_byte(b: u8) -> Option<Self> {
        if b == 0x00 {
            Some(Difficulty::Peaceful)
        } else if b == 0x01 {
            Some(Difficulty::Easy)
        } else if b == 0x02 {
            Some(Difficulty::Normal)
        } else if b == 0x03 {
            Some(Difficulty::Hard)
        } else {
            None
        }
    }

    /// The member that a number stands for, if it stands for one.
    pub fn from_byte(b: u8) -> (res: Option<Self>)
        ensures
            res == Self::spec_from_byte(b),
    {
        match b {
            0x00 => Some(Difficulty::Peaceful),
            0x01 => Some(Difficulty::Easy),
            0x02 => Some(Difficulty::Normal),
            0x03 => Some(Difficulty::Hard),
            _ => None,
        }
    }

    pub open spec fn spec_name(&self) -> Seq<char> {
        match self {
            Difficulty::Peaceful => "Peaceful"@,
            Difficulty::Easy => "Easy"@,
            Difficulty::Normal => "Normal"@,
            Difficulty::Hard => "Hard"@,
        }
    }

    pub fn name(&self) -> (res: &str)
        ensures
            res@ == self.spec_name(),
    {
        match self {
            Difficulty::Peaceful => "Peaceful",
            Difficulty::Easy => "Easy",
            Difficulty::Normal => "Normal",
            Difficulty::Hard => "Hard",
        }
    }

    pub open spec fn spec_as_byte(&self) -> u8 {
        match self {
            Difficulty::Peaceful => 0x00,
            Difficulty::Easy => 0x01,
            Difficulty::Normal => 0x02,
            Difficulty::Hard => 0x03,
        }
    }

    /// The number of a member; no two members share one.
    pub fn as_byte(&self) -> (res: u8)
        ensures
            res == self.spec_as_byte(),
            Self::spec_from_byte(res) == Some(*self),
    {
        match self {
            Difficulty::Peaceful => 0x00,
            Difficulty::Easy => 0x01,
            Difficulty::Normal => 0x02,
            Difficulty::Hard => 0x03,
        }
    }
}

impl Serialize for Difficulty {
    open spec fn wire(&self) -> Seq<u8> {
        self.spec_as_byte().wire()
    }

    fn mc_serialize<S: Serializer>(&self, to: &mut S) -> (res: SerializeResult) {
        self.as_byte().mc_serialize(to)
    }
}

impl Deserialize for Difficulty {
    type Model = Difficulty;

    open spec fn model(&self) -> Difficulty {
        *self
    }

    /// A number that names no member is an error that says so.
    open spec fn decoding(data: Seq<u8>) -> Parsed<Difficulty> {
        match u8::decoding(data) {
            Err(e) => Err(e),
            Ok((id, rest)) => match Self::spec_from_byte(id) {
                Some(value) => Ok((value, rest)),
                None => Err(
                    Fault::CannotUnderstandValue("invalid Difficulty "@ + decimal_text(id as int)),
                ),
            },
        }
    }

    proof fn lemma_remainder(data: Seq<u8>) {
        u8::lemma_remainder(data);
    }

    fn mc_deserialize(data: &[u8]) -> (res: DeserializeResult<'_, Self>) {
        let Deserialized { value: id, data: rest } = u8::mc_deserialize(data)?;
        match Self::from_byte(id) {
            Some(value) => Deserialized::ok(value, rest),
            None => Err(
                cannot_understand("invalid Difficulty ", decimal_string(id as i64).as_str()),
            ),
        }
    }
}

impl ProtocolType for Difficulty {
    open spec fn legal(&self) -> bool {
        true
    }

    open spec fn self_delimiting() -> bool {
        true
    }

    proof fn lemma_round_trip(&self, rest: Seq<u8>) {
        self.spec_as_byte().lemma_round_trip(rest);
    }
}

/// Where on the screen a message is shown.
#[derive(PartialEq, Eq, Clone, Copy, Debug)]
pub enum ChatPosition {
    ChatBox,
    SystemMessage,
    Hotbar,
}

impl ChatPosition {
    pub open spec fn spec_from_byte(b: u8) -> Option<Self> {
        if b == 0x00 {
            Some(ChatPosition::ChatBox)
        } else if b == 0x01 {
            Some(ChatPosition::SystemMessage)
        } else if b == 0x02 {
            Some(ChatPosition::Hotbar)
        } else {
            None
        }
    }

    /// The member that a number stands for, if it stands for one.
    pub fn from_byte(b: u8) -> (res: Option<Self>)
        ensures
            res == Self::spec_from_byte(b),
    {
        match b {
            0x00 => Some(ChatPosition::ChatBox),
            0x01 => Some(ChatPosition::SystemMessage),
            0x02 => Some(ChatPosition::Hotbar),
            _ => None,
        }
    }

    pub open spec fn spec_name(&self) -> Seq<char> {
        match self {
            ChatPosition::ChatBox => "ChatBox"@,
            ChatPosition::SystemMessage => "SystemMessage"@,
            ChatPosition::Hotbar => "Hotbar"@,
        }
    }

    pub fn name(&self) -> (res: &str)
        ensures
            res@ == self.spec_name(),
    {
        match self {
            ChatPosition::ChatBox => "ChatBox",
            ChatPosition::SystemMessage => "SystemMessage",
            ChatPosition::Hotbar => "Hotbar",
        }
    }

    pub open spec fn spec_as_byte(&self) -> u8 {
        match self {
            ChatPosition::ChatBox => 0x00,
            ChatPosition::SystemMessage => 0x01,
            ChatPosition::Hotbar => 0x02,
        }
    }

    /// The number of a member; no two members share one.
    pub fn as_byte(&self) -> (res: u8)
        ensures
            res == self.spec_as_byte(),
            Self::spec_from_byte(res) == Some(*self),
    {
        match self {
            ChatPosition::ChatBox => 0x00,
            ChatPosition::SystemMessage => 0x01,
            ChatPosition::Hotbar => 0x02,
        }
    }
}

impl Serialize for ChatPosition {
    open spec fn wire(&self) -> Seq<u8> {
        self.spec_as_byte().wire()
    }

    fn mc_serialize<S: Serializer>(&self, to: &mut S) -> (res: SerializeResult) {
        self.as_byte().mc_serialize(to)
    }
}

impl Deserialize for ChatPosition {
    type Model = ChatPosition;

    open spec fn model(&self) -> ChatPosition {
        *self
    }

    /// A number that names no member is an error that says so.
    open spec fn decoding(data: Seq<u8>) -> Parsed<ChatPosition> {
        match u8::decoding(data) {
            Err(e) => Err(e),
            Ok((id, rest)) => match Self::spec_from_byte(id) {
                Some(value) => Ok((value, rest)),
                None => Err(
                    Fault::CannotUnderstandValue(
                        "invalid ChatPosition "@ + decimal_text(id as int),
                    ),
                ),
            },
        }
    }

    proof fn lemma_remainder(data: Seq<u8>) {
        u8::lemma_remainder(data);
    }

    fn mc_deserialize(data: &[u8]) -> (res: DeserializeResult<'_, Self>) {
        let Deserialized { value: id, data: rest } = u8::mc_deserialize(data)?;
        match Self::from_byte(id) {
            Some(value) => Deserialized::ok(value, rest),
            None => Err(
                cannot_understand("invalid ChatPosition ", decimal_string(id as i64).as_str()),
            ),
        }
    }
}

impl ProtocolType for ChatPosition {
    open spec fn legal(&self) -> bool {
        true
    }

    open spec fn self_delimiting() -> bool {
        true
    }

    proof fn lemma_round_trip(&self, rest: Seq<u8>) {
        self.spec_as_byte().lemma_round_trip(rest);
    }
}

/// The colour of a boss bar.
#[derive(PartialEq, Eq, Clone, Copy, Debug)]
pub enum BossBarColor {
    Pink,
    Blue,
    Red,
    Green,
    Yellow,
    Purple,
    White,
}

impl BossBarColor {
    pub open spec fn spec_from_varint(b: VarInt) -> Option<Self> {
        if b.0 == 0x00 {
            Some(BossBarColor::Pink)
        } else if b.0 == 0x01 {
            Some(BossBarColor::Blue)
        } else if b.0 == 0x02 {
            Some(BossBarColor::Red)
        } else if b.0 == 0x03 {
            Some(BossBarColor::Green)
        } else if b.0 == 0x04 {
            Some(BossBarColor::Yellow)
        } else if b.0 == 0x05 {
            Some(BossBarColor::Purple)
        } else if b.0 == 0x06 {
            Some(BossBarColor::White)
        } else {
            None
        }
    }

    /// The member that a number stands for, if it stands for one.
    pub fn from_varint(b: VarInt) -> (res: Option<Self>)
        ensures
            res == Self::spec_from_varint(b),
    {
        match b.0 {
            0x00 => Some(BossBarColor::Pink),
            0x01 => Some(BossBarColor::Blue),
            0x02 => Some(BossBarColor::Red),
            0x03 => Some(BossBarColor::Green),
            0x04 => Some(BossBarColor::Yellow),
            0x05 => Some(BossBarColor::Purple),
            0x06 => Some(BossBarColor::White),
            _ => None,
        }
    }

    pub open spec fn spec_name(&self) -> Seq<char> {
        match self {
            BossBarColor::Pink => "Pink"@,
            BossBarColor::Blue => "Blue"@,
            BossBarColor::Red => "Red"@,
            BossBarColor::Green => "Green"@,
            BossBarColor::Yellow => "Yellow"@,
            BossBarColor::Purple => "Purple"@,
            BossBarColor::White => "White"@,
        }
    }

    pub fn name(&self) -> (res: &str)
        ensures
            res@ == self.spec_name(),
    {
        match self {
            BossBarColor::Pink => "Pink",
            BossBarColor::Blue => "Blue",
            BossBarColor::Red => "Red",
            BossBarColor::Green => "Green",
            BossBarColor::Yellow => "Yellow",
            BossBarColor::Purple => "Purple",
            BossBarColor::White => "White",
        }
    }

    pub open spec fn spec_as_varint(&self) -> VarInt {
        match self {
            BossBarColor::Pink => VarInt(0x00),
            BossBarColor::Blue => VarInt(0x01),
            BossBarColor::Red => VarInt(0x02),
            BossBarColor::Green => VarInt(0x03),
            BossBarColor::Yellow => VarInt(0x04),
            BossBarColor::Purple => VarInt(0x05),
            BossBarColor::White => VarInt(0x06),
        }
    }

    /// The number of a member; no two members share one.
    pub fn as_varint(&self) -> (res: VarInt)
        ensures
            res == self.spec_as_varint(),
            Self::spec_from_varint(res) == Some(*self),
    {
        match self {
            BossBarColor::Pink => VarInt(0x00),
            BossBarColor::Blue => VarInt(0x01),
            BossBarColor::Red => VarInt(0x02),
            BossBarColor::Green => VarInt(0x03),
            BossBarColor::Yellow => VarInt(0x04),
            BossBarColor::Purple => VarInt(0x05),
            BossBarColor::White => VarInt(0x06),
        }
    }
}

impl Serialize for BossBarColor {
    open spec fn wire(&self) -> Seq<u8> {
        self.spec_as_varint().wire()
    }

    fn mc_serialize<S: Serializer>(&self, to: &mut S) -> (res: SerializeResult) {
        self.as_varint().mc_serialize(to)
    }
}

impl Deserialize for BossBarColor {
    type Model = BossBarColor;

    open spec fn model(&self) -> BossBarColor {
        *self
    }

    /// A number that names no member is an error that says so.
    open spec fn decoding(data: Seq<u8>) -> Parsed<BossBarColor> {
        match VarInt::decoding(data) {
            Err(e) => Err(e),
            Ok((id, rest)) => match Self::spec_from_varint(id) {
                Some(value) => Ok((value, rest)),
                None => Err(
                    Fault::CannotUnderstandValue("invalid BossBarColor "@ + id.spec_text()),
                ),
            },
        }
    }

    proof fn lemma_remainder(data: Seq<u8>) {
        VarInt::lemma_remainder(data);
    }

    fn mc_deserialize(data: &[u8]) -> (res: DeserializeResult<'_, Self>) {
        let Deserialized { value: id, data: rest } = VarInt::mc_deserialize(data)?;
        match Self::from_varint(id) {
            Some(value) => Deserialized::ok(value, rest),
            None => Err(cannot_understand("invalid BossBarColor ", id.to_string().as_str())),
        }
    }
}

impl ProtocolType for BossBarColor {
    open spec fn legal(&self) -> bool {
        true
    }

    open spec fn self_delimiting() -> bool {
        true
    }

    proof fn lemma_round_trip(&self, rest: Seq<u8>) {
        self.spec_as_varint().lemma_round_trip(rest);
    }
}

/// Into how many parts a boss bar is marked off.
#[derive(PartialEq, Eq, Clone, Copy, Debug)]
pub enum BossBarDivision {
    NoDivision,
    SixNotches,
    TenNotches,
    TwelveNotches,
    TwentyNotches,
}

impl BossBarDivision {
    pub open spec fn spec_from_varint(b: VarInt) -> Option<Self> {
        if b.0 == 0x00 {
            Some(BossBarDivision::NoDivision)
        } else if b.0 == 0x01 {
            Some(BossBarDivision::SixNotches)
        } else if b.0 == 0x02 {
            Some(BossBarDivision::TenNotches)
        } else if b.0 == 0x03 {
            Some(BossBarDivision::TwelveNotches)
        } else if b.0 == 0x04 {
            Some(BossBarDivision::TwentyNotches)
        } else {
            None
        }
    }

    /// The member that a number stands for, if it stands for one.
    pub fn from_varint(b: VarInt) -> (res: Option<Self>)
        ensures
            res == Self::spec_from_varint(b),
    {
        match b.0 {
            0x00 => Some(BossBarDivision::NoDivision),
            0x01 => Some(BossBarDivision::SixNotches),
            0x02 => Some(BossBarDivision::TenNotches),
            0x03 => Some(BossBarDivision::TwelveNotches),
            0x04 => Some(BossBarDivision::TwentyNotches),
            _ => None,
        }
    }

    pub open spec fn spec_name(&self) -> Seq<char> {
        match self {
            BossBarDivision::NoDivision => "NoDivision"@,
            BossBarDivision::SixNotches => "SixNotches"@,
            BossBarDivision::TenNotches => "TenNotches"@,
            BossBarDivision::TwelveNotches => "TwelveNotches"@,
            BossBarDivision::TwentyNotches => "TwentyNotches"@,
        }
    }

    pub fn name(&self) -> (res: &str)
        ensures
            res@ == self.spec_name(),
    {
        match self {
            BossBarDivision::NoDivision => "NoDivision",
            BossBarDivision::SixNotches => "SixNotches",
            BossBarDivision::TenNotches => "TenNotches",
            BossBarDivision::TwelveNotches => "TwelveNotches",
            BossBarDivision::TwentyNotches => "TwentyNotches",
        }
    }

    pub open spec fn spec_as_varint(&self) -> VarInt {
        match self {
            BossBarDivision::NoDivision => VarInt(0x00),
            BossBarDivision::SixNotches => VarInt(0x01),
            BossBarDivision::TenNotches => VarInt(0x02),
            BossBarDivision::TwelveNotches => VarInt(0x03),
            BossBarDivision::TwentyNotches => VarInt(0x04),
        }
    }

    /// The number of a member; no two members share one.
    pub fn as_varint(&self) -> (res: VarInt)
        ensures
            res == self.spec_as_varint(),
            Self::spec_from_varint(res) == Some(*self),
    {
        match self {
            BossBarDivision::NoDivision => VarInt(0x00),
            BossBarDivision::SixNotches => VarInt(0x01),
            BossBarDivision::TenNotches => VarInt(0x02),
            BossBarDivision::TwelveNotches => VarInt(0x03),
            BossBarDivision::TwentyNotches => VarInt(0x04),
        }
    }
}

impl Serialize for BossBarDivision {
    open spec fn wire(&self) -> Seq<u8> {
        self.spec_as_varint().wire()
    }

    fn mc_serialize<S: Serializer>(&self, to: &mut S) -> (res: SerializeResult) {
        self.as_varint().mc_serialize(to)
    }
}

impl Deserialize for BossBarDivision {
    type Model = BossBarDivision;

    open spec fn model(&self) -> BossBarDivision {
        *self
    }

    /// A number that names no member is an error that says so.
    open spec fn decoding(data: Seq<u8>) -> Parsed<BossBarDivision> {
        match VarInt::decoding(data) {
            Err(e) => Err(e),
            Ok((id, rest)) => match Self::spec_from_varint(id) {
                Some(value) => Ok((value, rest)),
                None => Err(
                    Fault::CannotUnderstandValue("invalid BossBarDivision "@ + id.spec_text()),
                ),
            },
        }
    }

    proof fn lemma_remainder(data: Seq<u8>) {
        VarInt::lemma_remainder(data);
    }

    fn mc_deserialize(data: &[u8]) -> (res: DeserializeResult<'_, Self>) {
        let Deserialized { value: id, data: rest } = VarInt::mc_deserialize(data)?;
        match Self::from_varint(id) {
            Some(value) => Deserialized::ok(value, rest),
            None => Err(cannot_understand("invalid BossBarDivision ", id.to_string().as_str())),
        }
    }
}

impl ProtocolType for BossBarDivision {
    open spec fn legal(&self) -> bool {
        true
    }

    open spec fn self_delimiting() -> bool {
        true
    }

    proof fn lemma_round_trip(&self, rest: Seq<u8>) {
        self.spec_as_varint().lemma_round_trip(rest);
    }
}

/// What a boss bar does to the world around it. One bit for each.
#[derive(Clone, Copy, PartialEq, Eq, Debug, Default)]
pub struct BossBarFlags(pub u8);

impl BossBarFlags {
    pub open spec fn spec_is_darken_sky(&self) -> bool {
        self.0 & 0x01 != 0
    }

    #[verifier::when_used_as_spec(spec_is_darken_sky)]
    pub fn is_darken_sky(&self) -> (res: bool)
        ensures
            res == self.spec_is_darken_sky(),
    {
        self.0 & 0x01 != 0
    }

    /// Sets the bit, or clears it, and leaves the others as they are.
    pub fn set_darken_sky(&mut self, value: bool)
        ensures
            final(self).0 == with_bits(old(self).0, 0x01, value),
            final(self).is_darken_sky() == value,
            final(self).is_dragon_bar() == old(self).is_dragon_bar(),
            final(self).is_create_fog() == old(self).is_create_fog(),
    {
        proof {
            lemma_with_bits_reads(self.0, 0x01, value);
            lemma_with_bits_keeps(self.0, 0x01, value, 0x02);
            lemma_with_bits_keeps(self.0, 0x01, value, 0x04);
        }
        self.0 = set_bits(self.0, 0x01, value);
    }

    pub fn with_darken_sky(self, value: bool) -> (res: Self)
        ensures
            res.0 == with_bits(self.0, 0x01, value),
            res.is_darken_sky() == value,
            res.is_dragon_bar() == self.is_dragon_bar(),
            res.is_create_fog() == self.is_create_fog(),
    {
        proof {
            lemma_with_bits_reads(self.0, 0x01, value);
            lemma_with_bits_keeps(self.0, 0x01, value, 0x02);
            lemma_with_bits_keeps(self.0, 0x01, value, 0x04);
        }
        BossBarFlags(set_bits(self.0, 0x01, value))
    }

    pub open spec fn spec_is_dragon_bar(&self) -> bool {
        self.0 & 0x02 != 0
    }

    #[verifier::when_used_as_spec(spec_is_dragon_bar)]
    pub fn is_dragon_bar(&self) -> (res: bool)
        ensures
            res == self.spec_is_dragon_bar(),
    {
        self.0 & 0x02 != 0
    }

    /// Sets the bit, or clears it, and leaves the others as they are.
    pub fn set_dragon_bar(&mut self, value: bool)
        ensures
            final(self).0 == with_bits(old(self).0, 0x02, value),
            final(self).is_dragon_bar() == value,
            final(self).is_darken_sky() == old(self).is_darken_sky(),
            final(self).is_create_fog() == old(self).is_create_fog(),
    {
        proof {
            lemma_with_bits_reads(self.0, 0x02, value);
            lemma_with_bits_keeps(self.0, 0x02, value, 0x01);
            lemma_with_bits_keeps(self.0, 0x02, value, 0x04);
        }
        self.0 = set_bits(self.0, 0x02, value);
    }

    pub fn with_dragon_bar(self, value: bool) -> (res: Self)
        ensures
            res.0 == with_bits(self.0, 0x02, value),
            res.is_dragon_bar() == value,
            res.is_darken_sky() == self.is_darken_sky(),
            res.is_create_fog() == self.is_create_fog(),
    {
        proof {
            lemma_with_bits_reads(self.0, 0x02, value);
            lemma_with_bits_keeps(self.0, 0x02, value, 0x01);
            lemma_with_bits_keeps(self.0, 0x02, value, 0x04);
        }
        BossBarFlags(set_bits(self.0, 0x02, value))
    }

    pub open spec fn spec_is_create_fog(&self) -> bool {
        self.0 & 0x04 != 0
    }

    #[verifier::when_used_as_spec(spec_is_create_fog)]
    pub fn is_create_fog(&self) -> (res: bool)
        ensures
            res == self.spec_is_create_fog(),
    {
        self.0 & 0x04 != 0
    }

    /// Sets the bit, or clears it, and leaves the others as they are.
    pub fn set_create_fog(&mut self, value: bool)
        ensures
            final(self).0 == with_bits(old(self).0, 0x04, value),
            final(self).is_create_fog() == value,
            final(self).is_darken_sky() == old(self).is_darken_sky(),
            final(self).is_dragon_bar() == old(self).is_dragon_bar(),
    {
        proof {
            lemma_with_bits_reads(self.0, 0x04, value);
            lemma_with_bits_keeps(self.0, 0x04, value, 0x01);
            lemma_with_bits_keeps(self.0, 0x04, value, 0x02);
        }
        self.0 = set_bits(self.0, 0x04, value);
    }

    pub fn with_create_fog(self, value: bool) -> (res: Self)
        ensures
            res.0 == with_bits(self.0, 0x04, value),
            res.is_create_fog() == value,
            res.is_darken_sky() == self.is_darken_sky(),
            res.is_dragon_bar() == self.is_dragon_bar(),
    {
        proof {
            lemma_with_bits_reads(self.0, 0x04, value);
            lemma_with_bits_keeps(self.0, 0x04, value, 0x01);
            lemma_with_bits_keeps(self.0, 0x04, value, 0x02);
        }
        BossBarFlags(set_bits(self.0, 0x04, value))
    }
}

impl Serialize for BossBarFlags {
    open spec fn wire(&self) -> Seq<u8> {
        self.0.wire()
    }

    fn mc_serialize<S: Serializer>(&self, to: &mut S) -> (res: SerializeResult) {
        to.serialize_byte(self.0)
    }
}

impl Deserialize for BossBarFlags {
    type Model = BossBarFlags;

    open spec fn model(&self) -> BossBarFlags {
        *self
    }

    open spec fn decoding(data: Seq<u8>) -> Parsed<BossBarFlags> {
        match u8::decoding(data) {
            Err(e) => Err(e),
            Ok((b, rest)) => Ok((BossBarFlags(b), rest)),
        }
    }

    proof fn lemma_remainder(data: Seq<u8>) {
        u8::lemma_remainder(data);
    }

    fn mc_deserialize(data: &[u8]) -> (res: DeserializeResult<'_, Self>) {
        let Deserialized { value: b, data: rest } = u8::mc_deserialize(data)?;
        Deserialized::ok(BossBarFlags(b), rest)
    }
}

impl ProtocolType for BossBarFlags {
    open spec fn legal(&self) -> bool {
        true
    }

    open spec fn self_delimiting() -> bool {
        true
    }

    proof fn lemma_round_trip(&self, rest: Seq<u8>) {
        self.0.lemma_round_trip(rest);
    }
}

/// The volume setting that a sound falls under.
#[derive(PartialEq, Eq, Clone, Copy, Debug)]
pub enum SoundCategory {
    Master,
    Music,
    Records,
    Weather,
    Block,
    Hostile,
    Neutral,
    Player,
    Ambient,
    Voice,
}

impl SoundCategory {
    pub open spec fn spec_from_varint(b: VarInt) -> Option<Self> {
        if b.0 == 0x00 {
            Some(SoundCategory::Master)
        } else if b.0 == 0x01 {
            Some(SoundCategory::Music)
        } else if b.0 == 0x02 {
            Some(SoundCategory::Records)
        } else if b.0 == 0x03 {
            Some(SoundCategory::Weather)
        } else if b.0 == 0x04 {
            Some(SoundCategory::Block)
        } else if b.0 == 0x05 {
            Some(SoundCategory::Hostile)
        } else if b.0 == 0x06 {
            Some(SoundCategory::Neutral)
        } else if b.0 == 0x07 {
            Some(SoundCategory::Player)
        } else if b.0 == 0x08 {
            Some(SoundCategory::Ambient)
        } else if b.0 == 0x09 {
            Some(SoundCategory::Voice)
        } else {
            None
        }
    }

    /// The member that a number stands for, if it stands for one.
    pub fn from_varint(b: VarInt) -> (res: Option<Self>)
        ensures
            res == Self::spec_from_varint(b),
    {
        match b.0 {
            0x00 => Some(SoundCategory::Master),
            0x01 => Some(SoundCategory::Music),
            0x02 => Some(SoundCategory::Records),
            0x03 => Some(SoundCategory::Weather),
            0x04 => Some(SoundCategory::Block),
            0x05 => Some(SoundCategory::Hostile),
            0x06 => Some(SoundCategory::Neutral),
            0x07 => Some(SoundCategory::Player),
            0x08 => Some(SoundCategory::Ambient),
            0x09 => Some(SoundCategory::Voice),
            _ => None,
        }
    }

    pub open spec fn spec_name(&self) -> Seq<char> {
        match self {
            SoundCategory::Master => "Master"@,
            SoundCategory::Music => "Music"@,
            SoundCategory::Records => "Records"@,
            SoundCategory::Weather => "Weather"@,
            SoundCategory::Block => "Block"@,
            SoundCategory::Hostile => "Hostile"@,
            SoundCategory::Neutral => "Neutral"@,
            SoundCategory::Player => "Player"@,
            SoundCategory::Ambient => "Ambient"@,
            SoundCategory::Voice => "Voice"@,
        }
    }

    pub fn name(&self) -> (res: &str)
        ensures
            res@ == self.spec_name(),
    {
        match self {
            SoundCategory::Master => "Master",
            SoundCategory::Music => "Music",
            SoundCategory::Records => "Records",
            SoundCategory::Weather => "Weather",
            SoundCategory::Block => "Block",
            SoundCategory::Hostile => "Hostile",
            SoundCategory::Neutral => "Neutral",
            SoundCategory::Player => "Player",
            SoundCategory::Ambient => "Ambient",
            SoundCategory::Voice => "Voice",
        }
    }

    pub open spec fn spec_as_varint(&self) -> VarInt {
        match self {
            SoundCategory::Master => VarInt(0x00),
            SoundCategory::Music => VarInt(0x01),
            SoundCategory::Records => VarInt(0x02),
            SoundCategory::Weather => VarInt(0x03),
            SoundCategory::Block => VarInt(0x04),
            SoundCategory::Hostile => VarInt(0x05),
            SoundCategory::Neutral => VarInt(0x06),
            SoundCategory::Player => VarInt(0x07),
            SoundCategory::Ambient => VarInt(0x08),
            SoundCategory::Voice => VarInt(0x09),
        }
    }

    /// The number of a member; no two members share one.
    pub fn as_varint(&self) -> (res: VarInt)
        ensures
            res == self.spec_as_varint(),
            Self::spec_from_varint(res) == Some(*self),
    {
        match self {
            SoundCategory::Master => VarInt(0x00),
            SoundCategory::Music => VarInt(0x01),
            SoundCategory::Records => VarInt(0x02),
            SoundCategory::Weather => VarInt(0x03),
            SoundCategory::Block => VarInt(0x04),
            SoundCategory::Hostile => VarInt(0x05),
            SoundCategory::Neutral => VarInt(0x06),
            SoundCategory::Player => VarInt(0x07),
            SoundCategory::Ambient => VarInt(0x08),
            SoundCategory::Voice => VarInt(0x09),
        }
    }
}

impl Serialize for SoundCategory {
    open spec fn wire(&self) -> Seq<u8> {
        self.spec_as_varint().wire()
    }

    fn mc_serialize<S: Serializer>(&self, to: &mut S) -> (res: SerializeResult) {
        self.as_varint().mc_serialize(to)
    }
}

impl Deserialize for SoundCategory {
    type Model = SoundCategory;

    open spec fn model(&self) -> SoundCategory {
        *self
    }

    /// A number that names no member is an error that says so.
    open spec fn decoding(data: Seq<u8>) -> Parsed<SoundCategory> {
        match VarInt::decoding(data) {
            Err(e) => Err(e),
            Ok((id, rest)) => match Self::spec_from_varint(id) {
                Some(value) => Ok((value, rest)),
                None => Err(
                    Fault::CannotUnderstandValue("invalid SoundCategory "@ + id.spec_text()),
                ),
            },
        }
    }

    proof fn lemma_remainder(data: Seq<u8>) {
        VarInt::lemma_remainder(data);
    }

    fn mc_deserialize(data: &[u8]) -> (res: DeserializeResult<'_, Self>) {
        let Deserialized { value: id, data: rest } = VarInt::mc_deserialize(data)?;
        match Self::from_varint(id) {
            Some(value) => Deserialized::ok(value, rest),
            None => Err(cannot_understand("invalid SoundCategory ", id.to_string().as_str())),
        }
    }
}

impl ProtocolType for SoundCategory {
    open spec fn legal(&self) -> bool {
        true
    }

    open spec fn self_delimiting() -> bool {
        true
    }

    proof fn lemma_round_trip(&self, rest: Seq<u8>) {
        self.spec_as_varint().lemma_round_trip(rest);
    }
}

/// The rules a player plays under.
#[derive(PartialEq, Eq, Clone, Copy, Debug)]
pub enum GameMode {
    Survival,
    Creative,
    Adventure,
    Spectator,
}

impl GameMode {
    pub open spec fn spec_from_byte(b: u8) -> Option<Self> {
        if b == 0x00 {
            Some(GameMode::Survival)
        } else if b == 0x01 {
            Some(GameMode::Creative)
        } else if b == 0x02 {
            Some(GameMode::Adventure)
        } else if b == 0x03 {
            Some(GameMode::Spectator)
        } else {
            None
        }
    }

    /// The member that a number stands for, if it stands for one.
    pub fn from_byte(b: u8) -> (res: Option<Self>)
        ensures
            res == Self::spec_from_byte(b),
    {
        match b {
            0x00 => Some(GameMode::Survival),
            0x01 => Some(GameMode::Creative),
            0x02 => Some(GameMode::Adventure),
            0x03 => Some(GameMode::Spectator),
            _ => None,
        }
    }

    pub open spec fn spec_name(&self) -> Seq<char> {
        match self {
            GameMode::Survival => "Survival"@,
            GameMode::Creative => "Creative"@,
            GameMode::Adventure => "Adventure"@,
            GameMode::Spectator => "Spectator"@,
        }
    }

    pub fn name(&self) -> (res: &str)
        ensures
            res@ == self.spec_name(),
    {
        match self {
            GameMode::Survival => "Survival",
            GameMode::Creative => "Creative",
            GameMode::Adventure => "Adventure",
            GameMode::Spectator => "Spectator",
        }
    }

    pub open spec fn spec_as_byte(&self) -> u8 {
        match self {
            GameMode::Survival => 0x00,
            GameMode::Creative => 0x01,
            GameMode::Adventure => 0x02,
            GameMode::Spectator => 0x03,
        }
    }

    /// The number of a member; no two members share one.
    pub fn as_byte(&self) -> (res: u8)
        ensures
            res == self.spec_as_byte(),
            Self::spec_from_byte(res) == Some(*self),
    {
        match self {
            GameMode::Survival => 0x00,
            GameMode::Creative => 0x01,
            GameMode::Adventure => 0x02,
            GameMode::Spectator => 0x03,
        }
    }
}

impl Serialize for GameMode {
    open spec fn wire(&self) -> Seq<u8> {
        self.spec_as_byte().wire()
    }

    fn mc_serialize<S: Serializer>(&self, to: &mut S) -> (res: SerializeResult) {
        self.as_byte().mc_serialize(to)
    }
}

impl Deserialize for GameMode {
    type Model = GameMode;

    open spec fn model(&self) -> GameMode {
        *self
    }

    /// A number that names no member is an error that says so.
    open spec fn decoding(data: Seq<u8>) -> Parsed<GameMode> {
        match u8::decoding(data) {
            Err(e) => Err(e),
            Ok((id, rest)) => match Self::spec_from_byte(id) {
                Some(value) => Ok((value, rest)),
                None => Err(
                    Fault::CannotUnderstandValue("invalid GameMode "@ + decimal_text(id as int)),
                ),
            },
        }
    }

    proof fn lemma_remainder(data: Seq<u8>) {
        u8::lemma_remainder(data);
    }

    fn mc_deserialize(data: &[u8]) -> (res: DeserializeResult<'_, Self>) {
        let Deserialized { value: id, data: rest } = u8::mc_deserialize(data)?;
        match Self::from_byte(id) {
            Some(value) => Deserialized::ok(value, rest),
            None => Err(cannot_understand("invalid GameMode ", decimal_string(id as i64).as_str())),
        }
    }
}

impl ProtocolType for GameMode {
    open spec fn legal(&self) -> bool {
        true
    }

    open spec fn self_delimiting() -> bool {
        true
    }

    proof fn lemma_round_trip(&self, rest: Seq<u8>) {
        self.spec_as_byte().lemma_round_trip(rest);
    }
}

/// What follows the end of the game.
#[derive(PartialEq, Eq, Clone, Copy, Debug)]
pub enum WinGameAction {
    Respawn,
    RollCreditsAndRespawn,
}

impl WinGameAction {
    pub open spec fn spec_from_byte(b: u8) -> Option<Self> {
        if b == 0x00 {
            Some(WinGameAction::Respawn)
        } else if b == 0x01 {
            Some(WinGameAction::RollCreditsAndRespawn)
        } else {
            None
        }
    }

    /// The member that a number stands for, if it stands for one.
    pub fn from_byte(b: u8) -> (res: Option<Self>)
        ensures
            res == Self::spec_from_byte(b),
    {
        match b {
            0x00 => Some(WinGameAction::Respawn),
            0x01 => Some(WinGameAction::RollCreditsAndRespawn),
            _ => None,
        }
    }

    pub open spec fn spec_name(&self) -> Seq<char> {
        match self {
            WinGameAction::Respawn => "Respawn"@,
            WinGameAction::RollCreditsAndRespawn => "RollCreditsAndRespawn"@,
        }
    }

    pub fn name(&self) -> (res: &str)
        ensures
            res@ == self.spec_name(),
    {
        match self {
            WinGameAction::Respawn => "Respawn",
            WinGameAction::RollCreditsAndRespawn => "RollCreditsAndRespawn",
        }
    }

    pub open spec fn spec_as_byte(&self) -> u8 {
        match self {
            WinGameAction::Respawn => 0x00,
            WinGameAction::RollCreditsAndRespawn => 0x01,
        }
    }

    /// The number of a member; no two members share one.
    pub fn as_byte(&self) -> (res: u8)
        ensures
            res == self.spec_as_byte(),
            Self::spec_from_byte(res) == Some(*self),
    {
        match self {
            WinGameAction::Respawn => 0x00,
            WinGameAction::RollCreditsAndRespawn => 0x01,
        }
    }
}

impl Serialize for WinGameAction {
    open spec fn wire(&self) -> Seq<u8> {
        self.spec_as_byte().wire()
    }

    fn mc_serialize<S: Serializer>(&self, to: &mut S) -> (res: SerializeResult) {
        self.as_byte().mc_serialize(to)
    }
}

impl Deserialize for WinGameAction {
    type Model = WinGameAction;

    open spec fn model(&self) -> WinGameAction {
        *self
    }

    /// A number that names no member is an error that says so.
    open spec fn decoding(data: Seq<u8>) -> Parsed<WinGameAction> {
        match u8::decoding(data) {
            Err(e) => Err(e),
            Ok((id, rest)) => match Self::spec_from_byte(id) {
                Some(value) => Ok((value, rest)),
                None => Err(
                    Fault::CannotUnderstandValue(
                        "invalid WinGameAction "@ + decimal_text(id as int),
                    ),
                ),
            },
        }
    }

    proof fn lemma_remainder(data: Seq<u8>) {
        u8::lemma_remainder(data);
    }

    fn mc_deserialize(data: &[u8]) -> (res: DeserializeResult<'_, Self>) {
        let Deserialized { value: id, data: rest } = u8::mc_deserialize(data)?;
        match Self::from_byte(id) {
            Some(value) => Deserialized::ok(value, rest),
            None => Err(
                cannot_understand("invalid WinGameAction ", decimal_string(id as i64).as_str()),
            ),
        }
    }
}

impl ProtocolType for WinGameAction {
    open spec fn legal(&self) -> bool {
        true
    }

    open spec fn self_delimiting() -> bool {
        true
    }

    proof fn lemma_round_trip(&self, rest: Seq<u8>) {
        self.spec_as_byte().lemma_round_trip(rest);
    }
}

/// A message of the demonstration version.
#[derive(PartialEq, Eq, Clone, Copy, Debug)]
pub enum DemoEvent {
    ShowWelcomeScreen,
    TellMovementControls,
    TellJumpControl,
    TellInventoryControl,
    EndDemo,
}

impl DemoEvent {
    pub open spec fn spec_from_byte(b: u8) -> Option<Self> {
        if b == 0x00 {
            Some(DemoEvent::ShowWelcomeScreen)
        } else if b == 0x65 {
            Some(DemoEvent::TellMovementControls)
        } else if b == 0x66 {
            Some(DemoEvent::TellJumpControl)
        } else if b == 0x67 {
            Some(DemoEvent::TellInventoryControl)
        } else if b == 0x68 {
            Some(DemoEvent::EndDemo)
        } else {
            None
        }
    }

    /// The member that a number stands for, if it stands for one.
    pub fn from_byte(b: u8) -> (res: Option<Self>)
        ensures
            res == Self::spec_from_byte(b),
    {
        match b {
            0x00 => Some(DemoEvent::ShowWelcomeScreen),
            0x65 => Some(DemoEvent::TellMovementControls),
            0x66 => Some(DemoEvent::TellJumpControl),
            0x67 => Some(DemoEvent::TellInventoryControl),
            0x68 => Some(DemoEvent::EndDemo),
            _ => None,
        }
    }

    pub open spec fn spec_name(&self) -> Seq<char> {
        match self {
            DemoEvent::ShowWelcomeScreen => "ShowWelcomeScreen"@,
            DemoEvent::TellMovementControls => "TellMovementControls"@,
            DemoEvent::TellJumpControl => "TellJumpControl"@,
            DemoEvent::TellInventoryControl => "TellInventoryControl"@,
            DemoEvent::EndDemo => "EndDemo"@,
        }
    }

    pub fn name(&self) -> (res: &str)
        ensures
            res@ == self.spec_name(),
    {
        match self {
            DemoEvent::ShowWelcomeScreen => "ShowWelcomeScreen",
            DemoEvent::TellMovementControls => "TellMovementControls",
            DemoEvent::TellJumpControl => "TellJumpControl",
            DemoEvent::TellInventoryControl => "TellInventoryControl",
            DemoEvent::EndDemo => "EndDemo",
        }
    }

    pub open spec fn spec_as_byte(&self) -> u8 {
        match self {
            DemoEvent::ShowWelcomeScreen => 0x00,
            DemoEvent::TellMovementControls => 0x65,
            DemoEvent::TellJumpControl => 0x66,
            DemoEvent::TellInventoryControl => 0x67,
            DemoEvent::EndDemo => 0x68,
        }
    }

    /// The number of a member; no two members share one.
    pub fn as_byte(&self) -> (res: u8)
        ensures
            res == self.spec_as_byte(),
            Self::spec_from_byte(res) == Some(*self),
    {
        match self {
            DemoEvent::ShowWelcomeScreen => 0x00,
            DemoEvent::TellMovementControls => 0x65,
            DemoEvent::TellJumpControl => 0x66,
            DemoEvent::TellInventoryControl => 0x67,
            DemoEvent::EndDemo => 0x68,
        }
    }
}

impl Serialize for DemoEvent {
    open spec fn wire(&self) -> Seq<u8> {
        self.spec_as_byte().wire()
    }

    fn mc_serialize<S: Serializer>(&self, to: &mut S) -> (res: SerializeResult) {
        self.as_byte().mc_serialize(to)
    }
}

impl Deserialize for DemoEvent {
    type Model = DemoEvent;

    open spec fn model(&self) -> DemoEvent {
        *self
    }

    /// A number that names no member is an error that says so.
    open spec fn decoding(data: Seq<u8>) -> Parsed<DemoEvent> {
        match u8::decoding(data) {
            Err(e) => Err(e),
            Ok((id, rest)) => match Self::spec_from_byte(id) {
                Some(value) => Ok((value, rest)),
                None => Err(
                    Fault::CannotUnderstandValue("invalid DemoEvent "@ + decimal_text(id as int)),
                ),
            },
        }
    }

    proof fn lemma_remainder(data: Seq<u8>) {
        u8::lemma_remainder(data);
    }

    fn mc_deserialize(data: &[u8]) -> (res: DeserializeResult<'_, Self>) {
        let Deserialized { value: id, data: rest } = u8::mc_deserialize(data)?;
        match Self::from_byte(id) {
            Some(value) => Deserialized::ok(value, rest),
            None => Err(
                cannot_understand("invalid DemoEvent ", decimal_string(id as i64).as_str()),
            ),
        }
    }
}

impl ProtocolType for DemoEvent {
    open spec fn legal(&self) -> bool {
        true
    }

    open spec fn self_delimiting() -> bool {
        true
    }

    proof fn lemma_round_trip(&self, rest: Seq<u8>) {
        self.spec_as_byte().lemma_round_trip(rest);
    }
}

/// How a player who died comes back.
#[derive(PartialEq, Eq, Clone, Copy, Debug)]
pub enum RespawnRequestType {
    Screen,
    Immediate,
}

impl RespawnRequestType {
    pub open spec fn spec_from_byte(b: u8) -> Option<Self> {
        if b == 0x00 {
            Some(RespawnRequestType::Screen)
        } else if b == 0x01 {
            Some(RespawnRequestType::Immediate)
        } else {
            None
        }
    }

    /// The member that a number stands for, if it stands for one.
    pub fn from_byte(b: u8) -> (res: Option<Self>)
        ensures
            res == Self::spec_from_byte(b),
    {
        match b {
            0x00 => Some(RespawnRequestType::Screen),
            0x01 => Some(RespawnRequestType::Immediate),
            _ => None,
        }
    }

    pub open spec fn spec_name(&self) -> Seq<char> {
        match self {
            RespawnRequestType::Screen => "Screen"@,
            RespawnRequestType::Immediate => "Immediate"@,
        }
    }

    pub fn name(&self) -> (res: &str)
        ensures
            res@ == self.spec_name(),
    {
        match self {
            RespawnRequestType::Screen => "Screen",
            RespawnRequestType::Immediate => "Immediate",
        }
    }

    pub open spec fn spec_as_byte(&self) -> u8 {
        match self {
            RespawnRequestType::Screen => 0x00,
            RespawnRequestType::Immediate => 0x01,
        }
    }

    /// The number of a member; no two members share one.
    pub fn as_byte(&self) -> (res: u8)
        ensures
            res == self.spec_as_byte(),
            Self::spec_from_byte(res) == Some(*self),
    {
        match self {
            RespawnRequestType::Screen => 0x00,
            RespawnRequestType::Immediate => 0x01,
        }
    }
}

impl Serialize for RespawnRequestType {
    open spec fn wire(&self) -> Seq<u8> {
        self.spec_as_byte().wire()
    }

    fn mc_serialize<S: Serializer>(&self, to: &mut S) -> (res: SerializeResult) {
        self.as_byte().mc_serialize(to)
    }
}

impl Deserialize for RespawnRequestType {
    type Model = RespawnRequestType;

    open spec fn model(&self) -> RespawnRequestType {
        *self
    }

    /// A number that names no member is an error that says so.
    open spec fn decoding(data: Seq<u8>) -> Parsed<RespawnRequestType> {
        match u8::decoding(data) {
            Err(e) => Err(e),
            Ok((id, rest)) => match Self::spec_from_byte(id) {
                Some(value) => Ok((value, rest)),
                None => Err(
                    Fault::CannotUnderstandValue(
                        "invalid RespawnRequestType "@ + decimal_text(id as int),
                    ),
                ),
            },
        }
    }

    proof fn lemma_remainder(data: Seq<u8>) {
        u8::lemma_remainder(data);
    }

    fn mc_deserialize(data: &[u8]) -> (res: DeserializeResult<'_, Self>) {
        let Deserialized { value: id, data: rest } = u8::mc_deserialize(data)?;
        match Self::from_byte(id) {
            Some(value) => Deserialized::ok(value, rest),
            None => Err(
                cannot_understand(
                    "invalid RespawnRequestType ",
                    decimal_string(id as i64).as_str(),
                ),
            ),
        }
    }
}

impl ProtocolType for RespawnRequestType {
    open spec fn legal(&self) -> bool {
        true
    }

    open spec fn self_delimiting() -> bool {
        true
    }

    proof fn lemma_round_trip(&self, rest: Seq<u8>) {
        self.spec_as_byte().lemma_round_trip(rest);
    }
}

/// One of the three worlds.
#[derive(PartialEq, Eq, Clone, Copy, Debug)]
pub enum Dimension {
    Nether,
    Overworld,
    End,
}

impl Dimension {
    pub open spec fn spec_from_int(b: i32) -> Option<Self> {
        if b == -0x01 {
            Some(Dimension::Nether)
        } else if b == 0x00 {
            Some(Dimension::Overworld)
        } else if b == 0x01 {
            Some(Dimension::End)
        } else {
            None
        }
    }

    /// The member that a number stands for, if it stands for one.
    pub fn from_int(b: i32) -> (res: Option<Self>)
        ensures
            res == Self::spec_from_int(b),
    {
        match b {
            -0x01 => Some(Dimension::Nether),
            0x00 => Some(Dimension::Overworld),
            0x01 => Some(Dimension::End),
            _ => None,
        }
    }

    pub open spec fn spec_name(&self) -> Seq<char> {
        match self {
            Dimension::Nether => "Nether"@,
            Dimension::Overworld => "Overworld"@,
            Dimension::End => "End"@,
        }
    }

    pub fn name(&self) -> (res: &str)
        ensures
            res@ == self.spec_name(),
    {
        match self {
            Dimension::Nether => "Nether",
            Dimension::Overworld => "Overworld",
            Dimension::End => "End",
        }
    }

    pub open spec fn spec_as_int(&self) -> i32 {
        match self {
            Dimension::Nether => -0x01i32,
            Dimension::Overworld => 0x00,
            Dimension::End => 0x01,
        }
    }

    /// The number of a member; no two members share one.
    pub fn as_int(&self) -> (res: i32)
        ensures
            res == self.spec_as_int(),
            Self::spec_from_int(res) == Some(*self),
    {
        match self {
            Dimension::Nether => -0x01i32,
            Dimension::Overworld => 0x00,
            Dimension::End => 0x01,
        }
    }
}

impl Serialize for Dimension {
    open spec fn wire(&self) -> Seq<u8> {
        self.spec_as_int().wire()
    }

    fn mc_serialize<S: Serializer>(&self, to: &mut S) -> (res: SerializeResult) {
        self.as_int().mc_serialize(to)
    }
}

impl Deserialize for Dimension {
    type Model = Dimension;

    open spec fn model(&self) -> Dimension {
        *self
    }

    /// A number that names no member is an error that says so.
    open spec fn decoding(data: Seq<u8>) -> Parsed<Dimension> {
        match i32::decoding(data) {
            Err(e) => Err(e),
            Ok((id, rest)) => match Self::spec_from_int(id) {
                Some(value) => Ok((value, rest)),
                None => Err(
                    Fault::CannotUnderstandValue("invalid Dimension "@ + decimal_text(id as int)),
                ),
            },
        }
    }

    proof fn lemma_remainder(data: Seq<u8>) {
        i32::lemma_remainder(data);
    }

    fn mc_deserialize(data: &[u8]) -> (res: DeserializeResult<'_, Self>) {
        let Deserialized { value: id, data: rest } = i32::mc_deserialize(data)?;
        match Self::from_int(id) {
            Some(value) => Deserialized::ok(value, rest),
            None => Err(
                cannot_understand("invalid Dimension ", decimal_string(id as i64).as_str()),
            ),
        }
    }
}

impl ProtocolType for Dimension {
    open spec fn legal(&self) -> bool {
        true
    }

    open spec fn self_delimiting() -> bool {
        true
    }

    proof fn lemma_round_trip(&self, rest: Seq<u8>) {
        self.spec_as_int().lemma_round_trip(rest);
    }
}

/// A mark on a map.
#[derive(PartialEq, Eq, Clone, Copy, Debug)]
pub enum MapIconType {
    WhiteArrow,
    GreenArrow,
    RedArrow,
    BlueArrow,
    WhiteCross,
    RedPointer,
    WhiteCircle,
    SmallWhiteCircle,
    Mansion,
    Temple,
    WhiteBanner,
    OrangeBanner,
    MagentaBanner,
    YellowBanner,
    LimeBanner,
    PinkBanner,
    GrayBanner,
    LightGrayBanner,
    CyanBanner,
    PurpleBanner,
    BlueBanner,
    BrownBanner,
    GreenBanner,
    RedBanner,
    BlackBanner,
    TreasureMarker,
}

impl MapIconType {
    pub open spec fn spec_from_varint(b: VarInt) -> Option<Self> {
        if b.0 == 0x00 {
            Some(MapIconType::WhiteArrow)
        } else if b.0 == 0x01 {
            Some(MapIconType::GreenArrow)
        } else if b.0 == 0x02 {
            Some(MapIconType::RedArrow)
        } else if b.0 == 0x03 {
            Some(MapIconType::BlueArrow)
        } else if b.0 == 0x04 {
            Some(MapIconType::WhiteCross)
        } else if b.0 == 0x05 {
            Some(MapIconType::RedPointer)
        } else if b.0 == 0x06 {
            Some(MapIconType::WhiteCircle)
        } else if b.0 == 0x07 {
            Some(MapIconType::SmallWhiteCircle)
        } else if b.0 == 0x08 {
            Some(MapIconType::Mansion)
        } else if b.0 == 0x09 {
            Some(MapIconType::Temple)
        } else if b.0 == 0x0A {
            Some(MapIconType::WhiteBanner)
        } else if b.0 == 0x0B {
            Some(MapIconType::OrangeBanner)
        } else if b.0 == 0x0C {
            Some(MapIconType::MagentaBanner)
        } else if b.0 == 0x0D {
            Some(MapIconType::YellowBanner)
        } else if b.0 == 0x0E {
            Some(MapIconType::LimeBanner)
        } else if b.0 == 0x0F {
            Some(MapIconType::PinkBanner)
        } else if b.0 == 0x10 {
            Some(MapIconType::GrayBanner)
        } else if b.0 == 0x11 {
            Some(MapIconType::LightGrayBanner)
        } else if b.0 == 0x12 {
            Some(MapIconType::CyanBanner)
        } else if b.0 == 0x13 {
            Some(MapIconType::PurpleBanner)
        } else if b.0 == 0x14 {
            Some(MapIconType::BlueBanner)
        } else if b.0 == 0x15 {
            Some(MapIconType::BrownBanner)
        } else if b.0 == 0x16 {
            Some(MapIconType::GreenBanner)
        } else if b.0 == 0x17 {
            Some(MapIconType::RedBanner)
        } else if b.0 == 0x18 {
            Some(MapIconType::BlackBanner)
        } else if b.0 == 0x19 {
            Some(MapIconType::TreasureMarker)
        } else {
            None
        }
    }

    /// The member that a number stands for, if it stands for one.
    pub fn from_varint(b: VarInt) -> (res: Option<Self>)
        ensures
            res == Self::spec_from_varint(b),
    {
        match b.0 {
            0x00 => Some(MapIconType::WhiteArrow),
            0x01 => Some(MapIconType::GreenArrow),
            0x02 => Some(MapIconType::RedArrow),
            0x03 => Some(MapIconType::BlueArrow),
            0x04 => Some(MapIconType::WhiteCross),
            0x05 => Some(MapIconType::RedPointer),
            0x06 => Some(MapIconType::WhiteCircle),
            0x07 => Some(MapIconType::SmallWhiteCircle),
            0x08 => Some(MapIconType::Mansion),
            0x09 => Some(MapIconType::Temple),
            0x0A => Some(MapIconType::WhiteBanner),
            0x0B => Some(MapIconType::OrangeBanner),
            0x0C => Some(MapIconType::MagentaBanner),
            0x0D => Some(MapIconType::YellowBanner),
            0x0E => Some(MapIconType::LimeBanner),
            0x0F => Some(MapIconType::PinkBanner),
            0x10 => Some(MapIconType::GrayBanner),
            0x11 => Some(MapIconType::LightGrayBanner),
            0x12 => Some(MapIconType::CyanBanner),
            0x13 => Some(MapIconType::PurpleBanner),
            0x14 => Some(MapIconType::BlueBanner),
            0x15 => Some(MapIconType::BrownBanner),
            0x16 => Some(MapIconType::GreenBanner),
            0x17 => Some(MapIconType::RedBanner),
            0x18 => Some(MapIconType::BlackBanner),
            0x19 => Some(MapIconType::TreasureMarker),
            _ => None,
        }
    }

    pub open spec fn spec_name(&self) -> Seq<char> {
        match self {
            MapIconType::WhiteArrow => "WhiteArrow"@,
            MapIconType::GreenArrow => "GreenArrow"@,
            MapIconType::RedArrow => "RedArrow"@,
            MapIconType::BlueArrow => "BlueArrow"@,
            MapIconType::WhiteCross => "WhiteCross"@,
            MapIconType::RedPointer => "RedPointer"@,
            MapIconType::WhiteCircle => "WhiteCircle"@,
            MapIconType::SmallWhiteCircle => "SmallWhiteCircle"@,
            MapIconType::Mansion => "Mansion"@,
            MapIconType::Temple => "Temple"@,
            MapIconType::WhiteBanner => "WhiteBanner"@,
            MapIconType::OrangeBanner => "OrangeBanner"@,
            MapIconType::MagentaBanner => "MagentaBanner"@,
            MapIconType::YellowBanner => "YellowBanner"@,
            MapIconType::LimeBanner => "LimeBanner"@,
            MapIconType::PinkBanner => "PinkBanner"@,
            MapIconType::GrayBanner => "GrayBanner"@,
            MapIconType::LightGrayBanner => "LightGrayBanner"@,
            MapIconType::CyanBanner => "CyanBanner"@,
            MapIconType::PurpleBanner => "PurpleBanner"@,
            MapIconType::BlueBanner => "BlueBanner"@,
            MapIconType::BrownBanner => "BrownBanner"@,
            MapIconType::GreenBanner => "GreenBanner"@,
            MapIconType::RedBanner => "RedBanner"@,
            MapIconType::BlackBanner => "BlackBanner"@,
            MapIconType::TreasureMarker => "TreasureMarker"@,
        }
    }

    pub fn name(&self) -> (res: &str)
        ensures
            res@ == self.spec_name(),
    {
        match self {
            MapIconType::WhiteArrow => "WhiteArrow",
            MapIconType::GreenArrow => "GreenArrow",
            MapIconType::RedArrow => "RedArrow",
            MapIconType::BlueArrow => "BlueArrow",
            MapIconType::WhiteCross => "WhiteCross",
            MapIconType::RedPointer => "RedPointer",
            MapIconType::WhiteCircle => "WhiteCircle",
            MapIconType::SmallWhiteCircle => "SmallWhiteCircle",
            MapIconType::Mansion => "Mansion",
            MapIconType::Temple => "Temple",
            MapIconType::WhiteBanner => "WhiteBanner",
            MapIconType::OrangeBanner => "OrangeBanner",
            MapIconType::MagentaBanner => "MagentaBanner",
            MapIconType::YellowBanner => "YellowBanner",
            MapIconType::LimeBanner => "LimeBanner",
            MapIconType::PinkBanner => "PinkBanner",
            MapIconType::GrayBanner => "GrayBanner",
            MapIconType::LightGrayBanner => "LightGrayBanner",
            MapIconType::CyanBanner => "CyanBanner",
            MapIconType::PurpleBanner => "PurpleBanner",
            MapIconType::BlueBanner => "BlueBanner",
            MapIconType::BrownBanner => "BrownBanner",
            MapIconType::GreenBanner => "GreenBanner",
            MapIconType::RedBanner => "RedBanner",
            MapIconType::BlackBanner => "BlackBanner",
            MapIconType::TreasureMarker => "TreasureMarker",
        }
    }

    pub open spec fn spec_as_varint(&self) -> VarInt {
        match self {
            MapIconType::WhiteArrow => VarInt(0x00),
            MapIconType::GreenArrow => VarInt(0x01),
            MapIconType::RedArrow => VarInt(0x02),
            MapIconType::BlueArrow => VarInt(0x03),
            MapIconType::WhiteCross => VarInt(0x04),
            MapIconType::RedPointer => VarInt(0x05),
            MapIconType::WhiteCircle => VarInt(0x06),
            MapIconType::SmallWhiteCircle => VarInt(0x07),
            MapIconType::Mansion => VarInt(0x08),
            MapIconType::Temple => VarInt(0x09),
            MapIconType::WhiteBanner => VarInt(0x0A),
            MapIconType::OrangeBanner => VarInt(0x0B),
            MapIconType::MagentaBanner => VarInt(0x0C),
            MapIconType::YellowBanner => VarInt(0x0D),
            MapIconType::LimeBanner => VarInt(0x0E),
            MapIconType::PinkBanner => VarInt(0x0F),
            MapIconType::GrayBanner => VarInt(0x10),
            MapIconType::LightGrayBanner => VarInt(0x11),
            MapIconType::CyanBanner => VarInt(0x12),
            MapIconType::PurpleBanner => VarInt(0x13),
            MapIconType::BlueBanner => VarInt(0x14),
            MapIconType::BrownBanner => VarInt(0x15),
            MapIconType::GreenBanner => VarInt(0x16),
            MapIconType::RedBanner => VarInt(0x17),
            MapIconType::BlackBanner => VarInt(0x18),
            MapIconType::TreasureMarker => VarInt(0x19),
        }
    }

    /// The number of a member; no two members share one.
    pub fn as_varint(&self) -> (res: VarInt)
        ensures
            res == self.spec_as_varint(),
            Self::spec_from_varint(res) == Some(*self),
    {
        match self {
            MapIconType::WhiteArrow => VarInt(0x00),
            MapIconType::GreenArrow => VarInt(0x01),
            MapIconType::RedArrow => VarInt(0x02),
            MapIconType::BlueArrow => VarInt(0x03),
            MapIconType::WhiteCross => VarInt(0x04),
            MapIconType::RedPointer => VarInt(0x05),
            MapIconType::WhiteCircle => VarInt(0x06),
            MapIconType::SmallWhiteCircle => VarInt(0x07),
            MapIconType::Mansion => VarInt(0x08),
            MapIconType::Temple => VarInt(0x09),
            MapIconType::WhiteBanner => VarInt(0x0A),
            MapIconType::OrangeBanner => VarInt(0x0B),
            MapIconType::MagentaBanner => VarInt(0x0C),
            MapIconType::YellowBanner => VarInt(0x0D),
            MapIconType::LimeBanner => VarInt(0x0E),
            MapIconType::PinkBanner => VarInt(0x0F),
            MapIconType::GrayBanner => VarInt(0x10),
            MapIconType::LightGrayBanner => VarInt(0x11),
            MapIconType::CyanBanner => VarInt(0x12),
            MapIconType::PurpleBanner => VarInt(0x13),
            MapIconType::BlueBanner => VarInt(0x14),
            MapIconType::BrownBanner => VarInt(0x15),
            MapIconType::GreenBanner => VarInt(0x16),
            MapIconType::RedBanner => VarInt(0x17),
            MapIconType::BlackBanner => VarInt(0x18),
            MapIconType::TreasureMarker => VarInt(0x19),
        }
    }
}

impl Serialize for MapIconType {
    open spec fn wire(&self) -> Seq<u8> {
        self.spec_as_varint().wire()
    }

    fn mc_serialize<S: Serializer>(&self, to: &mut S) -> (res: SerializeResult) {
        self.as_varint().mc_serialize(to)
    }
}

impl Deserialize for MapIconType {
    type Model = MapIconType;

    open spec fn model(&self) -> MapIconType {
        *self
    }

    /// A number that names no member is an error that says so.
    open spec fn decoding(data: Seq<u8>) -> Parsed<MapIconType> {
        match VarInt::decoding(data) {
            Err(e) => Err(e),
            Ok((id, rest)) => match Self::spec_from_varint(id) {
                Some(value) => Ok((value, rest)),
                None => Err(Fault::CannotUnderstandValue("invalid MapIconType "@ + id.spec_text())),
            },
        }
    }

    proof fn lemma_remainder(data: Seq<u8>) {
        VarInt::lemma_remainder(data);
    }

    fn mc_deserialize(data: &[u8]) -> (res: DeserializeResult<'_, Self>) {
        let Deserialized { value: id, data: rest } = VarInt::mc_deserialize(data)?;
        match Self::from_varint(id) {
            Some(value) => Deserialized::ok(value, rest),
            None => Err(cannot_understand("invalid MapIconType ", id.to_string().as_str())),
        }
    }
}

impl ProtocolType for MapIconType {
    open spec fn legal(&self) -> bool {
        true
    }

    open spec fn self_delimiting() -> bool {
        true
    }

    proof fn lemma_round_trip(&self, rest: Seq<u8>) {
        self.spec_as_varint().lemma_round_trip(rest);
    }
}

/// One of the two hands.
#[derive(PartialEq, Eq, Clone, Copy, Debug)]
pub enum Hand {
    MainHand,
    OffHand,
}

impl Hand {
    pub open spec fn spec_from_varint(b: VarInt) -> Option<Self> {
        if b.0 == 0x00 {
            Some(Hand::MainHand)
        } else if b.0 == 0x01 {
            Some(Hand::OffHand)
        } else {
            None
        }
    }

    /// The member that a number stands for, if it stands for one.
    pub fn from_varint(b: VarInt) -> (res: Option<Self>)
        ensures
            res == Self::spec_from_varint(b),
    {
        match b.0 {
            0x00 => Some(Hand::MainHand),
            0x01 => Some(Hand::OffHand),
            _ => None,
        }
    }

    pub open spec fn spec_name(&self) -> Seq<char> {
        match self {
            Hand::MainHand => "MainHand"@,
            Hand::OffHand => "OffHand"@,
        }
    }

    pub fn name(&self) -> (res: &str)
        ensures
            res@ == self.spec_name(),
    {
        match self {
            Hand::MainHand => "MainHand",
            Hand::OffHand => "OffHand",
        }
    }

    pub open spec fn spec_as_varint(&self) -> VarInt {
        match self {
            Hand::MainHand => VarInt(0x00),
            Hand::OffHand => VarInt(0x01),
        }
    }

    /// The number of a member; no two members share one.
    pub fn as_varint(&self) -> (res: VarInt)
        ensures
            res == self.spec_as_varint(),
            Self::spec_from_varint(res) == Some(*self),
    {
        match self {
            Hand::MainHand => VarInt(0x00),
            Hand::OffHand => VarInt(0x01),
        }
    }
}

impl Serialize for Hand {
    open spec fn wire(&self) -> Seq<u8> {
        self.spec_as_varint().wire()
    }

    fn mc_serialize<S: Serializer>(&self, to: &mut S) -> (res: SerializeResult) {
        self.as_varint().mc_serialize(to)
    }
}

impl Deserialize for Hand {
    type Model = Hand;

    open spec fn model(&self) -> Hand {
        *self
    }

    /// A number that names no member is an error that says so.
    open spec fn decoding(data: Seq<u8>) -> Parsed<Hand> {
        match VarInt::decoding(data) {
            Err(e) => Err(e),
            Ok((id, rest)) => match Self::spec_from_varint(id) {
                Some(value) => Ok((value, rest)),
                None => Err(Fault::CannotUnderstandValue("invalid Hand "@ + id.spec_text())),
            },
        }
    }

    proof fn lemma_remainder(data: Seq<u8>) {
        VarInt::lemma_remainder(data);
    }

    fn mc_deserialize(data: &[u8]) -> (res: DeserializeResult<'_, Self>) {
        let Deserialized { value: id, data: rest } = VarInt::mc_deserialize(data)?;
        match Self::from_varint(id) {
            Some(value) => Deserialized::ok(value, rest),
            None => Err(cannot_understand("invalid Hand ", id.to_string().as_str())),
        }
    }
}

impl ProtocolType for Hand {
    open spec fn legal(&self) -> bool {
        true
    }

    open spec fn self_delimiting() -> bool {
        true
    }

    proof fn lemma_round_trip(&self, rest: Seq<u8>) {
        self.spec_as_varint().lemma_round_trip(rest);
    }
}

/// A kind of inventory window.
#[derive(PartialEq, Eq, Clone, Copy, Debug)]
pub enum WindowType {
    GenericOneRow,
    GenericTwoRow,
    GenericThreeRow,
    GenericFourRow,
    GenericFiveRow,
    GenericSixRow,
    GenericSquare,
    Anvil,
    Beacon,
    BlastFurnace,
    BrewingStand,
    CraftingTable,
    EnchantmentTable,
    Furnace,
    Grindstone,
    Hopper,
    Lectern,
    Loom,
    Merchant,
    ShulkerBox,
    Smoker,
    Cartography,
    StoneCutter,
}

impl WindowType {
    pub open spec fn spec_from_varint(b: VarInt) -> Option<Self> {
        if b.0 == 0x00 {
            Some(WindowType::GenericOneRow)
        } else if b.0 == 0x01 {
            Some(WindowType::GenericTwoRow)
        } else if b.0 == 0x02 {
            Some(WindowType::GenericThreeRow)
        } else if b.0 == 0x03 {
            Some(WindowType::GenericFourRow)
        } else if b.0 == 0x04 {
            Some(WindowType::GenericFiveRow)
        } else if b.0 == 0x05 {
            Some(WindowType::GenericSixRow)
        } else if b.0 == 0x06 {
            Some(WindowType::GenericSquare)
        } else if b.0 == 0x07 {
            Some(WindowType::Anvil)
        } else if b.0 == 0x08 {
            Some(WindowType::Beacon)
        } else if b.0 == 0x09 {
            Some(WindowType::BlastFurnace)
        } else if b.0 == 0x0A {
            Some(WindowType::BrewingStand)
        } else if b.0 == 0x0B {
            Some(WindowType::CraftingTable)
        } else if b.0 == 0x0C {
            Some(WindowType::EnchantmentTable)
        } else if b.0 == 0x0D {
            Some(WindowType::Furnace)
        } else if b.0 == 0x0E {
            Some(WindowType::Grindstone)
        } else if b.0 == 0x0F {
            Some(WindowType::Hopper)
        } else if b.0 == 0x10 {
            Some(WindowType::Lectern)
        } else if b.0 == 0x11 {
            Some(WindowType::Loom)
        } else if b.0 == 0x12 {
            Some(WindowType::Merchant)
        } else if b.0 == 0x13 {
            Some(WindowType::ShulkerBox)
        } else if b.0 == 0x14 {
            Some(WindowType::Smoker)
        } else if b.0 == 0x15 {
            Some(WindowType::Cartography)
        } else if b.0 == 0x16 {
            Some(WindowType::StoneCutter)
        } else {
            None
        }
    }

    /// The member that a number stands for, if it stands for one.
    pub fn from_varint(b: VarInt) -> (res: Option<Self>)
        ensures
            res == Self::spec_from_varint(b),
    {
        match b.0 {
            0x00 => Some(WindowType::GenericOneRow),
            0x01 => Some(WindowType::GenericTwoRow),
            0x02 => Some(WindowType::GenericThreeRow),
            0x03 => Some(WindowType::GenericFourRow),
            0x04 => Some(WindowType::GenericFiveRow),
            0x05 => Some(WindowType::GenericSixRow),
            0x06 => Some(WindowType::GenericSquare),
            0x07 => Some(WindowType::Anvil),
            0x08 => Some(WindowType::Beacon),
            0x09 => Some(WindowType::BlastFurnace),
            0x0A => Some(WindowType::BrewingStand),
            0x0B => Some(WindowType::CraftingTable),
            0x0C => Some(WindowType::EnchantmentTable),
            0x0D => Some(WindowType::Furnace),
            0x0E => Some(WindowType::Grindstone),
            0x0F => Some(WindowType::Hopper),
            0x10 => Some(WindowType::Lectern),
            0x11 => Some(WindowType::Loom),
            0x12 => Some(WindowType::Merchant),
            0x13 => Some(WindowType::ShulkerBox),
            0x14 => Some(WindowType::Smoker),
            0x15 => Some(WindowType::Cartography),
            0x16 => Some(WindowType::StoneCutter),
            _ => None,
        }
    }

    pub open spec fn spec_name(&self) -> Seq<char> {
        match self {
            WindowType::GenericOneRow => "GenericOneRow"@,
            WindowType::GenericTwoRow => "GenericTwoRow"@,
            WindowType::GenericThreeRow => "GenericThreeRow"@,
            WindowType::GenericFourRow => "GenericFourRow"@,
            WindowType::GenericFiveRow => "GenericFiveRow"@,
            WindowType::GenericSixRow => "GenericSixRow"@,
            WindowType::GenericSquare => "GenericSquare"@,
            WindowType::Anvil => "Anvil"@,
            WindowType::Beacon => "Beacon"@,
            WindowType::BlastFurnace => "BlastFurnace"@,
            WindowType::BrewingStand => "BrewingStand"@,
            WindowType::CraftingTable => "CraftingTable"@,
            WindowType::EnchantmentTable => "EnchantmentTable"@,
            WindowType::Furnace => "Furnace"@,
            WindowType::Grindstone => "Grindstone"@,
            WindowType::Hopper => "Hopper"@,
            WindowType::Lectern => "Lectern"@,
            WindowType::Loom => "Loom"@,
            WindowType::Merchant => "Merchant"@,
            WindowType::ShulkerBox => "ShulkerBox"@,
            WindowType::Smoker => "Smoker"@,
            WindowType::Cartography => "Cartography"@,
            WindowType::StoneCutter => "StoneCutter"@,
        }
    }

    pub fn name(&self) -> (res: &str)
        ensures
            res@ == self.spec_name(),
    {
        match self {
            WindowType::GenericOneRow => "GenericOneRow",
            WindowType::GenericTwoRow => "GenericTwoRow",
            WindowType::GenericThreeRow => "GenericThreeRow",
            WindowType::GenericFourRow => "GenericFourRow",
            WindowType::GenericFiveRow => "GenericFiveRow",
            WindowType::GenericSixRow => "GenericSixRow",
            WindowType::GenericSquare => "GenericSquare",
            WindowType::Anvil => "Anvil",
            WindowType::Beacon => "Beacon",
            WindowType::BlastFurnace => "BlastFurnace",
            WindowType::BrewingStand => "BrewingStand",
            WindowType::CraftingTable => "CraftingTable",
            WindowType::EnchantmentTable => "EnchantmentTable",
            WindowType::Furnace => "Furnace",
            WindowType::Grindstone => "Grindstone",
            WindowType::Hopper => "Hopper",
            WindowType::Lectern => "Lectern",
            WindowType::Loom => "Loom",
            WindowType::Merchant => "Merchant",
            WindowType::ShulkerBox => "ShulkerBox",
            WindowType::Smoker => "Smoker",
            WindowType::Cartography => "Cartography",
            WindowType::StoneCutter => "StoneCutter",
        }
    }

    pub open spec fn spec_as_varint(&self) -> VarInt {
        match self {
            WindowType::GenericOneRow => VarInt(0x00),
            WindowType::GenericTwoRow => VarInt(0x01),
            WindowType::GenericThreeRow => VarInt(0x02),
            WindowType::GenericFourRow => VarInt(0x03),
            WindowType::GenericFiveRow => VarInt(0x04),
            WindowType::GenericSixRow => VarInt(0x05),
            WindowType::GenericSquare => VarInt(0x06),
            WindowType::Anvil => VarInt(0x07),
            WindowType::Beacon => VarInt(0x08),
            WindowType::BlastFurnace => VarInt(0x09),
            WindowType::BrewingStand => VarInt(0x0A),
            WindowType::CraftingTable => VarInt(0x0B),
            WindowType::EnchantmentTable => VarInt(0x0C),
            WindowType::Furnace => VarInt(0x0D),
            WindowType::Grindstone => VarInt(0x0E),
            WindowType::Hopper => VarInt(0x0F),
            WindowType::Lectern => VarInt(0x10),
            WindowType::Loom => VarInt(0x11),
            WindowType::Merchant => VarInt(0x12),
            WindowType::ShulkerBox => VarInt(0x13),
            WindowType::Smoker => VarInt(0x14),
            WindowType::Cartography => VarInt(0x15),
            WindowType::StoneCutter => VarInt(0x16),
        }
    }

    /// The number of a member; no two members share one.
    pub fn as_varint(&self) -> (res: VarInt)
        ensures
            res == self.spec_as_varint(),
            Self::spec_from_varint(res) == Some(*self),
    {
        match self {
            WindowType::GenericOneRow => VarInt(0x00),
            WindowType::GenericTwoRow => VarInt(0x01),
            WindowType::GenericThreeRow => VarInt(0x02),
            WindowType::GenericFourRow => VarInt(0x03),
            WindowType::GenericFiveRow => VarInt(0x04),
            WindowType::GenericSixRow => VarInt(0x05),
            WindowType::GenericSquare => VarInt(0x06),
            WindowType::Anvil => VarInt(0x07),
            WindowType::Beacon => VarInt(0x08),
            WindowType::BlastFurnace => VarInt(0x09),
            WindowType::BrewingStand => VarInt(0x0A),
            WindowType::CraftingTable => VarInt(0x0B),
            WindowType::EnchantmentTable => VarInt(0x0C),
            WindowType::Furnace => VarInt(0x0D),
            WindowType::Grindstone => VarInt(0x0E),
            WindowType::Hopper => VarInt(0x0F),
            WindowType::Lectern => VarInt(0x10),
            WindowType::Loom => VarInt(0x11),
            WindowType::Merchant => VarInt(0x12),
            WindowType::ShulkerBox => VarInt(0x13),
            WindowType::Smoker => VarInt(0x14),
            WindowType::Cartography => VarInt(0x15),
            WindowType::StoneCutter => VarInt(0x16),
        }
    }
}

impl Serialize for WindowType {
    open spec fn wire(&self) -> Seq<u8> {
        self.spec_as_varint().wire()
    }

    fn mc_serialize<S: Serializer>(&self, to: &mut S) -> (res: SerializeResult) {
        self.as_varint().mc_serialize(to)
    }
}

impl Deserialize for WindowType {
    type Model = WindowType;

    open spec fn model(&self) -> WindowType {
        *self
    }

    /// A number that names no member is an error that says so.
    open spec fn decoding(data: Seq<u8>) -> Parsed<WindowType> {
        match VarInt::decoding(data) {
            Err(e) => Err(e),
            Ok((id, rest)) => match Self::spec_from_varint(id) {
                Some(value) => Ok((value, rest)),
                None => Err(Fault::CannotUnderstandValue("invalid WindowType "@ + id.spec_text())),
            },
        }
    }

    proof fn lemma_remainder(data: Seq<u8>) {
        VarInt::lemma_remainder(data);
    }

    fn mc_deserialize(data: &[u8]) -> (res: DeserializeResult<'_, Self>) {
        let Deserialized { value: id, data: rest } = VarInt::mc_deserialize(data)?;
        match Self::from_varint(id) {
            Some(value) => Deserialized::ok(value, rest),
            None => Err(cannot_understand("invalid WindowType ", id.to_string().as_str())),
        }
    }
}

impl ProtocolType for WindowType {
    open spec fn legal(&self) -> bool {
        true
    }

    open spec fn self_delimiting() -> bool {
        true
    }

    proof fn lemma_round_trip(&self, rest: Seq<u8>) {
        self.spec_as_varint().lemma_round_trip(rest);
    }
}

/// What a player is able to do, as the server says. One bit for each.
#[derive(Clone, Copy, PartialEq, Eq, Debug, Default)]
pub struct PlayerAbilityFlags(pub u8);

impl PlayerAbilityFlags {
    pub open spec fn spec_is_invulnerable(&self) -> bool {
        self.0 & 0x01 != 0
    }

    #[verifier::when_used_as_spec(spec_is_invulnerable)]
    pub fn is_invulnerable(&self) -> (res: bool)
        ensures
            res == self.spec_is_invulnerable(),
    {
        self.0 & 0x01 != 0
    }

    /// Sets the bit, or clears it, and leaves the others as they are.
    pub fn set_invulnerable(&mut self, value: bool)
        ensures
            final(self).0 == with_bits(old(self).0, 0x01, value),
            final(self).is_invulnerable() == value,
            final(self).is_flying() == old(self).is_flying(),
            final(self).is_allow_flying() == old(self).is_allow_flying(),
            final(self).is_instant_break() == old(self).is_instant_break(),
    {
        proof {
            lemma_with_bits_reads(self.0, 0x01, value);
            lemma_with_bits_keeps(self.0, 0x01, value, 0x02);
            lemma_with_bits_keeps(self.0, 0x01, value, 0x04);
            lemma_with_bits_keeps(self.0, 0x01, value, 0x08);
        }
        self.0 = set_bits(self.0, 0x01, value);
    }

    pub fn with_invulnerable(self, value: bool) -> (res: Self)
        ensures
            res.0 == with_bits(self.0, 0x01, value),
            res.is_invulnerable() == value,
            res.is_flying() == self.is_flying(),
            res.is_allow_flying() == self.is_allow_flying(),
            res.is_instant_break() == self.is_instant_break(),
    {
        proof {
            lemma_with_bits_reads(self.0, 0x01, value);
            lemma_with_bits_keeps(self.0, 0x01, value, 0x02);
            lemma_with_bits_keeps(self.0, 0x01, value, 0x04);
            lemma_with_bits_keeps(self.0, 0x01, value, 0x08);
        }
        PlayerAbilityFlags(set_bits(self.0, 0x01, value))
    }

    pub open spec fn spec_is_flying(&self) -> bool {
        self.0 & 0x02 != 0
    }

    #[verifier::when_used_as_spec(spec_is_flying)]
    pub fn is_flying(&self) -> (res: bool)
        ensures
            res == self.spec_is_flying(),
    {
        self.0 & 0x02 != 0
    }

    /// Sets the bit, or clears it, and leaves the others as they are.
    pub fn set_flying(&mut self, value: bool)
        ensures
            final(self).0 == with_bits(old(self).0, 0x02, value),
            final(self).is_flying() == value,
            final(self).is_invulnerable() == old(self).is_invulnerable(),
            final(self).is_allow_flying() == old(self).is_allow_flying(),
            final(self).is_instant_break() == old(self).is_instant_break(),
    {
        proof {
            lemma_with_bits_reads(self.0, 0x02, value);
            lemma_with_bits_keeps(self.0, 0x02, value, 0x01);
            lemma_with_bits_keeps(self.0, 0x02, value, 0x04);
            lemma_with_bits_keeps(self.0, 0x02, value, 0x08);
        }
        self.0 = set_bits(self.0, 0x02, value);
    }

    pub fn with_flying(self, value: bool) -> (res: Self)
        ensures
            res.0 == with_bits(self.0, 0x02, value),
            res.is_flying() == value,
            res.is_invulnerable() == self.is_invulnerable(),
            res.is_allow_flying() == self.is_allow_flying(),
            res.is_instant_break() == self.is_instant_break(),
    {
        proof {
            lemma_with_bits_reads(self.0, 0x02, value);
            lemma_with_bits_keeps(self.0, 0x02, value, 0x01);
            lemma_with_bits_keeps(self.0, 0x02, value, 0x04);
            lemma_with_bits_keeps(self.0, 0x02, value, 0x08);
        }
        PlayerAbilityFlags(set_bits(self.0, 0x02, value))
    }

    pub open spec fn spec_is_allow_flying(&self) -> bool {
        self.0 & 0x04 != 0
    }

    #[verifier::when_used_as_spec(spec_is_allow_flying)]
    pub fn is_allow_flying(&self) -> (res: bool)
        ensures
            res == self.spec_is_allow_flying(),
    {
        self.0 & 0x04 != 0
    }

    /// Sets the bit, or clears it, and leaves the others as they are.
    pub fn set_allow_flying(&mut self, value: bool)
        ensures
            final(self).0 == with_bits(old(self).0, 0x04, value),
            final(self).is_allow_flying() == value,
            final(self).is_invulnerable() == old(self).is_invulnerable(),
            final(self).is_flying() == old(self).is_flying(),
            final(self).is_instant_break() == old(self).is_instant_break(),
    {
        proof {
            lemma_with_bits_reads(self.0, 0x04, value);
            lemma_with_bits_keeps(self.0, 0x04, value, 0x01);
            lemma_with_bits_keeps(self.0, 0x04, value, 0x02);
            lemma_with_bits_keeps(self.0, 0x04, value, 0x08);
        }
        self.0 = set_bits(self.0, 0x04, value);
    }

    pub fn with_allow_flying(self, value: bool) -> (res: Self)
        ensures
            res.0 == with_bits(self.0, 0x04, value),
            res.is_allow_flying() == value,
            res.is_invulnerable() == self.is_invulnerable(),
            res.is_flying() == self.is_flying(),
            res.is_instant_break() == self.is_instant_break(),
    {
        proof {
            lemma_with_bits_reads(self.0, 0x04, value);
            lemma_with_bits_keeps(self.0, 0x04, value, 0x01);
            lemma_with_bits_keeps(self.0, 0x04, value, 0x02);
            lemma_with_bits_keeps(self.0, 0x04, value, 0x08);
        }
        PlayerAbilityFlags(set_bits(self.0, 0x04, value))
    }

    pub open spec fn spec_is_instant_break(&self) -> bool {
        self.0 & 0x08 != 0
    }

    #[verifier::when_used_as_spec(spec_is_instant_break)]
    pub fn is_instant_break(&self) -> (res: bool)
        ensures
            res == self.spec_is_instant_break(),
    {
        self.0 & 0x08 != 0
    }

    /// Sets the bit, or clears it, and leaves the others as they are.
    pub fn set_instant_break(&mut self, value: bool)
        ensures
            final(self).0 == with_bits(old(self).0, 0x08, value),
            final(self).is_instant_break() == value,
            final(self).is_invulnerable() == old(self).is_invulnerable(),
            final(self).is_flying() == old(self).is_flying(),
            final(self).is_allow_flying() == old(self).is_allow_flying(),
    {
        proof {
            lemma_with_bits_reads(self.0, 0x08, value);
            lemma_with_bits_keeps(self.0, 0x08, value, 0x01);
            lemma_with_bits_keeps(self.0, 0x08, value, 0x02);
            lemma_with_bits_keeps(self.0, 0x08, value, 0x04);
        }
        self.0 = set_bits(self.0, 0x08, value);
    }

    pub fn with_instant_break(self, value: bool) -> (res: Self)
        ensures
            res.0 == with_bits(self.0, 0x08, value),
            res.is_instant_break() == value,
            res.is_invulnerable() == self.is_invulnerable(),
            res.is_flying() == self.is_flying(),
            res.is_allow_flying() == self.is_allow_flying(),
    {
        proof {
            lemma_with_bits_reads(self.0, 0x08, value);
            lemma_with_bits_keeps(self.0, 0x08, value, 0x01);
            lemma_with_bits_keeps(self.0, 0x08, value, 0x02);
            lemma_with_bits_keeps(self.0, 0x08, value, 0x04);
        }
        PlayerAbilityFlags(set_bits(self.0, 0x08, value))
    }
}

impl Serialize for PlayerAbilityFlags {
    open spec fn wire(&self) -> Seq<u8> {
        self.0.wire()
    }

    fn mc_serialize<S: Serializer>(&self, to: &mut S) -> (res: SerializeResult) {
        to.serialize_byte(self.0)
    }
}

impl Deserialize for PlayerAbilityFlags {
    type Model = PlayerAbilityFlags;

    open spec fn model(&self) -> PlayerAbilityFlags {
        *self
    }

    open spec fn decoding(data: Seq<u8>) -> Parsed<PlayerAbilityFlags> {
        match u8::decoding(data) {
            Err(e) => Err(e),
            Ok((b, rest)) => Ok((PlayerAbilityFlags(b), rest)),
        }
    }

    proof fn lemma_remainder(data: Seq<u8>) {
        u8::lemma_remainder(data);
    }

    fn mc_deserialize(data: &[u8]) -> (res: DeserializeResult<'_, Self>) {
        let Deserialized { value: b, data: rest } = u8::mc_deserialize(data)?;
        Deserialized::ok(PlayerAbilityFlags(b), rest)
    }
}

impl ProtocolType for PlayerAbilityFlags {
    open spec fn legal(&self) -> bool {
        true
    }

    open spec fn self_delimiting() -> bool {
        true
    }

    proof fn lemma_round_trip(&self, rest: Seq<u8>) {
        self.0.lemma_round_trip(rest);
    }
}

/// The part of the body that is turned to face something.
#[derive(PartialEq, Eq, Clone, Copy, Debug)]
pub enum FacePlayerKind {
    Feet,
    Eyes,
}

impl FacePlayerKind {
    pub open spec fn spec_from_varint(b: VarInt) -> Option<Self> {
        if b.0 == 0x00 {
            Some(FacePlayerKind::Feet)
        } else if b.0 == 0x01 {
            Some(FacePlayerKind::Eyes)
        } else {
            None
        }
    }

    /// The member that a number stands for, if it stands for one.
    pub fn from_varint(b: VarInt) -> (res: Option<Self>)
        ensures
            res == Self::spec_from_varint(b),
    {
        match b.0 {
            0x00 => Some(FacePlayerKind::Feet),
            0x01 => Some(FacePlayerKind::Eyes),
            _ => None,
        }
    }

    pub open spec fn spec_name(&self) -> Seq<char> {
        match self {
            FacePlayerKind::Feet => "Feet"@,
            FacePlayerKind::Eyes => "Eyes"@,
        }
    }

    pub fn name(&self) -> (res: &str)
        ensures
            res@ == self.spec_name(),
    {
        match self {
            FacePlayerKind::Feet => "Feet",
            FacePlayerKind::Eyes => "Eyes",
        }
    }

    pub open spec fn spec_as_varint(&self) -> VarInt {
        match self {
            FacePlayerKind::Feet => VarInt(0x00),
            FacePlayerKind::Eyes => VarInt(0x01),
        }
    }

    /// The number of a member; no two members share one.
    pub fn as_varint(&self) -> (res: VarInt)
        ensures
            res == self.spec_as_varint(),
            Self::spec_from_varint(res) == Some(*self),
    {
        match self {
            FacePlayerKind::Feet => VarInt(0x00),
            FacePlayerKind::Eyes => VarInt(0x01),
        }
    }
}

impl Serialize for FacePlayerKind {
    open spec fn wire(&self) -> Seq<u8> {
        self.spec_as_varint().wire()
    }

    fn mc_serialize<S: Serializer>(&self, to: &mut S) -> (res: SerializeResult) {
        self.as_varint().mc_serialize(to)
    }
}

impl Deserialize for FacePlayerKind {
    type Model = FacePlayerKind;

    open spec fn model(&self) -> FacePlayerKind {
        *self
    }

    /// A number that names no member is an error that says so.
    open spec fn decoding(data: Seq<u8>) -> Parsed<FacePlayerKind> {
        match VarInt::decoding(data) {
            Err(e) => Err(e),
            Ok((id, rest)) => match Self::spec_from_varint(id) {
                Some(value) => Ok((value, rest)),
                None => Err(
                    Fault::CannotUnderstandValue("invalid FacePlayerKind "@ + id.spec_text()),
                ),
            },
        }
    }

    proof fn lemma_remainder(data: Seq<u8>) {
        VarInt::lemma_remainder(data);
    }

    fn mc_deserialize(data: &[u8]) -> (res: DeserializeResult<'_, Self>) {
        let Deserialized { value: id, data: rest } = VarInt::mc_deserialize(data)?;
        match Self::from_varint(id) {
            Some(value) => Deserialized::ok(value, rest),
            None => Err(cannot_understand("invalid FacePlayerKind ", id.to_string().as_str())),
        }
    }
}

impl ProtocolType for FacePlayerKind {
    open spec fn legal(&self) -> bool {
        true
    }

    open spec fn self_delimiting() -> bool {
        true
    }

    proof fn lemma_round_trip(&self, rest: Seq<u8>) {
        self.spec_as_varint().lemma_round_trip(rest);
    }
}

/// Which parts of a position are relative to the present one. One bit for each.
#[derive(Clone, Copy, PartialEq, Eq, Debug, Default)]
pub struct PositionAndLookFlags(pub u8);

impl PositionAndLookFlags {
    pub open spec fn spec_is_x(&self) -> bool {
        self.0 & 0x01 != 0
    }

    #[verifier::when_used_as_spec(spec_is_x)]
    pub fn is_x(&self) -> (res: bool)
        ensures
            res == self.spec_is_x(),
    {
        self.0 & 0x01 != 0
    }

    /// Sets the bit, or clears it, and leaves the others as they are.
    pub fn set_x(&mut self, value: bool)
        ensures
            final(self).0 == with_bits(old(self).0, 0x01, value),
            final(self).is_x() == value,
            final(self).is_y() == old(self).is_y(),
            final(self).is_z() == old(self).is_z(),
            final(self).is_y_rotation() == old(self).is_y_rotation(),
            final(self).is_x_rotation() == old(self).is_x_rotation(),
    {
        proof {
            lemma_with_bits_reads(self.0, 0x01, value);
            lemma_with_bits_keeps(self.0, 0x01, value, 0x02);
            lemma_with_bits_keeps(self.0, 0x01, value, 0x04);
            lemma_with_bits_keeps(self.0, 0x01, value, 0x08);
            lemma_with_bits_keeps(self.0, 0x01, value, 0x10);
        }
        self.0 = set_bits(self.0, 0x01, value);
    }

    pub fn with_x(self, value: bool) -> (res: Self)
        ensures
            res.0 == with_bits(self.0, 0x01, value),
            res.is_x() == value,
            res.is_y() == self.is_y(),
            res.is_z() == self.is_z(),
            res.is_y_rotation() == self.is_y_rotation(),
            res.is_x_rotation() == self.is_x_rotation(),
    {
        proof {
            lemma_with_bits_reads(self.0, 0x01, value);
            lemma_with_bits_keeps(self.0, 0x01, value, 0x02);
            lemma_with_bits_keeps(self.0, 0x01, value, 0x04);
            lemma_with_bits_keeps(self.0, 0x01, value, 0x08);
            lemma_with_bits_keeps(self.0, 0x01, value, 0x10);
        }
        PositionAndLookFlags(set_bits(self.0, 0x01, value))
    }

    pub open spec fn spec_is_y(&self) -> bool {
        self.0 & 0x02 != 0
    }

    #[verifier::when_used_as_spec(spec_is_y)]
    pub fn is_y(&self) -> (res: bool)
        ensures
            res == self.spec_is_y(),
    {
        self.0 & 0x02 != 0
    }

    /// Sets the bit, or clears it, and leaves the others as they are.
    pub fn set_y(&mut self, value: bool)
        ensures
            final(self).0 == with_bits(old(self).0, 0x02, value),
            final(self).is_y() == value,
            final(self).is_x() == old(self).is_x(),
            final(self).is_z() == old(self).is_z(),
            final(self).is_y_rotation() == old(self).is_y_rotation(),
            final(self).is_x_rotation() == old(self).is_x_rotation(),
    {
        proof {
            lemma_with_bits_reads(self.0, 0x02, value);
            lemma_with_bits_keeps(self.0, 0x02, value, 0x01);
            lemma_with_bits_keeps(self.0, 0x02, value, 0x04);
            lemma_with_bits_keeps(self.0, 0x02, value, 0x08);
            lemma_with_bits_keeps(self.0, 0x02, value, 0x10);
        }
        self.0 = set_bits(self.0, 0x02, value);
    }

    pub fn with_y(self, value: bool) -> (res: Self)
        ensures
            res.0 == with_bits(self.0, 0x02, value),
            res.is_y() == value,
            res.is_x() == self.is_x(),
            res.is_z() == self.is_z(),
            res.is_y_rotation() == self.is_y_rotation(),
            res.is_x_rotation() == self.is_x_rotation(),
    {
        proof {
            lemma_with_bits_reads(self.0, 0x02, value);
            lemma_with_bits_keeps(self.0, 0x02, value, 0x01);
            lemma_with_bits_keeps(self.0, 0x02, value, 0x04);
            lemma_with_bits_keeps(self.0, 0x02, value, 0x08);
            lemma_with_bits_keeps(self.0, 0x02, value, 0x10);
        }
        PositionAndLookFlags(set_bits(self.0, 0x02, value))
    }

    pub open spec fn spec_is_z(&self) -> bool {
        self.0 & 0x04 != 0
    }

    #[verifier::when_used_as_spec(spec_is_z)]
    pub fn is_z(&self) -> (res: bool)
        ensures
            res == self.spec_is_z(),
    {
        self.0 & 0x04 != 0
    }

    /// Sets the bit, or clears it, and leaves the others as they are.
    pub fn set_z(&mut self, value: bool)
        ensures
            final(self).0 == with_bits(old(self).0, 0x04, value),
            final(self).is_z() == value,
            final(self).is_x() == old(self).is_x(),
            final(self).is_y() == old(self).is_y(),
            final(self).is_y_rotation() == old(self).is_y_rotation(),
            final(self).is_x_rotation() == old(self).is_x_rotation(),
    {
        proof {
            lemma_with_bits_reads(self.0, 0x04, value);
            lemma_with_bits_keeps(self.0, 0x04, value, 0x01);
            lemma_with_bits_keeps(self.0, 0x04, value, 0x02);
            lemma_with_bits_keeps(self.0, 0x04, value, 0x08);
            lemma_with_bits_keeps(self.0, 0x04, value, 0x10);
        }
        self.0 = set_bits(self.0, 0x04, value);
    }

    pub fn with_z(self, value: bool) -> (res: Self)
        ensures
            res.0 == with_bits(self.0, 0x04, value),
            res.is_z() == value,
            res.is_x() == self.is_x(),
            res.is_y() == self.is_y(),
            res.is_y_rotation() == self.is_y_rotation(),
            res.is_x_rotation() == self.is_x_rotation(),
    {
        proof {
            lemma_with_bits_reads(self.0, 0x04, value);
            lemma_with_bits_keeps(self.0, 0x04, value, 0x01);
            lemma_with_bits_keeps(self.0, 0x04, value, 0x02);
            lemma_with_bits_keeps(self.0, 0x04, value, 0x08);
            lemma_with_bits_keeps(self.0, 0x04, value, 0x10);
        }
        PositionAndLookFlags(set_bits(self.0, 0x04, value))
    }

    pub open spec fn spec_is_y_rotation(&self) -> bool {
        self.0 & 0x08 != 0
    }

    #[verifier::when_used_as_spec(spec_is_y_rotation)]
    pub fn is_y_rotation(&self) -> (res: bool)
        ensures
            res == self.spec_is_y_rotation(),
    {
        self.0 & 0x08 != 0
    }

    /// Sets the bit, or clears it, and leaves the others as they are.
    pub fn set_y_rotation(&mut self, value: bool)
        ensures
            final(self).0 == with_bits(old(self).0, 0x08, value),
            final(self).is_y_rotation() == value,
            final(self).is_x() == old(self).is_x(),
            final(self).is_y() == old(self).is_y(),
            final(self).is_z() == old(self).is_z(),
            final(self).is_x_rotation() == old(self).is_x_rotation(),
    {
        proof {
            lemma_with_bits_reads(self.0, 0x08, value);
            lemma_with_bits_keeps(self.0, 0x08, value, 0x01);
            lemma_with_bits_keeps(self.0, 0x08, value, 0x02);
            lemma_with_bits_keeps(self.0, 0x08, value, 0x04);
            lemma_with_bits_keeps(self.0, 0x08, value, 0x10);
        }
        self.0 = set_bits(self.0, 0x08, value);
    }

    pub fn with_y_rotation(self, value: bool) -> (res: Self)
        ensures
            res.0 == with_bits(self.0, 0x08, value),
            res.is_y_rotation() == value,
            res.is_x() == self.is_x(),
            res.is_y() == self.is_y(),
            res.is_z() == self.is_z(),
            res.is_x_rotation() == self.is_x_rotation(),
    {
        proof {
            lemma_with_bits_reads(self.0, 0x08, value);
            lemma_with_bits_keeps(self.0, 0x08, value, 0x01);
            lemma_with_bits_keeps(self.0, 0x08, value, 0x02);
            lemma_with_bits_keeps(self.0, 0x08, value, 0x04);
            lemma_with_bits_keeps(self.0, 0x08, value, 0x10);
        }
        PositionAndLookFlags(set_bits(self.0, 0x08, value))
    }

    pub open spec fn spec_is_x_rotation(&self) -> bool {
        self.0 & 0x10 != 0
    }

    #[verifier::when_used_as_spec(spec_is_x_rotation)]
    pub fn is_x_rotation(&self) -> (res: bool)
        ensures
            res == self.spec_is_x_rotation(),
    {
        self.0 & 0x10 != 0
    }

    /// Sets the bit, or clears it, and leaves the others as they are.
    pub fn set_x_rotation(&mut self, value: bool)
        ensures
            final(self).0 == with_bits(old(self).0, 0x10, value),
            final(self).is_x_rotation() == value,
            final(self).is_x() == old(self).is_x(),
            final(self).is_y() == old(self).is_y(),
            final(self).is_z() == old(self).is_z(),
            final(self).is_y_rotation() == old(self).is_y_rotation(),
    {
        proof {
            lemma_with_bits_reads(self.0, 0x10, value);
            lemma_with_bits_keeps(self.0, 0x10, value, 0x01);
            lemma_with_bits_keeps(self.0, 0x10, value, 0x02);
            lemma_with_bits_keeps(self.0, 0x10, value, 0x04);
            lemma_with_bits_keeps(self.0, 0x10, value, 0x08);
        }
        self.0 = set_bits(self.0, 0x10, value);
    }

    pub fn with_x_rotation(self, value: bool) -> (res: Self)
        ensures
            res.0 == with_bits(self.0, 0x10, value),
            res.is_x_rotation() == value,
            res.is_x() == self.is_x(),
            res.is_y() == self.is_y(),
            res.is_z() == self.is_z(),
            res.is_y_rotation() == self.is_y_rotation(),
    {
        proof {
            lemma_with_bits_reads(self.0, 0x10, value);
            lemma_with_bits_keeps(self.0, 0x10, value, 0x01);
            lemma_with_bits_keeps(self.0, 0x10, value, 0x02);
            lemma_with_bits_keeps(self.0, 0x10, value, 0x04);
            lemma_with_bits_keeps(self.0, 0x10, value, 0x08);
        }
        PositionAndLookFlags(set_bits(self.0, 0x10, value))
    }
}

impl Serialize for PositionAndLookFlags {
    open spec fn wire(&self) -> Seq<u8> {
        self.0.wire()
    }

    fn mc_serialize<S: Serializer>(&self, to: &mut S) -> (res: SerializeResult) {
        to.serialize_byte(self.0)
    }
}

impl Deserialize for PositionAndLookFlags {
    type Model = PositionAndLookFlags;

    open spec fn model(&self) -> PositionAndLookFlags {
        *self
    }

    open spec fn decoding(data: Seq<u8>) -> Parsed<PositionAndLookFlags> {
        match u8::decoding(data) {
            Err(e) => Err(e),
            Ok((b, rest)) => Ok((PositionAndLookFlags(b), rest)),
        }
    }

    proof fn lemma_remainder(data: Seq<u8>) {
        u8::lemma_remainder(data);
    }

    fn mc_deserialize(data: &[u8]) -> (res: DeserializeResult<'_, Self>) {
        let Deserialized { value: b, data: rest } = u8::mc_deserialize(data)?;
        Deserialized::ok(PositionAndLookFlags(b), rest)
    }
}

impl ProtocolType for PositionAndLookFlags {
    open spec fn legal(&self) -> bool {
        true
    }

    open spec fn self_delimiting() -> bool {
        true
    }

    proof fn lemma_round_trip(&self, rest: Seq<u8>) {
        self.0.lemma_round_trip(rest);
    }
}

/// An effect that lies on an entity.
#[derive(PartialEq, Eq, Clone, Copy, Debug)]
pub enum EntityEffectKind {
    Speed,
    Slowness,
    Haste,
    MiningFatigue,
    Strength,
    InstantHealth,
    InstantDamage,
    JumpBoost,
    Nausea,
    Regeneration,
    Resistance,
    FireResistance,
    WaterBreathing,
    Invisibility,
    Blindness,
    NightVision,
    Hunger,
    Weakness,
    Poison,
    Wither,
    HealthBoost,
    Absorption,
    Saturation,
    Glowing,
    Levetation,
    Luck,
    Unluck,
    SlowFalling,
    ConduitPower,
    DolphinsGrace,
    BadOmen,
    HeroOfTheVillage,
}

impl EntityEffectKind {
    pub open spec fn spec_from_byte(b: u8) -> Option<Self> {
        if b == 0x01 {
            Some(EntityEffectKind::Speed)
        } else if b == 0x02 {
            Some(EntityEffectKind::Slowness)
        } else if b == 0x03 {
            Some(EntityEffectKind::Haste)
        } else if b == 0x04 {
            Some(EntityEffectKind::MiningFatigue)
        } else if b == 0x05 {
            Some(EntityEffectKind::Strength)
        } else if b == 0x06 {
            Some(EntityEffectKind::InstantHealth)
        } else if b == 0x07 {
            Some(EntityEffectKind::InstantDamage)
        } else if b == 0x08 {
            Some(EntityEffectKind::JumpBoost)
        } else if b == 0x09 {
            Some(EntityEffectKind::Nausea)
        } else if b == 0x0A {
            Some(EntityEffectKind::Regeneration)
        } else if b == 0x0B {
            Some(EntityEffectKind::Resistance)
        } else if b == 0x0C {
            Some(EntityEffectKind::FireResistance)
        } else if b == 0x0D {
            Some(EntityEffectKind::WaterBreathing)
        } else if b == 0x0E {
            Some(EntityEffectKind::Invisibility)
        } else if b == 0x0F {
            Some(EntityEffectKind::Blindness)
        } else if b == 0x10 {
            Some(EntityEffectKind::NightVision)
        } else if b == 0x11 {
            Some(EntityEffectKind::Hunger)
        } else if b == 0x12 {
            Some(EntityEffectKind::Weakness)
        } else if b == 0x13 {
            Some(EntityEffectKind::Poison)
        } else if b == 0x14 {
            Some(EntityEffectKind::Wither)
        } else if b == 0x15 {
            Some(EntityEffectKind::HealthBoost)
        } else if b == 0x16 {
            Some(EntityEffectKind::Absorption)
        } else if b == 0x17 {
            Some(EntityEffectKind::Saturation)
        } else if b == 0x18 {
            Some(EntityEffectKind::Glowing)
        } else if b == 0x19 {
            Some(EntityEffectKind::Levetation)
        } else if b == 0x1A {
            Some(EntityEffectKind::Luck)
        } else if b == 0x1B {
            Some(EntityEffectKind::Unluck)
        } else if b == 0x1C {
            Some(EntityEffectKind::SlowFalling)
        } else if b == 0x1D {
            Some(EntityEffectKind::ConduitPower)
        } else if b == 0x1E {
            Some(EntityEffectKind::DolphinsGrace)
        } else if b == 0x1F {
            Some(EntityEffectKind::BadOmen)
        } else if b == 0x20 {
            Some(EntityEffectKind::HeroOfTheVillage)
        } else {
            None
        }
    }

    /// The member that a number stands for, if it stands for one.
    pub fn from_byte(b: u8) -> (res: Option<Self>)
        ensures
            res == Self::spec_from_byte(b),
    {
        match b {
            0x01 => Some(EntityEffectKind::Speed),
            0x02 => Some(EntityEffectKind::Slowness),
            0x03 => Some(EntityEffectKind::Haste),
            0x04 => Some(EntityEffectKind::MiningFatigue),
            0x05 => Some(EntityEffectKind::Strength),
            0x06 => Some(EntityEffectKind::InstantHealth),
            0x07 => Some(EntityEffectKind::InstantDamage),
            0x08 => Some(EntityEffectKind::JumpBoost),
            0x09 => Some(EntityEffectKind::Nausea),
            0x0A => Some(EntityEffectKind::Regeneration),
            0x0B => Some(EntityEffectKind::Resistance),
            0x0C => Some(EntityEffectKind::FireResistance),
            0x0D => Some(EntityEffectKind::WaterBreathing),
            0x0E => Some(EntityEffectKind::Invisibility),
            0x0F => Some(EntityEffectKind::Blindness),
            0x10 => Some(EntityEffectKind::NightVision),
            0x11 => Some(EntityEffectKind::Hunger),
            0x12 => Some(EntityEffectKind::Weakness),
            0x13 => Some(EntityEffectKind::Poison),
            0x14 => Some(EntityEffectKind::Wither),
            0x15 => Some(EntityEffectKind::HealthBoost),
            0x16 => Some(EntityEffectKind::Absorption),
            0x17 => Some(EntityEffectKind::Saturation),
            0x18 => Some(EntityEffectKind::Glowing),
            0x19 => Some(EntityEffectKind::Levetation),
            0x1A => Some(EntityEffectKind::Luck),
            0x1B => Some(EntityEffectKind::Unluck),
            0x1C => Some(EntityEffectKind::SlowFalling),
            0x1D => Some(EntityEffectKind::ConduitPower),
            0x1E => Some(EntityEffectKind::DolphinsGrace),
            0x1F => Some(EntityEffectKind::BadOmen),
            0x20 => Some(EntityEffectKind::HeroOfTheVillage),
            _ => None,
        }
    }

    pub open spec fn spec_name(&self) -> Seq<char> {
        match self {
            EntityEffectKind::Speed => "Speed"@,
            EntityEffectKind::Slowness => "Slowness"@,
            EntityEffectKind::Haste => "Haste"@,
            EntityEffectKind::MiningFatigue => "MiningFatigue"@,
            EntityEffectKind::Strength => "Strength"@,
            EntityEffectKind::InstantHealth => "InstantHealth"@,
            EntityEffectKind::InstantDamage => "InstantDamage"@,
            EntityEffectKind::JumpBoost => "JumpBoost"@,
            EntityEffectKind::Nausea => "Nausea"@,
            EntityEffectKind::Regeneration => "Regeneration"@,
            EntityEffectKind::Resistance => "Resistance"@,
            EntityEffectKind::FireResistance => "FireResistance"@,
            EntityEffectKind::WaterBreathing => "WaterBreathing"@,
            EntityEffectKind::Invisibility => "Invisibility"@,
            EntityEffectKind::Blindness => "Blindness"@,
            EntityEffectKind::NightVision => "NightVision"@,
            EntityEffectKind::Hunger => "Hunger"@,
            EntityEffectKind::Weakness => "Weakness"@,
            EntityEffectKind::Poison => "Poison"@,
            EntityEffectKind::Wither => "Wither"@,
            EntityEffectKind::HealthBoost => "HealthBoost"@,
            EntityEffectKind::Absorption => "Absorption"@,
            EntityEffectKind::Saturation => "Saturation"@,
            EntityEffectKind::Glowing => "Glowing"@,
            EntityEffectKind::Levetation => "Levetation"@,
            EntityEffectKind::Luck => "Luck"@,
            EntityEffectKind::Unluck => "Unluck"@,
            EntityEffectKind::SlowFalling => "SlowFalling"@,
            EntityEffectKind::ConduitPower => "ConduitPower"@,
            EntityEffectKind::DolphinsGrace => "DolphinsGrace"@,
            EntityEffectKind::BadOmen => "BadOmen"@,
            EntityEffectKind::HeroOfTheVillage => "HeroOfTheVillage"@,
        }
    }

    pub fn name(&self) -> (res: &str)
        ensures
            res@ == self.spec_name(),
    {
        match self {
            EntityEffectKind::Speed => "Speed",
            EntityEffectKind::Slowness => "Slowness",
            EntityEffectKind::Haste => "Haste",
            EntityEffectKind::MiningFatigue => "MiningFatigue",
            EntityEffectKind::Strength => "Strength",
            EntityEffectKind::InstantHealth => "InstantHealth",
            EntityEffectKind::InstantDamage => "InstantDamage",
            EntityEffectKind::JumpBoost => "JumpBoost",
            EntityEffectKind::Nausea => "Nausea",
            EntityEffectKind::Regeneration => "Regeneration",
            EntityEffectKind::Resistance => "Resistance",
            EntityEffectKind::FireResistance => "FireResistance",
            EntityEffectKind::WaterBreathing => "WaterBreathing",
            EntityEffectKind::Invisibility => "Invisibility",
            EntityEffectKind::Blindness => "Blindness",
            EntityEffectKind::NightVision => "NightVision",
            EntityEffectKind::Hunger => "Hunger",
            EntityEffectKind::Weakness => "Weakness",
            EntityEffectKind::Poison => "Poison",
            EntityEffectKind::Wither => "Wither",
            EntityEffectKind::HealthBoost => "HealthBoost",
            EntityEffectKind::Absorption => "Absorption",
            EntityEffectKind::Saturation => "Saturation",
            EntityEffectKind::Glowing => "Glowing",
            EntityEffectKind::Levetation => "Levetation",
            EntityEffectKind::Luck => "Luck",
            EntityEffectKind::Unluck => "Unluck",
            EntityEffectKind::SlowFalling => "SlowFalling",
            EntityEffectKind::ConduitPower => "ConduitPower",
            EntityEffectKind::DolphinsGrace => "DolphinsGrace",
            EntityEffectKind::BadOmen => "BadOmen",
            EntityEffectKind::HeroOfTheVillage => "HeroOfTheVillage",
        }
    }

    pub open spec fn spec_as_byte(&self) -> u8 {
        match self {
            EntityEffectKind::Speed => 0x01,
            EntityEffectKind::Slowness => 0x02,
            EntityEffectKind::Haste => 0x03,
            EntityEffectKind::MiningFatigue => 0x04,
            EntityEffectKind::Strength => 0x05,
            EntityEffectKind::InstantHealth => 0x06,
            EntityEffectKind::InstantDamage => 0x07,
            EntityEffectKind::JumpBoost => 0x08,
            EntityEffectKind::Nausea => 0x09,
            EntityEffectKind::Regeneration => 0x0A,
            EntityEffectKind::Resistance => 0x0B,
            EntityEffectKind::FireResistance => 0x0C,
            EntityEffectKind::WaterBreathing => 0x0D,
            EntityEffectKind::Invisibility => 0x0E,
            EntityEffectKind::Blindness => 0x0F,
            EntityEffectKind::NightVision => 0x10,
            EntityEffectKind::Hunger => 0x11,
            EntityEffectKind::Weakness => 0x12,
            EntityEffectKind::Poison => 0x13,
            EntityEffectKind::Wither => 0x14,
            EntityEffectKind::HealthBoost => 0x15,
            EntityEffectKind::Absorption => 0x16,
            EntityEffectKind::Saturation => 0x17,
            EntityEffectKind::Glowing => 0x18,
            EntityEffectKind::Levetation => 0x19,
            EntityEffectKind::Luck => 0x1A,
            EntityEffectKind::Unluck => 0x1B,
            EntityEffectKind::SlowFalling => 0x1C,
            EntityEffectKind::ConduitPower => 0x1D,
            EntityEffectKind::DolphinsGrace => 0x1E,
            EntityEffectKind::BadOmen => 0x1F,
            EntityEffectKind::HeroOfTheVillage => 0x20,
        }
    }

    /// The number of a member; no two members share one.
    pub fn as_byte(&self) -> (res: u8)
        ensures
            res == self.spec_as_byte(),
            Self::spec_from_byte(res) == Some(*self),
    {
        match self {
            EntityEffectKind::Speed => 0x01,
            EntityEffectKind::Slowness => 0x02,
            EntityEffectKind::Haste => 0x03,
            EntityEffectKind::MiningFatigue => 0x04,
            EntityEffectKind::Strength => 0x05,
            EntityEffectKind::InstantHealth => 0x06,
            EntityEffectKind::InstantDamage => 0x07,
            EntityEffectKind::JumpBoost => 0x08,
            EntityEffectKind::Nausea => 0x09,
            EntityEffectKind::Regeneration => 0x0A,
            EntityEffectKind::Resistance => 0x0B,
            EntityEffectKind::FireResistance => 0x0C,
            EntityEffectKind::WaterBreathing => 0x0D,
            EntityEffectKind::Invisibility => 0x0E,
            EntityEffectKind::Blindness => 0x0F,
            EntityEffectKind::NightVision => 0x10,
            EntityEffectKind::Hunger => 0x11,
            EntityEffectKind::Weakness => 0x12,
            EntityEffectKind::Poison => 0x13,
            EntityEffectKind::Wither => 0x14,
            EntityEffectKind::HealthBoost => 0x15,
            EntityEffectKind::Absorption => 0x16,
            EntityEffectKind::Saturation => 0x17,
            EntityEffectKind::Glowing => 0x18,
            EntityEffectKind::Levetation => 0x19,
            EntityEffectKind::Luck => 0x1A,
            EntityEffectKind::Unluck => 0x1B,
            EntityEffectKind::SlowFalling => 0x1C,
            EntityEffectKind::ConduitPower => 0x1D,
            EntityEffectKind::DolphinsGrace => 0x1E,
            EntityEffectKind::BadOmen => 0x1F,
            EntityEffectKind::HeroOfTheVillage => 0x20,
        }
    }
}

impl Serialize for EntityEffectKind {
    open spec fn wire(&self) -> Seq<u8> {
        self.spec_as_byte().wire()
    }

    fn mc_serialize<S: Serializer>(&self, to: &mut S) -> (res: SerializeResult) {
        self.as_byte().mc_serialize(to)
    }
}

impl Deserialize for EntityEffectKind {
    type Model = EntityEffectKind;

    open spec fn model(&self) -> EntityEffectKind {
        *self
    }

    /// A number that names no member is an error that says so.
    open spec fn decoding(data: Seq<u8>) -> Parsed<EntityEffectKind> {
        match u8::decoding(data) {
            Err(e) => Err(e),
            Ok((id, rest)) => match Self::spec_from_byte(id) {
                Some(value) => Ok((value, rest)),
                None => Err(
                    Fault::CannotUnderstandValue(
                        "invalid EntityEffectKind "@ + decimal_text(id as int),
                    ),
                ),
            },
        }
    }

    proof fn lemma_remainder(data: Seq<u8>) {
        u8::lemma_remainder(data);
    }

    fn mc_deserialize(data: &[u8]) -> (res: DeserializeResult<'_, Self>) {
        let Deserialized { value: id, data: rest } = u8::mc_deserialize(data)?;
        match Self::from_byte(id) {
            Some(value) => Deserialized::ok(value, rest),
            None => Err(
                cannot_understand("invalid EntityEffectKind ", decimal_string(id as i64).as_str()),
            ),
        }
    }
}

impl ProtocolType for EntityEffectKind {
    open spec fn legal(&self) -> bool {
        true
    }

    open spec fn self_delimiting() -> bool {
        true
    }

    proof fn lemma_round_trip(&self, rest: Seq<u8>) {
        self.spec_as_byte().lemma_round_trip(rest);
    }
}

/// A place on an entity where it wears or holds something.
#[derive(PartialEq, Eq, Clone, Copy, Debug)]
pub enum EquipmentSlot {
    MainHand,
    OffHand,
    ArmorBoots,
    ArmorLeggings,
    ArmorChestplate,
    ArmorHelmet,
}

impl EquipmentSlot {
    pub open spec fn spec_from_varint(b: VarInt) -> Option<Self> {
        if b.0 == 0x00 {
            Some(EquipmentSlot::MainHand)
        } else if b.0 == 0x01 {
            Some(EquipmentSlot::OffHand)
        } else if b.0 == 0x02 {
            Some(EquipmentSlot::ArmorBoots)
        } else if b.0 == 0x03 {
            Some(EquipmentSlot::ArmorLeggings)
        } else if b.0 == 0x04 {
            Some(EquipmentSlot::ArmorChestplate)
        } else if b.0 == 0x05 {
            Some(EquipmentSlot::ArmorHelmet)
        } else {
            None
        }
    }

    /// The member that a number stands for, if it stands for one.
    pub fn from_varint(b: VarInt) -> (res: Option<Self>)
        ensures
            res == Self::spec_from_varint(b),
    {
        match b.0 {
            0x00 => Some(EquipmentSlot::MainHand),
            0x01 => Some(EquipmentSlot::OffHand),
            0x02 => Some(EquipmentSlot::ArmorBoots),
            0x03 => Some(EquipmentSlot::ArmorLeggings),
            0x04 => Some(EquipmentSlot::ArmorChestplate),
            0x05 => Some(EquipmentSlot::ArmorHelmet),
            _ => None,
        }
    }

    pub open spec fn spec_name(&self) -> Seq<char> {
        match self {
            EquipmentSlot::MainHand => "MainHand"@,
            EquipmentSlot::OffHand => "OffHand"@,
            EquipmentSlot::ArmorBoots => "ArmorBoots"@,
            EquipmentSlot::ArmorLeggings => "ArmorLeggings"@,
            EquipmentSlot::ArmorChestplate => "ArmorChestplate"@,
            EquipmentSlot::ArmorHelmet => "ArmorHelmet"@,
        }
    }

    pub fn name(&self) -> (res: &str)
        ensures
            res@ == self.spec_name(),
    {
        match self {
            EquipmentSlot::MainHand => "MainHand",
            EquipmentSlot::OffHand => "OffHand",
            EquipmentSlot::ArmorBoots => "ArmorBoots",
            EquipmentSlot::ArmorLeggings => "ArmorLeggings",
            EquipmentSlot::ArmorChestplate => "ArmorChestplate",
            EquipmentSlot::ArmorHelmet => "ArmorHelmet",
        }
    }

    pub open spec fn spec_as_varint(&self) -> VarInt {
        match self {
            EquipmentSlot::MainHand => VarInt(0x00),
            EquipmentSlot::OffHand => VarInt(0x01),
            EquipmentSlot::ArmorBoots => VarInt(0x02),
            EquipmentSlot::ArmorLeggings => VarInt(0x03),
            EquipmentSlot::ArmorChestplate => VarInt(0x04),
            EquipmentSlot::ArmorHelmet => VarInt(0x05),
        }
    }

    /// The number of a member; no two members share one.
    pub fn as_varint(&self) -> (res: VarInt)
        ensures
            res == self.spec_as_varint(),
            Self::spec_from_varint(res) == Some(*self),
    {
        match self {
            EquipmentSlot::MainHand => VarInt(0x00),
            EquipmentSlot::OffHand => VarInt(0x01),
            EquipmentSlot::ArmorBoots => VarInt(0x02),
            EquipmentSlot::ArmorLeggings => VarInt(0x03),
            EquipmentSlot::ArmorChestplate => VarInt(0x04),
            EquipmentSlot::ArmorHelmet => VarInt(0x05),
        }
    }
}

impl Serialize for EquipmentSlot {
    open spec fn wire(&self) -> Seq<u8> {
        self.spec_as_varint().wire()
    }

    fn mc_serialize<S: Serializer>(&self, to: &mut S) -> (res: SerializeResult) {
        self.as_varint().mc_serialize(to)
    }
}

impl Deserialize for EquipmentSlot {
    type Model = EquipmentSlot;

    open spec fn model(&self) -> EquipmentSlot {
        *self
    }

    /// A number that names no member is an error that says so.
    open spec fn decoding(data: Seq<u8>) -> Parsed<EquipmentSlot> {
        match VarInt::decoding(data) {
            Err(e) => Err(e),
            Ok((id, rest)) => match Self::spec_from_varint(id) {
                Some(value) => Ok((value, rest)),
                None => Err(
                    Fault::CannotUnderstandValue("invalid EquipmentSlot "@ + id.spec_text()),
                ),
            },
        }
    }

    proof fn lemma_remainder(data: Seq<u8>) {
        VarInt::lemma_remainder(data);
    }

    fn mc_deserialize(data: &[u8]) -> (res: DeserializeResult<'_, Self>) {
        let Deserialized { value: id, data: rest } = VarInt::mc_deserialize(data)?;
        match Self::from_varint(id) {
            Some(value) => Deserialized::ok(value, rest),
            None => Err(cannot_understand("invalid EquipmentSlot ", id.to_string().as_str())),
        }
    }
}

impl ProtocolType for EquipmentSlot {
    open spec fn legal(&self) -> bool {
        true
    }

    open spec fn self_delimiting() -> bool {
        true
    }

    proof fn lemma_round_trip(&self, rest: Seq<u8>) {
        self.spec_as_varint().lemma_round_trip(rest);
    }
}

/// How the score of an objective is shown.
#[derive(PartialEq, Eq, Clone, Copy, Debug)]
pub enum ScoreboardObjectiveKind {
    Integer,
    Hearts,
}

impl ScoreboardObjectiveKind {
    pub open spec fn spec_from_varint(b: VarInt) -> Option<Self> {
        if b.0 == 0x00 {
            Some(ScoreboardObjectiveKind::Integer)
        } else if b.0 == 0x01 {
            Some(ScoreboardObjectiveKind::Hearts)
        } else {
            None
        }
    }

    /// The member that a number stands for, if it stands for one.
    pub fn from_varint(b: VarInt) -> (res: Option<Self>)
        ensures
            res == Self::spec_from_varint(b),
    {
        match b.0 {
            0x00 => Some(ScoreboardObjectiveKind::Integer),
            0x01 => Some(ScoreboardObjectiveKind::Hearts),
            _ => None,
        }
    }

    pub open spec fn spec_name(&self) -> Seq<char> {
        match self {
            ScoreboardObjectiveKind::Integer => "Integer"@,
            ScoreboardObjectiveKind::Hearts => "Hearts"@,
        }
    }

    pub fn name(&self) -> (res: &str)
        ensures
            res@ == self.spec_name(),
    {
        match self {
            ScoreboardObjectiveKind::Integer => "Integer",
            ScoreboardObjectiveKind::Hearts => "Hearts",
        }
    }

    pub open spec fn spec_as_varint(&self) -> VarInt {
        match self {
            ScoreboardObjectiveKind::Integer => VarInt(0x00),
            ScoreboardObjectiveKind::Hearts => VarInt(0x01),
        }
    }

    /// The number of a member; no two members share one.
    pub fn as_varint(&self) -> (res: VarInt)
        ensures
            res == self.spec_as_varint(),
            Self::spec_from_varint(res) == Some(*self),
    {
        match self {
            ScoreboardObjectiveKind::Integer => VarInt(0x00),
            ScoreboardObjectiveKind::Hearts => VarInt(0x01),
        }
    }
}

impl Serialize for ScoreboardObjectiveKind {
    open spec fn wire(&self) -> Seq<u8> {
        self.spec_as_varint().wire()
    }

    fn mc_serialize<S: Serializer>(&self, to: &mut S) -> (res: SerializeResult) {
        self.as_varint().mc_serialize(to)
    }
}

impl Deserialize for ScoreboardObjectiveKind {
    type Model = ScoreboardObjectiveKind;

    open spec fn model(&self) -> ScoreboardObjectiveKind {
        *self
    }

    /// A number that names no member is an error that says so.
    open spec fn decoding(data: Seq<u8>) -> Parsed<ScoreboardObjectiveKind> {
        match VarInt::decoding(data) {
            Err(e) => Err(e),
            Ok((id, rest)) => match Self::spec_from_varint(id) {
                Some(value) => Ok((value, rest)),
                None => Err(
                    Fault::CannotUnderstandValue(
                        "invalid ScoreboardObjectiveKind "@ + id.spec_text(),
                    ),
                ),
            },
        }
    }

    proof fn lemma_remainder(data: Seq<u8>) {
        VarInt::lemma_remainder(data);
    }

    fn mc_deserialize(data: &[u8]) -> (res: DeserializeResult<'_, Self>) {
        let Deserialized { value: id, data: rest } = VarInt::mc_deserialize(data)?;
        match Self::from_varint(id) {
            Some(value) => Deserialized::ok(value, rest),
            None => Err(
                cannot_understand("invalid ScoreboardObjectiveKind ", id.to_string().as_str()),
            ),
        }
    }
}

impl ProtocolType for ScoreboardObjectiveKind {
    open spec fn legal(&self) -> bool {
        true
    }

    open spec fn self_delimiting() -> bool {
        true
    }

    proof fn lemma_round_trip(&self, rest: Seq<u8>) {
        self.spec_as_varint().lemma_round_trip(rest);
    }
}

/// How a modifier changes a property.
#[derive(PartialEq, Eq, Clone, Copy, Debug)]
pub enum EntityPropertyModifierOperation {
    AddSubtractAmount,
    AddSubtractAmountPercentOfCurrent,
    MultiplyByAmountPercent,
}

impl EntityPropertyModifierOperation {
    pub open spec fn spec_from_byte(b: u8) -> Option<Self> {
        if b == 0x00 {
            Some(EntityPropertyModifierOperation::AddSubtractAmount)
        } else if b == 0x01 {
            Some(EntityPropertyModifierOperation::AddSubtractAmountPercentOfCurrent)
        } else if b == 0x02 {
            Some(EntityPropertyModifierOperation::MultiplyByAmountPercent)
        } else {
            None
        }
    }

    /// The member that a number stands for, if it stands for one.
    pub fn from_byte(b: u8) -> (res: Option<Self>)
        ensures
            res == Self::spec_from_byte(b),
    {
        match b {
            0x00 => Some(EntityPropertyModifierOperation::AddSubtractAmount),
            0x01 => Some(EntityPropertyModifierOperation::AddSubtractAmountPercentOfCurrent),
            0x02 => Some(EntityPropertyModifierOperation::MultiplyByAmountPercent),
            _ => None,
        }
    }

    pub open spec fn spec_name(&self) -> Seq<char> {
        match self {
            EntityPropertyModifierOperation::AddSubtractAmount => "AddSubtractAmount"@,
            EntityPropertyModifierOperation::AddSubtractAmountPercentOfCurrent => {
                "AddSubtractAmountPercentOfCurrent"@
            },
            EntityPropertyModifierOperation::MultiplyByAmountPercent => "MultiplyByAmountPercent"@,
        }
    }

    pub fn name(&self) -> (res: &str)
        ensures
            res@ == self.spec_name(),
    {
        match self {
            EntityPropertyModifierOperation::AddSubtractAmount => "AddSubtractAmount",
            EntityPropertyModifierOperation::AddSubtractAmountPercentOfCurrent => {
                "AddSubtractAmountPercentOfCurrent"
            },
            EntityPropertyModifierOperation::MultiplyByAmountPercent => "MultiplyByAmountPercent",
        }
    }

    pub open spec fn spec_as_byte(&self) -> u8 {
        match self {
            EntityPropertyModifierOperation::AddSubtractAmount => 0x00,
            EntityPropertyModifierOperation::AddSubtractAmountPercentOfCurrent => 0x01,
            EntityPropertyModifierOperation::MultiplyByAmountPercent => 0x02,
        }
    }

    /// The number of a member; no two members share one.
    pub fn as_byte(&self) -> (res: u8)
        ensures
            res == self.spec_as_byte(),
            Self::spec_from_byte(res) == Some(*self),
    {
        match self {
            EntityPropertyModifierOperation::AddSubtractAmount => 0x00,
            EntityPropertyModifierOperation::AddSubtractAmountPercentOfCurrent => 0x01,
            EntityPropertyModifierOperation::MultiplyByAmountPercent => 0x02,
        }
    }
}

impl Serialize for EntityPropertyModifierOperation {
    open spec fn wire(&self) -> Seq<u8> {
        self.spec_as_byte().wire()
    }

    fn mc_serialize<S: Serializer>(&self, to: &mut S) -> (res: SerializeResult) {
        self.as_byte().mc_serialize(to)
    }
}

impl Deserialize for EntityPropertyModifierOperation {
    type Model = EntityPropertyModifierOperation;

    open spec fn model(&self) -> EntityPropertyModifierOperation {
        *self
    }

    /// A number that names no member is an error that says so.
    open spec fn decoding(data: Seq<u8>) -> Parsed<EntityPropertyModifierOperation> {
        match u8::decoding(data) {
            Err(e) => Err(e),
            Ok((id, rest)) => match Self::spec_from_byte(id) {
                Some(value) => Ok((value, rest)),
                None => Err(
                    Fault::CannotUnderstandValue(
                        "invalid EntityPropertyModifierOperation "@ + decimal_text(id as int),
                    ),
                ),
            },
        }
    }

    proof fn lemma_remainder(data: Seq<u8>) {
        u8::lemma_remainder(data);
    }

    fn mc_deserialize(data: &[u8]) -> (res: DeserializeResult<'_, Self>) {
        let Deserialized { value: id, data: rest } = u8::mc_deserialize(data)?;
        match Self::from_byte(id) {
            Some(value) => Deserialized::ok(value, rest),
            None => Err(
                cannot_understand(
                    "invalid EntityPropertyModifierOperation ",
                    decimal_string(id as i64).as_str(),
                ),
            ),
        }
    }
}

impl ProtocolType for EntityPropertyModifierOperation {
    open spec fn legal(&self) -> bool {
        true
    }

    open spec fn self_delimiting() -> bool {
        true
    }

    proof fn lemma_round_trip(&self, rest: Seq<u8>) {
        self.spec_as_byte().lemma_round_trip(rest);
    }
}

/// How an effect is shown. One bit for each.
#[derive(Clone, Copy, PartialEq, Eq, Debug, Default)]
pub struct EntityEffectFlags(pub u8);

impl EntityEffectFlags {
    pub open spec fn spec_is_ambient(&self) -> bool {
        self.0 & 0x01 != 0
    }

    #[verifier::when_used_as_spec(spec_is_ambient)]
    pub fn is_ambient(&self) -> (res: bool)
        ensures
            res == self.spec_is_ambient(),
    {
        self.0 & 0x01 != 0
    }

    /// Sets the bit, or clears it, and leaves the others as they are.
    pub fn set_ambient(&mut self, value: bool)
        ensures
            final(self).0 == with_bits(old(self).0, 0x01, value),
            final(self).is_ambient() == value,
            final(self).is_show_particles() == old(self).is_show_particles(),
            final(self).is_show_icon() == old(self).is_show_icon(),
    {
        proof {
            lemma_with_bits_reads(self.0, 0x01, value);
            lemma_with_bits_keeps(self.0, 0x01, value, 0x02);
            lemma_with_bits_keeps(self.0, 0x01, value, 0x04);
        }
        self.0 = set_bits(self.0, 0x01, value);
    }

    pub fn with_ambient(self, value: bool) -> (res: Self)
        ensures
            res.0 == with_bits(self.0, 0x01, value),
            res.is_ambient() == value,
            res.is_show_particles() == self.is_show_particles(),
            res.is_show_icon() == self.is_show_icon(),
    {
        proof {
            lemma_with_bits_reads(self.0, 0x01, value);
            lemma_with_bits_keeps(self.0, 0x01, value, 0x02);
            lemma_with_bits_keeps(self.0, 0x01, value, 0x04);
        }
        EntityEffectFlags(set_bits(self.0, 0x01, value))
    }

    pub open spec fn spec_is_show_particles(&self) -> bool {
        self.0 & 0x02 != 0
    }

    #[verifier::when_used_as_spec(spec_is_show_particles)]
    pub fn is_show_particles(&self) -> (res: bool)
        ensures
            res == self.spec_is_show_particles(),
    {
        self.0 & 0x02 != 0
    }

    /// Sets the bit, or clears it, and leaves the others as they are.
    pub fn set_show_particles(&mut self, value: bool)
        ensures
            final(self).0 == with_bits(old(self).0, 0x02, value),
            final(self).is_show_particles() == value,
            final(self).is_ambient() == old(self).is_ambient(),
            final(self).is_show_icon() == old(self).is_show_icon(),
    {
        proof {
            lemma_with_bits_reads(self.0, 0x02, value);
            lemma_with_bits_keeps(self.0, 0x02, value, 0x01);
            lemma_with_bits_keeps(self.0, 0x02, value, 0x04);
        }
        self.0 = set_bits(self.0, 0x02, value);
    }

    pub fn with_show_particles(self, value: bool) -> (res: Self)
        ensures
            res.0 == with_bits(self.0, 0x02, value),
            res.is_show_particles() == value,
            res.is_ambient() == self.is_ambient(),
            res.is_show_icon() == self.is_show_icon(),
    {
        proof {
            lemma_with_bits_reads(self.0, 0x02, value);
            lemma_with_bits_keeps(self.0, 0x02, value, 0x01);
            lemma_with_bits_keeps(self.0, 0x02, value, 0x04);
        }
        EntityEffectFlags(set_bits(self.0, 0x02, value))
    }

    pub open spec fn spec_is_show_icon(&self) -> bool {
        self.0 & 0x04 != 0
    }

    #[verifier::when_used_as_spec(spec_is_show_icon)]
    pub fn is_show_icon(&self) -> (res: bool)
        ensures
            res == self.spec_is_show_icon(),
    {
        self.0 & 0x04 != 0
    }

    /// Sets the bit, or clears it, and leaves the others as they are.
    pub fn set_show_icon(&mut self, value: bool)
        ensures
            final(self).0 == with_bits(old(self).0, 0x04, value),
            final(self).is_show_icon() == value,
            final(self).is_ambient() == old(self).is_ambient(),
            final(self).is_show_particles() == old(self).is_show_particles(),
    {
        proof {
            lemma_with_bits_reads(self.0, 0x04, value);
            lemma_with_bits_keeps(self.0, 0x04, value, 0x01);
            lemma_with_bits_keeps(self.0, 0x04, value, 0x02);
        }
        self.0 = set_bits(self.0, 0x04, value);
    }

    pub fn with_show_icon(self, value: bool) -> (res: Self)
        ensures
            res.0 == with_bits(self.0, 0x04, value),
            res.is_show_icon() == value,
            res.is_ambient() == self.is_ambient(),
            res.is_show_particles() == self.is_show_particles(),
    {
        proof {
            lemma_with_bits_reads(self.0, 0x04, value);
            lemma_with_bits_keeps(self.0, 0x04, value, 0x01);
            lemma_with_bits_keeps(self.0, 0x04, value, 0x02);
        }
        EntityEffectFlags(set_bits(self.0, 0x04, value))
    }
}

impl Serialize for EntityEffectFlags {
    open spec fn wire(&self) -> Seq<u8> {
        self.0.wire()
    }

    fn mc_serialize<S: Serializer>(&self, to: &mut S) -> (res: SerializeResult) {
        to.serialize_byte(self.0)
    }
}

impl Deserialize for EntityEffectFlags {
    type Model = EntityEffectFlags;

    open spec fn model(&self) -> EntityEffectFlags {
        *self
    }

    open spec fn decoding(data: Seq<u8>) -> Parsed<EntityEffectFlags> {
        match u8::decoding(data) {
            Err(e) => Err(e),
            Ok((b, rest)) => Ok((EntityEffectFlags(b), rest)),
        }
    }

    proof fn lemma_remainder(data: Seq<u8>) {
        u8::lemma_remainder(data);
    }

    fn mc_deserialize(data: &[u8]) -> (res: DeserializeResult<'_, Self>) {
        let Deserialized { value: b, data: rest } = u8::mc_deserialize(data)?;
        Deserialized::ok(EntityEffectFlags(b), rest)
    }
}

impl ProtocolType for EntityEffectFlags {
    open spec fn legal(&self) -> bool {
        true
    }

    open spec fn self_delimiting() -> bool {
        true
    }

    proof fn lemma_round_trip(&self, rest: Seq<u8>) {
        self.0.lemma_round_trip(rest);
    }
}

/// What a client asks for outside of play.
#[derive(PartialEq, Eq, Clone, Copy, Debug)]
pub enum ClientStatusAction {
    PerformRespawn,
    RequestStats,
}

impl ClientStatusAction {
    pub open spec fn spec_from_varint(b: VarInt) -> Option<Self> {
        if b.0 == 0x00 {
            Some(ClientStatusAction::PerformRespawn)
        } else if b.0 == 0x01 {
            Some(ClientStatusAction::RequestStats)
        } else {
            None
        }
    }

    /// The member that a number stands for, if it stands for one.
    pub fn from_varint(b: VarInt) -> (res: Option<Self>)
        ensures
            res == Self::spec_from_varint(b),
    {
        match b.0 {
            0x00 => Some(ClientStatusAction::PerformRespawn),
            0x01 => Some(ClientStatusAction::RequestStats),
            _ => None,
        }
    }

    pub open spec fn spec_name(&self) -> Seq<char> {
        match self {
            ClientStatusAction::PerformRespawn => "PerformRespawn"@,
            ClientStatusAction::RequestStats => "RequestStats"@,
        }
    }

    pub fn name(&self) -> (res: &str)
        ensures
            res@ == self.spec_name(),
    {
        match self {
            ClientStatusAction::PerformRespawn => "PerformRespawn",
            ClientStatusAction::RequestStats => "RequestStats",
        }
    }

    pub open spec fn spec_as_varint(&self) -> VarInt {
        match self {
            ClientStatusAction::PerformRespawn => VarInt(0x00),
            ClientStatusAction::RequestStats => VarInt(0x01),
        }
    }

    /// The number of a member; no two members share one.
    pub fn as_varint(&self) -> (res: VarInt)
        ensures
            res == self.spec_as_varint(),
            Self::spec_from_varint(res) == Some(*self),
    {
        match self {
            ClientStatusAction::PerformRespawn => VarInt(0x00),
            ClientStatusAction::RequestStats => VarInt(0x01),
        }
    }
}

impl Serialize for ClientStatusAction {
    open spec fn wire(&self) -> Seq<u8> {
        self.spec_as_varint().wire()
    }

    fn mc_serialize<S: Serializer>(&self, to: &mut S) -> (res: SerializeResult) {
        self.as_varint().mc_serialize(to)
    }
}

impl Deserialize for ClientStatusAction {
    type Model = ClientStatusAction;

    open spec fn model(&self) -> ClientStatusAction {
        *self
    }

    /// A number that names no member is an error that says so.
    open spec fn decoding(data: Seq<u8>) -> Parsed<ClientStatusAction> {
        match VarInt::decoding(data) {
            Err(e) => Err(e),
            Ok((id, rest)) => match Self::spec_from_varint(id) {
                Some(value) => Ok((value, rest)),
                None => Err(
                    Fault::CannotUnderstandValue("invalid ClientStatusAction "@ + id.spec_text()),
                ),
            },
        }
    }

    proof fn lemma_remainder(data: Seq<u8>) {
        VarInt::lemma_remainder(data);
    }

    fn mc_deserialize(data: &[u8]) -> (res: DeserializeResult<'_, Self>) {
        let Deserialized { value: id, data: rest } = VarInt::mc_deserialize(data)?;
        match Self::from_varint(id) {
            Some(value) => Deserialized::ok(value, rest),
            None => Err(cannot_understand("invalid ClientStatusAction ", id.to_string().as_str())),
        }
    }
}

impl ProtocolType for ClientStatusAction {
    open spec fn legal(&self) -> bool {
        true
    }

    open spec fn self_delimiting() -> bool {
        true
    }

    proof fn lemma_round_trip(&self, rest: Seq<u8>) {
        self.spec_as_varint().lemma_round_trip(rest);
    }
}

/// How much of the chat a client shows.
#[derive(PartialEq, Eq, Clone, Copy, Debug)]
pub enum ClientChatMode {
    Enabled,
    CommandsOnly,
    Hidden,
}

impl ClientChatMode {
    pub open spec fn spec_from_varint(b: VarInt) -> Option<Self> {
        if b.0 == 0x00 {
            Some(ClientChatMode::Enabled)
        } else if b.0 == 0x01 {
            Some(ClientChatMode::CommandsOnly)
        } else if b.0 == 0x02 {
            Some(ClientChatMode::Hidden)
        } else {
            None
        }
    }

    /// The member that a number stands for, if it stands for one.
    pub fn from_varint(b: VarInt) -> (res: Option<Self>)
        ensures
            res == Self::spec_from_varint(b),
    {
        match b.0 {
            0x00 => Some(ClientChatMode::Enabled),
            0x01 => Some(ClientChatMode::CommandsOnly),
            0x02 => Some(ClientChatMode::Hidden),
            _ => None,
        }
    }

    pub open spec fn spec_name(&self) -> Seq<char> {
        match self {
            ClientChatMode::Enabled => "Enabled"@,
            ClientChatMode::CommandsOnly => "CommandsOnly"@,
            ClientChatMode::Hidden => "Hidden"@,
        }
    }

    pub fn name(&self) -> (res: &str)
        ensures
            res@ == self.spec_name(),
    {
        match self {
            ClientChatMode::Enabled => "Enabled",
            ClientChatMode::CommandsOnly => "CommandsOnly",
            ClientChatMode::Hidden => "Hidden",
        }
    }

    pub open spec fn spec_as_varint(&self) -> VarInt {
        match self {
            ClientChatMode::Enabled => VarInt(0x00),
            ClientChatMode::CommandsOnly => VarInt(0x01),
            ClientChatMode::Hidden => VarInt(0x02),
        }
    }

    /// The number of a member; no two members share one.
    pub fn as_varint(&self) -> (res: VarInt)
        ensures
            res == self.spec_as_varint(),
            Self::spec_from_varint(res) == Some(*self),
    {
        match self {
            ClientChatMode::Enabled => VarInt(0x00),
            ClientChatMode::CommandsOnly => VarInt(0x01),
            ClientChatMode::Hidden => VarInt(0x02),
        }
    }
}

impl Serialize for ClientChatMode {
    open spec fn wire(&self) -> Seq<u8> {
        self.spec_as_varint().wire()
    }

    fn mc_serialize<S: Serializer>(&self, to: &mut S) -> (res: SerializeResult) {
        self.as_varint().mc_serialize(to)
    }
}

impl Deserialize for ClientChatMode {
    type Model = ClientChatMode;

    open spec fn model(&self) -> ClientChatMode {
        *self
    }

    /// A number that names no member is an error that says so.
    open spec fn decoding(data: Seq<u8>) -> Parsed<ClientChatMode> {
        match VarInt::decoding(data) {
            Err(e) => Err(e),
            Ok((id, rest)) => match Self::spec_from_varint(id) {
                Some(value) => Ok((value, rest)),
                None => Err(
                    Fault::CannotUnderstandValue("invalid ClientChatMode "@ + id.spec_text()),
                ),
            },
        }
    }

    proof fn lemma_remainder(data: Seq<u8>) {
        VarInt::lemma_remainder(data);
    }

    fn mc_deserialize(data: &[u8]) -> (res: DeserializeResult<'_, Self>) {
        let Deserialized { value: id, data: rest } = VarInt::mc_deserialize(data)?;
        match Self::from_varint(id) {
            Some(value) => Deserialized::ok(value, rest),
            None => Err(cannot_understand("invalid ClientChatMode ", id.to_string().as_str())),
        }
    }
}

impl ProtocolType for ClientChatMode {
    open spec fn legal(&self) -> bool {
        true
    }

    open spec fn self_delimiting() -> bool {
        true
    }

    proof fn lemma_round_trip(&self, rest: Seq<u8>) {
        self.spec_as_varint().lemma_round_trip(rest);
    }
}

/// The hand a player uses most.
#[derive(PartialEq, Eq, Clone, Copy, Debug)]
pub enum ClientMainHand {
    Left,
    Right,
}

impl ClientMainHand {
    pub open spec fn spec_from_varint(b: VarInt) -> Option<Self> {
        if b.0 == 0x00 {
            Some(ClientMainHand::Left)
        } else if b.0 == 0x01 {
            Some(ClientMainHand::Right)
        } else {
            None
        }
    }

    /// The member that a number stands for, if it stands for one.
    pub fn from_varint(b: VarInt) -> (res: Option<Self>)
        ensures
            res == Self::spec_from_varint(b),
    {
        match b.0 {
            0x00 => Some(ClientMainHand::Left),
            0x01 => Some(ClientMainHand::Right),
            _ => None,
        }
    }

    pub open spec fn spec_name(&self) -> Seq<char> {
        match self {
            ClientMainHand::Left => "Left"@,
            ClientMainHand::Right => "Right"@,
        }
    }

    pub fn name(&self) -> (res: &str)
        ensures
            res@ == self.spec_name(),
    {
        match self {
            ClientMainHand::Left => "Left",
            ClientMainHand::Right => "Right",
        }
    }

    pub open spec fn spec_as_varint(&self) -> VarInt {
        match self {
            ClientMainHand::Left => VarInt(0x00),
            ClientMainHand::Right => VarInt(0x01),
        }
    }

    /// The number of a member; no two members share one.
    pub fn as_varint(&self) -> (res: VarInt)
        ensures
            res == self.spec_as_varint(),
            Self::spec_from_varint(res) == Some(*self),
    {
        match self {
            ClientMainHand::Left => VarInt(0x00),
            ClientMainHand::Right => VarInt(0x01),
        }
    }
}

impl Serialize for ClientMainHand {
    open spec fn wire(&self) -> Seq<u8> {
        self.spec_as_varint().wire()
    }

    fn mc_serialize<S: Serializer>(&self, to: &mut S) -> (res: SerializeResult) {
        self.as_varint().mc_serialize(to)
    }
}

impl Deserialize for ClientMainHand {
    type Model = ClientMainHand;

    open spec fn model(&self) -> ClientMainHand {
        *self
    }

    /// A number that names no member is an error that says so.
    open spec fn decoding(data: Seq<u8>) -> Parsed<ClientMainHand> {
        match VarInt::decoding(data) {
            Err(e) => Err(e),
            Ok((id, rest)) => match Self::spec_from_varint(id) {
                Some(value) => Ok((value, rest)),
                None => Err(
                    Fault::CannotUnderstandValue("invalid ClientMainHand "@ + id.spec_text()),
                ),
            },
        }
    }

    proof fn lemma_remainder(data: Seq<u8>) {
        VarInt::lemma_remainder(data);
    }

    fn mc_deserialize(data: &[u8]) -> (res: DeserializeResult<'_, Self>) {
        let Deserialized { value: id, data: rest } = VarInt::mc_deserialize(data)?;
        match Self::from_varint(id) {
            Some(value) => Deserialized::ok(value, rest),
            None => Err(cannot_understand("invalid ClientMainHand ", id.to_string().as_str())),
        }
    }
}

impl ProtocolType for ClientMainHand {
    open spec fn legal(&self) -> bool {
        true
    }

    open spec fn self_delimiting() -> bool {
        true
    }

    proof fn lemma_round_trip(&self, rest: Seq<u8>) {
        self.spec_as_varint().lemma_round_trip(rest);
    }
}

/// The parts of a skin that are shown. One bit for each.
#[derive(Clone, Copy, PartialEq, Eq, Debug, Default)]
pub struct ClientDisplayedSkinParts(pub u8);

impl ClientDisplayedSkinParts {
    pub open spec fn spec_is_cape_enabled(&self) -> bool {
        self.0 & 0x01 != 0
    }

    #[verifier::when_used_as_spec(spec_is_cape_enabled)]
    pub fn is_cape_enabled(&self) -> (res: bool)
        ensures
            res == self.spec_is_cape_enabled(),
    {
        self.0 & 0x01 != 0
    }

    /// Sets the bit, or clears it, and leaves the others as they are.
    pub fn set_cape_enabled(&mut self, value: bool)
        ensures
            final(self).0 == with_bits(old(self).0, 0x01, value),
            final(self).is_cape_enabled() == value,
            final(self).is_jacket_enabled() == old(self).is_jacket_enabled(),
            final(self).is_left_sleeve_enabled() == old(self).is_left_sleeve_enabled(),
            final(self).is_right_sleeve_enabled() == old(self).is_right_sleeve_enabled(),
            final(self).is_left_pants_leg_enabled() == old(self).is_left_pants_leg_enabled(),
            final(self).is_right_pant_legs_enabled() == old(self).is_right_pant_legs_enabled(),
            final(self).is_hat_enabled() == old(self).is_hat_enabled(),
    {
        proof {
            lemma_with_bits_reads(self.0, 0x01, value);
            lemma_with_bits_keeps(self.0, 0x01, value, 0x02);
            lemma_with_bits_keeps(self.0, 0x01, value, 0x04);
            lemma_with_bits_keeps(self.0, 0x01, value, 0x08);
            lemma_with_bits_keeps(self.0, 0x01, value, 0x10);
            lemma_with_bits_keeps(self.0, 0x01, value, 0x20);
            lemma_with_bits_keeps(self.0, 0x01, value, 0x40);
        }
        self.0 = set_bits(self.0, 0x01, value);
    }

    pub fn with_cape_enabled(self, value: bool) -> (res: Self)
        ensures
            res.0 == with_bits(self.0, 0x01, value),
            res.is_cape_enabled() == value,
            res.is_jacket_enabled() == self.is_jacket_enabled(),
            res.is_left_sleeve_enabled() == self.is_left_sleeve_enabled(),
            res.is_right_sleeve_enabled() == self.is_right_sleeve_enabled(),
            res.is_left_pants_leg_enabled() == self.is_left_pants_leg_enabled(),
            res.is_right_pant_legs_enabled() == self.is_right_pant_legs_enabled(),
            res.is_hat_enabled() == self.is_hat_enabled(),
    {
        proof {
            lemma_with_bits_reads(self.0, 0x01, value);
            lemma_with_bits_keeps(self.0, 0x01, value, 0x02);
            lemma_with_bits_keeps(self.0, 0x01, value, 0x04);
            lemma_with_bits_keeps(self.0, 0x01, value, 0x08);
            lemma_with_bits_keeps(self.0, 0x01, value, 0x10);
            lemma_with_bits_keeps(self.0, 0x01, value, 0x20);
            lemma_with_bits_keeps(self.0, 0x01, value, 0x40);
        }
        ClientDisplayedSkinParts(set_bits(self.0, 0x01, value))
    }

    pub open spec fn spec_is_jacket_enabled(&self) -> bool {
        self.0 & 0x02 != 0
    }

    #[verifier::when_used_as_spec(spec_is_jacket_enabled)]
    pub fn is_jacket_enabled(&self) -> (res: bool)
        ensures
            res == self.spec_is_jacket_enabled(),
    {
        self.0 & 0x02 != 0
    }

    /// Sets the bit, or clears it, and leaves the others as they are.
    pub fn set_jacket_enabled(&mut self, value: bool)
        ensures
            final(self).0 == with_bits(old(self).0, 0x02, value),
            final(self).is_jacket_enabled() == value,
            final(self).is_cape_enabled() == old(self).is_cape_enabled(),
            final(self).is_left_sleeve_enabled() == old(self).is_left_sleeve_enabled(),
            final(self).is_right_sleeve_enabled() == old(self).is_right_sleeve_enabled(),
            final(self).is_left_pants_leg_enabled() == old(self).is_left_pants_leg_enabled(),
            final(self).is_right_pant_legs_enabled() == old(self).is_right_pant_legs_enabled(),
            final(self).is_hat_enabled() == old(self).is_hat_enabled(),
    {
        proof {
            lemma_with_bits_reads(self.0, 0x02, value);
            lemma_with_bits_keeps(self.0, 0x02, value, 0x01);
            lemma_with_bits_keeps(self.0, 0x02, value, 0x04);
            lemma_with_bits_keeps(self.0, 0x02, value, 0x08);
            lemma_with_bits_keeps(self.0, 0x02, value, 0x10);
            lemma_with_bits_keeps(self.0, 0x02, value, 0x20);
            lemma_with_bits_keeps(self.0, 0x02, value, 0x40);
        }
        self.0 = set_bits(self.0, 0x02, value);
    }

    pub fn with_jacket_enabled(self, value: bool) -> (res: Self)
        ensures
            res.0 == with_bits(self.0, 0x02, value),
            res.is_jacket_enabled() == value,
            res.is_cape_enabled() == self.is_cape_enabled(),
            res.is_left_sleeve_enabled() == self.is_left_sleeve_enabled(),
            res.is_right_sleeve_enabled() == self.is_right_sleeve_enabled(),
            res.is_left_pants_leg_enabled() == self.is_left_pants_leg_enabled(),
            res.is_right_pant_legs_enabled() == self.is_right_pant_legs_enabled(),
            res.is_hat_enabled() == self.is_hat_enabled(),
    {
        proof {
            lemma_with_bits_reads(self.0, 0x02, value);
            lemma_with_bits_keeps(self.0, 0x02, value, 0x01);
            lemma_with_bits_keeps(self.0, 0x02, value, 0x04);
            lemma_with_bits_keeps(self.0, 0x02, value, 0x08);
            lemma_with_bits_keeps(self.0, 0x02, value, 0x10);
            lemma_with_bits_keeps(self.0, 0x02, value, 0x20);
            lemma_with_bits_keeps(self.0, 0x02, value, 0x40);
        }
        ClientDisplayedSkinParts(set_bits(self.0, 0x02, value))
    }

    pub open spec fn spec_is_left_sleeve_enabled(&self) -> bool {
        self.0 & 0x04 != 0
    }

    #[verifier::when_used_as_spec(spec_is_left_sleeve_enabled)]
    pub fn is_left_sleeve_enabled(&self) -> (res: bool)
        ensures
            res == self.spec_is_left_sleeve_enabled(),
    {
        self.0 & 0x04 != 0
    }

    /// Sets the bit, or clears it, and leaves the others as they are.
    pub fn set_left_sleeve_enabled(&mut self, value: bool)
        ensures
            final(self).0 == with_bits(old(self).0, 0x04, value),
            final(self).is_left_sleeve_enabled() == value,
            final(self).is_cape_enabled() == old(self).is_cape_enabled(),
            final(self).is_jacket_enabled() == old(self).is_jacket_enabled(),
            final(self).is_right_sleeve_enabled() == old(self).is_right_sleeve_enabled(),
            final(self).is_left_pants_leg_enabled() == old(self).is_left_pants_leg_enabled(),
            final(self).is_right_pant_legs_enabled() == old(self).is_right_pant_legs_enabled(),
            final(self).is_hat_enabled() == old(self).is_hat_enabled(),
    {
        proof {
            lemma_with_bits_reads(self.0, 0x04, value);
            lemma_with_bits_keeps(self.0, 0x04, value, 0x01);
            lemma_with_bits_keeps(self.0, 0x04, value, 0x02);
            lemma_with_bits_keeps(self.0, 0x04, value, 0x08);
            lemma_with_bits_keeps(self.0, 0x04, value, 0x10);
            lemma_with_bits_keeps(self.0, 0x04, value, 0x20);
            lemma_with_bits_keeps(self.0, 0x04, value, 0x40);
        }
        self.0 = set_bits(self.0, 0x04, value);
    }

    pub fn with_left_sleeve_enabled(self, value: bool) -> (res: Self)
        ensures
            res.0 == with_bits(self.0, 0x04, value),
            res.is_left_sleeve_enabled() == value,
            res.is_cape_enabled() == self.is_cape_enabled(),
            res.is_jacket_enabled() == self.is_jacket_enabled(),
            res.is_right_sleeve_enabled() == self.is_right_sleeve_enabled(),
            res.is_left_pants_leg_enabled() == self.is_left_pants_leg_enabled(),
            res.is_right_pant_legs_enabled() == self.is_right_pant_legs_enabled(),
            res.is_hat_enabled() == self.is_hat_enabled(),
    {
        proof {
            lemma_with_bits_reads(self.0, 0x04, value);
            lemma_with_bits_keeps(self.0, 0x04, value, 0x01);
            lemma_with_bits_keeps(self.0, 0x04, value, 0x02);
            lemma_with_bits_keeps(self.0, 0x04, value, 0x08);
            lemma_with_bits_keeps(self.0, 0x04, value, 0x10);
            lemma_with_bits_keeps(self.0, 0x04, value, 0x20);
            lemma_with_bits_keeps(self.0, 0x04, value, 0x40);
        }
        ClientDisplayedSkinParts(set_bits(self.0, 0x04, value))
    }

    pub open spec fn spec_is_right_sleeve_enabled(&self) -> bool {
        self.0 & 0x08 != 0
    }

    #[verifier::when_used_as_spec(spec_is_right_sleeve_enabled)]
    pub fn is_right_sleeve_enabled(&self) -> (res: bool)
        ensures
            res == self.spec_is_right_sleeve_enabled(),
    {
        self.0 & 0x08 != 0
    }

    /// Sets the bit, or clears it, and leaves the others as they are.
    pub fn set_right_sleeve_enabled(&mut self, value: bool)
        ensures
            final(self).0 == with_bits(old(self).0, 0x08, value),
            final(self).is_right_sleeve_enabled() == value,
            final(self).is_cape_enabled() == old(self).is_cape_enabled(),
            final(self).is_jacket_enabled() == old(self).is_jacket_enabled(),
            final(self).is_left_sleeve_enabled() == old(self).is_left_sleeve_enabled(),
            final(self).is_left_pants_leg_enabled() == old(self).is_left_pants_leg_enabled(),
            final(self).is_right_pant_legs_enabled() == old(self).is_right_pant_legs_enabled(),
            final(self).is_hat_enabled() == old(self).is_hat_enabled(),
    {
        proof {
            lemma_with_bits_reads(self.0, 0x08, value);
            lemma_with_bits_keeps(self.0, 0x08, value, 0x01);
            lemma_with_bits_keeps(self.0, 0x08, value, 0x02);
            lemma_with_bits_keeps(self.0, 0x08, value, 0x04);
            lemma_with_bits_keeps(self.0, 0x08, value, 0x10);
            lemma_with_bits_keeps(self.0, 0x08, value, 0x20);
            lemma_with_bits_keeps(self.0, 0x08, value, 0x40);
        }
        self.0 = set_bits(self.0, 0x08, value);
    }

    pub fn with_right_sleeve_enabled(self, value: bool) -> (res: Self)
        ensures
            res.0 == with_bits(self.0, 0x08, value),
            res.is_right_sleeve_enabled() == value,
            res.is_cape_enabled() == self.is_cape_enabled(),
            res.is_jacket_enabled() == self.is_jacket_enabled(),
            res.is_left_sleeve_enabled() == self.is_left_sleeve_enabled(),
            res.is_left_pants_leg_enabled() == self.is_left_pants_leg_enabled(),
            res.is_right_pant_legs_enabled() == self.is_right_pant_legs_enabled(),
            res.is_hat_enabled() == self.is_hat_enabled(),
    {
        proof {
            lemma_with_bits_reads(self.0, 0x08, value);
            lemma_with_bits_keeps(self.0, 0x08, value, 0x01);
            lemma_with_bits_keeps(self.0, 0x08, value, 0x02);
            lemma_with_bits_keeps(self.0, 0x08, value, 0x04);
            lemma_with_bits_keeps(self.0, 0x08, value, 0x10);
            lemma_with_bits_keeps(self.0, 0x08, value, 0x20);
            lemma_with_bits_keeps(self.0, 0x08, value, 0x40);
        }
        ClientDisplayedSkinParts(set_bits(self.0, 0x08, value))
    }

    pub open spec fn spec_is_left_pants_leg_enabled(&self) -> bool {
        self.0 & 0x10 != 0
    }

    #[verifier::when_used_as_spec(spec_is_left_pants_leg_enabled)]
    pub fn is_left_pants_leg_enabled(&self) -> (res: bool)
        ensures
            res == self.spec_is_left_pants_leg_enabled(),
    {
        self.0 & 0x10 != 0
    }

    /// Sets the bit, or clears it, and leaves the others as they are.
    pub fn set_left_pants_leg_enabled(&mut self, value: bool)
        ensures
            final(self).0 == with_bits(old(self).0, 0x10, value),
            final(self).is_left_pants_leg_enabled() == value,
            final(self).is_cape_enabled() == old(self).is_cape_enabled(),
            final(self).is_jacket_enabled() == old(self).is_jacket_enabled(),
            final(self).is_left_sleeve_enabled() == old(self).is_left_sleeve_enabled(),
            final(self).is_right_sleeve_enabled() == old(self).is_right_sleeve_enabled(),
            final(self).is_right_pant_legs_enabled() == old(self).is_right_pant_legs_enabled(),
            final(self).is_hat_enabled() == old(self).is_hat_enabled(),
    {
        proof {
            lemma_with_bits_reads(self.0, 0x10, value);
            lemma_with_bits_keeps(self.0, 0x10, value, 0x01);
            lemma_with_bits_keeps(self.0, 0x10, value, 0x02);
            lemma_with_bits_keeps(self.0, 0x10, value, 0x04);
            lemma_with_bits_keeps(self.0, 0x10, value, 0x08);
            lemma_with_bits_keeps(self.0, 0x10, value, 0x20);
            lemma_with_bits_keeps(self.0, 0x10, value, 0x40);
        }
        self.0 = set_bits(self.0, 0x10, value);
    }

    pub fn with_left_pants_leg_enabled(self, value: bool) -> (res: Self)
        ensures
            res.0 == with_bits(self.0, 0x10, value),
            res.is_left_pants_leg_enabled() == value,
            res.is_cape_enabled() == self.is_cape_enabled(),
            res.is_jacket_enabled() == self.is_jacket_enabled(),
            res.is_left_sleeve_enabled() == self.is_left_sleeve_enabled(),
            res.is_right_sleeve_enabled() == self.is_right_sleeve_enabled(),
            res.is_right_pant_legs_enabled() == self.is_right_pant_legs_enabled(),
            res.is_hat_enabled() == self.is_hat_enabled(),
    {
        proof {
            lemma_with_bits_reads(self.0, 0x10, value);
            lemma_with_bits_keeps(self.0, 0x10, value, 0x01);
            lemma_with_bits_keeps(self.0, 0x10, value, 0x02);
            lemma_with_bits_keeps(self.0, 0x10, value, 0x04);
            lemma_with_bits_keeps(self.0, 0x10, value, 0x08);
            lemma_with_bits_keeps(self.0, 0x10, value, 0x20);
            lemma_with_bits_keeps(self.0, 0x10, value, 0x40);
        }
        ClientDisplayedSkinParts(set_bits(self.0, 0x10, value))
    }

    pub open spec fn spec_is_right_pant_legs_enabled(&self) -> bool {
        self.0 & 0x20 != 0
    }

    #[verifier::when_used_as_spec(spec_is_right_pant_legs_enabled)]
    pub fn is_right_pant_legs_enabled(&self) -> (res: bool)
        ensures
            res == self.spec_is_right_pant_legs_enabled(),
    {
        self.0 & 0x20 != 0
    }

    /// Sets the bit, or clears it, and leaves the others as they are.
    pub fn set_right_pant_legs_enabled(&mut self, value: bool)
        ensures
            final(self).0 == with_bits(old(self).0, 0x20, value),
            final(self).is_right_pant_legs_enabled() == value,
            final(self).is_cape_enabled() == old(self).is_cape_enabled(),
            final(self).is_jacket_enabled() == old(self).is_jacket_enabled(),
            final(self).is_left_sleeve_enabled() == old(self).is_left_sleeve_enabled(),
            final(self).is_right_sleeve_enabled() == old(self).is_right_sleeve_enabled(),
            final(self).is_left_pants_leg_enabled() == old(self).is_left_pants_leg_enabled(),
            final(self).is_hat_enabled() == old(self).is_hat_enabled(),
    {
        proof {
            lemma_with_bits_reads(self.0, 0x20, value);
            lemma_with_bits_keeps(self.0, 0x20, value, 0x01);
            lemma_with_bits_keeps(self.0, 0x20, value, 0x02);
            lemma_with_bits_keeps(self.0, 0x20, value, 0x04);
            lemma_with_bits_keeps(self.0, 0x20, value, 0x08);
            lemma_with_bits_keeps(self.0, 0x20, value, 0x10);
            lemma_with_bits_keeps(self.0, 0x20, value, 0x40);
        }
        self.0 = set_bits(self.0, 0x20, value);
    }

    pub fn with_right_pant_legs_enabled(self, value: bool) -> (res: Self)
        ensures
            res.0 == with_bits(self.0, 0x20, value),
            res.is_right_pant_legs_enabled() == value,
            res.is_cape_enabled() == self.is_cape_enabled(),
            res.is_jacket_enabled() == self.is_jacket_enabled(),
            res.is_left_sleeve_enabled() == self.is_left_sleeve_enabled(),
            res.is_right_sleeve_enabled() == self.is_right_sleeve_enabled(),
            res.is_left_pants_leg_enabled() == self.is_left_pants_leg_enabled(),
            res.is_hat_enabled() == self.is_hat_enabled(),
    {
        proof {
            lemma_with_bits_reads(self.0, 0x20, value);
            lemma_with_bits_keeps(self.0, 0x20, value, 0x01);
            lemma_with_bits_keeps(self.0, 0x20, value, 0x02);
            lemma_with_bits_keeps(self.0, 0x20, value, 0x04);
            lemma_with_bits_keeps(self.0, 0x20, value, 0x08);
            lemma_with_bits_keeps(self.0, 0x20, value, 0x10);
            lemma_with_bits_keeps(self.0, 0x20, value, 0x40);
        }
        ClientDisplayedSkinParts(set_bits(self.0, 0x20, value))
    }

    pub open spec fn spec_is_hat_enabled(&self) -> bool {
        self.0 & 0x40 != 0
    }

    #[verifier::when_used_as_spec(spec_is_hat_enabled)]
    pub fn is_hat_enabled(&self) -> (res: bool)
        ensures
            res == self.spec_is_hat_enabled(),
    {
        self.0 & 0x40 != 0
    }

    /// Sets the bit, or clears it, and leaves the others as they are.
    pub fn set_hat_enabled(&mut self, value: bool)
        ensures
            final(self).0 == with_bits(old(self).0, 0x40, value),
            final(self).is_hat_enabled() == value,
            final(self).is_cape_enabled() == old(self).is_cape_enabled(),
            final(self).is_jacket_enabled() == old(self).is_jacket_enabled(),
            final(self).is_left_sleeve_enabled() == old(self).is_left_sleeve_enabled(),
            final(self).is_right_sleeve_enabled() == old(self).is_right_sleeve_enabled(),
            final(self).is_left_pants_leg_enabled() == old(self).is_left_pants_leg_enabled(),
            final(self).is_right_pant_legs_enabled() == old(self).is_right_pant_legs_enabled(),
    {
        proof {
            lemma_with_bits_reads(self.0, 0x40, value);
            lemma_with_bits_keeps(self.0, 0x40, value, 0x01);
            lemma_with_bits_keeps(self.0, 0x40, value, 0x02);
            lemma_with_bits_keeps(self.0, 0x40, value, 0x04);
            lemma_with_bits_keeps(self.0, 0x40, value, 0x08);
            lemma_with_bits_keeps(self.0, 0x40, value, 0x10);
            lemma_with_bits_keeps(self.0, 0x40, value, 0x20);
        }
        self.0 = set_bits(self.0, 0x40, value);
    }

    pub fn with_hat_enabled(self, value: bool) -> (res: Self)
        ensures
            res.0 == with_bits(self.0, 0x40, value),
            res.is_hat_enabled() == value,
            res.is_cape_enabled() == self.is_cape_enabled(),
            res.is_jacket_enabled() == self.is_jacket_enabled(),
            res.is_left_sleeve_enabled() == self.is_left_sleeve_enabled(),
            res.is_right_sleeve_enabled() == self.is_right_sleeve_enabled(),
            res.is_left_pants_leg_enabled() == self.is_left_pants_leg_enabled(),
            res.is_right_pant_legs_enabled() == self.is_right_pant_legs_enabled(),
    {
        proof {
            lemma_with_bits_reads(self.0, 0x40, value);
            lemma_with_bits_keeps(self.0, 0x40, value, 0x01);
            lemma_with_bits_keeps(self.0, 0x40, value, 0x02);
            lemma_with_bits_keeps(self.0, 0x40, value, 0x04);
            lemma_with_bits_keeps(self.0, 0x40, value, 0x08);
            lemma_with_bits_keeps(self.0, 0x40, value, 0x10);
            lemma_with_bits_keeps(self.0, 0x40, value, 0x20);
        }
        ClientDisplayedSkinParts(set_bits(self.0, 0x40, value))
    }
}

impl Serialize for ClientDisplayedSkinParts {
    open spec fn wire(&self) -> Seq<u8> {
        self.0.wire()
    }

    fn mc_serialize<S: Serializer>(&self, to: &mut S) -> (res: SerializeResult) {
        to.serialize_byte(self.0)
    }
}

impl Deserialize for ClientDisplayedSkinParts {
    type Model = ClientDisplayedSkinParts;

    open spec fn model(&self) -> ClientDisplayedSkinParts {
        *self
    }

    open spec fn decoding(data: Seq<u8>) -> Parsed<ClientDisplayedSkinParts> {
        match u8::decoding(data) {
            Err(e) => Err(e),
            Ok((b, rest)) => Ok((ClientDisplayedSkinParts(b), rest)),
        }
    }

    proof fn lemma_remainder(data: Seq<u8>) {
        u8::lemma_remainder(data);
    }

    fn mc_deserialize(data: &[u8]) -> (res: DeserializeResult<'_, Self>) {
        let Deserialized { value: b, data: rest } = u8::mc_deserialize(data)?;
        Deserialized::ok(ClientDisplayedSkinParts(b), rest)
    }
}

impl ProtocolType for ClientDisplayedSkinParts {
    open spec fn legal(&self) -> bool {
        true
    }

    open spec fn self_delimiting() -> bool {
        true
    }

    proof fn lemma_round_trip(&self, rest: Seq<u8>) {
        self.0.lemma_round_trip(rest);
    }
}

/// The way an inventory slot was clicked.
#[derive(PartialEq, Eq, Clone, Copy, Debug)]
pub enum InventoryOperationMode {
    MouseClick,
    ShiftClick,
    NumberClick,
    MiddleClick,
    DropClick,
    Drag,
    DoubleClick,
}

impl InventoryOperationMode {
    pub open spec fn spec_from_varint(b: VarInt) -> Option<Self> {
        if b.0 == 0x00 {
            Some(InventoryOperationMode::MouseClick)
        } else if b.0 == 0x01 {
            Some(InventoryOperationMode::ShiftClick)
        } else if b.0 == 0x02 {
            Some(InventoryOperationMode::NumberClick)
        } else if b.0 == 0x03 {
            Some(InventoryOperationMode::MiddleClick)
        } else if b.0 == 0x04 {
            Some(InventoryOperationMode::DropClick)
        } else if b.0 == 0x05 {
            Some(InventoryOperationMode::Drag)
        } else if b.0 == 0x06 {
            Some(InventoryOperationMode::DoubleClick)
        } else {
            None
        }
    }

    /// The member that a number stands for, if it stands for one.
    pub fn from_varint(b: VarInt) -> (res: Option<Self>)
        ensures
            res == Self::spec_from_varint(b),
    {
        match b.0 {
            0x00 => Some(InventoryOperationMode::MouseClick),
            0x01 => Some(InventoryOperationMode::ShiftClick),
            0x02 => Some(InventoryOperationMode::NumberClick),
            0x03 => Some(InventoryOperationMode::MiddleClick),
            0x04 => Some(InventoryOperationMode::DropClick),
            0x05 => Some(InventoryOperationMode::Drag),
            0x06 => Some(InventoryOperationMode::DoubleClick),
            _ => None,
        }
    }

    pub open spec fn spec_name(&self) -> Seq<char> {
        match self {
            InventoryOperationMode::MouseClick => "MouseClick"@,
            InventoryOperationMode::ShiftClick => "ShiftClick"@,
            InventoryOperationMode::NumberClick => "NumberClick"@,
            InventoryOperationMode::MiddleClick => "MiddleClick"@,
            InventoryOperationMode::DropClick => "DropClick"@,
            InventoryOperationMode::Drag => "Drag"@,
            InventoryOperationMode::DoubleClick => "DoubleClick"@,
        }
    }

    pub fn name(&self) -> (res: &str)
        ensures
            res@ == self.spec_name(),
    {
        match self {
            InventoryOperationMode::MouseClick => "MouseClick",
            InventoryOperationMode::ShiftClick => "ShiftClick",
            InventoryOperationMode::NumberClick => "NumberClick",
            InventoryOperationMode::MiddleClick => "MiddleClick",
            InventoryOperationMode::DropClick => "DropClick",
            InventoryOperationMode::Drag => "Drag",
            InventoryOperationMode::DoubleClick => "DoubleClick",
        }
    }

    pub open spec fn spec_as_varint(&self) -> VarInt {
        match self {
            InventoryOperationMode::MouseClick => VarInt(0x00),
            InventoryOperationMode::ShiftClick => VarInt(0x01),
            InventoryOperationMode::NumberClick => VarInt(0x02),
            InventoryOperationMode::MiddleClick => VarInt(0x03),
            InventoryOperationMode::DropClick => VarInt(0x04),
            InventoryOperationMode::Drag => VarInt(0x05),
            InventoryOperationMode::DoubleClick => VarInt(0x06),
        }
    }

    /// The number of a member; no two members share one.
    pub fn as_varint(&self) -> (res: VarInt)
        ensures
            res == self.spec_as_varint(),
            Self::spec_from_varint(res) == Some(*self),
    {
        match self {
            InventoryOperationMode::MouseClick => VarInt(0x00),
            InventoryOperationMode::ShiftClick => VarInt(0x01),
            InventoryOperationMode::NumberClick => VarInt(0x02),
            InventoryOperationMode::MiddleClick => VarInt(0x03),
            InventoryOperationMode::DropClick => VarInt(0x04),
            InventoryOperationMode::Drag => VarInt(0x05),
            InventoryOperationMode::DoubleClick => VarInt(0x06),
        }
    }
}

impl Serialize for InventoryOperationMode {
    open spec fn wire(&self) -> Seq<u8> {
        self.spec_as_varint().wire()
    }

    fn mc_serialize<S: Serializer>(&self, to: &mut S) -> (res: SerializeResult) {
        self.as_varint().mc_serialize(to)
    }
}

impl Deserialize for InventoryOperationMode {
    type Model = InventoryOperationMode;

    open spec fn model(&self) -> InventoryOperationMode {
        *self
    }

    /// A number that names no member is an error that says so.
    open spec fn decoding(data: Seq<u8>) -> Parsed<InventoryOperationMode> {
        match VarInt::decoding(data) {
            Err(e) => Err(e),
            Ok((id, rest)) => match Self::spec_from_varint(id) {
                Some(value) => Ok((value, rest)),
                None => Err(
                    Fault::CannotUnderstandValue(
                        "invalid InventoryOperationMode "@ + id.spec_text(),
                    ),
                ),
            },
        }
    }

    proof fn lemma_remainder(data: Seq<u8>) {
        VarInt::lemma_remainder(data);
    }

    fn mc_deserialize(data: &[u8]) -> (res: DeserializeResult<'_, Self>) {
        let Deserialized { value: id, data: rest } = VarInt::mc_deserialize(data)?;
        match Self::from_varint(id) {
            Some(value) => Deserialized::ok(value, rest),
            None => Err(
                cannot_understand("invalid InventoryOperationMode ", id.to_string().as_str()),
            ),
        }
    }
}

impl ProtocolType for InventoryOperationMode {
    open spec fn legal(&self) -> bool {
        true
    }

    open spec fn self_delimiting() -> bool {
        true
    }

    proof fn lemma_round_trip(&self, rest: Seq<u8>) {
        self.spec_as_varint().lemma_round_trip(rest);
    }
}

/// What a player is able to do, as the client says. One bit for each.
#[derive(Clone, Copy, PartialEq, Eq, Debug, Default)]
pub struct ClientPlayerAbilities(pub u8);

impl ClientPlayerAbilities {
    pub open spec fn spec_is_creative(&self) -> bool {
        self.0 & 0x01 != 0
    }

    #[verifier::when_used_as_spec(spec_is_creative)]
    pub fn is_creative(&self) -> (res: bool)
        ensures
            res == self.spec_is_creative(),
    {
        self.0 & 0x01 != 0
    }

    /// Sets the bit, or clears it, and leaves the others as they are.
    pub fn set_creative(&mut self, value: bool)
        ensures
            final(self).0 == with_bits(old(self).0, 0x01, value),
            final(self).is_creative() == value,
            final(self).is_flying() == old(self).is_flying(),
            final(self).is_fly_enabled() == old(self).is_fly_enabled(),
            final(self).is_damaged_disabled() == old(self).is_damaged_disabled(),
    {
        proof {
            lemma_with_bits_reads(self.0, 0x01, value);
            lemma_with_bits_keeps(self.0, 0x01, value, 0x02);
            lemma_with_bits_keeps(self.0, 0x01, value, 0x04);
            lemma_with_bits_keeps(self.0, 0x01, value, 0x08);
        }
        self.0 = set_bits(self.0, 0x01, value);
    }

    pub fn with_creative(self, value: bool) -> (res: Self)
        ensures
            res.0 == with_bits(self.0, 0x01, value),
            res.is_creative() == value,
            res.is_flying() == self.is_flying(),
            res.is_fly_enabled() == self.is_fly_enabled(),
            res.is_damaged_disabled() == self.is_damaged_disabled(),
    {
        proof {
            lemma_with_bits_reads(self.0, 0x01, value);
            lemma_with_bits_keeps(self.0, 0x01, value, 0x02);
            lemma_with_bits_keeps(self.0, 0x01, value, 0x04);
            lemma_with_bits_keeps(self.0, 0x01, value, 0x08);
        }
        ClientPlayerAbilities(set_bits(self.0, 0x01, value))
    }

    pub open spec fn spec_is_flying(&self) -> bool {
        self.0 & 0x02 != 0
    }

    #[verifier::when_used_as_spec(spec_is_flying)]
    pub fn is_flying(&self) -> (res: bool)
        ensures
            res == self.spec_is_flying(),
    {
        self.0 & 0x02 != 0
    }

    /// Sets the bit, or clears it, and leaves the others as they are.
    pub fn set_flying(&mut self, value: bool)
        ensures
            final(self).0 == with_bits(old(self).0, 0x02, value),
            final(self).is_flying() == value,
            final(self).is_creative() == old(self).is_creative(),
            final(self).is_fly_enabled() == old(self).is_fly_enabled(),
            final(self).is_damaged_disabled() == old(self).is_damaged_disabled(),
    {
        proof {
            lemma_with_bits_reads(self.0, 0x02, value);
            lemma_with_bits_keeps(self.0, 0x02, value, 0x01);
            lemma_with_bits_keeps(self.0, 0x02, value, 0x04);
            lemma_with_bits_keeps(self.0, 0x02, value, 0x08);
        }
        self.0 = set_bits(self.0, 0x02, value);
    }

    pub fn with_flying(self, value: bool) -> (res: Self)
        ensures
            res.0 == with_bits(self.0, 0x02, value),
            res.is_flying() == value,
            res.is_creative() == self.is_creative(),
            res.is_fly_enabled() == self.is_fly_enabled(),
            res.is_damaged_disabled() == self.is_damaged_disabled(),
    {
        proof {
            lemma_with_bits_reads(self.0, 0x02, value);
            lemma_with_bits_keeps(self.0, 0x02, value, 0x01);
            lemma_with_bits_keeps(self.0, 0x02, value, 0x04);
            lemma_with_bits_keeps(self.0, 0x02, value, 0x08);
        }
        ClientPlayerAbilities(set_bits(self.0, 0x02, value))
    }

    pub open spec fn spec_is_fly_enabled(&self) -> bool {
        self.0 & 0x04 != 0
    }

    #[verifier::when_used_as_spec(spec_is_fly_enabled)]
    pub fn is_fly_enabled(&self) -> (res: bool)
        ensures
            res == self.spec_is_fly_enabled(),
    {
        self.0 & 0x04 != 0
    }

    /// Sets the bit, or clears it, and leaves the others as they are.
    pub fn set_fly_enabled(&mut self, value: bool)
        ensures
            final(self).0 == with_bits(old(self).0, 0x04, value),
            final(self).is_fly_enabled() == value,
            final(self).is_creative() == old(self).is_creative(),
            final(self).is_flying() == old(self).is_flying(),
            final(self).is_damaged_disabled() == old(self).is_damaged_disabled(),
    {
        proof {
            lemma_with_bits_reads(self.0, 0x04, value);
            lemma_with_bits_keeps(self.0, 0x04, value, 0x01);
            lemma_with_bits_keeps(self.0, 0x04, value, 0x02);
            lemma_with_bits_keeps(self.0, 0x04, value, 0x08);
        }
        self.0 = set_bits(self.0, 0x04, value);
    }

    pub fn with_fly_enabled(self, value: bool) -> (res: Self)
        ensures
            res.0 == with_bits(self.0, 0x04, value),
            res.is_fly_enabled() == value,
            res.is_creative() == self.is_creative(),
            res.is_flying() == self.is_flying(),
            res.is_damaged_disabled() == self.is_damaged_disabled(),
    {
        proof {
            lemma_with_bits_reads(self.0, 0x04, value);
            lemma_with_bits_keeps(self.0, 0x04, value, 0x01);
            lemma_with_bits_keeps(self.0, 0x04, value, 0x02);
            lemma_with_bits_keeps(self.0, 0x04, value, 0x08);
        }
        ClientPlayerAbilities(set_bits(self.0, 0x04, value))
    }

    pub open spec fn spec_is_damaged_disabled(&self) -> bool {
        self.0 & 0x08 != 0
    }

    #[verifier::when_used_as_spec(spec_is_damaged_disabled)]
    pub fn is_damaged_disabled(&self) -> (res: bool)
        ensures
            res == self.spec_is_damaged_disabled(),
    {
        self.0 & 0x08 != 0
    }

    /// Sets the bit, or clears it, and leaves the others as they are.
    pub fn set_damaged_disabled(&mut self, value: bool)
        ensures
            final(self).0 == with_bits(old(self).0, 0x08, value),
            final(self).is_damaged_disabled() == value,
            final(self).is_creative() == old(self).is_creative(),
            final(self).is_flying() == old(self).is_flying(),
            final(self).is_fly_enabled() == old(self).is_fly_enabled(),
    {
        proof {
            lemma_with_bits_reads(self.0, 0x08, value);
            lemma_with_bits_keeps(self.0, 0x08, value, 0x01);
            lemma_with_bits_keeps(self.0, 0x08, value, 0x02);
            lemma_with_bits_keeps(self.0, 0x08, value, 0x04);
        }
        self.0 = set_bits(self.0, 0x08, value);
    }

    pub fn with_damaged_disabled(self, value: bool) -> (res: Self)
        ensures
            res.0 == with_bits(self.0, 0x08, value),
            res.is_damaged_disabled() == value,
            res.is_creative() == self.is_creative(),
            res.is_flying() == self.is_flying(),
            res.is_fly_enabled() == self.is_fly_enabled(),
    {
        proof {
            lemma_with_bits_reads(self.0, 0x08, value);
            lemma_with_bits_keeps(self.0, 0x08, value, 0x01);
            lemma_with_bits_keeps(self.0, 0x08, value, 0x02);
            lemma_with_bits_keeps(self.0, 0x08, value, 0x04);
        }
        ClientPlayerAbilities(set_bits(self.0, 0x08, value))
    }
}

impl Serialize for ClientPlayerAbilities {
    open spec fn wire(&self) -> Seq<u8> {
        self.0.wire()
    }

    fn mc_serialize<S: Serializer>(&self, to: &mut S) -> (res: SerializeResult) {
        to.serialize_byte(self.0)
    }
}

impl Deserialize for ClientPlayerAbilities {
    type Model = ClientPlayerAbilities;

    open spec fn model(&self) -> ClientPlayerAbilities {
        *self
    }

    open spec fn decoding(data: Seq<u8>) -> Parsed<ClientPlayerAbilities> {
        match u8::decoding(data) {
            Err(e) => Err(e),
            Ok((b, rest)) => Ok((ClientPlayerAbilities(b), rest)),
        }
    }

    proof fn lemma_remainder(data: Seq<u8>) {
        u8::lemma_remainder(data);
    }

    fn mc_deserialize(data: &[u8]) -> (res: DeserializeResult<'_, Self>) {
        let Deserialized { value: b, data: rest } = u8::mc_deserialize(data)?;
        Deserialized::ok(ClientPlayerAbilities(b), rest)
    }
}

impl ProtocolType for ClientPlayerAbilities {
    open spec fn legal(&self) -> bool {
        true
    }

    open spec fn self_delimiting() -> bool {
        true
    }

    proof fn lemma_round_trip(&self, rest: Seq<u8>) {
        self.0.lemma_round_trip(rest);
    }
}

/// What a player does with a block or an item in hand.
#[derive(PartialEq, Eq, Clone, Copy, Debug)]
pub enum PlayerDiggingStatus {
    Started,
    Cancelled,
    Finished,
    DropStack,
    DropItem,
    ShootArrowOrFishEating,
    SwapItemInHand,
}

impl PlayerDiggingStatus {
    pub open spec fn spec_from_varint(b: VarInt) -> Option<Self> {
        if b.0 == 0x00 {
            Some(PlayerDiggingStatus::Started)
        } else if b.0 == 0x01 {
            Some(PlayerDiggingStatus::Cancelled)
        } else if b.0 == 0x02 {
            Some(PlayerDiggingStatus::Finished)
        } else if b.0 == 0x03 {
            Some(PlayerDiggingStatus::DropStack)
        } else if b.0 == 0x04 {
            Some(PlayerDiggingStatus::DropItem)
        } else if b.0 == 0x05 {
            Some(PlayerDiggingStatus::ShootArrowOrFishEating)
        } else if b.0 == 0x06 {
            Some(PlayerDiggingStatus::SwapItemInHand)
        } else {
            None
        }
    }

    /// The member that a number stands for, if it stands for one.
    pub fn from_varint(b: VarInt) -> (res: Option<Self>)
        ensures
            res == Self::spec_from_varint(b),
    {
        match b.0 {
            0x00 => Some(PlayerDiggingStatus::Started),
            0x01 => Some(PlayerDiggingStatus::Cancelled),
            0x02 => Some(PlayerDiggingStatus::Finished),
            0x03 => Some(PlayerDiggingStatus::DropStack),
            0x04 => Some(PlayerDiggingStatus::DropItem),
            0x05 => Some(PlayerDiggingStatus::ShootArrowOrFishEating),
            0x06 => Some(PlayerDiggingStatus::SwapItemInHand),
            _ => None,
        }
    }

    pub open spec fn spec_name(&self) -> Seq<char> {
        match self {
            PlayerDiggingStatus::Started => "Started"@,
            PlayerDiggingStatus::Cancelled => "Cancelled"@,
            PlayerDiggingStatus::Finished => "Finished"@,
            PlayerDiggingStatus::DropStack => "DropStack"@,
            PlayerDiggingStatus::DropItem => "DropItem"@,
            PlayerDiggingStatus::ShootArrowOrFishEating => "ShootArrowOrFishEating"@,
            PlayerDiggingStatus::SwapItemInHand => "SwapItemInHand"@,
        }
    }

    pub fn name(&self) -> (res: &str)
        ensures
            res@ == self.spec_name(),
    {
        match self {
            PlayerDiggingStatus::Started => "Started",
            PlayerDiggingStatus::Cancelled => "Cancelled",
            PlayerDiggingStatus::Finished => "Finished",
            PlayerDiggingStatus::DropStack => "DropStack",
            PlayerDiggingStatus::DropItem => "DropItem",
            PlayerDiggingStatus::ShootArrowOrFishEating => "ShootArrowOrFishEating",
            PlayerDiggingStatus::SwapItemInHand => "SwapItemInHand",
        }
    }

    pub open spec fn spec_as_varint(&self) -> VarInt {
        match self {
            PlayerDiggingStatus::Started => VarInt(0x00),
            PlayerDiggingStatus::Cancelled => VarInt(0x01),
            PlayerDiggingStatus::Finished => VarInt(0x02),
            PlayerDiggingStatus::DropStack => VarInt(0x03),
            PlayerDiggingStatus::DropItem => VarInt(0x04),
            PlayerDiggingStatus::ShootArrowOrFishEating => VarInt(0x05),
            PlayerDiggingStatus::SwapItemInHand => VarInt(0x06),
        }
    }

    /// The number of a member; no two members share one.
    pub fn as_varint(&self) -> (res: VarInt)
        ensures
            res == self.spec_as_varint(),
            Self::spec_from_varint(res) == Some(*self),
    {
        match self {
            PlayerDiggingStatus::Started => VarInt(0x00),
            PlayerDiggingStatus::Cancelled => VarInt(0x01),
            PlayerDiggingStatus::Finished => VarInt(0x02),
            PlayerDiggingStatus::DropStack => VarInt(0x03),
            PlayerDiggingStatus::DropItem => VarInt(0x04),
            PlayerDiggingStatus::ShootArrowOrFishEating => VarInt(0x05),
            PlayerDiggingStatus::SwapItemInHand => VarInt(0x06),
        }
    }
}

impl Serialize for PlayerDiggingStatus {
    open spec fn wire(&self) -> Seq<u8> {
        self.spec_as_varint().wire()
    }

    fn mc_serialize<S: Serializer>(&self, to: &mut S) -> (res: SerializeResult) {
        self.as_varint().mc_serialize(to)
    }
}

impl Deserialize for PlayerDiggingStatus {
    type Model = PlayerDiggingStatus;

    open spec fn model(&self) -> PlayerDiggingStatus {
        *self
    }

    /// A number that names no member is an error that says so.
    open spec fn decoding(data: Seq<u8>) -> Parsed<PlayerDiggingStatus> {
        match VarInt::decoding(data) {
            Err(e) => Err(e),
            Ok((id, rest)) => match Self::spec_from_varint(id) {
                Some(value) => Ok((value, rest)),
                None => Err(
                    Fault::CannotUnderstandValue("invalid PlayerDiggingStatus "@ + id.spec_text()),
                ),
            },
        }
    }

    proof fn lemma_remainder(data: Seq<u8>) {
        VarInt::lemma_remainder(data);
    }

    fn mc_deserialize(data: &[u8]) -> (res: DeserializeResult<'_, Self>) {
        let Deserialized { value: id, data: rest } = VarInt::mc_deserialize(data)?;
        match Self::from_varint(id) {
            Some(value) => Deserialized::ok(value, rest),
            None => Err(cannot_understand("invalid PlayerDiggingStatus ", id.to_string().as_str())),
        }
    }
}

impl ProtocolType for PlayerDiggingStatus {
    open spec fn legal(&self) -> bool {
        true
    }

    open spec fn self_delimiting() -> bool {
        true
    }

    proof fn lemma_round_trip(&self, rest: Seq<u8>) {
        self.spec_as_varint().lemma_round_trip(rest);
    }
}

/// A side of a block.
#[derive(PartialEq, Eq, Clone, Copy, Debug)]
pub enum DiggingFace {
    Bottom,
    Top,
    North,
    South,
    West,
    East,
}

impl DiggingFace {
    pub open spec fn spec_from_byte(b: u8) -> Option<Self> {
        if b == 0x00 {
            Some(DiggingFace::Bottom)
        } else if b == 0x01 {
            Some(DiggingFace::Top)
        } else if b == 0x02 {
            Some(DiggingFace::North)
        } else if b == 0x03 {
            Some(DiggingFace::South)
        } else if b == 0x04 {
            Some(DiggingFace::West)
        } else if b == 0x05 {
            Some(DiggingFace::East)
        } else {
            None
        }
    }

    /// The member that a number stands for, if it stands for one.
    pub fn from_byte(b: u8) -> (res: Option<Self>)
        ensures
            res == Self::spec_from_byte(b),
    {
        match b {
            0x00 => Some(DiggingFace::Bottom),
            0x01 => Some(DiggingFace::Top),
            0x02 => Some(DiggingFace::North),
            0x03 => Some(DiggingFace::South),
            0x04 => Some(DiggingFace::West),
            0x05 => Some(DiggingFace::East),
            _ => None,
        }
    }

    pub open spec fn spec_name(&self) -> Seq<char> {
        match self {
            DiggingFace::Bottom => "Bottom"@,
            DiggingFace::Top => "Top"@,
            DiggingFace::North => "North"@,
            DiggingFace::South => "South"@,
            DiggingFace::West => "West"@,
            DiggingFace::East => "East"@,
        }
    }

    pub fn name(&self) -> (res: &str)
        ensures
            res@ == self.spec_name(),
    {
        match self {
            DiggingFace::Bottom => "Bottom",
            DiggingFace::Top => "Top",
            DiggingFace::North => "North",
            DiggingFace::South => "South",
            DiggingFace::West => "West",
            DiggingFace::East => "East",
        }
    }

    pub open spec fn spec_as_byte(&self) -> u8 {
        match self {
            DiggingFace::Bottom => 0x00,
            DiggingFace::Top => 0x01,
            DiggingFace::North => 0x02,
            DiggingFace::South => 0x03,
            DiggingFace::West => 0x04,
            DiggingFace::East => 0x05,
        }
    }

    /// The number of a member; no two members share one.
    pub fn as_byte(&self) -> (res: u8)
        ensures
            res == self.spec_as_byte(),
            Self::spec_from_byte(res) == Some(*self),
    {
        match self {
            DiggingFace::Bottom => 0x00,
            DiggingFace::Top => 0x01,
            DiggingFace::North => 0x02,
            DiggingFace::South => 0x03,
            DiggingFace::West => 0x04,
            DiggingFace::East => 0x05,
        }
    }
}

impl Serialize for DiggingFace {
    open spec fn wire(&self) -> Seq<u8> {
        self.spec_as_byte().wire()
    }

    fn mc_serialize<S: Serializer>(&self, to: &mut S) -> (res: SerializeResult) {
        self.as_byte().mc_serialize(to)
    }
}

impl Deserialize for DiggingFace {
    type Model = DiggingFace;

    open spec fn model(&self) -> DiggingFace {
        *self
    }

    /// A number that names no member is an error that says so.
    open spec fn decoding(data: Seq<u8>) -> Parsed<DiggingFace> {
        match u8::decoding(data) {
            Err(e) => Err(e),
            Ok((id, rest)) => match Self::spec_from_byte(id) {
                Some(value) => Ok((value, rest)),
                None => Err(
                    Fault::CannotUnderstandValue("invalid DiggingFace "@ + decimal_text(id as int)),
                ),
            },
        }
    }

    proof fn lemma_remainder(data: Seq<u8>) {
        u8::lemma_remainder(data);
    }

    fn mc_deserialize(data: &[u8]) -> (res: DeserializeResult<'_, Self>) {
        let Deserialized { value: id, data: rest } = u8::mc_deserialize(data)?;
        match Self::from_byte(id) {
            Some(value) => Deserialized::ok(value, rest),
            None => Err(
                cannot_understand("invalid DiggingFace ", decimal_string(id as i64).as_str()),
            ),
        }
    }
}

impl ProtocolType for DiggingFace {
    open spec fn legal(&self) -> bool {
        true
    }

    open spec fn self_delimiting() -> bool {
        true
    }

    proof fn lemma_round_trip(&self, rest: Seq<u8>) {
        self.spec_as_byte().lemma_round_trip(rest);
    }
}

/// Something a player sets about or leaves off.
#[derive(PartialEq, Eq, Clone, Copy, Debug)]
pub enum EntityActionKind {
    StartSneaking,
    StopSneaking,
    LeaveBed,
    StartSprinting,
    StopSprinting,
    StartJumpWithHorse,
    StopJumpWithHorse,
    OpenHorseInventory,
    StartFlyingWithElytra,
}

impl EntityActionKind {
    pub open spec fn spec_from_varint(b: VarInt) -> Option<Self> {
        if b.0 == 0x00 {
            Some(EntityActionKind::StartSneaking)
        } else if b.0 == 0x01 {
            Some(EntityActionKind::StopSneaking)
        } else if b.0 == 0x02 {
            Some(EntityActionKind::LeaveBed)
        } else if b.0 == 0x03 {
            Some(EntityActionKind::StartSprinting)
        } else if b.0 == 0x04 {
            Some(EntityActionKind::StopSprinting)
        } else if b.0 == 0x05 {
            Some(EntityActionKind::StartJumpWithHorse)
        } else if b.0 == 0x06 {
            Some(EntityActionKind::StopJumpWithHorse)
        } else if b.0 == 0x07 {
            Some(EntityActionKind::OpenHorseInventory)
        } else if b.0 == 0x08 {
            Some(EntityActionKind::StartFlyingWithElytra)
        } else {
            None
        }
    }

    /// The member that a number stands for, if it stands for one.
    pub fn from_varint(b: VarInt) -> (res: Option<Self>)
        ensures
            res == Self::spec_from_varint(b),
    {
        match b.0 {
            0x00 => Some(EntityActionKind::StartSneaking),
            0x01 => Some(EntityActionKind::StopSneaking),
            0x02 => Some(EntityActionKind::LeaveBed),
            0x03 => Some(EntityActionKind::StartSprinting),
            0x04 => Some(EntityActionKind::StopSprinting),
            0x05 => Some(EntityActionKind::StartJumpWithHorse),
            0x06 => Some(EntityActionKind::StopJumpWithHorse),
            0x07 => Some(EntityActionKind::OpenHorseInventory),
            0x08 => Some(EntityActionKind::StartFlyingWithElytra),
            _ => None,
        }
    }

    pub open spec fn spec_name(&self) -> Seq<char> {
        match self {
            EntityActionKind::StartSneaking => "StartSneaking"@,
            EntityActionKind::StopSneaking => "StopSneaking"@,
            EntityActionKind::LeaveBed => "LeaveBed"@,
            EntityActionKind::StartSprinting => "StartSprinting"@,
            EntityActionKind::StopSprinting => "StopSprinting"@,
            EntityActionKind::StartJumpWithHorse => "StartJumpWithHorse"@,
            EntityActionKind::StopJumpWithHorse => "StopJumpWithHorse"@,
            EntityActionKind::OpenHorseInventory => "OpenHorseInventory"@,
            EntityActionKind::StartFlyingWithElytra => "StartFlyingWithElytra"@,
        }
    }

    pub fn name(&self) -> (res: &str)
        ensures
            res@ == self.spec_name(),
    {
        match self {
            EntityActionKind::StartSneaking => "StartSneaking",
            EntityActionKind::StopSneaking => "StopSneaking",
            EntityActionKind::LeaveBed => "LeaveBed",
            EntityActionKind::StartSprinting => "StartSprinting",
            EntityActionKind::StopSprinting => "StopSprinting",
            EntityActionKind::StartJumpWithHorse => "StartJumpWithHorse",
            EntityActionKind::StopJumpWithHorse => "StopJumpWithHorse",
            EntityActionKind::OpenHorseInventory => "OpenHorseInventory",
            EntityActionKind::StartFlyingWithElytra => "StartFlyingWithElytra",
        }
    }

    pub open spec fn spec_as_varint(&self) -> VarInt {
        match self {
            EntityActionKind::StartSneaking => VarInt(0x00),
            EntityActionKind::StopSneaking => VarInt(0x01),
            EntityActionKind::LeaveBed => VarInt(0x02),
            EntityActionKind::StartSprinting => VarInt(0x03),
            EntityActionKind::StopSprinting => VarInt(0x04),
            EntityActionKind::StartJumpWithHorse => VarInt(0x05),
            EntityActionKind::StopJumpWithHorse => VarInt(0x06),
            EntityActionKind::OpenHorseInventory => VarInt(0x07),
            EntityActionKind::StartFlyingWithElytra => VarInt(0x08),
        }
    }

    /// The number of a member; no two members share one.
    pub fn as_varint(&self) -> (res: VarInt)
        ensures
            res == self.spec_as_varint(),
            Self::spec_from_varint(res) == Some(*self),
    {
        match self {
            EntityActionKind::StartSneaking => VarInt(0x00),
            EntityActionKind::StopSneaking => VarInt(0x01),
            EntityActionKind::LeaveBed => VarInt(0x02),
            EntityActionKind::StartSprinting => VarInt(0x03),
            EntityActionKind::StopSprinting => VarInt(0x04),
            EntityActionKind::StartJumpWithHorse => VarInt(0x05),
            EntityActionKind::StopJumpWithHorse => VarInt(0x06),
            EntityActionKind::OpenHorseInventory => VarInt(0x07),
            EntityActionKind::StartFlyingWithElytra => VarInt(0x08),
        }
    }
}

impl Serialize for EntityActionKind {
    open spec fn wire(&self) -> Seq<u8> {
        self.spec_as_varint().wire()
    }

    fn mc_serialize<S: Serializer>(&self, to: &mut S) -> (res: SerializeResult) {
        self.as_varint().mc_serialize(to)
    }
}

impl Deserialize for EntityActionKind {
    type Model = EntityActionKind;

    open spec fn model(&self) -> EntityActionKind {
        *self
    }

    /// A number that names no member is an error that says so.
    open spec fn decoding(data: Seq<u8>) -> Parsed<EntityActionKind> {
        match VarInt::decoding(data) {
            Err(e) => Err(e),
            Ok((id, rest)) => match Self::spec_from_varint(id) {
                Some(value) => Ok((value, rest)),
                None => Err(
                    Fault::CannotUnderstandValue("invalid EntityActionKind "@ + id.spec_text()),
                ),
            },
        }
    }

    proof fn lemma_remainder(data: Seq<u8>) {
        VarInt::lemma_remainder(data);
    }

    fn mc_deserialize(data: &[u8]) -> (res: DeserializeResult<'_, Self>) {
        let Deserialized { value: id, data: rest } = VarInt::mc_deserialize(data)?;
        match Self::from_varint(id) {
            Some(value) => Deserialized::ok(value, rest),
            None => Err(cannot_understand("invalid EntityActionKind ", id.to_string().as_str())),
        }
    }
}

impl ProtocolType for EntityActionKind {
    open spec fn legal(&self) -> bool {
        true
    }

    open spec fn self_delimiting() -> bool {
        true
    }

    proof fn lemma_round_trip(&self, rest: Seq<u8>) {
        self.spec_as_varint().lemma_round_trip(rest);
    }
}

/// What the rider of a vehicle does besides steering. One bit for each.
#[derive(Clone, Copy, PartialEq, Eq, Debug, Default)]
pub struct SteerVehicleFlags(pub u8);

impl SteerVehicleFlags {
    pub open spec fn spec_is_jump(&self) -> bool {
        self.0 & 0x01 != 0
    }

    #[verifier::when_used_as_spec(spec_is_jump)]
    pub fn is_jump(&self) -> (res: bool)
        ensures
            res == self.spec_is_jump(),
    {
        self.0 & 0x01 != 0
    }

    /// Sets the bit, or clears it, and leaves the others as they are.
    pub fn set_jump(&mut self, value: bool)
        ensures
            final(self).0 == with_bits(old(self).0, 0x01, value),
            final(self).is_jump() == value,
            final(self).is_unmount() == old(self).is_unmount(),
    {
        proof {
            lemma_with_bits_reads(self.0, 0x01, value);
            lemma_with_bits_keeps(self.0, 0x01, value, 0x02);
        }
        self.0 = set_bits(self.0, 0x01, value);
    }

    pub fn with_jump(self, value: bool) -> (res: Self)
        ensures
            res.0 == with_bits(self.0, 0x01, value),
            res.is_jump() == value,
            res.is_unmount() == self.is_unmount(),
    {
        proof {
            lemma_with_bits_reads(self.0, 0x01, value);
            lemma_with_bits_keeps(self.0, 0x01, value, 0x02);
        }
        SteerVehicleFlags(set_bits(self.0, 0x01, value))
    }

    pub open spec fn spec_is_unmount(&self) -> bool {
        self.0 & 0x02 != 0
    }

    #[verifier::when_used_as_spec(spec_is_unmount)]
    pub fn is_unmount(&self) -> (res: bool)
        ensures
            res == self.spec_is_unmount(),
    {
        self.0 & 0x02 != 0
    }

    /// Sets the bit, or clears it, and leaves the others as they are.
    pub fn set_unmount(&mut self, value: bool)
        ensures
            final(self).0 == with_bits(old(self).0, 0x02, value),
            final(self).is_unmount() == value,
            final(self).is_jump() == old(self).is_jump(),
    {
        proof {
            lemma_with_bits_reads(self.0, 0x02, value);
            lemma_with_bits_keeps(self.0, 0x02, value, 0x01);
        }
        self.0 = set_bits(self.0, 0x02, value);
    }

    pub fn with_unmount(self, value: bool) -> (res: Self)
        ensures
            res.0 == with_bits(self.0, 0x02, value),
            res.is_unmount() == value,
            res.is_jump() == self.is_jump(),
    {
        proof {
            lemma_with_bits_reads(self.0, 0x02, value);
            lemma_with_bits_keeps(self.0, 0x02, value, 0x01);
        }
        SteerVehicleFlags(set_bits(self.0, 0x02, value))
    }
}

impl Serialize for SteerVehicleFlags {
    open spec fn wire(&self) -> Seq<u8> {
        self.0.wire()
    }

    fn mc_serialize<S: Serializer>(&self, to: &mut S) -> (res: SerializeResult) {
        to.serialize_byte(self.0)
    }
}

impl Deserialize for SteerVehicleFlags {
    type Model = SteerVehicleFlags;

    open spec fn model(&self) -> SteerVehicleFlags {
        *self
    }

    open spec fn decoding(data: Seq<u8>) -> Parsed<SteerVehicleFlags> {
        match u8::decoding(data) {
            Err(e) => Err(e),
            Ok((b, rest)) => Ok((SteerVehicleFlags(b), rest)),
        }
    }

    proof fn lemma_remainder(data: Seq<u8>) {
        u8::lemma_remainder(data);
    }

    fn mc_deserialize(data: &[u8]) -> (res: DeserializeResult<'_, Self>) {
        let Deserialized { value: b, data: rest } = u8::mc_deserialize(data)?;
        Deserialized::ok(SteerVehicleFlags(b), rest)
    }
}

impl ProtocolType for SteerVehicleFlags {
    open spec fn legal(&self) -> bool {
        true
    }

    open spec fn self_delimiting() -> bool {
        true
    }

    proof fn lemma_round_trip(&self, rest: Seq<u8>) {
        self.0.lemma_round_trip(rest);
    }
}

/// What became of an offered resource pack.
#[derive(PartialEq, Eq, Clone, Copy, Debug)]
pub enum ResourcePackStatus {
    Loaded,
    Declined,
    FailedDownload,
    Accepted,
}

impl ResourcePackStatus {
    pub open spec fn spec_from_varint(b: VarInt) -> Option<Self> {
        if b.0 == 0x00 {
            Some(ResourcePackStatus::Loaded)
        } else if b.0 == 0x01 {
            Some(ResourcePackStatus::Declined)
        } else if b.0 == 0x02 {
            Some(ResourcePackStatus::FailedDownload)
        } else if b.0 == 0x03 {
            Some(ResourcePackStatus::Accepted)
        } else {
            None
        }
    }

    /// The member that a number stands for, if it stands for one.
    pub fn from_varint(b: VarInt) -> (res: Option<Self>)
        ensures
            res == Self::spec_from_varint(b),
    {
        match b.0 {
            0x00 => Some(ResourcePackStatus::Loaded),
            0x01 => Some(ResourcePackStatus::Declined),
            0x02 => Some(ResourcePackStatus::FailedDownload),
            0x03 => Some(ResourcePackStatus::Accepted),
            _ => None,
        }
    }

    pub open spec fn spec_name(&self) -> Seq<char> {
        match self {
            ResourcePackStatus::Loaded => "Loaded"@,
            ResourcePackStatus::Declined => "Declined"@,
            ResourcePackStatus::FailedDownload => "FailedDownload"@,
            ResourcePackStatus::Accepted => "Accepted"@,
        }
    }

    pub fn name(&self) -> (res: &str)
        ensures
            res@ == self.spec_name(),
    {
        match self {
            ResourcePackStatus::Loaded => "Loaded",
            ResourcePackStatus::Declined => "Declined",
            ResourcePackStatus::FailedDownload => "FailedDownload",
            ResourcePackStatus::Accepted => "Accepted",
        }
    }

    pub open spec fn spec_as_varint(&self) -> VarInt {
        match self {
            ResourcePackStatus::Loaded => VarInt(0x00),
            ResourcePackStatus::Declined => VarInt(0x01),
            ResourcePackStatus::FailedDownload => VarInt(0x02),
            ResourcePackStatus::Accepted => VarInt(0x03),
        }
    }

    /// The number of a member; no two members share one.
    pub fn as_varint(&self) -> (res: VarInt)
        ensures
            res == self.spec_as_varint(),
            Self::spec_from_varint(res) == Some(*self),
    {
        match self {
            ResourcePackStatus::Loaded => VarInt(0x00),
            ResourcePackStatus::Declined => VarInt(0x01),
            ResourcePackStatus::FailedDownload => VarInt(0x02),
            ResourcePackStatus::Accepted => VarInt(0x03),
        }
    }
}

impl Serialize for ResourcePackStatus {
    open spec fn wire(&self) -> Seq<u8> {
        self.spec_as_varint().wire()
    }

    fn mc_serialize<S: Serializer>(&self, to: &mut S) -> (res: SerializeResult) {
        self.as_varint().mc_serialize(to)
    }
}

impl Deserialize for ResourcePackStatus {
    type Model = ResourcePackStatus;

    open spec fn model(&self) -> ResourcePackStatus {
        *self
    }

    /// A number that names no member is an error that says so.
    open spec fn decoding(data: Seq<u8>) -> Parsed<ResourcePackStatus> {
        match VarInt::decoding(data) {
            Err(e) => Err(e),
            Ok((id, rest)) => match Self::spec_from_varint(id) {
                Some(value) => Ok((value, rest)),
                None => Err(
                    Fault::CannotUnderstandValue("invalid ResourcePackStatus "@ + id.spec_text()),
                ),
            },
        }
    }

    proof fn lemma_remainder(data: Seq<u8>) {
        VarInt::lemma_remainder(data);
    }

    fn mc_deserialize(data: &[u8]) -> (res: DeserializeResult<'_, Self>) {
        let Deserialized { value: id, data: rest } = VarInt::mc_deserialize(data)?;
        match Self::from_varint(id) {
            Some(value) => Deserialized::ok(value, rest),
            None => Err(cannot_understand("invalid ResourcePackStatus ", id.to_string().as_str())),
        }
    }
}

impl ProtocolType for ResourcePackStatus {
    open spec fn legal(&self) -> bool {
        true
    }

    open spec fn self_delimiting() -> bool {
        true
    }

    proof fn lemma_round_trip(&self, rest: Seq<u8>) {
        self.spec_as_varint().lemma_round_trip(rest);
    }
}

/// When a command block runs.
#[derive(PartialEq, Eq, Clone, Copy, Debug)]
pub enum CommandBlockMode {
    Sequence,
    Auto,
    Redstone,
}

impl CommandBlockMode {
    pub open spec fn spec_from_varint(b: VarInt) -> Option<Self> {
        if b.0 == 0x00 {
            Some(CommandBlockMode::Sequence)
        } else if b.0 == 0x01 {
            Some(CommandBlockMode::Auto)
        } else if b.0 == 0x02 {
            Some(CommandBlockMode::Redstone)
        } else {
            None
        }
    }

    /// The member that a number stands for, if it stands for one.
    pub fn from_varint(b: VarInt) -> (res: Option<Self>)
        ensures
            res == Self::spec_from_varint(b),
    {
        match b.0 {
            0x00 => Some(CommandBlockMode::Sequence),
            0x01 => Some(CommandBlockMode::Auto),
            0x02 => Some(CommandBlockMode::Redstone),
            _ => None,
        }
    }

    pub open spec fn spec_name(&self) -> Seq<char> {
        match self {
            CommandBlockMode::Sequence => "Sequence"@,
            CommandBlockMode::Auto => "Auto"@,
            CommandBlockMode::Redstone => "Redstone"@,
        }
    }

    pub fn name(&self) -> (res: &str)
        ensures
            res@ == self.spec_name(),
    {
        match self {
            CommandBlockMode::Sequence => "Sequence",
            CommandBlockMode::Auto => "Auto",
            CommandBlockMode::Redstone => "Redstone",
        }
    }

    pub open spec fn spec_as_varint(&self) -> VarInt {
        match self {
            CommandBlockMode::Sequence => VarInt(0x00),
            CommandBlockMode::Auto => VarInt(0x01),
            CommandBlockMode::Redstone => VarInt(0x02),
        }
    }

    /// The number of a member; no two members share one.
    pub fn as_varint(&self) -> (res: VarInt)
        ensures
            res == self.spec_as_varint(),
            Self::spec_from_varint(res) == Some(*self),
    {
        match self {
            CommandBlockMode::Sequence => VarInt(0x00),
            CommandBlockMode::Auto => VarInt(0x01),
            CommandBlockMode::Redstone => VarInt(0x02),
        }
    }
}

impl Serialize for CommandBlockMode {
    open spec fn wire(&self) -> Seq<u8> {
        self.spec_as_varint().wire()
    }

    fn mc_serialize<S: Serializer>(&self, to: &mut S) -> (res: SerializeResult) {
        self.as_varint().mc_serialize(to)
    }
}

impl Deserialize for CommandBlockMode {
    type Model = CommandBlockMode;

    open spec fn model(&self) -> CommandBlockMode {
        *self
    }

    /// A number that names no member is an error that says so.
    open spec fn decoding(data: Seq<u8>) -> Parsed<CommandBlockMode> {
        match VarInt::decoding(data) {
            Err(e) => Err(e),
            Ok((id, rest)) => match Self::spec_from_varint(id) {
                Some(value) => Ok((value, rest)),
                None => Err(
                    Fault::CannotUnderstandValue("invalid CommandBlockMode "@ + id.spec_text()),
                ),
            },
        }
    }

    proof fn lemma_remainder(data: Seq<u8>) {
        VarInt::lemma_remainder(data);
    }

    fn mc_deserialize(data: &[u8]) -> (res: DeserializeResult<'_, Self>) {
        let Deserialized { value: id, data: rest } = VarInt::mc_deserialize(data)?;
        match Self::from_varint(id) {
            Some(value) => Deserialized::ok(value, rest),
            None => Err(cannot_understand("invalid CommandBlockMode ", id.to_string().as_str())),
        }
    }
}

impl ProtocolType for CommandBlockMode {
    open spec fn legal(&self) -> bool {
        true
    }

    open spec fn self_delimiting() -> bool {
        true
    }

    proof fn lemma_round_trip(&self, rest: Seq<u8>) {
        self.spec_as_varint().lemma_round_trip(rest);
    }
}

/// How a command block behaves. One bit for each.
#[derive(Clone, Copy, PartialEq, Eq, Debug, Default)]
pub struct CommandBlockFlags(pub u8);

impl CommandBlockFlags {
    pub open spec fn spec_is_track_output(&self) -> bool {
        self.0 & 0x01 != 0
    }

    #[verifier::when_used_as_spec(spec_is_track_output)]
    pub fn is_track_output(&self) -> (res: bool)
        ensures
            res == self.spec_is_track_output(),
    {
        self.0 & 0x01 != 0
    }

    /// Sets the bit, or clears it, and leaves the others as they are.
    pub fn set_track_output(&mut self, value: bool)
        ensures
            final(self).0 == with_bits(old(self).0, 0x01, value),
            final(self).is_track_output() == value,
            final(self).is_conditional() == old(self).is_conditional(),
            final(self).is_automatic() == old(self).is_automatic(),
    {
        proof {
            lemma_with_bits_reads(self.0, 0x01, value);
            lemma_with_bits_keeps(self.0, 0x01, value, 0x02);
            lemma_with_bits_keeps(self.0, 0x01, value, 0x04);
        }
        self.0 = set_bits(self.0, 0x01, value);
    }

    pub fn with_track_output(self, value: bool) -> (res: Self)
        ensures
            res.0 == with_bits(self.0, 0x01, value),
            res.is_track_output() == value,
            res.is_conditional() == self.is_conditional(),
            res.is_automatic() == self.is_automatic(),
    {
        proof {
            lemma_with_bits_reads(self.0, 0x01, value);
            lemma_with_bits_keeps(self.0, 0x01, value, 0x02);
            lemma_with_bits_keeps(self.0, 0x01, value, 0x04);
        }
        CommandBlockFlags(set_bits(self.0, 0x01, value))
    }

    pub open spec fn spec_is_conditional(&self) -> bool {
        self.0 & 0x02 != 0
    }

    #[verifier::when_used_as_spec(spec_is_conditional)]
    pub fn is_conditional(&self) -> (res: bool)
        ensures
            res == self.spec_is_conditional(),
    {
        self.0 & 0x02 != 0
    }

    /// Sets the bit, or clears it, and leaves the others as they are.
    pub fn set_conditional(&mut self, value: bool)
        ensures
            final(self).0 == with_bits(old(self).0, 0x02, value),
            final(self).is_conditional() == value,
            final(self).is_track_output() == old(self).is_track_output(),
            final(self).is_automatic() == old(self).is_automatic(),
    {
        proof {
            lemma_with_bits_reads(self.0, 0x02, value);
            lemma_with_bits_keeps(self.0, 0x02, value, 0x01);
            lemma_with_bits_keeps(self.0, 0x02, value, 0x04);
        }
        self.0 = set_bits(self.0, 0x02, value);
    }

    pub fn with_conditional(self, value: bool) -> (res: Self)
        ensures
            res.0 == with_bits(self.0, 0x02, value),
            res.is_conditional() == value,
            res.is_track_output() == self.is_track_output(),
            res.is_automatic() == self.is_automatic(),
    {
        proof {
            lemma_with_bits_reads(self.0, 0x02, value);
            lemma_with_bits_keeps(self.0, 0x02, value, 0x01);
            lemma_with_bits_keeps(self.0, 0x02, value, 0x04);
        }
        CommandBlockFlags(set_bits(self.0, 0x02, value))
    }

    pub open spec fn spec_is_automatic(&self) -> bool {
        self.0 & 0x04 != 0
    }

    #[verifier::when_used_as_spec(spec_is_automatic)]
    pub fn is_automatic(&self) -> (res: bool)
        ensures
            res == self.spec_is_automatic(),
    {
        self.0 & 0x04 != 0
    }

    /// Sets the bit, or clears it, and leaves the others as they are.
    pub fn set_automatic(&mut self, value: bool)
        ensures
            final(self).0 == with_bits(old(self).0, 0x04, value),
            final(self).is_automatic() == value,
            final(self).is_track_output() == old(self).is_track_output(),
            final(self).is_conditional() == old(self).is_conditional(),
    {
        proof {
            lemma_with_bits_reads(self.0, 0x04, value);
            lemma_with_bits_keeps(self.0, 0x04, value, 0x01);
            lemma_with_bits_keeps(self.0, 0x04, value, 0x02);
        }
        self.0 = set_bits(self.0, 0x04, value);
    }

    pub fn with_automatic(self, value: bool) -> (res: Self)
        ensures
            res.0 == with_bits(self.0, 0x04, value),
            res.is_automatic() == value,
            res.is_track_output() == self.is_track_output(),
            res.is_conditional() == self.is_conditional(),
    {
        proof {
            lemma_with_bits_reads(self.0, 0x04, value);
            lemma_with_bits_keeps(self.0, 0x04, value, 0x01);
            lemma_with_bits_keeps(self.0, 0x04, value, 0x02);
        }
        CommandBlockFlags(set_bits(self.0, 0x04, value))
    }
}

impl Serialize for CommandBlockFlags {
    open spec fn wire(&self) -> Seq<u8> {
        self.0.wire()
    }

    fn mc_serialize<S: Serializer>(&self, to: &mut S) -> (res: SerializeResult) {
        to.serialize_byte(self.0)
    }
}

impl Deserialize for CommandBlockFlags {
    type Model = CommandBlockFlags;

    open spec fn model(&self) -> CommandBlockFlags {
        *self
    }

    open spec fn decoding(data: Seq<u8>) -> Parsed<CommandBlockFlags> {
        match u8::decoding(data) {
            Err(e) => Err(e),
            Ok((b, rest)) => Ok((CommandBlockFlags(b), rest)),
        }
    }

    proof fn lemma_remainder(data: Seq<u8>) {
        u8::lemma_remainder(data);
    }

    fn mc_deserialize(data: &[u8]) -> (res: DeserializeResult<'_, Self>) {
        let Deserialized { value: b, data: rest } = u8::mc_deserialize(data)?;
        Deserialized::ok(CommandBlockFlags(b), rest)
    }
}

impl ProtocolType for CommandBlockFlags {
    open spec fn legal(&self) -> bool {
        true
    }

    open spec fn self_delimiting() -> bool {
        true
    }

    proof fn lemma_round_trip(&self, rest: Seq<u8>) {
        self.0.lemma_round_trip(rest);
    }
}

/// What a structure block is told to do.
#[derive(PartialEq, Eq, Clone, Copy, Debug)]
pub enum UpdateStructureBlockAction {
    UpdateData,
    SaveStructure,
    LoadStructure,
    DetectSize,
}

impl UpdateStructureBlockAction {
    pub open spec fn spec_from_varint(b: VarInt) -> Option<Self> {
        if b.0 == 0x00 {
            Some(UpdateStructureBlockAction::UpdateData)
        } else if b.0 == 0x01 {
            Some(UpdateStructureBlockAction::SaveStructure)
        } else if b.0 == 0x02 {
            Some(UpdateStructureBlockAction::LoadStructure)
        } else if b.0 == 0x03 {
            Some(UpdateStructureBlockAction::DetectSize)
        } else {
            None
        }
    }

    /// The member that a number stands for, if it stands for one.
    pub fn from_varint(b: VarInt) -> (res: Option<Self>)
        ensures
            res == Self::spec_from_varint(b),
    {
        match b.0 {
            0x00 => Some(UpdateStructureBlockAction::UpdateData),
            0x01 => Some(UpdateStructureBlockAction::SaveStructure),
            0x02 => Some(UpdateStructureBlockAction::LoadStructure),
            0x03 => Some(UpdateStructureBlockAction::DetectSize),
            _ => None,
        }
    }

    pub open spec fn spec_name(&self) -> Seq<char> {
        match self {
            UpdateStructureBlockAction::UpdateData => "UpdateData"@,
            UpdateStructureBlockAction::SaveStructure => "SaveStructure"@,
            UpdateStructureBlockAction::LoadStructure => "LoadStructure"@,
            UpdateStructureBlockAction::DetectSize => "DetectSize"@,
        }
    }

    pub fn name(&self) -> (res: &str)
        ensures
            res@ == self.spec_name(),
    {
        match self {
            UpdateStructureBlockAction::UpdateData => "UpdateData",
            UpdateStructureBlockAction::SaveStructure => "SaveStructure",
            UpdateStructureBlockAction::LoadStructure => "LoadStructure",
            UpdateStructureBlockAction::DetectSize => "DetectSize",
        }
    }

    pub open spec fn spec_as_varint(&self) -> VarInt {
        match self {
            UpdateStructureBlockAction::UpdateData => VarInt(0x00),
            UpdateStructureBlockAction::SaveStructure => VarInt(0x01),
            UpdateStructureBlockAction::LoadStructure => VarInt(0x02),
            UpdateStructureBlockAction::DetectSize => VarInt(0x03),
        }
    }

    /// The number of a member; no two members share one.
    pub fn as_varint(&self) -> (res: VarInt)
        ensures
            res == self.spec_as_varint(),
            Self::spec_from_varint(res) == Some(*self),
    {
        match self {
            UpdateStructureBlockAction::UpdateData => VarInt(0x00),
            UpdateStructureBlockAction::SaveStructure => VarInt(0x01),
            UpdateStructureBlockAction::LoadStructure => VarInt(0x02),
            UpdateStructureBlockAction::DetectSize => VarInt(0x03),
        }
    }
}

impl Serialize for UpdateStructureBlockAction {
    open spec fn wire(&self) -> Seq<u8> {
        self.spec_as_varint().wire()
    }

    fn mc_serialize<S: Serializer>(&self, to: &mut S) -> (res: SerializeResult) {
        self.as_varint().mc_serialize(to)
    }
}

impl Deserialize for UpdateStructureBlockAction {
    type Model = UpdateStructureBlockAction;

    open spec fn model(&self) -> UpdateStructureBlockAction {
        *self
    }

    /// A number that names no member is an error that says so.
    open spec fn decoding(data: Seq<u8>) -> Parsed<UpdateStructureBlockAction> {
        match VarInt::decoding(data) {
            Err(e) => Err(e),
            Ok((id, rest)) => match Self::spec_from_varint(id) {
                Some(value) => Ok((value, rest)),
                None => Err(
                    Fault::CannotUnderstandValue(
                        "invalid UpdateStructureBlockAction "@ + id.spec_text(),
                    ),
                ),
            },
        }
    }

    proof fn lemma_remainder(data: Seq<u8>) {
        VarInt::lemma_remainder(data);
    }

    fn mc_deserialize(data: &[u8]) -> (res: DeserializeResult<'_, Self>) {
        let Deserialized { value: id, data: rest } = VarInt::mc_deserialize(data)?;
        match Self::from_varint(id) {
            Some(value) => Deserialized::ok(value, rest),
            None => Err(
                cannot_understand("invalid UpdateStructureBlockAction ", id.to_string().as_str()),
            ),
        }
    }
}

impl ProtocolType for UpdateStructureBlockAction {
    open spec fn legal(&self) -> bool {
        true
    }

    open spec fn self_delimiting() -> bool {
        true
    }

    proof fn lemma_round_trip(&self, rest: Seq<u8>) {
        self.spec_as_varint().lemma_round_trip(rest);
    }
}

/// What a structure block is for.
#[derive(PartialEq, Eq, Clone, Copy, Debug)]
pub enum UpdateStructureBlockMode {
    Save,
    Load,
    Corner,
    Data,
}

impl UpdateStructureBlockMode {
    pub open spec fn spec_from_varint(b: VarInt) -> Option<Self> {
        if b.0 == 0x00 {
            Some(UpdateStructureBlockMode::Save)
        } else if b.0 == 0x01 {
            Some(UpdateStructureBlockMode::Load)
        } else if b.0 == 0x02 {
            Some(UpdateStructureBlockMode::Corner)
        } else if b.0 == 0x03 {
            Some(UpdateStructureBlockMode::Data)
        } else {
            None
        }
    }

    /// The member that a number stands for, if it stands for one.
    pub fn from_varint(b: VarInt) -> (res: Option<Self>)
        ensures
            res == Self::spec_from_varint(b),
    {
        match b.0 {
            0x00 => Some(UpdateStructureBlockMode::Save),
            0x01 => Some(UpdateStructureBlockMode::Load),
            0x02 => Some(UpdateStructureBlockMode::Corner),
            0x03 => Some(UpdateStructureBlockMode::Data),
            _ => None,
        }
    }

    pub open spec fn spec_name(&self) -> Seq<char> {
        match self {
            UpdateStructureBlockMode::Save => "Save"@,
            UpdateStructureBlockMode::Load => "Load"@,
            UpdateStructureBlockMode::Corner => "Corner"@,
            UpdateStructureBlockMode::Data => "Data"@,
        }
    }

    pub fn name(&self) -> (res: &str)
        ensures
            res@ == self.spec_name(),
    {
        match self {
            UpdateStructureBlockMode::Save => "Save",
            UpdateStructureBlockMode::Load => "Load",
            UpdateStructureBlockMode::Corner => "Corner",
            UpdateStructureBlockMode::Data => "Data",
        }
    }

    pub open spec fn spec_as_varint(&self) -> VarInt {
        match self {
            UpdateStructureBlockMode::Save => VarInt(0x00),
            UpdateStructureBlockMode::Load => VarInt(0x01),
            UpdateStructureBlockMode::Corner => VarInt(0x02),
            UpdateStructureBlockMode::Data => VarInt(0x03),
        }
    }

    /// The number of a member; no two members share one.
    pub fn as_varint(&self) -> (res: VarInt)
        ensures
            res == self.spec_as_varint(),
            Self::spec_from_varint(res) == Some(*self),
    {
        match self {
            UpdateStructureBlockMode::Save => VarInt(0x00),
            UpdateStructureBlockMode::Load => VarInt(0x01),
            UpdateStructureBlockMode::Corner => VarInt(0x02),
            UpdateStructureBlockMode::Data => VarInt(0x03),
        }
    }
}

impl Serialize for UpdateStructureBlockMode {
    open spec fn wire(&self) -> Seq<u8> {
        self.spec_as_varint().wire()
    }

    fn mc_serialize<S: Serializer>(&self, to: &mut S) -> (res: SerializeResult) {
        self.as_varint().mc_serialize(to)
    }
}

impl Deserialize for UpdateStructureBlockMode {
    type Model = UpdateStructureBlockMode;

    open spec fn model(&self) -> UpdateStructureBlockMode {
        *self
    }

    /// A number that names no member is an error that says so.
    open spec fn decoding(data: Seq<u8>) -> Parsed<UpdateStructureBlockMode> {
        match VarInt::decoding(data) {
            Err(e) => Err(e),
            Ok((id, rest)) => match Self::spec_from_varint(id) {
                Some(value) => Ok((value, rest)),
                None => Err(
                    Fault::CannotUnderstandValue(
                        "invalid UpdateStructureBlockMode "@ + id.spec_text(),
                    ),
                ),
            },
        }
    }

    proof fn lemma_remainder(data: Seq<u8>) {
        VarInt::lemma_remainder(data);
    }

    fn mc_deserialize(data: &[u8]) -> (res: DeserializeResult<'_, Self>) {
        let Deserialized { value: id, data: rest } = VarInt::mc_deserialize(data)?;
        match Self::from_varint(id) {
            Some(value) => Deserialized::ok(value, rest),
            None => Err(
                cannot_understand("invalid UpdateStructureBlockMode ", id.to_string().as_str()),
            ),
        }
    }
}

impl ProtocolType for UpdateStructureBlockMode {
    open spec fn legal(&self) -> bool {
        true
    }

    open spec fn self_delimiting() -> bool {
        true
    }

    proof fn lemma_round_trip(&self, rest: Seq<u8>) {
        self.spec_as_varint().lemma_round_trip(rest);
    }
}

/// Whether and how a structure is mirrored.
#[derive(PartialEq, Eq, Clone, Copy, Debug)]
pub enum UpdateStructureBlockMirror {
    NoMirror,
    LeftRight,
    FrontBack,
}

impl UpdateStructureBlockMirror {
    pub open spec fn spec_from_varint(b: VarInt) -> Option<Self> {
        if b.0 == 0x00 {
            Some(UpdateStructureBlockMirror::NoMirror)
        } else if b.0 == 0x01 {
            Some(UpdateStructureBlockMirror::LeftRight)
        } else if b.0 == 0x02 {
            Some(UpdateStructureBlockMirror::FrontBack)
        } else {
            None
        }
    }

    /// The member that a number stands for, if it stands for one.
    pub fn from_varint(b: VarInt) -> (res: Option<Self>)
        ensures
            res == Self::spec_from_varint(b),
    {
        match b.0 {
            0x00 => Some(UpdateStructureBlockMirror::NoMirror),
            0x01 => Some(UpdateStructureBlockMirror::LeftRight),
            0x02 => Some(UpdateStructureBlockMirror::FrontBack),
            _ => None,
        }
    }

    pub open spec fn spec_name(&self) -> Seq<char> {
        match self {
            UpdateStructureBlockMirror::NoMirror => "NoMirror"@,
            UpdateStructureBlockMirror::LeftRight => "LeftRight"@,
            UpdateStructureBlockMirror::FrontBack => "FrontBack"@,
        }
    }

    pub fn name(&self) -> (res: &str)
        ensures
            res@ == self.spec_name(),
    {
        match self {
            UpdateStructureBlockMirror::NoMirror => "NoMirror",
            UpdateStructureBlockMirror::LeftRight => "LeftRight",
            UpdateStructureBlockMirror::FrontBack => "FrontBack",
        }
    }

    pub open spec fn spec_as_varint(&self) -> VarInt {
        match self {
            UpdateStructureBlockMirror::NoMirror => VarInt(0x00),
            UpdateStructureBlockMirror::LeftRight => VarInt(0x01),
            UpdateStructureBlockMirror::FrontBack => VarInt(0x02),
        }
    }

    /// The number of a member; no two members share one.
    pub fn as_varint(&self) -> (res: VarInt)
        ensures
            res == self.spec_as_varint(),
            Self::spec_from_varint(res) == Some(*self),
    {
        match self {
            UpdateStructureBlockMirror::NoMirror => VarInt(0x00),
            UpdateStructureBlockMirror::LeftRight => VarInt(0x01),
            UpdateStructureBlockMirror::FrontBack => VarInt(0x02),
        }
    }
}

impl Serialize for UpdateStructureBlockMirror {
    open spec fn wire(&self) -> Seq<u8> {
        self.spec_as_varint().wire()
    }

    fn mc_serialize<S: Serializer>(&self, to: &mut S) -> (res: SerializeResult) {
        self.as_varint().mc_serialize(to)
    }
}

impl Deserialize for UpdateStructureBlockMirror {
    type Model = UpdateStructureBlockMirror;

    open spec fn model(&self) -> UpdateStructureBlockMirror {
        *self
    }

    /// A number that names no member is an error that says so.
    open spec fn decoding(data: Seq<u8>) -> Parsed<UpdateStructureBlockMirror> {
        match VarInt::decoding(data) {
            Err(e) => Err(e),
            Ok((id, rest)) => match Self::spec_from_varint(id) {
                Some(value) => Ok((value, rest)),
                None => Err(
                    Fault::CannotUnderstandValue(
                        "invalid UpdateStructureBlockMirror "@ + id.spec_text(),
                    ),
                ),
            },
        }
    }

    proof fn lemma_remainder(data: Seq<u8>) {
        VarInt::lemma_remainder(data);
    }

    fn mc_deserialize(data: &[u8]) -> (res: DeserializeResult<'_, Self>) {
        let Deserialized { value: id, data: rest } = VarInt::mc_deserialize(data)?;
        match Self::from_varint(id) {
            Some(value) => Deserialized::ok(value, rest),
            None => Err(
                cannot_understand("invalid UpdateStructureBlockMirror ", id.to_string().as_str()),
            ),
        }
    }
}

impl ProtocolType for UpdateStructureBlockMirror {
    open spec fn legal(&self) -> bool {
        true
    }

    open spec fn self_delimiting() -> bool {
        true
    }

    proof fn lemma_round_trip(&self, rest: Seq<u8>) {
        self.spec_as_varint().lemma_round_trip(rest);
    }
}

/// How far a structure is turned.
#[derive(PartialEq, Eq, Clone, Copy, Debug)]
pub enum UpdateStructureBlockRotation {
    NoRotation,
    Clockwise90,
    Clockwise180,
    CounterClockwise90,
}

impl UpdateStructureBlockRotation {
    pub open spec fn spec_from_varint(b: VarInt) -> Option<Self> {
        if b.0 == 0x00 {
            Some(UpdateStructureBlockRotation::NoRotation)
        } else if b.0 == 0x01 {
            Some(UpdateStructureBlockRotation::Clockwise90)
        } else if b.0 == 0x02 {
            Some(UpdateStructureBlockRotation::Clockwise180)
        } else if b.0 == 0x03 {
            Some(UpdateStructureBlockRotation::CounterClockwise90)
        } else {
            None
        }
    }

    /// The member that a number stands for, if it stands for one.
    pub fn from_varint(b: VarInt) -> (res: Option<Self>)
        ensures
            res == Self::spec_from_varint(b),
    {
        match b.0 {
            0x00 => Some(UpdateStructureBlockRotation::NoRotation),
            0x01 => Some(UpdateStructureBlockRotation::Clockwise90),
            0x02 => Some(UpdateStructureBlockRotation::Clockwise180),
            0x03 => Some(UpdateStructureBlockRotation::CounterClockwise90),
            _ => None,
        }
    }

    pub open spec fn spec_name(&self) -> Seq<char> {
        match self {
            UpdateStructureBlockRotation::NoRotation => "NoRotation"@,
            UpdateStructureBlockRotation::Clockwise90 => "Clockwise90"@,
            UpdateStructureBlockRotation::Clockwise180 => "Clockwise180"@,
            UpdateStructureBlockRotation::CounterClockwise90 => "CounterClockwise90"@,
        }
    }

    pub fn name(&self) -> (res: &str)
        ensures
            res@ == self.spec_name(),
    {
        match self {
            UpdateStructureBlockRotation::NoRotation => "NoRotation",
            UpdateStructureBlockRotation::Clockwise90 => "Clockwise90",
            UpdateStructureBlockRotation::Clockwise180 => "Clockwise180",
            UpdateStructureBlockRotation::CounterClockwise90 => "CounterClockwise90",
        }
    }

    pub open spec fn spec_as_varint(&self) -> VarInt {
        match self {
            UpdateStructureBlockRotation::NoRotation => VarInt(0x00),
            UpdateStructureBlockRotation::Clockwise90 => VarInt(0x01),
            UpdateStructureBlockRotation::Clockwise180 => VarInt(0x02),
            UpdateStructureBlockRotation::CounterClockwise90 => VarInt(0x03),
        }
    }

    /// The number of a member; no two members share one.
    pub fn as_varint(&self) -> (res: VarInt)
        ensures
            res == self.spec_as_varint(),
            Self::spec_from_varint(res) == Some(*self),
    {
        match self {
            UpdateStructureBlockRotation::NoRotation => VarInt(0x00),
            UpdateStructureBlockRotation::Clockwise90 => VarInt(0x01),
            UpdateStructureBlockRotation::Clockwise180 => VarInt(0x02),
            UpdateStructureBlockRotation::CounterClockwise90 => VarInt(0x03),
        }
    }
}

impl Serialize for UpdateStructureBlockRotation {
    open spec fn wire(&self) -> Seq<u8> {
        self.spec_as_varint().wire()
    }

    fn mc_serialize<S: Serializer>(&self, to: &mut S) -> (res: SerializeResult) {
        self.as_varint().mc_serialize(to)
    }
}

impl Deserialize for UpdateStructureBlockRotation {
    type Model = UpdateStructureBlockRotation;

    open spec fn model(&self) -> UpdateStructureBlockRotation {
        *self
    }

    /// A number that names no member is an error that says so.
    open spec fn decoding(data: Seq<u8>) -> Parsed<UpdateStructureBlockRotation> {
        match VarInt::decoding(data) {
            Err(e) => Err(e),
            Ok((id, rest)) => match Self::spec_from_varint(id) {
                Some(value) => Ok((value, rest)),
                None => Err(
                    Fault::CannotUnderstandValue(
                        "invalid UpdateStructureBlockRotation "@ + id.spec_text(),
                    ),
                ),
            },
        }
    }

    proof fn lemma_remainder(data: Seq<u8>) {
        VarInt::lemma_remainder(data);
    }

    fn mc_deserialize(data: &[u8]) -> (res: DeserializeResult<'_, Self>) {
        let Deserialized { value: id, data: rest } = VarInt::mc_deserialize(data)?;
        match Self::from_varint(id) {
            Some(value) => Deserialized::ok(value, rest),
            None => Err(
                cannot_understand("invalid UpdateStructureBlockRotation ", id.to_string().as_str()),
            ),
        }
    }
}

impl ProtocolType for UpdateStructureBlockRotation {
    open spec fn legal(&self) -> bool {
        true
    }

    open spec fn self_delimiting() -> bool {
        true
    }

    proof fn lemma_round_trip(&self, rest: Seq<u8>) {
        self.spec_as_varint().lemma_round_trip(rest);
    }
}

/// What a structure block takes in and shows. One bit for each.
#[derive(Clone, Copy, PartialEq, Eq, Debug, Default)]
pub struct UpdateStructureBlockFlags(pub u8);

impl UpdateStructureBlockFlags {
    pub open spec fn spec_is_ignore_entities(&self) -> bool {
        self.0 & 0x01 != 0
    }

    #[verifier::when_used_as_spec(spec_is_ignore_entities)]
    pub fn is_ignore_entities(&self) -> (res: bool)
        ensures
            res == self.spec_is_ignore_entities(),
    {
        self.0 & 0x01 != 0
    }

    /// Sets the bit, or clears it, and leaves the others as they are.
    pub fn set_ignore_entities(&mut self, value: bool)
        ensures
            final(self).0 == with_bits(old(self).0, 0x01, value),
            final(self).is_ignore_entities() == value,
            final(self).is_show_air() == old(self).is_show_air(),
            final(self).is_show_bounding_box() == old(self).is_show_bounding_box(),
    {
        proof {
            lemma_with_bits_reads(self.0, 0x01, value);
            lemma_with_bits_keeps(self.0, 0x01, value, 0x02);
            lemma_with_bits_keeps(self.0, 0x01, value, 0x04);
        }
        self.0 = set_bits(self.0, 0x01, value);
    }

    pub fn with_ignore_entities(self, value: bool) -> (res: Self)
        ensures
            res.0 == with_bits(self.0, 0x01, value),
            res.is_ignore_entities() == value,
            res.is_show_air() == self.is_show_air(),
            res.is_show_bounding_box() == self.is_show_bounding_box(),
    {
        proof {
            lemma_with_bits_reads(self.0, 0x01, value);
            lemma_with_bits_keeps(self.0, 0x01, value, 0x02);
            lemma_with_bits_keeps(self.0, 0x01, value, 0x04);
        }
        UpdateStructureBlockFlags(set_bits(self.0, 0x01, value))
    }

    pub open spec fn spec_is_show_air(&self) -> bool {
        self.0 & 0x02 != 0
    }

    #[verifier::when_used_as_spec(spec_is_show_air)]
    pub fn is_show_air(&self) -> (res: bool)
        ensures
            res == self.spec_is_show_air(),
    {
        self.0 & 0x02 != 0
    }

    /// Sets the bit, or clears it, and leaves the others as they are.
    pub fn set_show_air(&mut self, value: bool)
        ensures
            final(self).0 == with_bits(old(self).0, 0x02, value),
            final(self).is_show_air() == value,
            final(self).is_ignore_entities() == old(self).is_ignore_entities(),
            final(self).is_show_bounding_box() == old(self).is_show_bounding_box(),
    {
        proof {
            lemma_with_bits_reads(self.0, 0x02, value);
            lemma_with_bits_keeps(self.0, 0x02, value, 0x01);
            lemma_with_bits_keeps(self.0, 0x02, value, 0x04);
        }
        self.0 = set_bits(self.0, 0x02, value);
    }

    pub fn with_show_air(self, value: bool) -> (res: Self)
        ensures
            res.0 == with_bits(self.0, 0x02, value),
            res.is_show_air() == value,
            res.is_ignore_entities() == self.is_ignore_entities(),
            res.is_show_bounding_box() == self.is_show_bounding_box(),
    {
        proof {
            lemma_with_bits_reads(self.0, 0x02, value);
            lemma_with_bits_keeps(self.0, 0x02, value, 0x01);
            lemma_with_bits_keeps(self.0, 0x02, value, 0x04);
        }
        UpdateStructureBlockFlags(set_bits(self.0, 0x02, value))
    }

    pub open spec fn spec_is_show_bounding_box(&self) -> bool {
        self.0 & 0x04 != 0
    }

    #[verifier::when_used_as_spec(spec_is_show_bounding_box)]
    pub fn is_show_bounding_box(&self) -> (res: bool)
        ensures
            res == self.spec_is_show_bounding_box(),
    {
        self.0 & 0x04 != 0
    }

    /// Sets the bit, or clears it, and leaves the others as they are.
    pub fn set_show_bounding_box(&mut self, value: bool)
        ensures
            final(self).0 == with_bits(old(self).0, 0x04, value),
            final(self).is_show_bounding_box() == value,
            final(self).is_ignore_entities() == old(self).is_ignore_entities(),
            final(self).is_show_air() == old(self).is_show_air(),
    {
        proof {
            lemma_with_bits_reads(self.0, 0x04, value);
            lemma_with_bits_keeps(self.0, 0x04, value, 0x01);
            lemma_with_bits_keeps(self.0, 0x04, value, 0x02);
        }
        self.0 = set_bits(self.0, 0x04, value);
    }

    pub fn with_show_bounding_box(self, value: bool) -> (res: Self)
        ensures
            res.0 == with_bits(self.0, 0x04, value),
            res.is_show_bounding_box() == value,
            res.is_ignore_entities() == self.is_ignore_entities(),
            res.is_show_air() == self.is_show_air(),
    {
        proof {
            lemma_with_bits_reads(self.0, 0x04, value);
            lemma_with_bits_keeps(self.0, 0x04, value, 0x01);
            lemma_with_bits_keeps(self.0, 0x04, value, 0x02);
        }
        UpdateStructureBlockFlags(set_bits(self.0, 0x04, value))
    }
}

impl Serialize for UpdateStructureBlockFlags {
    open spec fn wire(&self) -> Seq<u8> {
        self.0.wire()
    }

    fn mc_serialize<S: Serializer>(&self, to: &mut S) -> (res: SerializeResult) {
        to.serialize_byte(self.0)
    }
}

impl Deserialize for UpdateStructureBlockFlags {
    type Model = UpdateStructureBlockFlags;

    open spec fn model(&self) -> UpdateStructureBlockFlags {
        *self
    }

    open spec fn decoding(data: Seq<u8>) -> Parsed<UpdateStructureBlockFlags> {
        match u8::decoding(data) {
            Err(e) => Err(e),
            Ok((b, rest)) => Ok((UpdateStructureBlockFlags(b), rest)),
        }
    }

    proof fn lemma_remainder(data: Seq<u8>) {
        u8::lemma_remainder(data);
    }

    fn mc_deserialize(data: &[u8]) -> (res: DeserializeResult<'_, Self>) {
        let Deserialized { value: b, data: rest } = u8::mc_deserialize(data)?;
        Deserialized::ok(UpdateStructureBlockFlags(b), rest)
    }
}

impl ProtocolType for UpdateStructureBlockFlags {
    open spec fn legal(&self) -> bool {
        true
    }

    open spec fn self_delimiting() -> bool {
        true
    }

    proof fn lemma_round_trip(&self, rest: Seq<u8>) {
        self.0.lemma_round_trip(rest);
    }
}

/// What is to be done with a list of recipes.
#[derive(PartialEq, Eq, Clone, Copy, Debug)]
pub enum RecipeUnlockAction {
    Init,
    Add,
    Remove,
}

impl RecipeUnlockAction {
    pub open spec fn spec_from_varint(b: VarInt) -> Option<Self> {
        if b.0 == 0x00 {
            Some(RecipeUnlockAction::Init)
        } else if b.0 == 0x01 {
            Some(RecipeUnlockAction::Add)
        } else if b.0 == 0x02 {
            Some(RecipeUnlockAction::Remove)
        } else {
            None
        }
    }

    /// The member that a number stands for, if it stands for one.
    pub fn from_varint(b: VarInt) -> (res: Option<Self>)
        ensures
            res == Self::spec_from_varint(b),
    {
        match b.0 {
            0x00 => Some(RecipeUnlockAction::Init),
            0x01 => Some(RecipeUnlockAction::Add),
            0x02 => Some(RecipeUnlockAction::Remove),
            _ => None,
        }
    }

    pub open spec fn spec_name(&self) -> Seq<char> {
        match self {
            RecipeUnlockAction::Init => "Init"@,
            RecipeUnlockAction::Add => "Add"@,
            RecipeUnlockAction::Remove => "Remove"@,
        }
    }

    pub fn name(&self) -> (res: &str)
        ensures
            res@ == self.spec_name(),
    {
        match self {
            RecipeUnlockAction::Init => "Init",
            RecipeUnlockAction::Add => "Add",
            RecipeUnlockAction::Remove => "Remove",
        }
    }

    pub open spec fn spec_as_varint(&self) -> VarInt {
        match self {
            RecipeUnlockAction::Init => VarInt(0x00),
            RecipeUnlockAction::Add => VarInt(0x01),
            RecipeUnlockAction::Remove => VarInt(0x02),
        }
    }

    /// The number of a member; no two members share one.
    pub fn as_varint(&self) -> (res: VarInt)
        ensures
            res == self.spec_as_varint(),
            Self::spec_from_varint(res) == Some(*self),
    {
        match self {
            RecipeUnlockAction::Init => VarInt(0x00),
            RecipeUnlockAction::Add => VarInt(0x01),
            RecipeUnlockAction::Remove => VarInt(0x02),
        }
    }
}

impl Serialize for RecipeUnlockAction {
    open spec fn wire(&self) -> Seq<u8> {
        self.spec_as_varint().wire()
    }

    fn mc_serialize<S: Serializer>(&self, to: &mut S) -> (res: SerializeResult) {
        self.as_varint().mc_serialize(to)
    }
}

impl Deserialize for RecipeUnlockAction {
    type Model = RecipeUnlockAction;

    open spec fn model(&self) -> RecipeUnlockAction {
        *self
    }

    /// A number that names no member is an error that says so.
    open spec fn decoding(data: Seq<u8>) -> Parsed<RecipeUnlockAction> {
        match VarInt::decoding(data) {
            Err(e) => Err(e),
            Ok((id, rest)) => match Self::spec_from_varint(id) {
                Some(value) => Ok((value, rest)),
                None => Err(
                    Fault::CannotUnderstandValue("invalid RecipeUnlockAction "@ + id.spec_text()),
                ),
            },
        }
    }

    proof fn lemma_remainder(data: Seq<u8>) {
        VarInt::lemma_remainder(data);
    }

    fn mc_deserialize(data: &[u8]) -> (res: DeserializeResult<'_, Self>) {
        let Deserialized { value: id, data: rest } = VarInt::mc_deserialize(data)?;
        match Self::from_varint(id) {
            Some(value) => Deserialized::ok(value, rest),
            None => Err(cannot_understand("invalid RecipeUnlockAction ", id.to_string().as_str())),
        }
    }
}

impl ProtocolType for RecipeUnlockAction {
    open spec fn legal(&self) -> bool {
        true
    }

    open spec fn self_delimiting() -> bool {
        true
    }

    proof fn lemma_round_trip(&self, rest: Seq<u8>) {
        self.spec_as_varint().lemma_round_trip(rest);
    }
}

} // verus!
