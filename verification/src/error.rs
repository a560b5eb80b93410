//! The fields of the wire record and the errors of decoding.

use crate::raw::ValueKind;
use vstd::prelude::*;

verus! {

/// A field of the wire record. The last two are the fields of the record
/// under `guild`.
#[derive(Clone, Copy, Debug, PartialEq, Eq, Structural)]
pub enum Field {
    Id,
    Name,
    Level,
    Motto,
    ProfileNumber,
    Exp,
    Gold,
    Steps,
    NpcKills,
    UserKills,
    QuestsComplete,
    Dex,
    Def,
    Str,
    BonusDex,
    BonusDef,
    BonusStr,
    Hp,
    MaxHp,
    SafeMode,
    SafeModeTime,
    Background,
    Membership,
    Guild,
    GuildId,
    GuildName,
}

impl Field {
    /// The key under which the field travels.
    pub open spec fn key(self) -> Seq<char> {
        match self {
            Field::Id => "id"@,
            Field::Name => "name"@,
            Field::Level => "level"@,
            Field::Motto => "motto"@,
            Field::ProfileNumber => "profile_number"@,
            Field::Exp => "exp"@,
            Field::Gold => "gold"@,
            Field::Steps => "steps"@,
            Field::NpcKills => "npc_kills"@,
            Field::UserKills => "user_kills"@,
            Field::QuestsComplete => "quests_complete"@,
            Field::Dex => "dex"@,
            Field::Def => "def"@,
            Field::Str => "str"@,
            Field::BonusDex => "bonus_dex"@,
            Field::BonusDef => "bonus_def"@,
            Field::BonusStr => "bonus_str"@,
            Field::Hp => "hp"@,
            Field::MaxHp => "max_hp"@,
            Field::SafeMode => "safeMode"@,
            Field::SafeModeTime => "safeModeTime"@,
            Field::Background => "background"@,
            Field::Membership => "membership"@,
            Field::Guild => "guild"@,
            Field::GuildId => "id"@,
            Field::GuildName => "name"@,
        }
    }

    /// The key under which the field travels.
    pub fn wire_name(&self) -> (name: &'static str)
        ensures
            name@ == self.key(),
    {
        match self {
            Field::Id => "id",
            Field::Name => "name",
            Field::Level => "level",
            Field::Motto => "motto",
            Field::ProfileNumber => "profile_number",
            Field::Exp => "exp",
            Field::Gold => "gold",
            Field::Steps => "steps",
            Field::NpcKills => "npc_kills",
            Field::UserKills => "user_kills",
            Field::QuestsComplete => "quests_complete",
            Field::Dex => "dex",
            Field::Def => "def",
            Field::Str => "str",
            Field::BonusDex => "bonus_dex",
            Field::BonusDef => "bonus_def",
            Field::BonusStr => "bonus_str",
            Field::Hp => "hp",
            Field::MaxHp => "max_hp",
            Field::SafeMode => "safeMode",
            Field::SafeModeTime => "safeModeTime",
            Field::Background => "background",
            Field::Membership => "membership",
            Field::Guild => "guild",
            Field::GuildId => "id",
            Field::GuildName => "name",
        }
    }
}

/// Why a record could not be decoded.
#[derive(Clone, Copy, Debug, PartialEq, Eq, Structural)]
pub enum DecodeErrorKind {
    /// The truth value is not encoded as the integer 0 or 1.
    InvalidBoolEncoding,
    /// The value is no text that names a date and time.
    InvalidTimestamp,
    /// The value is no integer, is negative, or is too large to hold.
    InvalidNumeric,
    /// A required field has no entry, or a required text is no text.
    MissingField,
    /// The value under `guild` is no record, or one of its fields is faulty.
    MalformedNestedObject,
}

/// The failure of a decode: the field at fault, the kind of value that it
/// asks for and the kind that was found.
#[derive(Clone, Copy, Debug, PartialEq, Eq, Structural)]
pub struct DecodeError {
    pub kind: DecodeErrorKind,
    pub field: Field,
    pub expected: ValueKind,
    pub actual: ValueKind,
}

} // verus!
