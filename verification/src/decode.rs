//! Decoding of a wire record into a player: every field is checked by the
//! rule of its class, in a fixed order, and the first fault ends the decode.

use crate::error::{DecodeError, DecodeErrorKind, Field};
use crate::raw::{entries_of, find, found_view, kind_of, kind_of_found, RawValue, ValueKind, Wire};
use crate::smmo_player::{guild_view, GuildView, PlayerView, SmmoPlayer, SmmoPlayerGuild};
use crate::time::{instant_of_text, view_of, Instant, Timestamp};
use vstd::prelude::*;

verus! {

/// The strftime pattern of a date and time on the wire, which is taken as UTC.
pub const TIMESTAMP_FORMAT: &'static str = "%Y-%m-%d %H:%M:%S";

/// The number of fields of the top record.
pub const FIELD_COUNT: usize = 24;

/// The rule by which a field is decoded.
#[derive(Clone, Copy, Debug, PartialEq, Eq, Structural)]
pub enum FieldClass {
    /// A non-negative integer.
    Numeric,
    /// A text.
    Text,
    /// A truth value, encoded as the integer 0 or 1.
    Flag,
    /// A date and time as text, or nothing.
    Time,
    /// The record of a guild, or nothing.
    Nested,
}

/// The class of each field.
pub open spec fn class_of(field: Field) -> FieldClass {
    match field {
        Field::Name => FieldClass::Text,
        Field::Motto => FieldClass::Text,
        Field::ProfileNumber => FieldClass::Text,
        Field::SafeMode => FieldClass::Flag,
        Field::SafeModeTime => FieldClass::Time,
        Field::Guild => FieldClass::Nested,
        Field::GuildName => FieldClass::Text,
        _ => FieldClass::Numeric,
    }
}

/// The place of a field in the order of decoding. The fields of the guild's
/// record come after all fields of the top record.
pub open spec fn position(field: Field) -> int {
    match field {
        Field::Id => 0,
        Field::Name => 1,
        Field::Level => 2,
        Field::Motto => 3,
        Field::ProfileNumber => 4,
        Field::Exp => 5,
        Field::Gold => 6,
        Field::Steps => 7,
        Field::NpcKills => 8,
        Field::UserKills => 9,
        Field::QuestsComplete => 10,
        Field::Dex => 11,
        Field::Def => 12,
        Field::Str => 13,
        Field::BonusDex => 14,
        Field::BonusDef => 15,
        Field::BonusStr => 16,
        Field::Hp => 17,
        Field::MaxHp => 18,
        Field::SafeMode => 19,
        Field::SafeModeTime => 20,
        Field::Background => 21,
        Field::Membership => 22,
        Field::Guild => 23,
        Field::GuildId => 24,
        Field::GuildName => 25,
    }
}

/// The field at a place in the order of decoding.
pub open spec fn field_at(place: int) -> Field {
    if place == 0 {
        Field::Id
    } else if place == 1 {
        Field::Name
    } else if place == 2 {
        Field::Level
    } else if place == 3 {
        Field::Motto
    } else if place == 4 {
        Field::ProfileNumber
    } else if place == 5 {
        Field::Exp
    } else if place == 6 {
        Field::Gold
    } else if place == 7 {
        Field::Steps
    } else if place == 8 {
        Field::NpcKills
    } else if place == 9 {
        Field::UserKills
    } else if place == 10 {
        Field::QuestsComplete
    } else if place == 11 {
        Field::Dex
    } else if place == 12 {
        Field::Def
    } else if place == 13 {
        Field::Str
    } else if place == 14 {
        Field::BonusDex
    } else if place == 15 {
        Field::BonusDef
    } else if place == 16 {
        Field::BonusStr
    } else if place == 17 {
        Field::Hp
    } else if place == 18 {
        Field::MaxHp
    } else if place == 19 {
        Field::SafeMode
    } else if place == 20 {
        Field::SafeModeTime
    } else if place == 21 {
        Field::Background
    } else if place == 22 {
        Field::Membership
    } else if place == 23 {
        Field::Guild
    } else if place == 24 {
        Field::GuildId
    } else {
        Field::GuildName
    }
}

/// The error of a fault at `field`, which asked for `expected` and met `found`.
pub open spec fn fault(
    kind: DecodeErrorKind,
    field: Field,
    expected: ValueKind,
    found: Option<Wire>,
) -> DecodeError {
    DecodeError { kind, field, expected, actual: kind_of(found) }
}

/// A numeric field holds an integer from 0 to `u64::MAX`. Without an entry
/// the field is missing; any other value is no valid number.
pub open spec fn numeric_field(field: Field, found: Option<Wire>) -> Result<nat, DecodeError> {
    match found {
        None => Err(fault(DecodeErrorKind::MissingField, field, ValueKind::Integer, found)),
        Some(Wire::Integer(n)) => if 0 <= n <= u64::MAX {
            Ok(n as nat)
        } else {
            Err(fault(DecodeErrorKind::InvalidNumeric, field, ValueKind::Integer, found))
        },
        Some(_) => Err(fault(DecodeErrorKind::InvalidNumeric, field, ValueKind::Integer, found)),
    }
}

/// A text field holds a text, which may be empty. Without an entry, or with
/// a value of another kind, the field is missing.
pub open spec fn text_field(field: Field, found: Option<Wire>) -> Result<Seq<char>, DecodeError> {
    match found {
        Some(Wire::Text(s)) => Ok(s),
        _ => Err(fault(DecodeErrorKind::MissingField, field, ValueKind::Text, found)),
    }
}

/// A flag holds the integer 0 for false or 1 for true. Without an entry the
/// field is missing; any other value is no valid encoding.
pub open spec fn flag_field(field: Field, found: Option<Wire>) -> Result<bool, DecodeError> {
    match found {
        None => Err(fault(DecodeErrorKind::MissingField, field, ValueKind::Integer, found)),
        Some(Wire::Integer(n)) => if n == 0 {
            Ok(false)
        } else if n == 1 {
            Ok(true)
        } else {
            Err(fault(DecodeErrorKind::InvalidBoolEncoding, field, ValueKind::Integer, found))
        },
        Some(_) => Err(
            fault(DecodeErrorKind::InvalidBoolEncoding, field, ValueKind::Integer, found),
        ),
    }
}

/// A time is unknown without an entry or under a null; it is known under a
/// text that names a valid instant. Any other value is no valid time.
pub open spec fn time_field(field: Field, found: Option<Wire>) -> Result<
    Option<Instant>,
    DecodeError,
> {
    match found {
        None => Ok(None),
        Some(Wire::Null) => Ok(None),
        Some(Wire::Text(s)) => match instant_of_text(s, TIMESTAMP_FORMAT@) {
            Some(at) => Ok(Some(at)),
            None => Err(fault(DecodeErrorKind::InvalidTimestamp, field, ValueKind::Text, found)),
        },
        Some(_) => Err(fault(DecodeErrorKind::InvalidTimestamp, field, ValueKind::Text, found)),
    }
}

/// The error of a fault inside the guild's record.
pub open spec fn nested_fault(inner: DecodeError) -> DecodeError {
    DecodeError {
        kind: DecodeErrorKind::MalformedNestedObject,
        field: inner.field,
        expected: inner.expected,
        actual: inner.actual,
    }
}

/// A player has no guild without an entry or under a null. Under a record
/// the guild is decoded, its number first; a fault there, or a value that is
/// no record, fails the decode.
pub open spec fn guild_field(found: Option<Wire>) -> Result<Option<GuildView>, DecodeError> {
    match found {
        None => Ok(None),
        Some(Wire::Null) => Ok(None),
        Some(Wire::Record(entries)) => match numeric_field(
            Field::GuildId,
            find(entries, Field::GuildId.key()),
        ) {
            Err(e) => Err(nested_fault(e)),
            Ok(id) => match text_field(Field::GuildName, find(entries, Field::GuildName.key())) {
                Err(e) => Err(nested_fault(e)),
                Ok(name) => Ok(Some(GuildView { id, name })),
            },
        },
        Some(_) => Err(
            fault(DecodeErrorKind::MalformedNestedObject, Field::Guild, ValueKind::Record, found),
        ),
    }
}

/// The error of a result, if it is one.
pub open spec fn error_of<T>(result: Result<T, DecodeError>) -> Option<DecodeError> {
    match result {
        Ok(_) => None,
        Err(e) => Some(e),
    }
}

/// What the record holds under the key of `field`.
pub open spec fn entry_of(record: Wire, field: Field) -> Option<Wire> {
    find(entries_of(record), field.key())
}

/// The fault of one field of the top record, if it has one.
pub open spec fn field_fault(record: Wire, field: Field) -> Option<DecodeError> {
    let found = entry_of(record, field);
    match class_of(field) {
        FieldClass::Numeric => error_of(numeric_field(field, found)),
        FieldClass::Text => error_of(text_field(field, found)),
        FieldClass::Flag => error_of(flag_field(field, found)),
        FieldClass::Time => error_of(time_field(field, found)),
        FieldClass::Nested => error_of(guild_field(found)),
    }
}

/// The fault of the first faulty field of the top record at or after `place`.
pub open spec fn first_fault(record: Wire, place: int) -> Option<DecodeError>
    decreases FIELD_COUNT - place,
{
    if 0 <= place < FIELD_COUNT {
        match field_fault(record, field_at(place)) {
            Some(e) => Some(e),
            None => first_fault(record, place + 1),
        }
    } else {
        None
    }
}

/// The number under a numeric field; 0 where the field is faulty.
pub open spec fn numeric_value(record: Wire, field: Field) -> nat {
    match numeric_field(field, entry_of(record, field)) {
        Ok(n) => n,
        Err(_) => 0,
    }
}

/// The text under a text field; empty where the field is faulty.
pub open spec fn text_value(record: Wire, field: Field) -> Seq<char> {
    match text_field(field, entry_of(record, field)) {
        Ok(s) => s,
        Err(_) => Seq::empty(),
    }
}

/// The truth value under a flag; false where the field is faulty.
pub open spec fn flag_value(record: Wire, field: Field) -> bool {
    match flag_field(field, entry_of(record, field)) {
        Ok(b) => b,
        Err(_) => false,
    }
}

/// The instant under a time field; none where the field is faulty.
pub open spec fn time_value(record: Wire, field: Field) -> Option<Instant> {
    match time_field(field, entry_of(record, field)) {
        Ok(at) => at,
        Err(_) => None,
    }
}

/// The guild under the guild field; none where the field is faulty.
pub open spec fn guild_value(record: Wire) -> Option<GuildView> {
    match guild_field(entry_of(record, Field::Guild)) {
        Ok(guild) => guild,
        Err(_) => None,
    }
}

/// The player that a record without a fault describes.
pub open spec fn assembled(record: Wire) -> PlayerView {
    PlayerView {
        id: numeric_value(record, Field::Id),
        name: text_value(record, Field::Name),
        level: numeric_value(record, Field::Level),
        motto: text_value(record, Field::Motto),
        profile_number: text_value(record, Field::ProfileNumber),
        exp: numeric_value(record, Field::Exp),
        gold: numeric_value(record, Field::Gold),
        steps: numeric_value(record, Field::Steps),
        npc_kills: numeric_value(record, Field::NpcKills),
        user_kills: numeric_value(record, Field::UserKills),
        quests_complete: numeric_value(record, Field::QuestsComplete),
        dex: numeric_value(record, Field::Dex),
        def: numeric_value(record, Field::Def),
        str: numeric_value(record, Field::Str),
        bonus_dex: numeric_value(record, Field::BonusDex),
        bonus_def: numeric_value(record, Field::BonusDef),
        bonus_str: numeric_value(record, Field::BonusStr),
        hp: numeric_value(record, Field::Hp),
        max_hp: numeric_value(record, Field::MaxHp),
        safe_mode: flag_value(record, Field::SafeMode),
        safe_mode_time: time_value(record, Field::SafeModeTime),
        background: numeric_value(record, Field::Background),
        membership: numeric_value(record, Field::Membership),
        guild: guild_value(record),
    }
}

/// What decoding a record gives: the fault of the first faulty field in the
/// order of decoding, or the player where no field is faulty. A value that
/// is no record holds no entry.
pub open spec fn decoded(record: Wire) -> Result<PlayerView, DecodeError> {
    match first_fault(record, 0) {
        Some(e) => Err(e),
        None => Ok(assembled(record)),
    }
}

/// The view of a decoded number.
pub open spec fn numeric_view(result: Result<u64, DecodeError>) -> Result<nat, DecodeError> {
    match result {
        Ok(n) => Ok(n as nat),
        Err(e) => Err(e),
    }
}

/// The view of a decoded text.
pub open spec fn text_view(result: Result<String, DecodeError>) -> Result<Seq<char>, DecodeError> {
    match result {
        Ok(s) => Ok(s@),
        Err(e) => Err(e),
    }
}

/// The view of a decoded time.
pub open spec fn time_view(result: Result<Option<Timestamp>, DecodeError>) -> Result<
    Option<Instant>,
    DecodeError,
> {
    match result {
        Ok(at) => Ok(view_of(at)),
        Err(e) => Err(e),
    }
}

/// The view of a decoded guild.
pub open spec fn guild_result_view(result: Result<Option<SmmoPlayerGuild>, DecodeError>) -> Result<
    Option<GuildView>,
    DecodeError,
> {
    match result {
        Ok(guild) => Ok(guild_view(guild)),
        Err(e) => Err(e),
    }
}

/// The view of a decoded player.
pub open spec fn player_view(result: Result<SmmoPlayer, DecodeError>) -> Result<
    PlayerView,
    DecodeError,
> {
    match result {
        Ok(player) => Ok(player@),
        Err(e) => Err(e),
    }
}

fn new_fault(
    kind: DecodeErrorKind,
    field: Field,
    expected: ValueKind,
    found: Option<&RawValue>,
) -> (e: DecodeError)
    ensures
        e == fault(kind, field, expected, found_view(found)),
{
    DecodeError { kind, field, expected, actual: kind_of_found(found) }
}

/// Decodes what was found under a numeric field.
pub fn decode_numeric(field: Field, found: Option<&RawValue>) -> (result: Result<u64, DecodeError>)
    ensures
        numeric_view(result) == numeric_field(field, found_view(found)),
{
    match found {
        None => Err(new_fault(DecodeErrorKind::MissingField, field, ValueKind::Integer, found)),
        Some(RawValue::Integer(n)) => {
            if 0 <= *n && *n <= 18_446_744_073_709_551_615i128 {
                Ok(*n as u64)
            } else {
                Err(new_fault(DecodeErrorKind::InvalidNumeric, field, ValueKind::Integer, found))
            }
        },
        Some(_) => Err(
            new_fault(DecodeErrorKind::InvalidNumeric, field, ValueKind::Integer, found),
        ),
    }
}

/// Decodes what was found under a text field.
pub fn decode_text(field: Field, found: Option<&RawValue>) -> (result: Result<String, DecodeError>)
    ensures
        text_view(result) == text_field(field, found_view(found)),
{
    match found {
        Some(RawValue::Text(s)) => Ok(s.clone()),
        _ => Err(new_fault(DecodeErrorKind::MissingField, field, ValueKind::Text, found)),
    }
}

/// Decodes what was found under a flag.
pub fn decode_flag(field: Field, found: Option<&RawValue>) -> (result: Result<bool, DecodeError>)
    ensures
        result == flag_field(field, found_view(found)),
{
    match found {
        None => Err(new_fault(DecodeErrorKind::MissingField, field, ValueKind::Integer, found)),
        Some(RawValue::Integer(n)) => {
            if *n == 0 {
                Ok(false)
            } else if *n == 1 {
                Ok(true)
            } else {
                Err(
                    new_fault(
                        DecodeErrorKind::InvalidBoolEncoding,
                        field,
                        ValueKind::Integer,
                        found,
                    ),
                )
            }
        },
        Some(_) => Err(
            new_fault(DecodeErrorKind::InvalidBoolEncoding, field, ValueKind::Integer, found),
        ),
    }
}

/// Decodes what was found under a time field.
pub fn decode_time(field: Field, found: Option<&RawValue>) -> (result: Result<
    Option<Timestamp>,
    DecodeError,
>)
    ensures
        time_view(result) == time_field(field, found_view(found)),
{
    match found {
        None => Ok(None),
        Some(RawValue::Null) => Ok(None),
        Some(RawValue::Text(s)) => {
            match Timestamp::parse(s.as_str(), TIMESTAMP_FORMAT) {
                Some(at) => Ok(Some(at)),
                None => Err(
                    new_fault(DecodeErrorKind::InvalidTimestamp, field, ValueKind::Text, found),
                ),
            }
        },
        Some(_) => Err(
            new_fault(DecodeErrorKind::InvalidTimestamp, field, ValueKind::Text, found),
        ),
    }
}

fn new_nested_fault(inner: DecodeError) -> (e: DecodeError)
    ensures
        e == nested_fault(inner),
{
    DecodeError {
        kind: DecodeErrorKind::MalformedNestedObject,
        field: inner.field,
        expected: inner.expected,
        actual: inner.actual,
    }
}

/// Decodes what was found under the guild field.
pub fn decode_guild(found: Option<&RawValue>) -> (result: Result<
    Option<SmmoPlayerGuild>,
    DecodeError,
>)
    ensures
        guild_result_view(result) == guild_field(found_view(found)),
{
    match found {
        None => Ok(None),
        Some(RawValue::Null) => Ok(None),
        Some(RawValue::Record(_)) => {
            let record = found.unwrap();
            let id = match decode_numeric(Field::GuildId, record.get(Field::GuildId.wire_name())) {
                Ok(id) => id,
                Err(e) => {
                    return Err(new_nested_fault(e));
                },
            };
            let name = match decode_text(
                Field::GuildName,
                record.get(Field::GuildName.wire_name()),
            ) {
                Ok(name) => name,
                Err(e) => {
                    return Err(new_nested_fault(e));
                },
            };
            Ok(Some(SmmoPlayerGuild { id, name }))
        },
        Some(_) => Err(
            new_fault(
                DecodeErrorKind::MalformedNestedObject,
                Field::Guild,
                ValueKind::Record,
                found,
            ),
        ),
    }
}

fn numeric_at(record: &RawValue, field: Field) -> (result: Result<u64, DecodeError>)
    requires
        class_of(field) == FieldClass::Numeric,
        0 <= position(field) < FIELD_COUNT,
    ensures
        match result {
            Ok(value) => {
                &&& value == numeric_value(record@, field)
                &&& first_fault(record@, position(field)) == first_fault(
                    record@,
                    position(field) + 1,
                )
            },
            Err(e) => first_fault(record@, position(field)) == Some(e),
        },
{
    decode_numeric(field, record.get(field.wire_name()))
}

fn text_at(record: &RawValue, field: Field) -> (result: Result<String, DecodeError>)
    requires
        class_of(field) == FieldClass::Text,
        0 <= position(field) < FIELD_COUNT,
    ensures
        match result {
            Ok(value) => {
                &&& value@ == text_value(record@, field)
                &&& first_fault(record@, position(field)) == first_fault(
                    record@,
                    position(field) + 1,
                )
            },
            Err(e) => first_fault(record@, position(field)) == Some(e),
        },
{
    decode_text(field, record.get(field.wire_name()))
}

fn flag_at(record: &RawValue, field: Field) -> (result: Result<bool, DecodeError>)
    requires
        class_of(field) == FieldClass::Flag,
        0 <= position(field) < FIELD_COUNT,
    ensures
        match result {
            Ok(value) => {
                &&& value == flag_value(record@, field)
                &&& first_fault(record@, position(field)) == first_fault(
                    record@,
                    position(field) + 1,
                )
            },
            Err(e) => first_fault(record@, position(field)) == Some(e),
        },
{
    decode_flag(field, record.get(field.wire_name()))
}

fn time_at(record: &RawValue, field: Field) -> (result: Result<Option<Timestamp>, DecodeError>)
    requires
        class_of(field) == FieldClass::Time,
        0 <= position(field) < FIELD_COUNT,
    ensures
        match result {
            Ok(value) => {
                &&& view_of(value) == time_value(record@, field)
                &&& first_fault(record@, position(field)) == first_fault(
                    record@,
                    position(field) + 1,
                )
            },
            Err(e) => first_fault(record@, position(field)) == Some(e),
        },
{
    decode_time(field, record.get(field.wire_name()))
}

fn guild_at(record: &RawValue) -> (result: Result<Option<SmmoPlayerGuild>, DecodeError>)
    ensures
        match result {
            Ok(value) => {
                &&& guild_view(value) == guild_value(record@)
                &&& first_fault(record@, position(Field::Guild)) == first_fault(
                    record@,
                    position(Field::Guild) + 1,
                )
            },
            Err(e) => first_fault(record@, position(Field::Guild)) == Some(e),
        },
{
    decode_guild(record.get(Field::Guild.wire_name()))
}

/// Decodes a wire record into a player. The fields are checked in the order
/// of decoding; the first fault is returned and no player is made.
pub fn decode(record: &RawValue) -> (result: Result<SmmoPlayer, DecodeError>)
    ensures
        player_view(result) == decoded(record@),
{
    let id = numeric_at(record, Field::Id)?;
    let name = text_at(record, Field::Name)?;
    let level = numeric_at(record, Field::Level)?;
    let motto = text_at(record, Field::Motto)?;
    let profile_number = text_at(record, Field::ProfileNumber)?;
    let exp = numeric_at(record, Field::Exp)?;
    let gold = numeric_at(record, Field::Gold)?;
    let steps = numeric_at(record, Field::Steps)?;
    let npc_kills = numeric_at(record, Field::NpcKills)?;
    let user_kills = numeric_at(record, Field::UserKills)?;
    let quests_complete = numeric_at(record, Field::QuestsComplete)?;
    let dex = numeric_at(record, Field::Dex)?;
    let def = numeric_at(record, Field::Def)?;
    let str = numeric_at(record, Field::Str)?;
    let bonus_dex = numeric_at(record, Field::BonusDex)?;
    let bonus_def = numeric_at(record, Field::BonusDef)?;
    let bonus_str = numeric_at(record, Field::BonusStr)?;
    let hp = numeric_at(record, Field::Hp)?;
    let max_hp = numeric_at(record, Field::MaxHp)?;
    let safe_mode = flag_at(record, Field::SafeMode)?;
    let safe_mode_time = time_at(record, Field::SafeModeTime)?;
    let background = numeric_at(record, Field::Background)?;
    let membership = numeric_at(record, Field::Membership)?;
    let guild = guild_at(record)?;
    Ok(
        SmmoPlayer {
            id,
            name,
            level,
            motto,
            profile_number,
            exp,
            gold,
            steps,
            npc_kills,
            user_kills,
            quests_complete,
            dex,
            def,
            str,
            bonus_dex,
            bonus_def,
            bonus_str,
            hp,
            max_hp,
            safe_mode,
            safe_mode_time,
            background,
            membership,
            guild,
        },
    )
}

/// Whether no field of the top record from place `from` up to, not
/// including, place `to` is faulty.
pub open spec fn sound_between(record: Wire, from: int, to: int) -> bool {
    forall|place: int|
        from <= place < to ==> (#[trigger] field_fault(record, field_at(place))) is None
}

/// The fault of a field is the outcome of the decode from any place before
/// it, if the fields from that place up to it are sound.
pub proof fn lemma_first_fault_found(record: Wire, from: int, place: int)
    requires
        0 <= from <= place < FIELD_COUNT,
        sound_between(record, from, place),
        field_fault(record, field_at(place)) is Some,
    ensures
        first_fault(record, from) == field_fault(record, field_at(place)),
    decreases place - from,
{
    if from < place {
        assert(field_fault(record, field_at(from)) is None);
        lemma_first_fault_found(record, from + 1, place);
    }
}

/// A fault in any field of the top record fails the decode from any place
/// at or before that field.
pub proof fn lemma_fault_fails(record: Wire, from: int, place: int)
    requires
        0 <= from <= place < FIELD_COUNT,
        field_fault(record, field_at(place)) is Some,
    ensures
        first_fault(record, from) is Some,
    decreases place - from,
{
    if from < place {
        lemma_fault_fails(record, from + 1, place);
    }
}

/// A faulty field fails the whole decode; where all fields before it are
/// sound, the decode fails with that field's own fault.
pub proof fn lemma_faulty_field_fails_decode(record: Wire, field: Field)
    requires
        position(field) < FIELD_COUNT,
        field_fault(record, field) is Some,
    ensures
        decoded(record) is Err,
        sound_between(record, 0, position(field)) ==> decoded(record) == Err::<
            PlayerView,
            DecodeError,
        >(field_fault(record, field)->Some_0),
{
    lemma_fault_fails(record, 0, position(field));
    if sound_between(record, 0, position(field)) {
        lemma_first_fault_found(record, 0, position(field));
    }
}

/// An integer other than 0 and 1 under `safeMode` fails the decode. Where
/// the fields before `safeMode` are sound, it fails with
/// `InvalidBoolEncoding` at that field.
pub proof fn lemma_flag_other_than_0_and_1_is_rejected(record: Wire, n: int)
    requires
        entry_of(record, Field::SafeMode) == Some(Wire::Integer(n)),
        n != 0,
        n != 1,
    ensures
        decoded(record) is Err,
        sound_between(record, 0, position(Field::SafeMode)) ==> decoded(record) == Err::<
            PlayerView,
            DecodeError,
        >(
            DecodeError {
                kind: DecodeErrorKind::InvalidBoolEncoding,
                field: Field::SafeMode,
                expected: ValueKind::Integer,
                actual: ValueKind::Integer,
            },
        ),
{
    lemma_faulty_field_fails_decode(record, Field::SafeMode);
}

/// A record without an entry under `name` gives no player. Where the field
/// before `name` is sound, the decode fails with `MissingField` at `name`.
pub proof fn lemma_missing_name_is_rejected(record: Wire)
    requires
        entry_of(record, Field::Name) is None,
    ensures
        decoded(record) is Err,
        sound_between(record, 0, position(Field::Name)) ==> decoded(record) == Err::<
            PlayerView,
            DecodeError,
        >(
            DecodeError {
                kind: DecodeErrorKind::MissingField,
                field: Field::Name,
                expected: ValueKind::Text,
                actual: ValueKind::Absent,
            },
        ),
{
    lemma_faulty_field_fails_decode(record, Field::Name);
}

/// A malformed guild fails the whole decode: it never yields a player
/// without a guild. Where the fields before `guild` are sound, the decode
/// fails with `MalformedNestedObject`.
pub proof fn lemma_malformed_guild_fails_decode(record: Wire)
    requires
        guild_field(entry_of(record, Field::Guild)) is Err,
    ensures
        decoded(record) is Err,
        sound_between(record, 0, position(Field::Guild)) ==> decoded(record) == Err::<
            PlayerView,
            DecodeError,
        >(guild_field(entry_of(record, Field::Guild))->Err_0),
        guild_field(entry_of(record, Field::Guild))->Err_0.kind
            == DecodeErrorKind::MalformedNestedObject,
{
    lemma_faulty_field_fails_decode(record, Field::Guild);
}

/// A decode that succeeds found every field sound, and a decode finds a
/// fault only in a field that has it: nothing is put in the place of a
/// faulty or missing field.
pub proof fn lemma_decode_is_all_or_nothing(record: Wire, field: Field)
    requires
        position(field) < FIELD_COUNT,
    ensures
        decoded(record) is Ok ==> field_fault(record, field) is None,
        decoded(record) is Ok ==> decoded(record)->Ok_0 == assembled(record),
{
    if field_fault(record, field) is Some {
        lemma_faulty_field_fails_decode(record, field);
    }
}

} // verus!
