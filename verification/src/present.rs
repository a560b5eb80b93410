//! What is shown of a player: a title, a line on safe mode, and labeled
//! blocks of text.

use crate::decode::decoded;
use crate::raw::RawValue;
use crate::smmo_player::{PlayerView, SmmoPlayer};
use crate::text::{decimal_int, decimal_nat, push_decimal, push_signed_decimal};
use crate::time::{
    elapsed_nanos, instant_at, lemma_elapsed_bounded, nanos_of_days, truncated_quotient, truncated_remainder,
    Instant, Span, Timestamp, NANOS_PER_SECOND, SECONDS_PER_DAY, SECONDS_PER_HOUR,
    SECONDS_PER_MINUTE,
};
use vstd::prelude::*;
use vstd::string::*;

verus! {

/// A labeled block of text.
#[derive(Debug, Clone, PartialEq, Eq)]
pub struct PresentationField {
    pub label: String,
    pub body: String,
    /// Whether the block may share its row with its neighbours.
    pub inline: bool,
}

/// What a `PresentationField` stands for.
pub struct FieldView {
    pub label: Seq<char>,
    pub body: Seq<char>,
    pub inline: bool,
}

impl View for PresentationField {
    type V = FieldView;

    open spec fn view(&self) -> FieldView {
        FieldView { label: self.label@, body: self.body@, inline: self.inline }
    }
}

/// What is shown of one player. The order of the fields is part of it.
#[derive(Debug, Clone, PartialEq, Eq)]
pub struct Presentation {
    pub title: String,
    pub description: String,
    pub fields: Vec<PresentationField>,
}

/// What a `Presentation` stands for.
pub struct PresentationView {
    pub title: Seq<char>,
    pub description: Seq<char>,
    pub fields: Seq<FieldView>,
}

impl View for Presentation {
    type V = PresentationView;

    open spec fn view(&self) -> PresentationView {
        PresentationView {
            title: self.title@,
            description: self.description@,
            fields: Seq::new(self.fields@.len(), |i: int| self.fields@[i]@),
        }
    }
}

/// The line on a player who is not in safe mode.
pub open spec fn not_in_safe_mode() -> Seq<char> {
    "This player is not currently in safe mode."@
}

/// The line on a player whose safe mode has no end.
pub open spec fn permanently_in_safe_mode() -> Seq<char> {
    "This player is permanently in safe mode."@
}

/// The time left of a safe mode, in nanoseconds: the time from `now` to the
/// expiry and one day more. It is negative where the expiry lies more than a
/// day back.
pub open spec fn remaining_nanos(expiry: Instant, now: Instant) -> int {
    elapsed_nanos(expiry, now) + nanos_of_days(1)
}

/// The whole seconds in a number of nanoseconds, rounded toward zero.
pub open spec fn whole_seconds(nanos: int) -> int {
    truncated_quotient(nanos, NANOS_PER_SECOND as int)
}

/// The hours shown: all whole hours of the time left, with its sign.
pub open spec fn shown_hours(remaining: int) -> int {
    truncated_quotient(whole_seconds(remaining), SECONDS_PER_HOUR as int)
}

/// The minutes shown: the whole minutes of the time left beyond whole hours,
/// with its sign.
pub open spec fn shown_minutes(remaining: int) -> int {
    truncated_remainder(
        truncated_quotient(whole_seconds(remaining), SECONDS_PER_MINUTE as int),
        60,
    )
}

/// The seconds shown: the whole seconds of the time left beyond whole
/// minutes, with its sign.
pub open spec fn shown_seconds(remaining: int) -> int {
    truncated_remainder(whole_seconds(remaining), 60)
}

/// The line on a safe mode that ends: hours, minutes and seconds without padding.
pub open spec fn countdown_text(hours: int, minutes: int, seconds: int) -> Seq<char> {
    "This player's safe mode expires in "@ + decimal_int(hours) + ":"@ + decimal_int(minutes)
        + ":"@ + decimal_int(seconds) + "."@
}

/// The line on a player's safe mode at the instant `now`. The expiry of a
/// player who is not in safe mode is not looked at.
pub open spec fn safe_mode_status(player: PlayerView, now: Instant) -> Seq<char> {
    if !player.safe_mode {
        not_in_safe_mode()
    } else {
        match player.safe_mode_time {
            None => permanently_in_safe_mode(),
            Some(expiry) => {
                let remaining = remaining_nanos(expiry, now);
                countdown_text(
                    shown_hours(remaining),
                    shown_minutes(remaining),
                    shown_seconds(remaining),
                )
            },
        }
    }
}

/// The two lines on level and gold.
pub open spec fn general_body(player: PlayerView) -> Seq<char> {
    "Level: "@ + decimal_nat(player.level) + "\nGold: "@ + decimal_nat(player.gold)
}

/// One line on a stat, with the newline that ends it.
pub open spec fn stat_line(name: Seq<char>, base: nat, bonus: nat) -> Seq<char> {
    name + ": "@ + decimal_nat(base) + " (+ "@ + decimal_nat(bonus) + " bonus)\n"@
}

/// The three lines on strength, defence and dexterity.
pub open spec fn stats_body(player: PlayerView) -> Seq<char> {
    stat_line("str"@, player.str, player.bonus_str) + stat_line(
        "def"@,
        player.def,
        player.bonus_def,
    ) + stat_line("dex"@, player.dex, player.bonus_dex)
}

/// The block on level and gold.
pub open spec fn general_field(player: PlayerView) -> FieldView {
    FieldView { label: "General"@, body: general_body(player), inline: true }
}

/// The block on the stats.
pub open spec fn stats_field(player: PlayerView) -> FieldView {
    FieldView { label: "Stats"@, body: stats_body(player), inline: true }
}

/// What is shown of a player at the instant `now`.
pub open spec fn presented(player: PlayerView, now: Instant) -> PresentationView {
    PresentationView {
        title: player.name,
        description: safe_mode_status(player, now),
        fields: seq![general_field(player), stats_field(player)],
    }
}

/// The block that stands for a player in a list of players.
pub open spec fn summary_field(player: PlayerView) -> FieldView {
    FieldView { label: player.name, body: general_body(player), inline: true }
}

/// Renders the line on a safe mode that ends.
pub fn render_countdown(hours: i64, minutes: i64, seconds: i64) -> (line: String)
    ensures
        line@ == countdown_text(hours as int, minutes as int, seconds as int),
{
    let mut line = String::from_str("This player's safe mode expires in ");
    push_signed_decimal(&mut line, hours);
    line.append(":");
    push_signed_decimal(&mut line, minutes);
    line.append(":");
    push_signed_decimal(&mut line, seconds);
    line.append(".");
    line
}

/// Renders the two lines on level and gold.
pub fn render_general(level: u64, gold: u64) -> (body: String)
    ensures
        body@ == "Level: "@ + decimal_nat(level as nat) + "\nGold: "@ + decimal_nat(gold as nat),
{
    let mut body = String::from_str("Level: ");
    push_decimal(&mut body, level);
    body.append("\nGold: ");
    push_decimal(&mut body, gold);
    body
}

/// Renders one line on a stat.
pub fn render_stat(name: &str, base: u64, bonus: u64) -> (line: String)
    ensures
        line@ == stat_line(name@, base as nat, bonus as nat),
{
    let mut line = String::from_str(name);
    line.append(": ");
    push_decimal(&mut line, base);
    line.append(" (+ ");
    push_decimal(&mut line, bonus);
    line.append(" bonus)\n");
    line
}

/// The span of exactly one day.
fn one_day() -> (day: Span)
    ensures
        day@ == nanos_of_days(1),
{
    Span::days(1).unwrap()
}

impl SmmoPlayer {
    /// The line on the player's safe mode at the instant `now`.
    pub fn safe_mode_line(&self, now: Timestamp) -> (line: String)
        ensures
            line@ == safe_mode_status(self@, now@),
    {
        if !self.safe_mode {
            return String::from_str("This player is not currently in safe mode.");
        }
        match self.safe_mode_time {
            None => String::from_str("This player is permanently in safe mode."),
            Some(expiry) => {
                let elapsed = expiry.since(&now);
                proof {
                    lemma_elapsed_bounded(expiry@, now@);
                }
                let remaining = elapsed.checked_add(&one_day()).unwrap();
                let hours = remaining.num_hours();
                let minutes = remaining.num_minutes() % 60;
                let seconds = remaining.num_seconds() % 60;
                render_countdown(hours, minutes, seconds)
            },
        }
    }

    /// What is shown of the player at the instant `now`: the name as title,
    /// the line on safe mode, then the block "General" and the block "Stats".
    pub fn present(&self, now: Timestamp) -> (shown: Presentation)
        ensures
            shown@ == presented(self@, now@),
            !self.safe_mode ==> shown.description@ == not_in_safe_mode(),
            self.safe_mode && self.safe_mode_time is None ==> shown.description@
                == permanently_in_safe_mode(),
    {
        let general = PresentationField {
            label: String::from_str("General"),
            body: render_general(self.level, self.gold),
            inline: true,
        };
        let mut stats_text = render_stat("str", self.str, self.bonus_str);
        let def_line = render_stat("def", self.def, self.bonus_def);
        let dex_line = render_stat("dex", self.dex, self.bonus_dex);
        stats_text.append(def_line.as_str());
        stats_text.append(dex_line.as_str());
        let stats = PresentationField {
            label: String::from_str("Stats"),
            body: stats_text,
            inline: true,
        };
        let mut fields: Vec<PresentationField> = Vec::new();
        fields.push(general);
        fields.push(stats);
        let shown = Presentation {
            title: self.name.clone(),
            description: self.safe_mode_line(now),
            fields,
        };
        assert(shown@.fields =~= seq![general_field(self@), stats_field(self@)]);
        shown
    }

    /// The block that stands for the player in a list of players: the name,
    /// the two lines on level and gold, and the mark that it may share its row.
    pub fn to_field(&self) -> (field: (String, String, bool))
        ensures
            field.0@ == summary_field(self@).label,
            field.1@ == summary_field(self@).body,
            field.2 == summary_field(self@).inline,
    {
        (self.name.clone(), render_general(self.level, self.gold), true)
    }
}

/// The instant a number of seconds after `at`, or before it where the
/// number is negative, at the same place within its second.
pub open spec fn shifted(at: Instant, seconds: int) -> Instant {
    instant_at(at.seconds + seconds, at.nanos)
}

/// What is shown depends on the contents of the record and on `now` alone:
/// two records with the same contents, shown at the same instant, decode
/// alike and give the same title, line and blocks, character by character.
pub proof fn lemma_decode_then_present_is_deterministic(
    first: RawValue,
    second: RawValue,
    first_now: Timestamp,
    second_now: Timestamp,
)
    requires
        first@ == second@,
        first_now@ == second_now@,
    ensures
        decoded(first@) == decoded(second@),
        decoded(first@) matches Ok(player) ==> presented(player, first_now@) == presented(
            decoded(second@)->Ok_0,
            second_now@,
        ),
{
}

/// A player who is not in safe mode is shown as such, whatever expiry the
/// record carried.
pub proof fn lemma_not_in_safe_mode(player: PlayerView, now: Instant)
    requires
        !player.safe_mode,
    ensures
        presented(player, now).description == "This player is not currently in safe mode."@,
{
}

/// A player in safe mode without an expiry is shown as permanently in safe mode.
pub proof fn lemma_permanent_safe_mode(player: PlayerView, now: Instant)
    requires
        player.safe_mode,
        player.safe_mode_time is None,
    ensures
        presented(player, now).description == "This player is permanently in safe mode."@,
{
}

/// An expiry two days after `now` leaves three days: 72 hours, no minutes,
/// no seconds.
pub proof fn lemma_expiry_two_days_ahead(player: PlayerView, now: Instant)
    requires
        player.safe_mode,
        player.safe_mode_time == Some(shifted(now, 2 * SECONDS_PER_DAY)),
    ensures
        remaining_nanos(shifted(now, 2 * SECONDS_PER_DAY), now) == nanos_of_days(3),
        presented(player, now).description == "This player's safe mode expires in 72:0:0."@,
{
    let remaining = remaining_nanos(shifted(now, 2 * SECONDS_PER_DAY), now);
    assert(shown_hours(remaining) == 72);
    assert(shown_minutes(remaining) == 0);
    assert(shown_seconds(remaining) == 0);
    reveal_with_fuel(decimal_nat, 3);
    reveal_strlit("This player's safe mode expires in ");
    reveal_strlit(":");
    reveal_strlit(".");
    reveal_strlit("This player's safe mode expires in 72:0:0.");
    assert(countdown_text(72, 0, 0) =~= "This player's safe mode expires in 72:0:0."@);
}

/// An expiry three hours before `now` leaves 21 hours, if `now` does not
/// lie in a leap second.
pub proof fn lemma_expiry_three_hours_back(player: PlayerView, now: Instant)
    requires
        player.safe_mode,
        player.safe_mode_time == Some(shifted(now, -3 * SECONDS_PER_HOUR)),
        now.nanos < NANOS_PER_SECOND,
    ensures
        remaining_nanos(shifted(now, -3 * SECONDS_PER_HOUR), now) == 21 * SECONDS_PER_HOUR
            * NANOS_PER_SECOND,
        presented(player, now).description == "This player's safe mode expires in 21:0:0."@,
{
    let remaining = remaining_nanos(shifted(now, -3 * SECONDS_PER_HOUR), now);
    assert(shown_hours(remaining) == 21);
    assert(shown_minutes(remaining) == 0);
    assert(shown_seconds(remaining) == 0);
    reveal_with_fuel(decimal_nat, 3);
    reveal_strlit("This player's safe mode expires in ");
    reveal_strlit(":");
    reveal_strlit(".");
    reveal_strlit("This player's safe mode expires in 21:0:0.");
    assert(countdown_text(21, 0, 0) =~= "This player's safe mode expires in 21:0:0."@);
}

/// An expiry two days before `now` leaves one day less than nothing: the
/// hours are shown as -24, and nothing is clamped.
pub proof fn lemma_expiry_two_days_back(player: PlayerView, now: Instant)
    requires
        player.safe_mode,
        player.safe_mode_time == Some(shifted(now, -2 * SECONDS_PER_DAY)),
    ensures
        remaining_nanos(shifted(now, -2 * SECONDS_PER_DAY), now) == nanos_of_days(-1),
        presented(player, now).description == "This player's safe mode expires in -24:0:0."@,
{
    let remaining = remaining_nanos(shifted(now, -2 * SECONDS_PER_DAY), now);
    assert(shown_hours(remaining) == -24);
    assert(shown_minutes(remaining) == 0);
    assert(shown_seconds(remaining) == 0);
    reveal_with_fuel(decimal_nat, 3);
    reveal_strlit("This player's safe mode expires in ");
    reveal_strlit(":");
    reveal_strlit(".");
    reveal_strlit("This player's safe mode expires in -24:0:0.");
    assert(countdown_text(-24, 0, 0) =~= "This player's safe mode expires in -24:0:0."@);
}

/// The block that stands for a player in a list carries the same text as
/// the block "General" of the player's own presentation, at any instant.
pub proof fn lemma_summary_body_is_general_body(player: PlayerView, now: Instant)
    ensures
        presented(player, now).fields.len() == 2,
        presented(player, now).fields[0].label == "General"@,
        summary_field(player).body == presented(player, now).fields[0].body,
{
}

} // verus!
