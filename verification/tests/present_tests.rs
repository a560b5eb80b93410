use smmo_api::decode::decode;
use smmo_api::present::{render_countdown, render_general, render_stat, Presentation, PresentationField};
use smmo_api::raw::{RawEntry, RawValue};
use smmo_api::smmo_player::{SmmoPlayer, SmmoPlayerGuild};
use smmo_api::time::Timestamp;

const NOW: i64 = 1_620_390_896;

fn at(seconds: i64, nanos: u32) -> Timestamp {
    Timestamp::new(seconds, nanos).unwrap()
}

fn player(safe_mode: bool, safe_mode_time: Option<Timestamp>) -> SmmoPlayer {
    SmmoPlayer {
        id: 1234,
        name: "Ferrous".to_string(),
        level: 42,
        motto: "onwards".to_string(),
        profile_number: "0042".to_string(),
        exp: 1001,
        gold: 5_000_000_000,
        steps: 1003,
        npc_kills: 1004,
        user_kills: 1005,
        quests_complete: 1006,
        dex: 11,
        def: 12,
        str: 13,
        bonus_dex: 1,
        bonus_def: 2,
        bonus_str: 3,
        hp: 90,
        max_hp: 80,
        safe_mode,
        safe_mode_time,
        background: 7,
        membership: 0,
        guild: Some(SmmoPlayerGuild { id: 77, name: "Night Watch".to_string() }),
    }
}

fn line(expiry: Timestamp, now: Timestamp) -> String {
    player(true, Some(expiry)).present(now).description
}

#[test]
fn title_is_the_name() {
    assert_eq!(player(false, None).present(at(NOW, 0)).title, "Ferrous");
    let mut odd = player(false, None);
    odd.name = " A\nb *c* ".to_string();
    assert_eq!(odd.present(at(NOW, 0)).title, " A\nb *c* ");
}

#[test]
fn not_in_safe_mode_whatever_the_expiry() {
    let expected = "This player is not currently in safe mode.";
    assert_eq!(player(false, None).present(at(NOW, 0)).description, expected);
    assert_eq!(
        player(false, Some(at(NOW + 1_000_000, 0))).present(at(NOW, 0)).description,
        expected
    );
    assert_eq!(
        player(false, Some(at(NOW - 1_000_000, 0))).present(at(NOW, 0)).description,
        expected
    );
    assert_eq!(player(false, Some(at(NOW, 0))).safe_mode_line(at(NOW, 0)), expected);
}

#[test]
fn permanently_in_safe_mode_without_an_expiry() {
    assert_eq!(
        player(true, None).present(at(NOW, 0)).description,
        "This player is permanently in safe mode."
    );
    assert_eq!(player(true, None).safe_mode_line(at(0, 0)), "This player is permanently in safe mode.");
}

#[test]
fn expiry_two_days_ahead_shows_72_hours() {
    for now in [NOW, 0, -1, 86_399, 253_402_300_799 - 172_800] {
        assert_eq!(
            line(at(now + 2 * 86_400, 0), at(now, 0)),
            "This player's safe mode expires in 72:0:0."
        );
        assert_eq!(
            line(at(now + 2 * 86_400, 999_999_999), at(now, 999_999_999)),
            "This player's safe mode expires in 72:0:0."
        );
    }
}

#[test]
fn expiry_three_hours_back_shows_21_hours() {
    for now in [NOW, 0, 3_600, -1] {
        assert_eq!(
            line(at(now - 3 * 3_600, 0), at(now, 0)),
            "This player's safe mode expires in 21:0:0."
        );
    }
}

#[test]
fn expiry_two_days_back_shows_minus_24_hours() {
    for now in [NOW, 0, 172_800] {
        assert_eq!(
            line(at(now - 2 * 86_400, 0), at(now, 0)),
            "This player's safe mode expires in -24:0:0."
        );
    }
}

#[test]
fn expiry_now_shows_one_day() {
    assert_eq!(line(at(NOW, 7), at(NOW, 7)), "This player's safe mode expires in 24:0:0.");
}

#[test]
fn hours_are_not_clamped() {
    assert_eq!(
        line(at(NOW + 1_000 * 86_400 + 3_723, 0), at(NOW, 0)),
        "This player's safe mode expires in 24025:2:3."
    );
}

#[test]
fn minutes_and_seconds_carry_the_sign() {
    // One day, one hour, two minutes and three seconds back: the day is
    // given back, the rest stays negative.
    assert_eq!(
        line(at(NOW - 86_400 - 3_723, 0), at(NOW, 0)),
        "This player's safe mode expires in -1:-2:-3."
    );
    assert_eq!(
        line(at(NOW - 86_400 - 59, 0), at(NOW, 0)),
        "This player's safe mode expires in 0:0:-59."
    );
    assert_eq!(
        line(at(NOW - 86_400 - 61, 0), at(NOW, 0)),
        "This player's safe mode expires in 0:-1:-1."
    );
}

#[test]
fn parts_of_a_second_are_dropped_toward_zero() {
    // Half a second back leaves a day less half a second.
    assert_eq!(
        line(at(NOW - 1, 500_000_000), at(NOW, 0)),
        "This player's safe mode expires in 23:59:59."
    );
    // A day and half a second back leaves half a second less than nothing.
    assert_eq!(
        line(at(NOW - 86_401, 500_000_000), at(NOW, 0)),
        "This player's safe mode expires in 0:0:0."
    );
    assert_eq!(
        line(at(NOW - 86_402, 500_000_000), at(NOW, 0)),
        "This player's safe mode expires in 0:0:-1."
    );
    assert_eq!(
        line(at(NOW, 500_000_000), at(NOW, 0)),
        "This player's safe mode expires in 24:0:0."
    );
}

#[test]
fn expiry_at_the_ends_of_the_range() {
    let first = at(smmo_api::time::EARLIEST_SECOND, 0);
    let last = at(smmo_api::time::LATEST_SECOND, 999_999_999);
    assert_eq!(line(last, first), "This player's safe mode expires in 4595796719:59:59.");
    assert_eq!(line(first, last), "This player's safe mode expires in -4595796671:-59:-59.");
}

#[test]
fn fields_are_general_then_stats() {
    let shown = player(true, None).present(at(NOW, 0));
    assert_eq!(
        shown.fields,
        vec![
            PresentationField {
                label: "General".to_string(),
                body: "Level: 42\nGold: 5000000000".to_string(),
                inline: true,
            },
            PresentationField {
                label: "Stats".to_string(),
                body: "str: 13 (+ 3 bonus)\ndef: 12 (+ 2 bonus)\ndex: 11 (+ 1 bonus)\n".to_string(),
                inline: true,
            },
        ]
    );
}

#[test]
fn presentation_of_a_whole_player() {
    let shown = player(true, Some(at(NOW + 3_600, 0))).present(at(NOW, 0));
    assert_eq!(
        shown,
        Presentation {
            title: "Ferrous".to_string(),
            description: "This player's safe mode expires in 25:0:0.".to_string(),
            fields: vec![
                PresentationField {
                    label: "General".to_string(),
                    body: "Level: 42\nGold: 5000000000".to_string(),
                    inline: true,
                },
                PresentationField {
                    label: "Stats".to_string(),
                    body: "str: 13 (+ 3 bonus)\ndef: 12 (+ 2 bonus)\ndex: 11 (+ 1 bonus)\n"
                        .to_string(),
                    inline: true,
                },
            ],
        }
    );
}

#[test]
fn presenting_twice_gives_the_same() {
    let p = player(true, Some(at(NOW + 5, 1)));
    assert_eq!(p.present(at(NOW, 0)), p.present(at(NOW, 0)));
    assert_ne!(p.present(at(NOW, 0)), p.present(at(NOW + 1, 0)));
}

#[test]
fn summary_field_is_name_and_general_body() {
    let p = player(true, None);
    assert_eq!(
        p.to_field(),
        ("Ferrous".to_string(), "Level: 42\nGold: 5000000000".to_string(), true)
    );
}

#[test]
fn summary_body_is_the_general_body() {
    for (level, gold) in [(0u64, 0u64), (1, 10), (999, u64::MAX), (u64::MAX, 7)] {
        let mut p = player(false, None);
        p.level = level;
        p.gold = gold;
        let shown = p.present(at(NOW, 0));
        assert_eq!(shown.fields[0].label, "General");
        assert_eq!(p.to_field().1, shown.fields[0].body);
    }
}

#[test]
fn rendered_pieces() {
    assert_eq!(render_general(3, 4), "Level: 3\nGold: 4");
    assert_eq!(render_stat("str", 5, 0), "str: 5 (+ 0 bonus)\n");
    assert_eq!(render_countdown(-24, 0, 0), "This player's safe mode expires in -24:0:0.");
    assert_eq!(render_countdown(1, -2, 3), "This player's safe mode expires in 1:-2:3.");
}

#[test]
fn decode_then_present() {
    let entry = |key: &str, value: RawValue| RawEntry { key: key.to_string(), value };
    let number = |key: &str, n: i128| RawEntry { key: key.to_string(), value: RawValue::Integer(n) };
    let text = |s: &str| RawValue::Text(s.to_string());
    let record = || {
        RawValue::Record(vec![
            number("id", 9),
            entry("name", text("Mara")),
            number("level", 120),
            entry("motto", text("")),
            entry("profile_number", text("9-abc")),
            number("exp", 1),
            number("gold", 250),
            number("steps", 3),
            number("npc_kills", 4),
            number("user_kills", 5),
            number("quests_complete", 6),
            number("dex", 30),
            number("def", 20),
            number("str", 10),
            number("bonus_dex", 3),
            number("bonus_def", 2),
            number("bonus_str", 1),
            number("hp", 50),
            number("max_hp", 60),
            number("safeMode", 1),
            entry("safeModeTime", text("2021-05-09 12:34:56")),
            number("background", 1),
            number("membership", 1),
            entry("guild", RawValue::Null),
        ])
    };
    let shown = decode(&record()).unwrap().present(at(NOW, 0));
    assert_eq!(shown.title, "Mara");
    assert_eq!(shown.description, "This player's safe mode expires in 72:0:0.");
    assert_eq!(shown.fields[0].body, "Level: 120\nGold: 250");
    assert_eq!(
        shown.fields[1].body,
        "str: 10 (+ 1 bonus)\ndef: 20 (+ 2 bonus)\ndex: 30 (+ 3 bonus)\n"
    );
    assert_eq!(shown, decode(&record()).unwrap().present(at(NOW, 0)));
}
