//! The decoded player.

use crate::time::{view_of, Instant, Timestamp};
use vstd::prelude::*;

verus! {

/// The guild that a player belongs to.
#[derive(Debug, Clone, PartialEq, Eq)]
pub struct SmmoPlayerGuild {
    pub id: u64,
    pub name: String,
}

/// What a `SmmoPlayerGuild` stands for.
pub struct GuildView {
    pub id: nat,
    pub name: Seq<char>,
}

impl View for SmmoPlayerGuild {
    type V = GuildView;

    open spec fn view(&self) -> GuildView {
        GuildView { id: self.id as nat, name: self.name@ }
    }
}

/// The view of a guild that may be missing.
pub open spec fn guild_view(guild: Option<SmmoPlayerGuild>) -> Option<GuildView> {
    match guild {
        Some(g) => Some(g@),
        None => None,
    }
}

/// A player's profile, as decoded from one wire record.
#[derive(Debug, Clone, PartialEq, Eq)]
pub struct SmmoPlayer {
    /// The player's number.
    pub id: u64,
    /// The player's name.
    pub name: String,
    pub level: u64,
    /// The player's motto; carried along, shown nowhere.
    pub motto: String,
    /// An opaque token that names the player's profile.
    pub profile_number: String,
    pub exp: u64,
    pub gold: u64,
    pub steps: u64,
    pub npc_kills: u64,
    pub user_kills: u64,
    pub quests_complete: u64,
    pub dex: u64,
    pub def: u64,
    pub str: u64,
    pub bonus_dex: u64,
    pub bonus_def: u64,
    pub bonus_str: u64,
    pub hp: u64,
    pub max_hp: u64,
    /// Whether the player is in safe mode.
    pub safe_mode: bool,
    /// The instant at which safe mode is set to end, where one is known. It may lie in the past.
    pub safe_mode_time: Option<Timestamp>,
    /// An opaque code, carried along as it came.
    pub background: u64,
    /// An opaque code, carried along as it came.
    pub membership: u64,
    /// The player's guild; `None` for a player without one.
    pub guild: Option<SmmoPlayerGuild>,
}

/// What a `SmmoPlayer` stands for.
pub struct PlayerView {
    pub id: nat,
    pub name: Seq<char>,
    pub level: nat,
    pub motto: Seq<char>,
    pub profile_number: Seq<char>,
    pub exp: nat,
    pub gold: nat,
    pub steps: nat,
    pub npc_kills: nat,
    pub user_kills: nat,
    pub quests_complete: nat,
    pub dex: nat,
    pub def: nat,
    pub str: nat,
    pub bonus_dex: nat,
    pub bonus_def: nat,
    pub bonus_str: nat,
    pub hp: nat,
    pub max_hp: nat,
    pub safe_mode: bool,
    pub safe_mode_time: Option<Instant>,
    pub background: nat,
    pub membership: nat,
    pub guild: Option<GuildView>,
}

impl View for SmmoPlayer {
    type V = PlayerView;

    open spec fn view(&self) -> PlayerView {
        PlayerView {
            id: self.id as nat,
            name: self.name@,
            level: self.level as nat,
            motto: self.motto@,
            profile_number: self.profile_number@,
            exp: self.exp as nat,
            gold: self.gold as nat,
            steps: self.steps as nat,
            npc_kills: self.npc_kills as nat,
            user_kills: self.user_kills as nat,
            quests_complete: self.quests_complete as nat,
            dex: self.dex as nat,
            def: self.def as nat,
            str: self.str as nat,
            bonus_dex: self.bonus_dex as nat,
            bonus_def: self.bonus_def as nat,
            bonus_str: self.bonus_str as nat,
            hp: self.hp as nat,
            max_hp: self.max_hp as nat,
            safe_mode: self.safe_mode,
            safe_mode_time: view_of(self.safe_mode_time),
            background: self.background as nat,
            membership: self.membership as nat,
            guild: guild_view(self.guild),
        }
    }
}

} // verus!
