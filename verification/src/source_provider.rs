//! The data-source vocabulary: lanes, game modes, fetch modes, and the typed
//! build records that a provider hands to the presentation layer.

pub mod cache_manager;
pub mod opgg;

use vstd::prelude::*;

use crate::text::{lower_of, to_lowercase, to_uppercase, upper_of};

verus! {

broadcast use vstd::string::group_string_axioms;

/// How a provider decides between the cache and the network.
#[derive(Debug, Clone, Copy, PartialEq, Eq, Structural)]
pub enum FetchMode {
    /// Always fetch live, never touching the cache.
    Online,
    /// Fetch live only when the cached entry is stale.
    Auto,
}

impl Default for FetchMode {
    fn default() -> (r: Self)
        ensures
            r == FetchMode::Auto,
    {
        FetchMode::Auto
    }
}

#[derive(Debug, Clone, Copy, PartialEq, Eq, Structural)]
pub enum Lane {
    Top,
    Mid,
    Bot,
    Support,
    Jungle,
}

#[derive(Debug, Clone, Copy, PartialEq, Eq, Structural)]
pub enum GameMode {
    Classic,
    Aram,
    Urf,
}

/// The lowercase lane name used in source URLs and in the build records.
pub open spec fn lane_lower_label(l: Lane) -> Seq<char> {
    match l {
        Lane::Top => "top"@,
        Lane::Mid => "mid"@,
        Lane::Bot => "bot"@,
        Lane::Support => "support"@,
        Lane::Jungle => "jungle"@,
    }
}

/// The capitalized lane name used in cache keys and display labels.
pub open spec fn lane_key_label(l: Lane) -> Seq<char> {
    match l {
        Lane::Top => "Top"@,
        Lane::Mid => "Mid"@,
        Lane::Bot => "Bot"@,
        Lane::Support => "Support"@,
        Lane::Jungle => "Jungle"@,
    }
}

/// The capitalized mode name used in cache keys.
pub open spec fn mode_key_label(m: GameMode) -> Seq<char> {
    match m {
        GameMode::Classic => "Classic"@,
        GameMode::Aram => "Aram"@,
        GameMode::Urf => "Urf"@,
    }
}

/// The all-caps mode name that the client protocol itself uses.
pub open spec fn mode_upper_label(m: GameMode) -> Seq<char> {
    match m {
        GameMode::Classic => "CLASSIC"@,
        GameMode::Aram => "ARAM"@,
        GameMode::Urf => "URF"@,
    }
}

impl Lane {
    /// The lowercase name, as the source URL scheme spells it.
    pub fn to_name(&self) -> (r: String)
        ensures
            r@ == lane_lower_label(*self),
    {
        match self {
            Lane::Top => "top".to_owned(),
            Lane::Mid => "mid".to_owned(),
            Lane::Bot => "bot".to_owned(),
            Lane::Support => "support".to_owned(),
            Lane::Jungle => "jungle".to_owned(),
        }
    }

    /// The capitalized name used when forming cache keys.
    pub fn to_key_name(&self) -> (r: String)
        ensures
            r@ == lane_key_label(*self),
    {
        match self {
            Lane::Top => "Top".to_owned(),
            Lane::Mid => "Mid".to_owned(),
            Lane::Bot => "Bot".to_owned(),
            Lane::Support => "Support".to_owned(),
            Lane::Jungle => "Jungle".to_owned(),
        }
    }

    /// Reads a lane from its (case-insensitive) name, accepting the common
    /// abbreviations; any other text is rejected.
    pub fn from_str(lane: &str) -> (r: Result<Self, String>)
        ensures
            r == Ok::<Lane, String>(Lane::Top) <==> lower_of(lane@) == "top"@,
            r == Ok::<Lane, String>(Lane::Mid) <==> lower_of(lane@) == "mid"@,
            r == Ok::<Lane, String>(Lane::Bot) <==> lower_of(lane@) == "bot"@ || lower_of(
                lane@,
            ) == "adc"@,
            r == Ok::<Lane, String>(Lane::Support) <==> lower_of(lane@) == "support"@ || lower_of(
                lane@,
            ) == "sp"@,
            r == Ok::<Lane, String>(Lane::Jungle) <==> lower_of(lane@) == "jungle"@ || lower_of(
                lane@,
            ) == "jg"@,
            r matches Err(m) ==> m@ == "It not a true lane!"@,
    {
        proof {
            reveal_strlit("top");
            reveal_strlit("mid");
            reveal_strlit("bot");
            reveal_strlit("adc");
            reveal_strlit("support");
            reveal_strlit("sp");
            reveal_strlit("jungle");
            reveal_strlit("jg");
            assert("top"@[0] == 't');
            assert("mid"@[0] == 'm');
            assert("bot"@[0] == 'b');
            assert("adc"@[0] == 'a');
            assert("support"@[0] == 's');
            assert("sp"@[0] == 's');
            assert("jungle"@[0] == 'j');
            assert("jg"@[0] == 'j');
        }
        let low = to_lowercase(lane);
        if low == String::from_str("top") {
            Ok(Lane::Top)
        } else if low == String::from_str("mid") {
            Ok(Lane::Mid)
        } else if low == String::from_str("bot") || low == String::from_str("adc") {
            Ok(Lane::Bot)
        } else if low == String::from_str("support") || low == String::from_str("sp") {
            Ok(Lane::Support)
        } else if low == String::from_str("jungle") || low == String::from_str("jg") {
            Ok(Lane::Jungle)
        } else {
            Err("It not a true lane!".to_owned())
        }
    }
}

impl GameMode {
    /// The all-caps name, as the client protocol spells it.
    pub fn to_name(&self) -> (r: String)
        ensures
            r@ == mode_upper_label(*self),
    {
        match self {
            GameMode::Classic => "CLASSIC".to_owned(),
            GameMode::Aram => "ARAM".to_owned(),
            GameMode::Urf => "URF".to_owned(),
        }
    }

    /// The capitalized name used when forming cache keys.
    pub fn to_key_name(&self) -> (r: String)
        ensures
            r@ == mode_key_label(*self),
    {
        match self {
            GameMode::Classic => "Classic".to_owned(),
            GameMode::Aram => "Aram".to_owned(),
            GameMode::Urf => "Urf".to_owned(),
        }
    }

    /// Reads a mode from its (case-insensitive) name; anything that is
    /// neither ARAM nor URF counts as the classic mode.
    pub fn from_str(mode: &str) -> (r: Self)
        ensures
            r == (if upper_of(mode@) == "ARAM"@ {
                GameMode::Aram
            } else if upper_of(mode@) == "URF"@ {
                GameMode::Urf
            } else {
                GameMode::Classic
            }),
    {
        proof {
            reveal_strlit("ARAM");
            reveal_strlit("URF");
        }
        let up = to_uppercase(mode);
        if up == String::from_str("ARAM") {
            GameMode::Aram
        } else if up == String::from_str("URF") {
            GameMode::Urf
        } else {
            GameMode::Classic
        }
    }
}

/// One rune page recommendation. Statistical counts are carried as plain
/// integers; the pick rate, a fraction in the source's data, is carried as
/// its JSON text (a float cannot stand in a verified record); the display
/// name is synthesized at read time and is not part of the persisted
/// payload.
#[derive(Debug, Clone, PartialEq)]
pub struct RuneItem {
    pub id: i64,
    pub primary_page_id: i32,
    pub primary_rune_ids: Vec<i32>,
    pub secondary_page_id: i32,
    pub secondary_rune_ids: Vec<i32>,
    pub stat_mod_ids: Vec<i32>,
    pub play: i32,
    pub win: i32,
    pub pick_rate: String,
    pub name: String,
}

/// One summoner-spell pair recommendation; the pick rate is carried as its
/// JSON text, as in `RuneItem`.
#[derive(Debug, Clone, PartialEq)]
pub struct SpellItem {
    pub ids: Vec<i32>,
    pub win: i32,
    pub play: i32,
    pub pick_rate: String,
}

/// A rune page in the client's own layout, as stored by the custom-build
/// collaborator.
#[derive(Debug, Clone, PartialEq)]
pub struct LolRuneItem {
    pub auto_modified_selections: Vec<i32>,
    pub current: bool,
    pub id: i64,
    pub is_active: bool,
    pub is_deletable: bool,
    pub is_editable: bool,
    pub is_valid: bool,
    pub last_modified: i64,
    pub name: String,
    pub order: i32,
    pub primary_style_id: i32,
    pub selected_perk_ids: Vec<i32>,
    pub sub_style_id: i32,
}

/// The per-request response handed to the presentation layer.
#[derive(Debug, Clone, PartialEq)]
pub struct Build {
    pub runes: Vec<RuneItem>,
    pub spells: Vec<SpellItem>,
    pub is_cache: bool,
    pub is_custom: bool,
    pub lane: String,
}

impl RuneItem {
    /// Reshapes a client rune page into a recommendation record: the nine
    /// selected perks split into primary four, secondary two and the three
    /// stat modifiers. A page with fewer than nine perks is rejected.
    pub fn from_lol(l: &LolRuneItem) -> (r: Option<RuneItem>)
        ensures
            r is Some <==> l.selected_perk_ids@.len() >= 9,
            r matches Some(item) ==> {
                &&& item.id == l.id
                &&& item.primary_page_id == l.primary_style_id
                &&& item.primary_rune_ids@ =~= l.selected_perk_ids@.subrange(0, 4)
                &&& item.secondary_page_id == l.sub_style_id
                &&& item.secondary_rune_ids@ =~= l.selected_perk_ids@.subrange(4, 6)
                &&& item.stat_mod_ids@ =~= l.selected_perk_ids@.subrange(6, 9)
                &&& item.play == 0
                &&& item.win == 0
                &&& item.pick_rate@ == "0.0"@
                &&& item.name@ == l.name@
            },
    {
        if l.selected_perk_ids.len() < 9 {
            return None;
        }
        let mut primary: Vec<i32> = Vec::new();
        let mut secondary: Vec<i32> = Vec::new();
        let mut stat_mods: Vec<i32> = Vec::new();
        let mut i: usize = 0;
        while i < 4
            invariant
                0 <= i <= 4,
                l.selected_perk_ids@.len() >= 9,
                primary@ =~= l.selected_perk_ids@.subrange(0, i as int),
            decreases 4 - i,
        {
            primary.push(l.selected_perk_ids[i]);
            i = i + 1;
        }
        let mut i: usize = 4;
        while i < 6
            invariant
                4 <= i <= 6,
                l.selected_perk_ids@.len() >= 9,
                secondary@ =~= l.selected_perk_ids@.subrange(4, i as int),
            decreases 6 - i,
        {
            secondary.push(l.selected_perk_ids[i]);
            i = i + 1;
        }
        let mut i: usize = 6;
        while i < 9
            invariant
                6 <= i <= 9,
                l.selected_perk_ids@.len() >= 9,
                stat_mods@ =~= l.selected_perk_ids@.subrange(6, i as int),
            decreases 9 - i,
        {
            stat_mods.push(l.selected_perk_ids[i]);
            i = i + 1;
        }
        Some(
            RuneItem {
                id: l.id,
                primary_page_id: l.primary_style_id,
                primary_rune_ids: primary,
                secondary_page_id: l.sub_style_id,
                secondary_rune_ids: secondary,
                stat_mod_ids: stat_mods,
                play: 0,
                win: 0,
                pick_rate: "0.0".to_owned(),
                name: l.name.clone(),
            },
        )
    }
}

} // verus!
