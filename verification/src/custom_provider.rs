//! User-editable custom build storage, at its verified core: the file
//! naming scheme and the rules for adding and removing rune pages in a
//! loaded list. Reading and writing the build files stays with the caller.

use vstd::prelude::*;

use crate::source_provider::{mode_key_label, GameMode, LolRuneItem, RuneItem};

verus! {

broadcast use vstd::string::group_string_axioms;

/// The file a champion's custom rune pages are kept in.
pub open spec fn spec_custom_file_name(champion: Seq<char>, mode: GameMode) -> Seq<char> {
    champion + "-"@ + mode_key_label(mode) + "-runes.json"@
}

/// The keyed-file store of user-edited rune pages.
#[derive(Debug, Clone, Copy, PartialEq, Eq, Structural)]
pub struct CustomProvider {}

impl CustomProvider {
    /// The file a champion's custom rune pages are kept in.
    pub fn get_file_name(champion_name: &str, mode: GameMode) -> (r: String)
        ensures
            r@ == spec_custom_file_name(champion_name@, mode),
    {
        let mut s = champion_name.to_owned();
        s.append("-");
        let mode_name = mode.to_key_name();
        s.append(mode_name.as_str());
        s.append("-runes.json");
        s
    }

    /// Adds a rune page to a champion's list unless one with the same name
    /// is already there; says whether the list changed.
    pub fn add_rune(runes: &mut Vec<LolRuneItem>, rune_item: LolRuneItem) -> (r: bool)
        ensures
            r == !(exists|j: int|
                0 <= j < old(runes)@.len() && (#[trigger] old(runes)@[j]).name@
                    == rune_item.name@),
            r ==> final(runes)@ == old(runes)@.push(rune_item),
            !r ==> final(runes)@ == old(runes)@,
    {
        let n = runes.len();
        let mut i: usize = 0;
        while i < n
            invariant
                0 <= i <= n,
                n == runes@.len(),
                forall|j: int| 0 <= j < i ==> (#[trigger] runes@[j]).name@ != rune_item.name@,
            decreases n - i,
        {
            if runes[i].name == rune_item.name {
                return false;
            }
            i = i + 1;
        }
        runes.push(rune_item);
        true
    }

    /// Removes the first rune page with the given name from a champion's
    /// list; says whether one was there.
    pub fn remove_rune(runes: &mut Vec<LolRuneItem>, rune_name: &str) -> (r: bool)
        ensures
            r == (exists|j: int|
                0 <= j < old(runes)@.len() && (#[trigger] old(runes)@[j]).name@ == rune_name@),
            !r ==> final(runes)@ == old(runes)@,
            r ==> exists|j: int|
                {
                    &&& 0 <= j < old(runes)@.len()
                    &&& (#[trigger] old(runes)@[j]).name@ == rune_name@
                    &&& (forall|k: int| 0 <= k < j ==> old(runes)@[k].name@ != rune_name@)
                    &&& final(runes)@ == old(runes)@.remove(j)
                },
    {
        let n = runes.len();
        let mut i: usize = 0;
        while i < n
            invariant
                0 <= i <= n,
                n == runes@.len(),
                runes@ == old(runes)@,
                forall|j: int| 0 <= j < i ==> (#[trigger] runes@[j]).name@ != rune_name@,
            decreases n - i,
        {
            let matches_name = {
                let probe = rune_name.to_owned();
                runes[i].name == probe
            };
            if matches_name {
                runes.remove(i);
                return true;
            }
            i = i + 1;
        }
        false
    }

    /// Reshapes a champion's stored rune pages into recommendation
    /// records, as the presentation layer consumes them; a malformed page
    /// (fewer than nine selected perks) fails the whole read.
    pub fn champion_runes_from(lol: &Vec<LolRuneItem>) -> (r: Result<Vec<RuneItem>, String>)
        ensures
            r is Ok <==> (forall|j: int|
                0 <= j < lol@.len() ==> (#[trigger] lol@[j]).selected_perk_ids@.len() >= 9),
            r matches Ok(rs) ==> ({
                &&& rs@.len() == lol@.len()
                &&& forall|j: int|
                    0 <= j < rs@.len() ==> {
                        &&& (#[trigger] rs@[j]).id == lol@[j].id
                        &&& rs@[j].primary_page_id == lol@[j].primary_style_id
                        &&& rs@[j].primary_rune_ids@ == lol@[j].selected_perk_ids@.subrange(0, 4)
                        &&& rs@[j].secondary_page_id == lol@[j].sub_style_id
                        &&& rs@[j].secondary_rune_ids@ == lol@[j].selected_perk_ids@.subrange(4, 6)
                        &&& rs@[j].stat_mod_ids@ == lol@[j].selected_perk_ids@.subrange(6, 9)
                        &&& rs@[j].play == 0
                        &&& rs@[j].win == 0
                        &&& rs@[j].pick_rate@ == "0.0"@
                        &&& rs@[j].name@ == lol@[j].name@
                    }
            }),
    {
        let n = lol.len();
        let mut out: Vec<RuneItem> = Vec::new();
        let mut i: usize = 0;
        while i < n
            invariant
                0 <= i <= n,
                n == lol@.len(),
                out@.len() == i,
                forall|j: int| 0 <= j < i ==> (#[trigger] lol@[j]).selected_perk_ids@.len() >= 9,
                forall|j: int|
                    0 <= j < i ==> {
                        &&& (#[trigger] out@[j]).id == lol@[j].id
                        &&& out@[j].primary_page_id == lol@[j].primary_style_id
                        &&& out@[j].primary_rune_ids@ == lol@[j].selected_perk_ids@.subrange(0, 4)
                        &&& out@[j].secondary_page_id == lol@[j].sub_style_id
                        &&& out@[j].secondary_rune_ids@ == lol@[j].selected_perk_ids@.subrange(
                            4,
                            6,
                        )
                        &&& out@[j].stat_mod_ids@ == lol@[j].selected_perk_ids@.subrange(6, 9)
                        &&& out@[j].play == 0
                        &&& out@[j].win == 0
                        &&& out@[j].pick_rate@ == "0.0"@
                        &&& out@[j].name@ == lol@[j].name@
                    },
            decreases n - i,
        {
            match RuneItem::from_lol(&lol[i]) {
                Some(item) => {
                    out.push(item);
                },
                None => {
                    return Err("Custom rune page has fewer than nine selected perks.".to_owned());
                },
            }
            i = i + 1;
        }
        Ok(out)
    }
}

} // verus!
