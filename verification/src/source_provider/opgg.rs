//! The concrete build-data source: scrapes a public web page's embedded
//! JSON state blob, normalizes it into the cache schema, and consults the
//! cache manager to decide between cached and live data.
//!
//! The network round trip itself is the caller's: `plan_champion_info` says
//! whether a live fetch is due, the caller performs it, and hands the
//! outcome to `complete_champion_info`, which updates the cache only on
//! success.

use vstd::prelude::*;

use crate::jsonval::{
    member_i64_of, member_i64s_of, member_text_of, read_member_i64, read_member_i64s,
    read_member_text,
};
use crate::source_provider::{lane_key_label, lane_lower_label, GameMode, Lane, RuneItem, SpellItem, FetchMode};
use crate::source_provider::cache_manager::{
    find_value, put_value, spec_file_name, spec_key, spec_manifest_json, stale_in, CacheManager,
};
use crate::text::{push_char, u64_to_dec, i64_to_dec, dec_str, dec_str_i64};

verus! {

broadcast use vstd::string::group_string_axioms;

/// The text of the first element matched by a CSS selector in an HTML
/// document. Parsing and selecting are functions of the two texts alone, so
/// the outcome may be given a name.
pub uninterp spec fn selected_text_of(html: Seq<char>, selector: Seq<char>) -> Option<Seq<char>>;

/// Relies on `scraper::Html::parse_document`, `scraper::Selector::parse`,
/// `scraper::Html::select` and `scraper::ElementRef::inner_html`: the inner
/// text of the first element matching the selector, or `None` when the
/// selector is invalid or nothing matches.
#[verifier::external_body]
fn scrape_element_text(html: &str, selector: &str) -> (r: Option<String>)
    ensures
        r matches Some(s) ==> selected_text_of(html@, selector@) == Some(s@),
        r is None ==> selected_text_of(html@, selector@) is None,
{
    let document = scraper::Html::parse_document(html);
    let sel = scraper::Selector::parse(selector).ok()?;
    let element = document.select(&sel).next()?;
    Some(element.inner_html())
}

/// The serialized array of values a JSON path selects out of a JSON
/// document, or `None` when the document does not parse. A function of the
/// two texts alone, so the outcome may be given a name.
pub uninterp spec fn blob_of(data: Seq<char>, path: Seq<char>) -> Option<Seq<char>>;

/// Relies on `jsonpath_rust::JsonPathFinder::from_str`,
/// `jsonpath_rust::JsonPathFinder::find` and `serde_json::to_string`: the
/// matches of the path over the document, serialized back to JSON text.
#[verifier::external_body]
fn extract_blob(data: &str, path: &str) -> (r: Option<String>)
    ensures
        r matches Some(s) ==> blob_of(data@, path@) == Some(s@),
        r is None ==> blob_of(data@, path@) is None,
{
    let finder = jsonpath_rust::JsonPathFinder::from_str(data, path).ok()?;
    serde_json::to_string(&finder.find()).ok()
}

/// The values a JSON path matches in a document, each re-serialized as
/// JSON text; `None` when the document does not parse or the matches do
/// not form an array. A function of the two texts alone, so the outcome
/// may be given a name.
pub uninterp spec fn items_of(data: Seq<char>, path: Seq<char>) -> Option<Seq<Seq<char>>>;

/// Relies on `jsonpath_rust::JsonPathFinder::from_str`,
/// `jsonpath_rust::JsonPathFinder::find` and `serde_json::to_string`: the
/// values the path matches, each written back out as JSON text, in order.
#[verifier::external_body]
fn extract_item_texts(data: &str, path: &str) -> (r: Option<Vec<String>>)
    ensures
        r.deep_view() == items_of(data@, path@),
{
    let finder = jsonpath_rust::JsonPathFinder::from_str(data, path).ok()?;
    let items = match finder.find() {
        serde_json::Value::Array(items) => items,
        _ => return None,
    };
    let mut out: Vec<String> = Vec::with_capacity(items.len());
    for item in &items {
        match serde_json::to_string(item) {
            Ok(text) => out.push(text),
            Err(_) => return None,
        }
    }
    Some(out)
}

/// Whether a character counts as white space for the source's URL scheme.
/// The outcome of `char::is_whitespace` depends on the character alone, so
/// it may be given a name.
pub uninterp spec fn is_whitespace_char(c: char) -> bool;

/// Relies on `char::is_whitespace`: the Unicode white-space property, which
/// holds of the plain space character and of no ASCII letter or digit.
#[verifier::external_body]
fn char_is_whitespace(c: char) -> (r: bool)
    ensures
        r == is_whitespace_char(c),
        c == ' ' ==> r,
        ('0' <= c <= '9' || 'a' <= c <= 'z' || 'A' <= c <= 'Z') ==> !r,
{
    c.is_whitespace()
}

/// Characters the source's URL scheme cannot carry: apostrophes and white
/// space.
pub open spec fn spec_illegal_for_opgg(c: char) -> bool {
    c == '\'' || is_whitespace_char(c)
}

/// True for characters that must be stripped from a champion identifier
/// before it goes into a source URL.
pub fn is_illegal_for_opgg(c: &char) -> (r: bool)
    ensures
        r == spec_illegal_for_opgg(*c),
{
    *c == '\'' || char_is_whitespace(*c)
}

/// A champion identifier with every illegal character stripped, case kept.
pub open spec fn spec_sanitized(name: Seq<char>) -> Seq<char> {
    name.filter(|c: char| !spec_illegal_for_opgg(c))
}

/// Strips apostrophes and white space from a champion identifier; the case
/// must stay as given, matching the source's URL scheme.
pub fn sanitize_champion_name(name: &str) -> (r: String)
    ensures
        r@ == spec_sanitized(name@),
{
    let n = name.unicode_len();
    let mut out = String::new();
    let mut i: usize = 0;
    proof {
        assert(name@.subrange(0, 0) =~= Seq::<char>::empty());
        reveal(Seq::filter);
    }
    while i < n
        invariant
            0 <= i <= n,
            n == name@.len(),
            out@ == spec_sanitized(name@.subrange(0, i as int)),
        decreases n - i,
    {
        let c = name.get_char(i);
        if !is_illegal_for_opgg(&c) {
            push_char(&mut out, c);
        }
        proof {
            reveal(Seq::filter);
            let sub1 = name@.subrange(0, i + 1);
            assert(sub1.drop_last() =~= name@.subrange(0, i as int));
            assert(sub1.last() == name@[i as int]);
        }
        i = i + 1;
    }
    proof {
        assert(name@.subrange(0, n as int) =~= name@);
    }
    out
}

/// The path segment the source uses for each game mode.
pub open spec fn spec_mode_as_opgg(mode: GameMode) -> Seq<char> {
    match mode {
        GameMode::Classic => "champions"@,
        GameMode::Aram => "modes/aram"@,
        GameMode::Urf => "modes/urf"@,
    }
}

/// The path segment the source uses for each game mode.
pub fn mode_as_opgg(mode: GameMode) -> (r: &'static str)
    ensures
        r@ == spec_mode_as_opgg(mode),
{
    match mode {
        GameMode::Classic => "champions",
        GameMode::Aram => "modes/aram",
        GameMode::Urf => "modes/urf",
    }
}

/// The source page URL for one query: rotation modes leave the lane out of
/// the path, the classic mode includes it.
pub open spec fn spec_champion_url(champion: Seq<char>, lane: Lane, mode: GameMode) -> Seq<char> {
    match mode {
        GameMode::Aram | GameMode::Urf => "https://www.op.gg/"@ + spec_mode_as_opgg(mode) + "/"@
            + spec_sanitized(champion) + "/build"@,
        GameMode::Classic => "https://www.op.gg/"@ + spec_mode_as_opgg(mode) + "/"@
            + spec_sanitized(champion) + "/"@ + lane_lower_label(lane) + "/build"@,
    }
}

/// Builds the source page URL for one query, sanitizing the champion
/// identifier on the way.
pub fn champion_url(champion_name: &str, lane: Lane, mode: GameMode) -> (r: String)
    ensures
        r@ == spec_champion_url(champion_name@, lane, mode),
{
    let clean = sanitize_champion_name(champion_name);
    let mut url = String::from_str("https://www.op.gg/");
    url.append(mode_as_opgg(mode));
    url.append("/");
    url.append(clean.as_str());
    match mode {
        GameMode::Aram | GameMode::Urf => {
            url.append("/build");
        },
        GameMode::Classic => {
            url.append("/");
            let lane_name = lane.to_name();
            url.append(lane_name.as_str());
            url.append("/build");
        },
    }
    url
}

/// Pulls the embedded JSON state blob out of a fetched source page: the
/// inner text of the one script element that carries it.
pub fn extract_champion_data(html: &str) -> (r: Result<String, String>)
    ensures
        selected_text_of(html@, "script#__NEXT_DATA__"@) matches Some(d) ==> (r matches Ok(s)
            && s@ == d),
        selected_text_of(html@, "script#__NEXT_DATA__"@) is None ==> (r matches Err(m) && m@
            == "No found 'script#__NEXT_DATA__' element!"@),
{
    match scrape_element_text(html, "script#__NEXT_DATA__") {
        Some(s) => Ok(s),
        None => Err("No found 'script#__NEXT_DATA__' element!".to_owned()),
    }
}

/// The normalized cache schema: only the rune and spell sections survive,
/// under the source page's own nesting.
pub open spec fn spec_cache_payload(runes: Seq<char>, spells: Seq<char>) -> Seq<char> {
    "{\"props\":{\"pageProps\":{\"data\":{\"runes\":"@ + runes + ",\"summoner_spells\":"@ + spells
        + "}}}}"@
}

/// The win percentage displayed in a synthesized rune name: whole percent
/// points, with a play count of zero (or senseless negative counts) read as
/// zero percent rather than failing.
pub open spec fn spec_win_pct(win: int, play: int) -> int {
    if play > 0 && win >= 0 {
        win * 100 / play
    } else {
        0
    }
}

/// The display name synthesized for one rune recommendation.
pub open spec fn spec_rune_name(champion: Seq<char>, lane: Lane, win: int, play: int) -> Seq<char> {
    "[Lola] "@ + champion + "-"@ + lane_key_label(lane) + " ("@ + dec_str(
        spec_win_pct(win, play) as nat,
    ) + "%/"@ + dec_str_i64(play) + " games)"@
}

/// One fetch result: the held state blob, its provenance, and the query it
/// answers.
#[derive(Debug, Clone)]
pub struct OPGGChampionInfo {
    next_data: String,
    is_cache: bool,
    lane: Lane,
    champion_name: String,
}

impl OPGGChampionInfo {
    /// The held state blob.
    pub closed spec fn data(&self) -> Seq<char> {
        self.next_data@
    }

    /// Whether the blob came from the cache rather than a live fetch.
    pub closed spec fn spec_is_cache(&self) -> bool {
        self.is_cache
    }

    pub closed spec fn spec_lane(&self) -> Lane {
        self.lane
    }

    pub closed spec fn spec_champion_name(&self) -> Seq<char> {
        self.champion_name@
    }

    pub fn is_cache(&self) -> (r: bool)
        ensures
            r == self.spec_is_cache(),
    {
        self.is_cache
    }

    pub fn get_lane(&self) -> (r: Lane)
        ensures
            r == self.spec_lane(),
    {
        self.lane
    }

    /// The rune recommendations held in the blob: every record the runes
    /// section carries, each field equal to its named member value and each
    /// display name synthesized from champion, lane and the win/play ratio.
    pub fn get_runes(&self) -> (r: Result<Vec<RuneItem>, String>)
        ensures
            items_of(self.data(), "$.props.pageProps.data.runes[0:]"@) is None ==> (r matches Err(
                m,
            ) && m@ == "Create runes finder failed!"@),
            items_of(self.data(), "$.props.pageProps.data.runes[0:]"@) matches Some(items) ==> ({
                &&& r matches Ok(v) ==> ({
                    &&& v@.len() == items.len()
                    &&& forall|i: int|
                        0 <= i < items.len() ==> spec_rune_record_ok(#[trigger] items[i])
                    &&& forall|i: int|
                        0 <= i < items.len() ==> spec_rune_record_matches(
                            #[trigger] items[i],
                            self.spec_champion_name(),
                            self.spec_lane(),
                            v@[i],
                        )
                })
                &&& r matches Err(m) ==> ({
                    &&& m@ == "Convert runes data error!"@
                    &&& exists|i: int|
                        0 <= i < items.len() && !spec_rune_record_ok(#[trigger] items[i])
                })
            }),
    {
        let ghost path = "$.props.pageProps.data.runes[0:]"@;
        let item_texts = match extract_item_texts(
            self.next_data.as_str(),
            "$.props.pageProps.data.runes[0:]",
        ) {
            Some(v) => v,
            None => {
                return Err("Create runes finder failed!".to_owned());
            },
        };
        let ghost items = items_of(self.data(), path)->0;
        proof {
            assert(items =~= item_texts.deep_view());
            assert(forall|j: int|
                0 <= j < item_texts@.len() ==> items[j] == (#[trigger] item_texts@[j])@);
        }
        match self.convert_rune_items(&item_texts) {
            Some(v) => {
                proof {
                    assert(forall|i: int|
                        0 <= i < items.len() ==> spec_rune_record_ok(#[trigger] items[i]));
                    assert(forall|i: int|
                        0 <= i < items.len() ==> spec_rune_record_matches(
                            #[trigger] items[i],
                            self.spec_champion_name(),
                            self.spec_lane(),
                            v@[i],
                        ));
                }
                Ok(v)
            },
            None => {
                proof {
                    assert(exists|k: int|
                        0 <= k < item_texts@.len() && !spec_rune_record_ok(
                            (#[trigger] item_texts@[k])@,
                        ));
                    let k = choose|k: int|
                        0 <= k < item_texts@.len() && !spec_rune_record_ok(
                            (#[trigger] item_texts@[k])@,
                        );
                    assert(0 <= k < items.len() && !spec_rune_record_ok(#[trigger] items[k]));
                }
                Err("Convert runes data error!".to_owned())
            },
        }
    }

    /// The typed records for a list of serialized rune items: all of them,
    /// or nothing when one is malformed.
    fn convert_rune_items(&self, item_texts: &Vec<String>) -> (r: Option<Vec<RuneItem>>)
        ensures
            r is Some <==> (forall|j: int|
                0 <= j < item_texts@.len() ==> spec_rune_record_ok((#[trigger] item_texts@[j])@)),
            r matches Some(v) ==> ({
                &&& v@.len() == item_texts@.len()
                &&& forall|j: int|
                    0 <= j < item_texts@.len() ==> spec_rune_record_matches(
                        (#[trigger] item_texts@[j])@,
                        self.spec_champion_name(),
                        self.spec_lane(),
                        v@[j],
                    )
            }),
    {
        let n = item_texts.len();
        let mut runes: Vec<RuneItem> = Vec::new();
        let mut i: usize = 0;
        while i < n
            invariant
                0 <= i <= n,
                n == item_texts@.len(),
                runes@.len() == i,
                forall|j: int|
                    0 <= j < i ==> spec_rune_record_ok((#[trigger] item_texts@[j])@),
                forall|j: int|
                    0 <= j < i ==> spec_rune_record_matches(
                        (#[trigger] item_texts@[j])@,
                        self.spec_champion_name(),
                        self.spec_lane(),
                        runes@[j],
                    ),
            decreases n - i,
        {
            match self.parse_rune_item(item_texts[i].as_str()) {
                Some(item) => {
                    runes.push(item);
                },
                None => {
                    return None;
                },
            }
            i = i + 1;
        }
        Some(runes)
    }

    /// The summoner-spell recommendations held in the blob: every record
    /// the spells section carries, each field equal to its named member
    /// value.
    pub fn get_spells(&self) -> (r: Result<Vec<SpellItem>, String>)
        ensures
            items_of(self.data(), "$.props.pageProps.data.summoner_spells[0:]"@) is None ==> (
            r matches Err(m) && m@ == "Create spells finder failed!"@),
            items_of(self.data(), "$.props.pageProps.data.summoner_spells[0:]"@) matches Some(
                items,
            ) ==> ({
                &&& r matches Ok(v) ==> ({
                    &&& v@.len() == items.len()
                    &&& forall|i: int|
                        0 <= i < items.len() ==> spec_spell_record_ok(#[trigger] items[i])
                    &&& forall|i: int|
                        0 <= i < items.len() ==> spec_spell_record_matches(
                            #[trigger] items[i],
                            v@[i],
                        )
                })
                &&& r matches Err(m) ==> ({
                    &&& m@ == "Convert spells data error!"@
                    &&& exists|i: int|
                        0 <= i < items.len() && !spec_spell_record_ok(#[trigger] items[i])
                })
            }),
    {
        let ghost path = "$.props.pageProps.data.summoner_spells[0:]"@;
        let item_texts = match extract_item_texts(
            self.next_data.as_str(),
            "$.props.pageProps.data.summoner_spells[0:]",
        ) {
            Some(v) => v,
            None => {
                return Err("Create spells finder failed!".to_owned());
            },
        };
        let ghost items = items_of(self.data(), path)->0;
        proof {
            assert(items =~= item_texts.deep_view());
            assert(forall|j: int|
                0 <= j < item_texts@.len() ==> items[j] == (#[trigger] item_texts@[j])@);
        }
        match convert_spell_items(&item_texts) {
            Some(v) => {
                proof {
                    assert(forall|i: int|
                        0 <= i < items.len() ==> spec_spell_record_ok(#[trigger] items[i]));
                    assert(forall|i: int|
                        0 <= i < items.len() ==> spec_spell_record_matches(
                            #[trigger] items[i],
                            v@[i],
                        ));
                }
                Ok(v)
            },
            None => {
                proof {
                    assert(exists|k: int|
                        0 <= k < item_texts@.len() && !spec_spell_record_ok(
                            (#[trigger] item_texts@[k])@,
                        ));
                    let k = choose|k: int|
                        0 <= k < item_texts@.len() && !spec_spell_record_ok(
                            (#[trigger] item_texts@[k])@,
                        );
                    assert(0 <= k < items.len() && !spec_spell_record_ok(#[trigger] items[k]));
                }
                Err("Convert spells data error!".to_owned())
            },
        }
    }

    /// One rune record out of its serialized JSON text, display name
    /// included: succeeds exactly when every member the record needs
    /// extracts within range.
    fn parse_rune_item(&self, item: &str) -> (r: Option<RuneItem>)
        ensures
            r is Some <==> spec_rune_record_ok(item@),
            r matches Some(rec) ==> spec_rune_record_matches(
                item@,
                self.spec_champion_name(),
                self.spec_lane(),
                rec,
            ),
    {
        let id = match read_member_i64(item, "id") {
            Some(x) => x,
            None => {
                return None;
            },
        };
        let primary_page_id = match read_i32_member(item, "primary_page_id") {
            Some(x) => x,
            None => {
                return None;
            },
        };
        let primary_rune_ids = match read_i32s_member(item, "primary_rune_ids") {
            Some(x) => x,
            None => {
                return None;
            },
        };
        let secondary_page_id = match read_i32_member(item, "secondary_page_id") {
            Some(x) => x,
            None => {
                return None;
            },
        };
        let secondary_rune_ids = match read_i32s_member(item, "secondary_rune_ids") {
            Some(x) => x,
            None => {
                return None;
            },
        };
        let stat_mod_ids = match read_i32s_member(item, "stat_mod_ids") {
            Some(x) => x,
            None => {
                return None;
            },
        };
        let play = match read_i32_member(item, "play") {
            Some(x) => x,
            None => {
                return None;
            },
        };
        let win = match read_i32_member(item, "win") {
            Some(x) => x,
            None => {
                return None;
            },
        };
        let pick_rate = match read_member_text(item, "pick_rate") {
            Some(s) => s,
            None => {
                return None;
            },
        };
        let name = rune_display_name(self.champion_name.as_str(), self.lane, win, play);
        Some(
            RuneItem {
                id,
                primary_page_id,
                primary_rune_ids,
                secondary_page_id,
                secondary_rune_ids,
                stat_mod_ids,
                play,
                win,
                pick_rate,
                name,
            },
        )
    }
}

/// Whether a document's member is an integer that fits a 32-bit count.
pub open spec fn spec_i32_member(item: Seq<char>, key: Seq<char>) -> bool {
    member_i64_of(item, key) matches Some(x) && i32::MIN <= x <= i32::MAX
}

/// Whether a document's member is an array of integers that all fit 32 bits.
pub open spec fn spec_i32s_member(item: Seq<char>, key: Seq<char>) -> bool {
    member_i64s_of(item, key) matches Some(xs) && forall|i: int|
        0 <= i < xs.len() ==> i32::MIN <= #[trigger] xs[i] <= i32::MAX
}

/// Pointwise: the 32-bit vector is exactly the member's integer elements.
pub open spec fn spec_i32s_match(v: Seq<i32>, m: Option<Seq<i64>>) -> bool {
    &&& m is Some
    &&& v.len() == m->0.len()
    &&& forall|i: int| 0 <= i < v.len() ==> #[trigger] v[i] as i64 == m->0[i]
}

/// Whether one serialized rune record carries every member the typed
/// record needs, with counts and identifiers in 32-bit range.
pub open spec fn spec_rune_record_ok(item: Seq<char>) -> bool {
    &&& member_i64_of(item, "id"@) is Some
    &&& spec_i32_member(item, "primary_page_id"@)
    &&& spec_i32s_member(item, "primary_rune_ids"@)
    &&& spec_i32_member(item, "secondary_page_id"@)
    &&& spec_i32s_member(item, "secondary_rune_ids"@)
    &&& spec_i32s_member(item, "stat_mod_ids"@)
    &&& spec_i32_member(item, "play"@)
    &&& spec_i32_member(item, "win"@)
    &&& member_text_of(item, "pick_rate"@) is Some
}

/// One typed rune record against its serialized source: every field equal
/// to its named member value, and the display name the synthesized one.
pub open spec fn spec_rune_record_matches(
    item: Seq<char>,
    champion: Seq<char>,
    lane: Lane,
    rec: RuneItem,
) -> bool {
    &&& Some(rec.id) == member_i64_of(item, "id"@)
    &&& Some(rec.primary_page_id as i64) == member_i64_of(item, "primary_page_id"@)
    &&& spec_i32s_match(rec.primary_rune_ids@, member_i64s_of(item, "primary_rune_ids"@))
    &&& Some(rec.secondary_page_id as i64) == member_i64_of(item, "secondary_page_id"@)
    &&& spec_i32s_match(rec.secondary_rune_ids@, member_i64s_of(item, "secondary_rune_ids"@))
    &&& spec_i32s_match(rec.stat_mod_ids@, member_i64s_of(item, "stat_mod_ids"@))
    &&& Some(rec.play as i64) == member_i64_of(item, "play"@)
    &&& Some(rec.win as i64) == member_i64_of(item, "win"@)
    &&& Some(rec.pick_rate@) == member_text_of(item, "pick_rate"@)
    &&& rec.name@ == spec_rune_name(champion, lane, rec.win as int, rec.play as int)
}

/// Whether one serialized spell record carries every member the typed
/// record needs, with counts in 32-bit range.
pub open spec fn spec_spell_record_ok(item: Seq<char>) -> bool {
    &&& spec_i32s_member(item, "ids"@)
    &&& spec_i32_member(item, "win"@)
    &&& spec_i32_member(item, "play"@)
    &&& member_text_of(item, "pick_rate"@) is Some
}

/// One typed spell record against its serialized source: every field equal
/// to its named member value.
pub open spec fn spec_spell_record_matches(item: Seq<char>, rec: SpellItem) -> bool {
    &&& spec_i32s_match(rec.ids@, member_i64s_of(item, "ids"@))
    &&& Some(rec.win as i64) == member_i64_of(item, "win"@)
    &&& Some(rec.play as i64) == member_i64_of(item, "play"@)
    &&& Some(rec.pick_rate@) == member_text_of(item, "pick_rate"@)
}

/// The typed records for a list of serialized spell items: all of them, or
/// nothing when one is malformed.
fn convert_spell_items(item_texts: &Vec<String>) -> (r: Option<Vec<SpellItem>>)
    ensures
        r is Some <==> (forall|j: int|
            0 <= j < item_texts@.len() ==> spec_spell_record_ok((#[trigger] item_texts@[j])@)),
        r matches Some(v) ==> ({
            &&& v@.len() == item_texts@.len()
            &&& forall|j: int|
                0 <= j < item_texts@.len() ==> spec_spell_record_matches(
                    (#[trigger] item_texts@[j])@,
                    v@[j],
                )
        }),
{
    let n = item_texts.len();
    let mut spells: Vec<SpellItem> = Vec::new();
    let mut i: usize = 0;
    while i < n
        invariant
            0 <= i <= n,
            n == item_texts@.len(),
            spells@.len() == i,
            forall|j: int| 0 <= j < i ==> spec_spell_record_ok((#[trigger] item_texts@[j])@),
            forall|j: int|
                0 <= j < i ==> spec_spell_record_matches(
                    (#[trigger] item_texts@[j])@,
                    spells@[j],
                ),
        decreases n - i,
    {
        match parse_spell_item(item_texts[i].as_str()) {
            Some(item) => {
                spells.push(item);
            },
            None => {
                return None;
            },
        }
        i = i + 1;
    }
    Some(spells)
}

/// One spell record out of its serialized JSON text: succeeds exactly when
/// every member the record needs extracts within range.
fn parse_spell_item(item: &str) -> (r: Option<SpellItem>)
    ensures
        r is Some <==> spec_spell_record_ok(item@),
        r matches Some(rec) ==> spec_spell_record_matches(item@, rec),
{
    let ids = match read_i32s_member(item, "ids") {
        Some(x) => x,
        None => {
            return None;
        },
    };
    let win = match read_i32_member(item, "win") {
        Some(x) => x,
        None => {
            return None;
        },
    };
    let play = match read_i32_member(item, "play") {
        Some(x) => x,
        None => {
            return None;
        },
    };
    let pick_rate = match read_member_text(item, "pick_rate") {
        Some(s) => s,
        None => {
            return None;
        },
    };
    Some(SpellItem { ids, win, play, pick_rate })
}

/// A document's integer member, checked into the 32-bit range.
fn read_i32_member(item: &str, key: &str) -> (r: Option<i32>)
    ensures
        r is Some <==> spec_i32_member(item@, key@),
        r matches Some(x) ==> Some(x as i64) == member_i64_of(item@, key@),
{
    match read_member_i64(item, key) {
        Some(x) => {
            if -2147483648i64 <= x && x <= 2147483647i64 {
                Some(x as i32)
            } else {
                None
            }
        },
        None => None,
    }
}

/// A document's integer-array member, each element checked into the
/// 32-bit range.
fn read_i32s_member(item: &str, key: &str) -> (r: Option<Vec<i32>>)
    ensures
        r is Some <==> spec_i32s_member(item@, key@),
        r matches Some(v) ==> spec_i32s_match(v@, member_i64s_of(item@, key@)),
{
    let raw = match read_member_i64s(item, key) {
        Some(v) => v,
        None => {
            return None;
        },
    };
    proof {
        assert(raw.deep_view() =~= raw@);
        assert(member_i64s_of(item@, key@) == Some(raw@));
    }
    let n = raw.len();
    let mut out: Vec<i32> = Vec::new();
    let mut i: usize = 0;
    while i < n
        invariant
            0 <= i <= n,
            n == raw@.len(),
            member_i64s_of(item@, key@) == Some(raw@),
            out@.len() == i,
            forall|j: int| 0 <= j < i ==> i32::MIN <= #[trigger] raw@[j] <= i32::MAX,
            forall|j: int| 0 <= j < i ==> #[trigger] out@[j] as i64 == raw@[j],
        decreases n - i,
    {
        let x = raw[i];
        if x < -2147483648i64 || x > 2147483647i64 {
            proof {
                let xs = member_i64s_of(item@, key@)->0;
                assert(xs == raw@);
                assert(!(i32::MIN <= xs[i as int] <= i32::MAX));
            }
            return None;
        }
        out.push(x as i32);
        i = i + 1;
    }
    Some(out)
}

/// What a lookup should do next: fetch live (and perhaps write the cache
/// afterwards) or read the existing snapshot.
#[derive(Debug, Clone, Copy, PartialEq, Eq, Structural)]
pub enum FetchPlan {
    Live { update_cache: bool },
    Cached,
}

/// The decision rule: online mode always fetches live without touching the
/// cache; auto mode fetches live exactly when the key is stale, writing the
/// cache afterwards, and reads the snapshot otherwise.
pub open spec fn spec_plan(mode: FetchMode, stale: bool) -> FetchPlan {
    match mode {
        FetchMode::Online => FetchPlan::Live { update_cache: false },
        FetchMode::Auto => if stale {
            FetchPlan::Live { update_cache: true }
        } else {
            FetchPlan::Cached
        },
    }
}

/// The writes the caller mirrors onto the cache directory after a
/// successful live fetch in auto mode.
#[derive(Debug, Clone)]
pub struct CacheWrite {
    /// Name of the snapshot file to (over)write.
    pub snapshot_file: String,
    /// Payload of the snapshot file.
    pub snapshot_data: String,
    /// New content of the manifest log file.
    pub manifest_data: String,
}

/// The scraping source: a fetch mode and the cache manager it consults.
/// The HTTP client performing the live round trip stays with the caller.
pub struct OPGG {
    fetch_mode: FetchMode,
    cache_manager: CacheManager,
}

impl OPGG {
    pub closed spec fn spec_fetch_mode(&self) -> FetchMode {
        self.fetch_mode
    }

    /// The cache state this source consults.
    pub closed spec fn cache(&self) -> CacheManager {
        self.cache_manager
    }

    pub fn new(cache_manager: CacheManager) -> (r: Self)
        ensures
            r.spec_fetch_mode() == FetchMode::Auto,
            r.cache() == cache_manager,
    {
        OPGG { fetch_mode: FetchMode::Auto, cache_manager }
    }

    pub fn set_fetch_mode(&mut self, mode: FetchMode)
        ensures
            final(self).spec_fetch_mode() == mode,
            final(self).cache() == old(self).cache(),
    {
        self.fetch_mode = mode;
    }

    pub fn fetch_mode(&self) -> (r: FetchMode)
        ensures
            r == self.spec_fetch_mode(),
    {
        self.fetch_mode
    }

    pub fn set_expired(&mut self, days: i64)
        ensures
            final(self).cache().expiry_days() == days as int,
            final(self).cache().manifest_view() == old(self).cache().manifest_view(),
            final(self).cache().snapshots_view() == old(self).cache().snapshots_view(),
            final(self).spec_fetch_mode() == old(self).spec_fetch_mode(),
    {
        self.cache_manager.set_expired(days);
    }

    pub fn get_expired(&self) -> (r: i64)
        ensures
            r as int == self.cache().expiry_days(),
    {
        self.cache_manager.get_expired()
    }

    /// Empties the cache; afterwards every key is stale, as on first use.
    pub fn clear_cache(&mut self)
        ensures
            final(self).cache().manifest_view() =~= Seq::<(Seq<char>, int)>::empty(),
            final(self).cache().snapshots_view() =~= Seq::<(Seq<char>, Seq<char>)>::empty(),
            final(self).cache().expiry_days() == old(self).cache().expiry_days(),
            final(self).spec_fetch_mode() == old(self).spec_fetch_mode(),
    {
        self.cache_manager.clear_cache();
    }

    /// Decides between the cache and a live fetch for one query at time
    /// `now`, without performing either.
    pub fn plan_champion_info(
        &self,
        champion_name: &str,
        lane: Lane,
        mode: GameMode,
        now: i64,
    ) -> (r: FetchPlan)
        ensures
            r == spec_plan(
                self.spec_fetch_mode(),
                stale_in(
                    self.cache().manifest_view(),
                    spec_key(champion_name@, lane, mode),
                    self.cache().expiry_days(),
                    now as int,
                ),
            ),
    {
        match self.fetch_mode {
            FetchMode::Online => FetchPlan::Live { update_cache: false },
            FetchMode::Auto => {
                if self.cache_manager.is_champion_data_old(champion_name, lane, mode, now) {
                    FetchPlan::Live { update_cache: true }
                } else {
                    FetchPlan::Cached
                }
            },
        }
    }

    /// Normalizes a fetched state blob into the cache schema, keeping only
    /// the rune and spell sections.
    pub fn format_data(&self, data: &str) -> (r: Result<String, String>)
        ensures
            blob_of(data@, "$.props.pageProps.data.runes[0:]"@) is None ==> (r matches Err(m) && m@
                == "Create runes finder failed!"@),
            (blob_of(data@, "$.props.pageProps.data.runes[0:]"@) is Some && blob_of(
                data@,
                "$.props.pageProps.data.summoner_spells[0:]"@,
            ) is None) ==> (r matches Err(m) && m@ == "Create spells finder failed!"@),
            (blob_of(data@, "$.props.pageProps.data.runes[0:]"@) is Some && blob_of(
                data@,
                "$.props.pageProps.data.summoner_spells[0:]"@,
            ) is Some) ==> (r matches Ok(s) && s@ == spec_cache_payload(
                blob_of(data@, "$.props.pageProps.data.runes[0:]"@)->0,
                blob_of(data@, "$.props.pageProps.data.summoner_spells[0:]"@)->0,
            )),
    {
        let runes = match extract_blob(data, "$.props.pageProps.data.runes[0:]") {
            Some(s) => s,
            None => {
                return Err("Create runes finder failed!".to_owned());
            },
        };
        let spells = match extract_blob(data, "$.props.pageProps.data.summoner_spells[0:]") {
            Some(s) => s,
            None => {
                return Err("Create spells finder failed!".to_owned());
            },
        };
        let mut out = String::from_str("{\"props\":{\"pageProps\":{\"data\":{\"runes\":");
        out.append(runes.as_str());
        out.append(",\"summoner_spells\":");
        out.append(spells.as_str());
        out.append("}}}}");
        Ok(out)
    }

    /// Finishes a lookup whose plan was a live fetch, from the outcome of
    /// the network round trip. A failed fetch leaves the provider — cache
    /// included — exactly as it was and surfaces the error; a successful
    /// one yields the result, and in auto mode also normalizes the blob,
    /// records it, and hands back the writes to mirror on disk.
    pub fn complete_champion_info(
        &mut self,
        champion_name: &str,
        lane: Lane,
        mode: GameMode,
        now: i64,
        live: Result<String, String>,
    ) -> (r: Result<(OPGGChampionInfo, Option<CacheWrite>), String>)
        ensures
            live matches Err(e) ==> ({
                &&& *final(self) == *old(self)
                &&& r matches Err(m) && m@ == e@
            }),
            live matches Ok(d) ==> ({
                let runes_blob = blob_of(d@, "$.props.pageProps.data.runes[0:]"@);
                let spells_blob = blob_of(d@, "$.props.pageProps.data.summoner_spells[0:]"@);
                let payload = spec_cache_payload(runes_blob->0, spells_blob->0);
                &&& old(self).spec_fetch_mode() == FetchMode::Online ==> ({
                    &&& *final(self) == *old(self)
                    &&& r matches Ok(p) && p.1 is None && !p.0.spec_is_cache() && p.0.data() == d@
                        && p.0.spec_lane() == lane && p.0.spec_champion_name() == champion_name@
                })
                &&& old(self).spec_fetch_mode() == FetchMode::Auto && (runes_blob is None
                    || spells_blob is None) ==> ({
                    &&& *final(self) == *old(self)
                    &&& r is Err
                })
                &&& old(self).spec_fetch_mode() == FetchMode::Auto && runes_blob is Some
                    && spells_blob is Some ==> ({
                    &&& final(self).spec_fetch_mode() == old(self).spec_fetch_mode()
                    &&& final(self).cache().expiry_days() == old(self).cache().expiry_days()
                    &&& final(self).cache().manifest_view() == put_value(
                        old(self).cache().manifest_view(),
                        spec_key(champion_name@, lane, mode),
                        now as int,
                    )
                    &&& final(self).cache().snapshots_view() == put_value(
                        old(self).cache().snapshots_view(),
                        spec_file_name(champion_name@, lane, mode),
                        payload,
                    )
                    &&& r matches Ok(p) && ({
                        &&& !p.0.spec_is_cache()
                        &&& p.0.data() == payload
                        &&& p.0.spec_lane() == lane
                        &&& p.0.spec_champion_name() == champion_name@
                        &&& p.1 matches Some(w) && ({
                            &&& w.snapshot_file@ == spec_file_name(champion_name@, lane, mode)
                            &&& w.snapshot_data@ == payload
                            &&& w.manifest_data@ == spec_manifest_json(
                                put_value(
                                    old(self).cache().manifest_view(),
                                    spec_key(champion_name@, lane, mode),
                                    now as int,
                                ),
                            )
                        })
                    })
                })
            }),
    {
        match live {
            Err(e) => Err(e),
            Ok(data) => {
                match self.fetch_mode {
                    FetchMode::Online => Ok(
                        (
                            OPGGChampionInfo {
                                next_data: data,
                                is_cache: false,
                                lane,
                                champion_name: champion_name.to_owned(),
                            },
                            None,
                        ),
                    ),
                    FetchMode::Auto => {
                        match self.format_data(data.as_str()) {
                            Err(m) => Err(m),
                            Ok(formatted) => {
                                let file = self.cache_manager.update_champion(
                                    champion_name,
                                    lane,
                                    mode,
                                    formatted.as_str(),
                                    now,
                                );
                                let manifest = self.cache_manager.save_cache_log();
                                let snapshot_data = formatted.clone();
                                Ok(
                                    (
                                        OPGGChampionInfo {
                                            next_data: formatted,
                                            is_cache: false,
                                            lane,
                                            champion_name: champion_name.to_owned(),
                                        },
                                        Some(
                                            CacheWrite {
                                                snapshot_file: file,
                                                snapshot_data,
                                                manifest_data: manifest,
                                            },
                                        ),
                                    ),
                                )
                            },
                        }
                    },
                }
            },
        }
    }

    /// Serves a lookup whose plan was the cache: the stored snapshot for
    /// the key, marked as coming from the cache.
    pub fn get_cached_champion_info(
        &self,
        champion_name: &str,
        lane: Lane,
        mode: GameMode,
    ) -> (r: Result<OPGGChampionInfo, String>)
        ensures
            find_value(self.cache().snapshots_view(), spec_file_name(champion_name@, lane, mode))
                matches Some(d) ==> (r matches Ok(info) && info.data() == d
                && info.spec_is_cache() && info.spec_lane() == lane && info.spec_champion_name()
                == champion_name@),
            find_value(self.cache().snapshots_view(), spec_file_name(champion_name@, lane, mode))
                is None ==> r is Err,
    {
        match self.cache_manager.get_champion_data(champion_name, lane, mode) {
            Ok(data) => Ok(
                OPGGChampionInfo {
                    next_data: data,
                    is_cache: true,
                    lane,
                    champion_name: champion_name.to_owned(),
                },
            ),
            Err(m) => Err(m),
        }
    }
}

/// A key the cache has never seen is stale, and an auto-mode lookup of it
/// always plans a live fetch with a cache write to follow.
pub proof fn lemma_unseen_key_fetches_live(
    entries: Seq<(Seq<char>, int)>,
    key: Seq<char>,
    days: int,
    now: int,
)
    requires
        find_value(entries, key) is None,
    ensures
        stale_in(entries, key, days, now),
        spec_plan(FetchMode::Auto, stale_in(entries, key, days, now)) == (FetchPlan::Live {
            update_cache: true,
        }),
{
}

/// A key refetched within the expiry window is served from the cache on
/// the next auto-mode lookup: no live fetch is planned.
pub proof fn lemma_fresh_key_uses_cache(
    entries: Seq<(Seq<char>, int)>,
    key: Seq<char>,
    t: int,
    days: int,
    now: int,
)
    requires
        now - t < days * 86400,
    ensures
        spec_plan(FetchMode::Auto, stale_in(put_value(entries, key, t), key, days, now))
            == FetchPlan::Cached,
{
    crate::source_provider::cache_manager::lemma_refetch_within_window_not_stale(
        entries,
        key,
        t,
        days,
        now,
    );
}

/// The first-ever lookup of a key in auto mode fetches live and stamps the
/// cache; an immediate second lookup with the clock unchanged is served
/// from the cache, and the stored snapshot reads back as the identical
/// payload.
pub proof fn lemma_first_fetch_then_cached(
    entries: Seq<(Seq<char>, int)>,
    snaps: Seq<(Seq<char>, Seq<char>)>,
    key: Seq<char>,
    file: Seq<char>,
    payload: Seq<char>,
    days: int,
    now: int,
)
    requires
        find_value(entries, key) is None,
        days > 0,
    ensures
        spec_plan(FetchMode::Auto, stale_in(entries, key, days, now)) == (FetchPlan::Live {
            update_cache: true,
        }),
        spec_plan(FetchMode::Auto, stale_in(put_value(entries, key, now), key, days, now))
            == FetchPlan::Cached,
        find_value(put_value(snaps, file, payload), file) == Some(payload),
{
    lemma_unseen_key_fetches_live(entries, key, days, now);
    lemma_fresh_key_uses_cache(entries, key, now, days, now);
    crate::source_provider::cache_manager::lemma_snapshot_round_trip(snaps, file, payload);
}

/// Synthesizes the display name for one rune recommendation from champion,
/// lane and the win/play counts.
fn rune_display_name(champion: &str, lane: Lane, win: i32, play: i32) -> (r: String)
    ensures
        r@ == spec_rune_name(champion@, lane, win as int, play as int),
{
    let pct: u64 = if play > 0 && win >= 0 {
        ((win as i64) * 100 / (play as i64)) as u64
    } else {
        0
    };
    assert(pct as int == spec_win_pct(win as int, play as int));
    let mut s = String::from_str("[Lola] ");
    s.append(champion);
    s.append("-");
    let lane_name = lane.to_key_name();
    s.append(lane_name.as_str());
    s.append(" (");
    let pct_str = u64_to_dec(pct);
    s.append(pct_str.as_str());
    s.append("%/");
    let play_str = i64_to_dec(play as i64);
    s.append(play_str.as_str());
    s.append(" games)");
    s
}

} // verus!
