//! The caching engine. The manager holds the manifest (one timestamped entry
//! per composite key) and the snapshot payloads keyed by file name, and it is
//! the single source of truth for staleness. The caller mirrors every write
//! it is handed back onto the cache directory on disk, and reloads both at
//! start-up through the restore operations.

use vstd::prelude::*;

use crate::source_provider::{lane_key_label, mode_key_label, GameMode, Lane};
use crate::text::{append_json_escaped, dec_str_i64, i64_to_dec, json_escaped};

verus! {

broadcast use vstd::string::group_string_axioms;

/// The composite cache key: "name-Lane-Mode".
pub open spec fn spec_key(name: Seq<char>, lane: Lane, mode: GameMode) -> Seq<char> {
    name + "-"@ + lane_key_label(lane) + "-"@ + mode_key_label(mode)
}

/// The snapshot file name derived from a composite key.
pub open spec fn spec_file_name(name: Seq<char>, lane: Lane, mode: GameMode) -> Seq<char> {
    spec_key(name, lane, mode) + ".txt"@
}

/// The value of the first record with the given key, in a sequence of
/// key-value pairs (the manifest maps keys to timestamps, the snapshot store
/// maps file names to payloads).
pub open spec fn find_value<V>(records: Seq<(Seq<char>, V)>, key: Seq<char>) -> Option<V>
    decreases records.len(),
{
    if records.len() == 0 {
        None
    } else if records[0].0 == key {
        Some(records[0].1)
    } else {
        find_value(records.skip(1), key)
    }
}

/// The sequence after writing `value` under `key`: the first record with
/// that key is overwritten, or a new record is appended.
pub open spec fn put_value<V>(
    records: Seq<(Seq<char>, V)>,
    key: Seq<char>,
    value: V,
) -> Seq<(Seq<char>, V)>
    decreases records.len(),
{
    if records.len() == 0 {
        seq![(key, value)]
    } else if records[0].0 == key {
        seq![(key, value)] + records.skip(1)
    } else {
        seq![records[0]] + put_value(records.skip(1), key, value)
    }
}

/// Whether an entry stamped at `last` has outlived an expiry of `days` days
/// at time `now` (both in seconds since the epoch).
pub open spec fn expired_at(last: int, days: int, now: int) -> bool {
    now - last >= days * 86400
}

/// A key is stale when the manifest has no entry for it, or the entry's age
/// exceeds the expiry window.
pub open spec fn stale_in(
    entries: Seq<(Seq<char>, int)>,
    key: Seq<char>,
    days: int,
    now: int,
) -> bool {
    match find_value(entries, key) {
        None => true,
        Some(t) => expired_at(t, days, now),
    }
}

/// Relies on `chrono::Utc::now` and `chrono::DateTime::timestamp`: the
/// current time in whole seconds since the epoch. A clock reading depends
/// on the machine, so nothing is promised of it.
#[verifier::external_body]
pub fn now_unix() -> (r: i64) {
    chrono::Utc::now().timestamp()
}

/// One manifest line: a composite key and the time it was last refreshed.
#[derive(Debug, Clone)]
pub struct ChampionCacheInfo {
    name_with_lane: String,
    last_modified: i64,
}

impl ChampionCacheInfo {
    /// The composite key this entry stands for.
    pub closed spec fn key(&self) -> Seq<char> {
        self.name_with_lane@
    }

    /// The time of the last refresh, in seconds since the epoch.
    pub closed spec fn ts(&self) -> int {
        self.last_modified as int
    }

    pub fn new(name: &str, lane: Lane, mode: GameMode, now: i64) -> (r: Self)
        ensures
            r.key() == spec_key(name@, lane, mode),
            r.ts() == now as int,
    {
        ChampionCacheInfo { name_with_lane: key_string(name, lane, mode), last_modified: now }
    }

    /// Rebuilds an entry from its stored form, for reloading the manifest.
    pub fn restore(name_with_lane: &str, last_modified: i64) -> (r: Self)
        ensures
            r.key() == name_with_lane@,
            r.ts() == last_modified as int,
    {
        ChampionCacheInfo { name_with_lane: name_with_lane.to_owned(), last_modified }
    }

    pub fn is_same(&self, name: &str, lane: Lane, mode: GameMode) -> (r: bool)
        ensures
            r == (self.key() == spec_key(name@, lane, mode)),
    {
        let probe = key_string(name, lane, mode);
        self.name_with_lane == probe
    }

    pub fn get_file_name(&self) -> (r: String)
        ensures
            r@ == self.key() + ".txt"@,
    {
        let mut s = self.name_with_lane.clone();
        s.append(".txt");
        s
    }

    pub fn get_file_name_manual(name: &str, lane: Lane, mode: GameMode) -> (r: String)
        ensures
            r@ == spec_file_name(name@, lane, mode),
    {
        let mut s = key_string(name, lane, mode);
        s.append(".txt");
        s
    }

    pub fn is_expired(&self, days: i64, now: i64) -> (r: bool)
        ensures
            r == expired_at(self.ts(), days as int, now as int),
    {
        (now as i128) - (self.last_modified as i128) >= (days as i128) * 86400
    }

    pub fn update_last_modified(&mut self, new: i64)
        ensures
            final(self).key() == old(self).key(),
            final(self).ts() == new as int,
    {
        self.last_modified = new;
    }
}

/// Builds the composite key string "name-Lane-Mode".
pub fn key_string(name: &str, lane: Lane, mode: GameMode) -> (r: String)
    ensures
        r@ == spec_key(name@, lane, mode),
{
    let mut s = name.to_owned();
    s.append("-");
    let lane_name = lane.to_key_name();
    s.append(lane_name.as_str());
    s.append("-");
    let mode_name = mode.to_key_name();
    s.append(mode_name.as_str());
    s
}

/// The manifest in its serialized shape: the list of entries.
#[derive(Debug, Clone)]
pub struct CacheLogJson {
    pub champions: Vec<ChampionCacheInfo>,
}

impl CacheLogJson {
    pub fn new() -> (r: Self)
        ensures
            r.champions@ =~= Seq::<ChampionCacheInfo>::empty(),
    {
        CacheLogJson { champions: Vec::new() }
    }
}

/// One snapshot payload under its file name.
#[derive(Debug, Clone)]
struct SnapshotFile {
    file_name: String,
    data: String,
}

/// The cache state: manifest entries, snapshot payloads, and the expiry
/// window in days.
#[derive(Debug, Clone)]
pub struct CacheManager {
    json: CacheLogJson,
    snapshots: Vec<SnapshotFile>,
    expired: i64,
}

impl CacheManager {
    /// The manifest, abstractly: each entry as its key and timestamp.
    pub closed spec fn manifest_view(&self) -> Seq<(Seq<char>, int)> {
        self.json.champions@.map_values(|e: ChampionCacheInfo| (e.key(), e.ts()))
    }

    /// The snapshot store, abstractly: file name and payload pairs.
    pub closed spec fn snapshots_view(&self) -> Seq<(Seq<char>, Seq<char>)> {
        self.snapshots@.map_values(|f: SnapshotFile| (f.file_name@, f.data@))
    }

    /// The expiry window, in days.
    pub closed spec fn expiry_days(&self) -> int {
        self.expired as int
    }

    pub fn new() -> (r: Self)
        ensures
            r.manifest_view() =~= Seq::<(Seq<char>, int)>::empty(),
            r.snapshots_view() =~= Seq::<(Seq<char>, Seq<char>)>::empty(),
            r.expiry_days() == 3,
    {
        CacheManager { json: CacheLogJson::new(), snapshots: Vec::new(), expired: 3 }
    }

    pub fn set_expired(&mut self, days: i64)
        ensures
            final(self).expiry_days() == days as int,
            final(self).manifest_view() == old(self).manifest_view(),
            final(self).snapshots_view() == old(self).snapshots_view(),
    {
        self.expired = days;
    }

    pub fn get_expired(&self) -> (r: i64)
        ensures
            r as int == self.expiry_days(),
    {
        self.expired
    }

    /// Staleness check at time `now`: true when no manifest entry matches
    /// the key, or the first matching entry has outlived the expiry window.
    pub fn is_champion_data_old(
        &self,
        champion_name: &str,
        lane: Lane,
        mode: GameMode,
        now: i64,
    ) -> (r: bool)
        ensures
            r == stale_in(
                self.manifest_view(),
                spec_key(champion_name@, lane, mode),
                self.expiry_days(),
                now as int,
            ),
    {
        let ghost key = spec_key(champion_name@, lane, mode);
        let ghost entries = self.manifest_view();
        let n = self.json.champions.len();
        let mut i: usize = 0;
        while i < n
            invariant
                0 <= i <= n,
                n == self.json.champions@.len(),
                entries == self.manifest_view(),
                key == spec_key(champion_name@, lane, mode),
                entries.len() == n,
                forall|j: int| 0 <= j < i ==> (#[trigger] entries[j]).0 != key,
            decreases n - i,
        {
            let champ = &self.json.champions[i];
            if champ.is_same(champion_name, lane, mode) {
                proof {
                    lemma_find_from(entries, key, i as int);
                    assert(entries.skip(i as int)[0] == entries[i as int]);
                    assert(find_value(entries, key) == Some(entries[i as int].1));
                }
                return champ.is_expired(self.expired, now);
            }
            proof {
                assert(entries[i as int].0 != key);
            }
            i = i + 1;
        }
        proof {
            lemma_find_from(entries, key, n as int);
            assert(entries.skip(n as int) =~= Seq::<(Seq<char>, int)>::empty());
        }
        true
    }

    /// Empties the manifest and the snapshot store; every key is stale
    /// afterwards, exactly as on a first-ever lookup.
    pub fn clear_cache(&mut self)
        ensures
            final(self).manifest_view() =~= Seq::<(Seq<char>, int)>::empty(),
            final(self).snapshots_view() =~= Seq::<(Seq<char>, Seq<char>)>::empty(),
            final(self).expiry_days() == old(self).expiry_days(),
    {
        self.json.champions.clear();
        self.snapshots.clear();
    }
}

impl CacheManager {
    /// Records a successful live fetch: the manifest entry for the key is
    /// restamped at `now` (or created), and the snapshot payload under the
    /// derived file name is overwritten (or created). The returned file name
    /// is where the caller mirrors the payload on disk.
    pub fn update_champion(
        &mut self,
        champion_name: &str,
        lane: Lane,
        mode: GameMode,
        data: &str,
        now: i64,
    ) -> (file_name: String)
        ensures
            final(self).manifest_view() == put_value(
                old(self).manifest_view(),
                spec_key(champion_name@, lane, mode),
                now as int,
            ),
            final(self).snapshots_view() == put_value(
                old(self).snapshots_view(),
                spec_file_name(champion_name@, lane, mode),
                data@,
            ),
            final(self).expiry_days() == old(self).expiry_days(),
            file_name@ == spec_file_name(champion_name@, lane, mode),
    {
        let ghost key = spec_key(champion_name@, lane, mode);
        let ghost file = spec_file_name(champion_name@, lane, mode);
        let ghost entries0 = self.manifest_view();
        let ghost snaps0 = self.snapshots_view();
        let key_str = key_string(champion_name, lane, mode);
        let file_name = ChampionCacheInfo::get_file_name_manual(champion_name, lane, mode);

        match self.find_key_index(&key_str) {
            Some(i) => {
                self.json.champions[i] = ChampionCacheInfo::new(champion_name, lane, mode, now);
                proof {
                    lemma_put_at_index(entries0, key, now as int, i as int);
                    assert(self.manifest_view() =~= entries0.update(i as int, (key, now as int)));
                }
            },
            None => {
                self.json.champions.push(ChampionCacheInfo::new(champion_name, lane, mode, now));
                proof {
                    lemma_put_append(entries0, key, now as int);
                    assert(self.manifest_view() =~= entries0.push((key, now as int)));
                }
            },
        }
        proof {
            assert(self.snapshots_view() =~= snaps0);
        }
        match self.find_snapshot_index(&file_name) {
            Some(i) => {
                proof {
                    assert(snaps0[i as int].0 == file);
                    assert(forall|j: int| 0 <= j < i ==> (#[trigger] snaps0[j]).0 != file);
                }
                self.snapshots[i] =
                    SnapshotFile { file_name: file_name.clone(), data: data.to_owned() };
                proof {
                    lemma_put_at_index(snaps0, file, data@, i as int);
                    assert(self.snapshots_view() =~= snaps0.update(i as int, (file, data@)));
                }
            },
            None => {
                proof {
                    assert(forall|j: int|
                        0 <= j < snaps0.len() ==> (#[trigger] snaps0[j]).0 != file);
                }
                self.snapshots.push(
                    SnapshotFile { file_name: file_name.clone(), data: data.to_owned() },
                );
                proof {
                    lemma_put_append(snaps0, file, data@);
                    assert(self.snapshots_view() =~= snaps0.push((file, data@)));
                }
            },
        }
        file_name
    }

    /// Returns the cached snapshot payload for the key, or the error the
    /// original read path reports when no snapshot exists.
    pub fn get_champion_data(
        &self,
        champion_name: &str,
        lane: Lane,
        mode: GameMode,
    ) -> (r: Result<String, String>)
        ensures
            find_value(self.snapshots_view(), spec_file_name(champion_name@, lane, mode))
                matches Some(d) ==> (r matches Ok(c) && c@ == d),
            find_value(self.snapshots_view(), spec_file_name(champion_name@, lane, mode))
                is None ==> (r matches Err(m) && m@ == "cache file no exists!"@),
    {
        let ghost file = spec_file_name(champion_name@, lane, mode);
        let ghost snaps = self.snapshots_view();
        let file_name = ChampionCacheInfo::get_file_name_manual(champion_name, lane, mode);
        match self.find_snapshot_index(&file_name) {
            Some(i) => {
                proof {
                    lemma_find_from(snaps, file, i as int);
                    assert(snaps.skip(i as int)[0] == snaps[i as int]);
                    assert(find_value(snaps, file) == Some(snaps[i as int].1));
                }
                Ok(self.snapshots[i].data.clone())
            },
            None => {
                proof {
                    lemma_find_from(snaps, file, snaps.len() as int);
                    assert(snaps.skip(snaps.len() as int) =~= Seq::<(Seq<char>, Seq<char>)>::empty());
                }
                Err("cache file no exists!".to_owned())
            },
        }
    }

    /// Serializes the manifest, ready to be mirrored into the cache log file.
    pub fn save_cache_log(&self) -> (r: String)
        ensures
            r@ == spec_manifest_json(self.manifest_view()),
    {
        let ghost entries = self.manifest_view();
        let mut out = String::from_str("{\"champions\":[");
        let n = self.json.champions.len();
        let mut i: usize = 0;
        while i < n
            invariant
                0 <= i <= n,
                n == self.json.champions@.len(),
                entries == self.manifest_view(),
                entries.len() == n,
                out@ == "{\"champions\":["@ + spec_entries_json(entries.subrange(0, i as int)),
            decreases n - i,
        {
            if i > 0 {
                out.append(",");
            }
            out.append("{\"name_with_lane\":\"");
            append_json_escaped(&mut out, self.json.champions[i].name_with_lane.as_str());
            out.append("\",\"last_modified\":");
            let ts = i64_to_dec(self.json.champions[i].last_modified);
            out.append(ts.as_str());
            out.append("}");
            proof {
                let sub1 = entries.subrange(0, i as int + 1);
                assert(sub1.drop_last() =~= entries.subrange(0, i as int));
                assert(sub1.last() == entries[i as int]);
                assert(out@ =~= "{\"champions\":["@ + spec_entries_json(sub1));
            }
            i = i + 1;
        }
        proof {
            assert(entries.subrange(0, n as int) =~= entries);
        }
        out.append("]}");
        out
    }

    /// Reloads one manifest line read back from disk. The first occurrence
    /// of a key wins; a duplicate leaves the manager unchanged.
    pub fn restore_entry(&mut self, name_with_lane: &str, last_modified: i64)
        ensures
            find_value(old(self).manifest_view(), name_with_lane@) is Some ==> *final(self)
                == *old(self),
            find_value(old(self).manifest_view(), name_with_lane@) is None ==> {
                &&& final(self).manifest_view() == old(self).manifest_view().push(
                    (name_with_lane@, last_modified as int),
                )
                &&& final(self).snapshots_view() == old(self).snapshots_view()
                &&& final(self).expiry_days() == old(self).expiry_days()
            },
    {
        let ghost entries = self.manifest_view();
        let probe = name_with_lane.to_owned();
        match self.find_key_index(&probe) {
            Some(i) => {
                proof {
                    lemma_find_from(entries, name_with_lane@, i as int);
                    assert(entries.skip(i as int)[0] == entries[i as int]);
                }
            },
            None => {
                proof {
                    lemma_find_from(entries, name_with_lane@, entries.len() as int);
                    assert(entries.skip(entries.len() as int) =~= Seq::<(Seq<char>, int)>::empty());
                }
                self.json.champions.push(ChampionCacheInfo::restore(name_with_lane, last_modified));
                proof {
                    assert(self.manifest_view() =~= entries.push(
                        (name_with_lane@, last_modified as int),
                    ));
                }
            },
        }
    }

    /// Reloads one snapshot payload read back from disk. A payload already
    /// held in memory wins over the disk copy.
    pub fn restore_snapshot(&mut self, file_name: &str, data: &str)
        ensures
            find_value(old(self).snapshots_view(), file_name@) is Some ==> *final(self) == *old(
                self,
            ),
            find_value(old(self).snapshots_view(), file_name@) is None ==> {
                &&& final(self).snapshots_view() == old(self).snapshots_view().push(
                    (file_name@, data@),
                )
                &&& final(self).manifest_view() == old(self).manifest_view()
                &&& final(self).expiry_days() == old(self).expiry_days()
            },
    {
        let ghost snaps = self.snapshots_view();
        let probe = file_name.to_owned();
        match self.find_snapshot_index(&probe) {
            Some(i) => {
                proof {
                    lemma_find_from(snaps, file_name@, i as int);
                    assert(snaps.skip(i as int)[0] == snaps[i as int]);
                }
            },
            None => {
                proof {
                    lemma_find_from(snaps, file_name@, snaps.len() as int);
                    assert(snaps.skip(snaps.len() as int) =~= Seq::<(Seq<char>, Seq<char>)>::empty());
                }
                self.snapshots.push(
                    SnapshotFile { file_name: file_name.to_owned(), data: data.to_owned() },
                );
                proof {
                    assert(self.snapshots_view() =~= snaps.push((file_name@, data@)));
                }
            },
        }
    }

    /// Index of the first manifest entry whose key equals `key`, if any.
    fn find_key_index(&self, key: &String) -> (r: Option<usize>)
        ensures
            r matches Some(i) ==> {
                &&& i < self.manifest_view().len()
                &&& self.manifest_view()[i as int].0 == key@
                &&& forall|j: int|
                    0 <= j < i ==> (#[trigger] self.manifest_view()[j]).0 != key@
            },
            r is None ==> forall|j: int|
                0 <= j < self.manifest_view().len() ==> (#[trigger] self.manifest_view()[j]).0
                    != key@,
    {
        let ghost entries = self.manifest_view();
        let n = self.json.champions.len();
        let mut i: usize = 0;
        while i < n
            invariant
                0 <= i <= n,
                n == self.json.champions@.len(),
                entries == self.manifest_view(),
                entries.len() == n,
                forall|j: int| 0 <= j < i ==> (#[trigger] entries[j]).0 != key@,
            decreases n - i,
        {
            if self.json.champions[i].name_with_lane == *key {
                return Some(i);
            }
            i = i + 1;
        }
        None
    }

    /// Index of the first snapshot whose file name equals `file`, if any.
    fn find_snapshot_index(&self, file: &String) -> (r: Option<usize>)
        ensures
            r matches Some(i) ==> {
                &&& i < self.snapshots_view().len()
                &&& self.snapshots_view()[i as int].0 == file@
                &&& forall|j: int|
                    0 <= j < i ==> (#[trigger] self.snapshots_view()[j]).0 != file@
            },
            r is None ==> forall|j: int|
                0 <= j < self.snapshots_view().len() ==> (#[trigger] self.snapshots_view()[j]).0
                    != file@,
    {
        let ghost snaps = self.snapshots_view();
        let n = self.snapshots.len();
        let mut i: usize = 0;
        while i < n
            invariant
                0 <= i <= n,
                n == self.snapshots@.len(),
                snaps == self.snapshots_view(),
                snaps.len() == n,
                forall|j: int| 0 <= j < i ==> (#[trigger] snaps[j]).0 != file@,
            decreases n - i,
        {
            if self.snapshots[i].file_name == *file {
                return Some(i);
            }
            i = i + 1;
        }
        None
    }
}

/// One serialized manifest line.
pub open spec fn spec_entry_json(e: (Seq<char>, int)) -> Seq<char> {
    "{\"name_with_lane\":\""@ + json_escaped(e.0) + "\",\"last_modified\":"@ + dec_str_i64(e.1)
        + "}"@
}

/// The serialized manifest lines, comma-separated.
pub open spec fn spec_entries_json(s: Seq<(Seq<char>, int)>) -> Seq<char>
    decreases s.len(),
{
    if s.len() == 0 {
        Seq::empty()
    } else if s.len() == 1 {
        spec_entry_json(s[0])
    } else {
        spec_entries_json(s.drop_last()) + ","@ + spec_entry_json(s.last())
    }
}

/// The serialized manifest document.
pub open spec fn spec_manifest_json(s: Seq<(Seq<char>, int)>) -> Seq<char> {
    "{\"champions\":["@ + spec_entries_json(s) + "]}"@
}

/// Writing a record and then looking one up: the probe finds the new value
/// exactly when it asks for the written key, and is otherwise undisturbed.
pub proof fn lemma_put_find<V>(
    records: Seq<(Seq<char>, V)>,
    key: Seq<char>,
    probe: Seq<char>,
    value: V,
)
    ensures
        find_value(put_value(records, key, value), probe) == (if probe == key {
            Some(value)
        } else {
            find_value(records, probe)
        }),
    decreases records.len(),
{
    let p = put_value(records, key, value);
    if records.len() == 0 {
        assert(p == seq![(key, value)]);
        assert(p[0] == (key, value));
        if probe == key {
            assert(find_value(p, probe) == Some(value));
        } else {
            assert(p.skip(1) =~= Seq::<(Seq<char>, V)>::empty());
            assert(find_value(p, probe) == find_value(p.skip(1), probe));
        }
    } else if records[0].0 == key {
        assert(p == seq![(key, value)] + records.skip(1));
        assert(p.len() > 0);
        assert(p[0] == (key, value));
        if probe == key {
            assert(find_value(p, probe) == Some(value));
        } else {
            assert(p.skip(1) =~= records.skip(1));
            assert(find_value(p, probe) == find_value(records.skip(1), probe));
            assert(find_value(records, probe) == find_value(records.skip(1), probe));
        }
    } else {
        lemma_put_find(records.skip(1), key, probe, value);
        assert(p == seq![records[0]] + put_value(records.skip(1), key, value));
        assert(p.len() > 0);
        assert(p[0] == records[0]);
        assert(p.skip(1) =~= put_value(records.skip(1), key, value));
        if probe == records[0].0 {
            assert(probe != key);
            assert(find_value(p, probe) == Some(records[0].1));
            assert(find_value(records, probe) == Some(records[0].1));
        } else {
            assert(find_value(p, probe) == find_value(p.skip(1), probe));
            assert(find_value(records, probe) == find_value(records.skip(1), probe));
        }
    }
}

/// A key the manifest has never seen is stale, whatever the clock says.
pub proof fn lemma_unseen_key_is_stale(
    entries: Seq<(Seq<char>, int)>,
    key: Seq<char>,
    days: int,
    now: int,
)
    requires
        find_value(entries, key) is None,
    ensures
        stale_in(entries, key, days, now),
{
}

/// A key refetched within the expiry window is not stale: after stamping it
/// at time `t`, any check before `t + days * 86400` reports fresh data.
pub proof fn lemma_refetch_within_window_not_stale(
    entries: Seq<(Seq<char>, int)>,
    key: Seq<char>,
    t: int,
    days: int,
    now: int,
)
    requires
        now - t < days * 86400,
    ensures
        !stale_in(put_value(entries, key, t), key, days, now),
{
    lemma_put_find(entries, key, key, t);
}

/// Restamping one key leaves every other key's staleness unchanged.
pub proof fn lemma_stamp_preserves_other_keys(
    entries: Seq<(Seq<char>, int)>,
    key: Seq<char>,
    other: Seq<char>,
    t: int,
    days: int,
    now: int,
)
    requires
        other != key,
    ensures
        stale_in(put_value(entries, key, t), other, days, now) == stale_in(
            entries,
            other,
            days,
            now,
        ),
{
    lemma_put_find(entries, key, other, t);
}

/// An empty manifest treats every key as stale: a lookup after clearing the
/// cache behaves exactly like a first-ever lookup.
pub proof fn lemma_cleared_cache_is_like_new(key: Seq<char>, days: int, now: int)
    ensures
        stale_in(Seq::<(Seq<char>, int)>::empty(), key, days, now),
        find_value(Seq::<(Seq<char>, int)>::empty(), key) is None,
{
}

/// Round trip: storing a snapshot payload and reading it back under the same
/// file name yields the identical character sequence.
pub proof fn lemma_snapshot_round_trip(
    snaps: Seq<(Seq<char>, Seq<char>)>,
    file: Seq<char>,
    data: Seq<char>,
)
    ensures
        find_value(put_value(snaps, file, data), file) == Some(data),
{
    lemma_put_find(snaps, file, file, data);
}

/// When the first match sits at position `i`, writing under that key is an
/// in-place update.
proof fn lemma_put_at_index<V>(records: Seq<(Seq<char>, V)>, key: Seq<char>, value: V, i: int)
    requires
        0 <= i < records.len(),
        records[i].0 == key,
        forall|j: int| 0 <= j < i ==> (#[trigger] records[j]).0 != key,
    ensures
        put_value(records, key, value) =~= records.update(i, (key, value)),
    decreases i,
{
    if i == 0 {
        assert(records[0].0 == key);
    } else {
        assert(records[0].0 != key);
        lemma_put_at_index(records.skip(1), key, value, i - 1);
        assert(seq![records[0]] + records.skip(1).update(i - 1, (key, value)) =~= records.update(
            i,
            (key, value),
        ));
    }
}

/// When no record matches, writing under the key appends a record.
proof fn lemma_put_append<V>(records: Seq<(Seq<char>, V)>, key: Seq<char>, value: V)
    requires
        forall|j: int| 0 <= j < records.len() ==> (#[trigger] records[j]).0 != key,
    ensures
        put_value(records, key, value) =~= records.push((key, value)),
    decreases records.len(),
{
    if records.len() > 0 {
        assert(records[0].0 != key);
        assert(forall|j: int|
            0 <= j < records.skip(1).len() ==> (#[trigger] records.skip(1)[j]).0 != key);
        lemma_put_append(records.skip(1), key, value);
        assert(seq![records[0]] + records.skip(1).push((key, value)) =~= records.push(
            (key, value),
        ));
    }
}

/// When no record before position `i` matches, the search result over the
/// whole sequence equals the result over the tail from `i`.
proof fn lemma_find_from<V>(entries: Seq<(Seq<char>, V)>, key: Seq<char>, i: int)
    requires
        0 <= i <= entries.len(),
        forall|j: int| 0 <= j < i ==> (#[trigger] entries[j]).0 != key,
    ensures
        find_value(entries, key) == find_value(entries.skip(i), key),
    decreases i,
{
    if i > 0 {
        assert(entries[0].0 != key);
        assert(entries.len() > 0);
        lemma_find_from(entries.skip(1), key, i - 1);
        assert(entries.skip(1).skip(i - 1) =~= entries.skip(i));
    } else {
        assert(entries.skip(0) =~= entries);
    }
}

} // verus!
