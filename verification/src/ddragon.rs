//! The static reference-data lookup: the champion name/id/key table from
//! the public versioned API, held as a keyed list. Fetching the table is
//! the caller's; this module builds it from the fetched columns and
//! answers lookups.

use vstd::prelude::*;

verus! {

broadcast use vstd::string::group_string_axioms;

/// One champion's reference record.
#[derive(Debug, Clone, PartialEq)]
pub struct Champion {
    pub id: String,
    pub key: String,
    pub name: String,
}

/// The catalog languages the public API serves.
#[derive(Debug, Clone, Copy, PartialEq, Eq, Structural)]
#[allow(non_camel_case_types)]
pub enum Language {
    en_US,
    cs_CZ,
    de_DE,
    el_GR,
    en_AU,
    en_GB,
    en_PH,
    en_SG,
    es_AR,
    es_ES,
    es_MX,
    fr_FR,
    hu_HU,
    id_ID,
    it_IT,
    ja_JP,
    ko_KR,
    pl_PL,
    pt_BR,
    ro_RO,
    ru_RU,
    th_TH,
    tr_TR,
    vn_VN,
    zh_CN,
    zh_MY,
    zh_TW,
}

/// The language's code as the API spells it.
pub open spec fn spec_language_code(l: Language) -> Seq<char> {
    match l {
        Language::en_US => "en_US"@,
        Language::cs_CZ => "cs_CZ"@,
        Language::de_DE => "de_DE"@,
        Language::el_GR => "el_GR"@,
        Language::en_AU => "en_AU"@,
        Language::en_GB => "en_GB"@,
        Language::en_PH => "en_PH"@,
        Language::en_SG => "en_SG"@,
        Language::es_AR => "es_AR"@,
        Language::es_ES => "es_ES"@,
        Language::es_MX => "es_MX"@,
        Language::fr_FR => "fr_FR"@,
        Language::hu_HU => "hu_HU"@,
        Language::id_ID => "id_ID"@,
        Language::it_IT => "it_IT"@,
        Language::ja_JP => "ja_JP"@,
        Language::ko_KR => "ko_KR"@,
        Language::pl_PL => "pl_PL"@,
        Language::pt_BR => "pt_BR"@,
        Language::ro_RO => "ro_RO"@,
        Language::ru_RU => "ru_RU"@,
        Language::th_TH => "th_TH"@,
        Language::tr_TR => "tr_TR"@,
        Language::vn_VN => "vn_VN"@,
        Language::zh_CN => "zh_CN"@,
        Language::zh_MY => "zh_MY"@,
        Language::zh_TW => "zh_TW"@,
    }
}

impl Language {
    /// The language's code as the API spells it.
    pub fn code(&self) -> (r: String)
        ensures
            r@ == spec_language_code(*self),
    {
        match self {
            Language::en_US => "en_US".to_owned(),
            Language::cs_CZ => "cs_CZ".to_owned(),
            Language::de_DE => "de_DE".to_owned(),
            Language::el_GR => "el_GR".to_owned(),
            Language::en_AU => "en_AU".to_owned(),
            Language::en_GB => "en_GB".to_owned(),
            Language::en_PH => "en_PH".to_owned(),
            Language::en_SG => "en_SG".to_owned(),
            Language::es_AR => "es_AR".to_owned(),
            Language::es_ES => "es_ES".to_owned(),
            Language::es_MX => "es_MX".to_owned(),
            Language::fr_FR => "fr_FR".to_owned(),
            Language::hu_HU => "hu_HU".to_owned(),
            Language::id_ID => "id_ID".to_owned(),
            Language::it_IT => "it_IT".to_owned(),
            Language::ja_JP => "ja_JP".to_owned(),
            Language::ko_KR => "ko_KR".to_owned(),
            Language::pl_PL => "pl_PL".to_owned(),
            Language::pt_BR => "pt_BR".to_owned(),
            Language::ro_RO => "ro_RO".to_owned(),
            Language::ru_RU => "ru_RU".to_owned(),
            Language::th_TH => "th_TH".to_owned(),
            Language::tr_TR => "tr_TR".to_owned(),
            Language::vn_VN => "vn_VN".to_owned(),
            Language::zh_CN => "zh_CN".to_owned(),
            Language::zh_MY => "zh_MY".to_owned(),
            Language::zh_TW => "zh_TW".to_owned(),
        }
    }
}

/// The first champion whose key matches.
pub open spec fn spec_find_champion(s: Seq<Champion>, key: Seq<char>) -> Option<Champion>
    decreases s.len(),
{
    if s.len() == 0 {
        None
    } else if s[0].key@ == key {
        Some(s[0])
    } else {
        spec_find_champion(s.skip(1), key)
    }
}

/// The newest version is the first entry of the version list the public
/// API serves; an empty list is an error.
pub fn latest_version(versions: &Vec<String>) -> (r: Result<String, String>)
    ensures
        versions@.len() == 0 ==> (r matches Err(m) && m@
            == "get versions array but it length is zero."@),
        versions@.len() > 0 ==> (r matches Ok(v) && v@ == versions@[0]@),
{
    if versions.len() == 0 {
        Err("get versions array but it length is zero.".to_owned())
    } else {
        Ok(versions[0].clone())
    }
}

/// Builds the champion table from the three columns the catalog document
/// carries; the columns must be equally long, pairing up the i-th name,
/// id and key.
pub fn build_champions(
    names: &Vec<String>,
    ids: &Vec<String>,
    keys: &Vec<String>,
) -> (r: Result<Vec<Champion>, String>)
    ensures
        !(names@.len() == ids@.len() && ids@.len() == keys@.len()) ==> (r matches Err(m) && m@
            == "Champions name, id and key length is no same!"@),
        names@.len() == ids@.len() && ids@.len() == keys@.len() ==> (r matches Ok(cs) && ({
            &&& cs@.len() == names@.len()
            &&& forall|j: int|
                0 <= j < cs@.len() ==> ((#[trigger] cs@[j]).name@ == names@[j]@ && cs@[j].id@
                    == ids@[j]@ && cs@[j].key@ == keys@[j]@)
        })),
{
    if !(names.len() == ids.len() && ids.len() == keys.len()) {
        return Err("Champions name, id and key length is no same!".to_owned());
    }
    let n = names.len();
    let mut champions: Vec<Champion> = Vec::new();
    let mut i: usize = 0;
    while i < n
        invariant
            0 <= i <= n,
            n == names@.len(),
            n == ids@.len(),
            n == keys@.len(),
            champions@.len() == i,
            forall|j: int|
                0 <= j < i ==> ((#[trigger] champions@[j]).name@ == names@[j]@ && champions@[j].id@
                    == ids@[j]@ && champions@[j].key@ == keys@[j]@),
        decreases n - i,
    {
        champions.push(
            Champion { id: ids[i].clone(), key: keys[i].clone(), name: names[i].clone() },
        );
        i = i + 1;
    }
    Ok(champions)
}

/// The reference-data table: champions by key, under one catalog version.
#[derive(Debug)]
pub struct DDragon {
    champions: Vec<Champion>,
    version: String,
    language: Language,
}

impl DDragon {
    /// The champion table.
    pub closed spec fn champions_view(&self) -> Seq<Champion> {
        self.champions@
    }

    /// The catalog version the table was built from.
    pub closed spec fn spec_version(&self) -> Seq<char> {
        self.version@
    }

    pub closed spec fn spec_language(&self) -> Language {
        self.language
    }

    /// Wraps an already-fetched catalog: its version and champion table.
    pub fn from_parts(version: String, champions: Vec<Champion>, language: Language) -> (r: Self)
        ensures
            r.champions_view() == champions@,
            r.spec_version() == version@,
            r.spec_language() == language,
    {
        DDragon { champions, version, language }
    }

    /// Looks a champion up by key; an unknown key is reported with the
    /// key spelled out.
    pub fn get_champion_information(&self, key: &str) -> (r: Result<Champion, String>)
        ensures
            spec_find_champion(self.champions_view(), key@) matches Some(c) ==> (r matches Ok(rc)
                && rc.id@ == c.id@ && rc.key@ == c.key@ && rc.name@ == c.name@),
            spec_find_champion(self.champions_view(), key@) is None ==> (r matches Err(m) && m@
                == "Key value "@ + key@ + " no match with ddragon!"@),
    {
        let ghost table = self.champions_view();
        let probe = key.to_owned();
        let n = self.champions.len();
        let mut i: usize = 0;
        while i < n
            invariant
                0 <= i <= n,
                n == self.champions@.len(),
                table == self.champions_view(),
                probe@ == key@,
                forall|j: int| 0 <= j < i ==> (#[trigger] table[j]).key@ != key@,
            decreases n - i,
        {
            if self.champions[i].key == probe {
                proof {
                    assert(self.champions@[i as int].key@ == key@);
                    assert(table[i as int] == self.champions@[i as int]);
                    lemma_find_champion_from(table, key@, i as int);
                    assert(table.skip(i as int)[0] == table[i as int]);
                    assert(spec_find_champion(table, key@) == Some(table[i as int]));
                }
                let c = &self.champions[i];
                return Ok(
                    Champion { id: c.id.clone(), key: c.key.clone(), name: c.name.clone() },
                );
            }
            proof {
                assert(self.champions@[i as int].key@ != key@);
                assert(table[i as int] == self.champions@[i as int]);
            }
            i = i + 1;
        }
        proof {
            lemma_find_champion_from(table, key@, n as int);
            assert(table.skip(n as int) =~= Seq::<Champion>::empty());
        }
        let mut m = String::from_str("Key value ");
        m.append(key);
        m.append(" no match with ddragon!");
        Err(m)
    }

    /// The catalog version, owned.
    pub fn get_version(&self) -> (r: String)
        ensures
            r@ == self.spec_version(),
    {
        self.version.clone()
    }
}

/// When no champion before position `i` matches, the lookup over the whole
/// table equals the lookup over the tail from `i`.
proof fn lemma_find_champion_from(s: Seq<Champion>, key: Seq<char>, i: int)
    requires
        0 <= i <= s.len(),
        forall|j: int| 0 <= j < i ==> (#[trigger] s[j]).key@ != key,
    ensures
        spec_find_champion(s, key) == spec_find_champion(s.skip(i), key),
    decreases i,
{
    if i > 0 {
        assert(s[0].key@ != key);
        lemma_find_champion_from(s.skip(1), key, i - 1);
        assert(s.skip(1).skip(i - 1) =~= s.skip(i));
    } else {
        assert(s.skip(0) =~= s);
    }
}

} // verus!
