//! The persisted umount configuration and its reconciliation with the
//! kernel-held list.
//!
//! The configuration is a mapping from mount path to flags, persisted as a
//! JSON object with one field holding that mapping. Reading self-heals:
//! missing, empty or unparseable content yields the empty mapping together
//! with the canonical pretty-printed empty payload to write back. Edits
//! touch only the persisted mapping; the kernel list changes only through
//! the add requests that [`load_umount_config`] derives from the mapping.
use vstd::prelude::*;
use vstd::map::*;
use vstd::utf8::{encode_utf8, encode_utf8_decode_utf8, decode_utf8};
use crate::KsuError;
use crate::calls::{KsuRequest, umount_list_add, is_umount_add};
use crate::codec::MountInfo;

verus! {

/// Pairwise-distinct path keys.
pub open spec fn distinct_keys(s: Seq<(Seq<char>, u32)>) -> bool {
    forall|i: int, j: int|
        0 <= i < j < s.len() ==> (#[trigger] s[i]).0 != (#[trigger] s[j]).0
}

/// The mapping described by a key-value sequence; a later pair for the same
/// key overrides an earlier one.
pub open spec fn map_of(s: Seq<(Seq<char>, u32)>) -> Map<Seq<char>, u32>
    decreases s.len(),
{
    if s.len() == 0 {
        Map::empty()
    } else {
        map_of(s.drop_last()).insert(s.last().0, s.last().1)
    }
}

pub proof fn lemma_map_of_contains(s: Seq<(Seq<char>, u32)>, k: Seq<char>)
    ensures
        map_of(s).contains_key(k) <==> exists|i: int| 0 <= i < s.len() && (#[trigger] s[i]).0 == k,
    decreases s.len(),
{
    if s.len() > 0 {
        lemma_map_of_contains(s.drop_last(), k);
        if s.last().0 == k {
            assert(s[s.len() - 1].0 == k);
        } else {
            if map_of(s).contains_key(k) {
                let i = choose|i: int| 0 <= i < s.drop_last().len() && (#[trigger] s.drop_last()[
                    i]).0 == k;
                assert(s[i].0 == k);
            }
            if exists|i: int| 0 <= i < s.len() && (#[trigger] s[i]).0 == k {
                let i = choose|i: int| 0 <= i < s.len() && (#[trigger] s[i]).0 == k;
                assert(i < s.len() - 1);
                assert(s.drop_last()[i].0 == k);
            }
        }
    }
}

pub proof fn lemma_map_of_remove(s: Seq<(Seq<char>, u32)>, i: int)
    requires
        0 <= i < s.len(),
        distinct_keys(s),
    ensures
        map_of(s.remove(i)) == map_of(s).remove(s[i].0),
    decreases s.len(),
{
    let k = s[i].0;
    if i == s.len() - 1 {
        assert(s.remove(i) =~= s.drop_last());
        lemma_map_of_contains(s.drop_last(), k);
        assert(forall|j: int| 0 <= j < s.drop_last().len() ==> (#[trigger] s.drop_last()[j]).0
            == s[j].0);
        assert(!map_of(s.drop_last()).contains_key(k));
        assert_maps_equal!(map_of(s.drop_last()).insert(k, s[i].1).remove(k),
            map_of(s.drop_last()));
    } else {
        let dl = s.drop_last();
        assert(distinct_keys(dl)) by {
            assert(forall|j: int| 0 <= j < dl.len() ==> dl[j] == s[j]);
        }
        assert(dl[i] == s[i]);
        lemma_map_of_remove(dl, i);
        let sr = s.remove(i);
        assert(sr.drop_last() =~= dl.remove(i));
        assert(sr.last() == s.last());
        assert(s.last().0 != k);
        assert(map_of(sr) == map_of(dl).remove(k).insert(s.last().0, s.last().1));
        assert_maps_equal!(map_of(dl).remove(k).insert(s.last().0, s.last().1),
            map_of(dl).insert(s.last().0, s.last().1).remove(k));
    }
}

/// The persisted umount configuration: a mapping from mount path to flags,
/// held as entries with pairwise-distinct paths.
pub struct UmountConfig {
    entries: Vec<MountInfo>,
}

impl View for UmountConfig {
    type V = Map<Seq<char>, u32>;

    open spec fn view(&self) -> Map<Seq<char>, u32> {
        map_of(self.pairs())
    }
}

impl UmountConfig {
    /// The entries' mathematical content, in storage order.
    pub closed spec fn pairs(self) -> Seq<(Seq<char>, u32)> {
        self.entries@.map_values(|e: MountInfo| (e.path@, e.flags))
    }

    /// Well-formed: paths are unique keys.
    pub open spec fn wf(self) -> bool {
        distinct_keys(self.pairs())
    }

    /// An empty configuration.
    pub fn new() -> (r: UmountConfig)
        ensures
            r.wf(),
            r@ == Map::<Seq<char>, u32>::empty(),
            r.pairs() == Seq::<(Seq<char>, u32)>::empty(),
    {
        let r = UmountConfig { entries: Vec::new() };
        proof {
            assert(r.pairs() =~= Seq::<(Seq<char>, u32)>::empty());
        }
        r
    }

    /// How many paths are configured.
    pub fn len(&self) -> (r: usize)
        ensures
            r == self.pairs().len(),
    {
        self.entries.len()
    }

    fn find_path(&self, path: &str) -> (r: Option<usize>)
        ensures
            match r {
                Some(i) => i < self.entries@.len() && self.entries@[i as int].path@ == path@,
                None => forall|k: int|
                    0 <= k < self.entries@.len() ==> (#[trigger] self.entries@[k]).path@ != path@,
            },
    {
        let n = self.entries.len();
        let mut i: usize = 0;
        while i < n
            invariant
                i <= n,
                n == self.entries@.len(),
                forall|k: int| 0 <= k < i ==> (#[trigger] self.entries@[k]).path@ != path@,
            decreases n - i,
        {
            if str_eq(self.entries[i].path.as_str(), path) {
                return Some(i);
            }
            i += 1;
        }
        None
    }

    fn remove_entry(&mut self, path: &str) -> (r: bool)
        requires
            old(self).wf(),
        ensures
            final(self).wf(),
            final(self)@ == old(self)@.remove(path@),
            r == old(self)@.contains_key(path@),
            forall|k: int|
                0 <= k < final(self).entries@.len() ==> (#[trigger] final(self).entries@[
                k]).path@ != path@,
    {
        let found = self.find_path(path);
        proof {
            lemma_map_of_contains(self.pairs(), path@);
        }
        match found {
            None => {
                proof {
                    assert(forall|k: int| 0 <= k < self.pairs().len() ==> (#[trigger] self.pairs()[
                        k]).0 == self.entries@[k].path@);
                    assert(!old(self)@.contains_key(path@));
                    assert_maps_equal!(old(self)@.remove(path@), old(self)@);
                }
                false
            },
            Some(i) => {
                let ghost s = self.pairs();
                proof {
                    assert(s[i as int].0 == path@);
                    assert(s[i as int].0 == path@ && 0 <= i < s.len());
                    lemma_map_of_remove(s, i as int);
                }
                self.entries.remove(i);
                proof {
                    assert(self.pairs() =~= s.remove(i as int));
                    assert(distinct_keys(s.remove(i as int))) by {
                        assert(forall|a: int|
                            0 <= a < s.remove(i as int).len() ==> s.remove(i as int)[a] == (
                            if a < i {
                                s[a]
                            } else {
                                s[a + 1]
                            }));
                    }
                    assert forall|k: int| 0 <= k < self.entries@.len() implies (#[trigger] self
                        .entries@[k]).path@ != path@ by {
                        let a0 = if k < i { k } else { k + 1 };
                        assert(self.pairs()[k] == s[a0]);
                        if a0 != i {
                            assert(s[a0].0 != s[i as int].0);
                        }
                    }
                }
                true
            },
        }
    }

    /// Sets the flags for a path, inserting or overwriting its entry; only
    /// the persisted mapping changes, never the kernel-held list.
    pub fn add_umount(&mut self, path: &str, flags: u32)
        requires
            old(self).wf(),
        ensures
            final(self).wf(),
            final(self)@ == old(self)@.insert(path@, flags),
    {
        let _present = self.remove_entry(path);
        let ghost mid = *self;
        self.entries.push(MountInfo { path: path.to_owned(), flags });
        proof {
            assert(self.pairs() =~= mid.pairs().push((path@, flags)));
            assert(self.pairs().drop_last() =~= mid.pairs());
            assert(self@ == mid@.insert(path@, flags));
            assert_maps_equal!(old(self)@.remove(path@).insert(path@, flags),
                old(self)@.insert(path@, flags));
            assert forall|a: int, b: int|
                0 <= a < b < self.pairs().len() implies (#[trigger] self.pairs()[a]).0 != (
            #[trigger] self.pairs()[b]).0 by {
                if b == self.pairs().len() - 1 {
                    assert(self.pairs()[a] == mid.pairs()[a]);
                    assert(mid.entries@[a].path@ != path@);
                } else {
                    assert(self.pairs()[a] == mid.pairs()[a]);
                    assert(self.pairs()[b] == mid.pairs()[b]);
                }
            }
        }
    }

    /// Deletes a path's entry from the persisted mapping; reports whether
    /// anything was removed (only then does the file need rewriting). The
    /// kernel-held list is untouched.
    pub fn del_umount(&mut self, path: &str) -> (r: bool)
        requires
            old(self).wf(),
        ensures
            final(self).wf(),
            final(self)@ == old(self)@.remove(path@),
            r == old(self)@.contains_key(path@),
    {
        self.remove_entry(path)
    }

    /// Empties the persisted mapping; the kernel-held list is untouched.
    pub fn wipe_umount(&mut self)
        requires
            old(self).wf(),
        ensures
            final(self).wf(),
            final(self)@ == Map::<Seq<char>, u32>::empty(),
    {
        self.entries.clear();
        proof {
            assert(self.pairs() =~= Seq::<(Seq<char>, u32)>::empty());
        }
    }

    /// Reports the persisted configuration — not the live kernel list — as
    /// a JSON array of path/flags objects, in storage order.
    pub fn list_umount(&self) -> (r: String)
        ensures
            r@ == mounts_json_of(self.pairs(), "path"@, "flags"@),
    {
        let pairs = self.owned_pairs();
        mounts_to_json(&pairs, "path", "flags")
    }

    fn owned_pairs(&self) -> (r: Vec<(String, u32)>)
        ensures
            r@.map_values(|p: (String, u32)| (p.0@, p.1)) == self.pairs(),
    {
        let n = self.entries.len();
        let mut out: Vec<(String, u32)> = Vec::new();
        let mut i: usize = 0;
        while i < n
            invariant
                i <= n,
                n == self.entries@.len(),
                out@.len() == i,
                forall|k: int|
                    0 <= k < i ==> (#[trigger] out@[k]).0@ == self.entries@[k].path@ && out@[
                    k].1 == self.entries@[k].flags,
            decreases n - i,
        {
            let e = &self.entries[i];
            out.push((e.path.clone(), e.flags));
            i += 1;
        }
        proof {
            assert(out@.map_values(|p: (String, u32)| (p.0@, p.1)) =~= self.pairs());
        }
        out
    }
}

fn str_eq(a: &str, b: &str) -> (r: bool)
    ensures
        r == (a@ == b@),
{
    let ab = a.as_bytes();
    let bb = b.as_bytes();
    let n = ab.len();
    if n != bb.len() {
        return false;
    }
    let mut i: usize = 0;
    while i < n
        invariant
            i <= n,
            n == ab@.len() == bb@.len(),
            ab@ == encode_utf8(a@),
            bb@ == encode_utf8(b@),
            forall|k: int| 0 <= k < i ==> ab@[k] == bb@[k],
        decreases n - i,
    {
        if *vstd::slice::slice_index_get(ab, i) != *vstd::slice::slice_index_get(bb, i) {
            return false;
        }
        i += 1;
    }
    proof {
        assert(encode_utf8(a@) =~= encode_utf8(b@));
        encode_utf8_decode_utf8(a@);
        encode_utf8_decode_utf8(b@);
        assert(a@ == decode_utf8(encode_utf8(a@)));
    }
    true
}

/// What parsing persisted configuration text yields: the key-value pairs of
/// the JSON object stored under `key`, or nothing when the text is not such
/// a document.
pub uninterp spec fn config_parse_of(text: Seq<char>, key: Seq<char>) -> Option<
    Seq<(Seq<char>, u64)>,
>;

/// Relies on serde_json: the text is parsed as a JSON value, and the object
/// under `key` is read as a mapping from strings to unsigned integers. The
/// result depends on the text and key alone; a JSON object holds each key
/// once (the map is ordered by key), and empty text is not valid JSON.
#[verifier::external_body]
fn parse_config_pairs(text: &str, key: &str) -> (r: Option<Vec<(String, u64)>>)
    ensures
        match r {
            Some(v) => config_parse_of(text@, key@) == Some(
                v@.map_values(|p: (String, u64)| (p.0@, p.1)),
            ),
            None => config_parse_of(text@, key@) is None,
        },
        r matches Some(v) ==> forall|i: int, j: int|
            0 <= i < j < v@.len() ==> (#[trigger] v@[i]).0@ != (#[trigger] v@[j]).0@,
        text@.len() == 0 ==> r is None,
{
    let v: serde_json::Value = serde_json::from_str(text).ok()?;
    let m = match v.get(key) {
        Some(serde_json::Value::Object(m)) => m,
        _ => return None,
    };
    let mut out: Vec<(String, u64)> = Vec::new();
    for (k, val) in m {
        out.push((k.clone(), val.as_u64()?));
    }
    Some(out)
}

/// The pretty-printed persisted form of a configuration: a JSON object with
/// the entries' mapping stored under `key`.
pub uninterp spec fn config_pretty_of(entries: Seq<(Seq<char>, u32)>, key: Seq<char>) -> Seq<char>;

/// Relies on serde_json::to_string_pretty over a JSON object built from the
/// entries under `key`; the result depends on the arguments alone, and
/// serializing a JSON value cannot fail.
#[verifier::external_body]
fn pretty_config(entries: &Vec<(String, u32)>, key: &str) -> (r: String)
    ensures
        r@ == config_pretty_of(entries@.map_values(|p: (String, u32)| (p.0@, p.1)), key@),
{
    let mut m = serde_json::Map::new();
    for (k, v) in entries.iter() {
        m.insert(k.clone(), serde_json::Value::from(*v));
    }
    let mut outer = serde_json::Map::new();
    outer.insert(key.to_string(), serde_json::Value::Object(m));
    match serde_json::to_string_pretty(&serde_json::Value::Object(outer)) {
        Ok(s) => s,
        Err(_) => String::new(),
    }
}

/// The compact JSON report of a mount list: an array of objects carrying
/// each entry's path and flags under the given field names, in order.
pub uninterp spec fn mounts_json_of(
    entries: Seq<(Seq<char>, u32)>,
    path_key: Seq<char>,
    flags_key: Seq<char>,
) -> Seq<char>;

/// Relies on serde_json::to_string over a JSON array of one object per
/// entry; the result depends on the arguments alone, and serializing a JSON
/// value cannot fail.
#[verifier::external_body]
fn mounts_to_json(entries: &Vec<(String, u32)>, path_key: &str, flags_key: &str) -> (r: String)
    ensures
        r@ == mounts_json_of(
            entries@.map_values(|p: (String, u32)| (p.0@, p.1)),
            path_key@,
            flags_key@,
        ),
{
    let mut arr: Vec<serde_json::Value> = Vec::new();
    for (p, f) in entries.iter() {
        let mut o = serde_json::Map::new();
        o.insert(path_key.to_string(), serde_json::Value::from(p.clone()));
        o.insert(flags_key.to_string(), serde_json::Value::from(*f));
        arr.push(serde_json::Value::Object(o));
    }
    serde_json::to_string(&serde_json::Value::Array(arr)).unwrap_or_default()
}

/// The canonical persisted payload of the empty configuration — what a
/// fresh file receives, and what self-healing writes back.
pub open spec fn canonical_empty_config() -> Seq<char> {
    config_pretty_of(Seq::empty(), "paths"@)
}

/// The outcome of reading persisted configuration content.
pub struct ConfigLoad {
    /// The configuration the caller works with.
    pub config: UmountConfig,
    /// The payload to write back, present exactly when the stored content
    /// was missing, empty or unparseable and was healed.
    pub rewrite: Option<String>,
}

/// The read self-healed: the caller gets the empty mapping and the file is
/// to be rewritten with the canonical empty payload.
pub open spec fn spec_healed(r: ConfigLoad) -> bool {
    &&& r.config@ == Map::<Seq<char>, u32>::empty()
    &&& r.rewrite matches Some(w) && w@ == canonical_empty_config()
}

/// Every parsed value fits the 32-bit flags field.
pub open spec fn fits_u32(pairs: Seq<(Seq<char>, u64)>) -> bool {
    forall|i: int| 0 <= i < pairs.len() ==> (#[trigger] pairs[i]).1 <= u32::MAX
}

/// The parsed pairs with their values narrowed to the 32-bit flags field.
pub open spec fn to_u32_pairs(s: Seq<(Seq<char>, u64)>) -> Seq<(Seq<char>, u32)> {
    Seq::new(s.len(), |i: int| (s[i].0, s[i].1 as u32))
}

/// The mapping a well-ranged parse describes.
pub open spec fn parsed_map(pairs: Seq<(Seq<char>, u64)>) -> Map<Seq<char>, u32> {
    map_of(to_u32_pairs(pairs))
}

fn healed_load() -> (r: ConfigLoad)
    ensures
        spec_healed(r),
        r.config.wf(),
{
    let empty: Vec<(String, u32)> = Vec::new();
    let w = pretty_config(&empty, "paths");
    proof {
        assert(empty@.map_values(|p: (String, u32)| (p.0@, p.1)) =~= Seq::<(Seq<char>, u32)>::empty());
    }
    ConfigLoad { config: UmountConfig::new(), rewrite: Some(w) }
}

/// Reads persisted configuration content (`None` when the file is missing).
/// Parseable content with in-range flags yields its mapping and no
/// rewrite; anything else — a missing file, empty text, unparseable text,
/// an out-of-range value — self-heals to the empty mapping plus the
/// canonical empty payload to write back. Corruption is never an error.
pub fn read_config(content: &Option<String>) -> (r: ConfigLoad)
    ensures
        r.config.wf(),
        match *content {
            None => spec_healed(r),
            Some(text) => match config_parse_of(text@, "paths"@) {
                Some(pairs) => {
                    &&& (fits_u32(pairs) ==> r.config@ == parsed_map(pairs) && r.rewrite is None)
                    &&& (!fits_u32(pairs) ==> spec_healed(r))
                },
                None => spec_healed(r),
            },
        },
{
    let text = match content {
        None => {
            return healed_load();
        },
        Some(t) => t,
    };
    let res = parse_config_pairs(text.as_str(), "paths");
    let parsed = match res {
        None => {
            return healed_load();
        },
        Some(v) => v,
    };
    let ghost pairs = config_parse_of(text@, "paths"@).unwrap();
    proof {
        assert(config_parse_of(text@, "paths"@) is Some);
        assert(pairs.len() == parsed@.len());
        assert(forall|k: int|
            0 <= k < parsed@.len() ==> #[trigger] pairs[k] == (parsed@[k].0@, parsed@[k].1));
    }
    let n = parsed.len();
    let mut entries: Vec<MountInfo> = Vec::new();
    let mut i: usize = 0;
    while i < n
        invariant
            i <= n,
            n == parsed@.len(),
            *content is Some,
            *text == (*content).unwrap(),
            config_parse_of(text@, "paths"@) == Some(pairs),
            pairs.len() == parsed@.len(),
            forall|k: int|
                0 <= k < parsed@.len() ==> #[trigger] pairs[k] == (parsed@[k].0@, parsed@[k].1),
            forall|a: int, b: int|
                0 <= a < b < parsed@.len() ==> (#[trigger] parsed@[a]).0@ != (
                #[trigger] parsed@[b]).0@,
            entries@.len() == i,
            forall|k: int|
                0 <= k < i ==> (#[trigger] entries@[k]).path@ == pairs[k].0 && entries@[k].flags
                    == pairs[k].1 as u32,
            forall|k: int| 0 <= k < i ==> (#[trigger] pairs[k]).1 <= u32::MAX,
        decreases n - i,
    {
        let p = &parsed[i];
        if p.1 > 0xffff_ffffu64 {
            proof {
                assert(pairs[i as int].1 > u32::MAX);
                assert(!fits_u32(pairs));
            }
            return healed_load();
        }
        entries.push(MountInfo { path: p.0.clone(), flags: p.1 as u32 });
        i += 1;
    }
    let config = UmountConfig { entries };
    proof {
        assert(fits_u32(pairs));
        assert(config.pairs() =~= to_u32_pairs(pairs));
        assert(config.wf()) by {
            assert forall|a: int, b: int|
                0 <= a < b < config.pairs().len() implies (#[trigger] config.pairs()[a]).0 != (
            #[trigger] config.pairs()[b]).0 by {
                assert(parsed@[a].0@ != parsed@[b].0@);
            }
        }
    }
    ConfigLoad { config, rewrite: None }
}

/// Serializes the configuration as its persisted pretty-printed payload.
pub fn write_config(cfg: &UmountConfig) -> (r: String)
    ensures
        r@ == config_pretty_of(cfg.pairs(), "paths"@),
{
    let pairs = cfg.owned_pairs();
    pretty_config(&pairs, "paths")
}

/// Derives the boot-time replay of the persisted mapping into the kernel
/// list: one add request per entry, in storage order. The first path that
/// cannot be null-terminated stops the replay with an error, exactly when
/// such a path exists.
pub fn load_umount_config(cfg: &UmountConfig) -> (r: Result<Vec<KsuRequest>, KsuError>)
    ensures
        r matches Ok(reqs) ==> reqs@.len() == cfg.pairs().len() && forall|i: int|
            0 <= i < reqs@.len() ==> is_umount_add(
                #[trigger] reqs@[i],
                cfg.pairs()[i].0,
                cfg.pairs()[i].1,
            ),
        r is Ok <==> forall|i: int|
            0 <= i < cfg.pairs().len() ==> !encode_utf8((#[trigger] cfg.pairs()[i]).0).contains(
                0u8,
            ),
        r matches Err(e) ==> e == KsuError::EmbeddedNul,
{
    let n = cfg.len();
    let mut reqs: Vec<KsuRequest> = Vec::new();
    let mut i: usize = 0;
    while i < n
        invariant
            i <= n,
            n == cfg.pairs().len(),
            reqs@.len() == i,
            forall|k: int|
                0 <= k < i ==> is_umount_add(#[trigger] reqs@[k], cfg.pairs()[k].0, cfg.pairs()[
                    k].1),
            forall|k: int|
                0 <= k < i ==> !encode_utf8((#[trigger] cfg.pairs()[k]).0).contains(0u8),
        decreases n - i,
    {
        let e = cfg.entry_at(i);
        match umount_list_add(e.0.as_str(), e.1) {
            Ok(req) => {
                reqs.push(req);
            },
            Err(err) => {
                proof {
                    assert(encode_utf8(cfg.pairs()[i as int].0).contains(0u8));
                }
                return Err(err);
            },
        }
        i += 1;
    }
    Ok(reqs)
}

impl UmountConfig {
    /// One entry's path and flags.
    pub fn entry_at(&self, i: usize) -> (r: (String, u32))
        requires
            i < self.pairs().len(),
        ensures
            r.0@ == self.pairs()[i as int].0,
            r.1 == self.pairs()[i as int].1,
    {
        let e = &self.entries[i];
        (e.path.clone(), e.flags)
    }
}

} // verus!
