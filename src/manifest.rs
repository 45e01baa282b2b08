//! Manifest resolution: from the raw bytes of a Vite build manifest to the
//! entry that a layout serves.
use vstd::prelude::*;
use crate::json::{JsonModel, json_model, json_of_bytes, parse_json, object_members};

verus! {

/// One entry of the manifest: its output file, the file's integrity digest if
/// the build recorded one, and its stylesheets in the order the build lists them.
#[derive(Debug)]
pub struct ManifestEntry {
    pub file: String,
    pub integrity: Option<String>,
    pub css: Option<Vec<String>>,
}

/// The content of a [`ManifestEntry`].
pub ghost struct EntryModel {
    pub file: Seq<char>,
    pub integrity: Option<Seq<char>>,
    pub css: Option<Seq<Seq<char>>>,
}

/// The contents of a list of strings.
pub open spec fn strings_view(v: Seq<String>) -> Seq<Seq<char>> {
    v.map_values(|s: String| s@)
}

impl View for ManifestEntry {
    type V = EntryModel;

    open spec fn view(&self) -> EntryModel {
        EntryModel {
            file: self.file@,
            integrity: match self.integrity {
                Some(s) => Some(s@),
                None => None,
            },
            css: match self.css {
                Some(v) => Some(strings_view(v@)),
                None => None,
            },
        }
    }
}

/// Why a layout could not be configured.
#[derive(Debug)]
pub enum ViteError {
    /// The manifest file could not be read.
    ManifestMissing,
    /// The manifest is not UTF-8 JSON text of an object whose members are entries.
    MalformedManifest,
    /// The manifest has no entry of the requested name.
    EntryMissing(&'static str),
}

impl ViteError {
    /// A one-line description of the error.
    pub fn message(&self) -> (r: String)
        ensures
            self is ManifestMissing ==> r@ == "couldn't open manifest file"@,
            self is MalformedManifest ==> r@ == "malformed manifest"@,
            self is EntryMissing ==> r@ == "manifest missing entry for "@ + self->EntryMissing_0@,
    {
        match self {
            ViteError::ManifestMissing => String::from_str("couldn't open manifest file"),
            ViteError::MalformedManifest => String::from_str("malformed manifest"),
            ViteError::EntryMissing(entry) => {
                let mut r = String::from_str("manifest missing entry for ");
                r.append(entry);
                r
            },
        }
    }
}

/// An optional string member `k` of `m`: absent or `null` reads as `None`,
/// a string as `Some`; any other value makes the entry malformed (outer `None`).
pub open spec fn optional_string(m: Map<Seq<char>, JsonModel>, k: Seq<char>) -> Option<
    Option<Seq<char>>,
> {
    if !m.contains_key(k) {
        Some(None)
    } else {
        match m[k] {
            JsonModel::Null => Some(None),
            JsonModel::Str(s) => Some(Some(s)),
            _ => None,
        }
    }
}

/// An optional list-of-strings member `k` of `m`, read as [`optional_string`] reads a string.
pub open spec fn optional_list(m: Map<Seq<char>, JsonModel>, k: Seq<char>) -> Option<
    Option<Seq<Seq<char>>>,
> {
    if !m.contains_key(k) {
        Some(None)
    } else {
        match m[k] {
            JsonModel::Null => Some(None),
            JsonModel::Array(a) => if forall|i: int| 0 <= i < a.len() ==> (#[trigger] a[i]) is Str {
                Some(Some(a.map_values(|j: JsonModel| j->Str_0)))
            } else {
                None
            },
            _ => None,
        }
    }
}

/// The entry that the JSON value `j` describes, if it is one: an object with a
/// string `file`, an optional string `integrity` and an optional list of
/// strings `css`. Other members are ignored.
pub open spec fn entry_of(j: JsonModel) -> Option<EntryModel> {
    match j {
        JsonModel::Object(m) => if m.contains_key("file"@) && m["file"@] is Str && optional_string(
            m,
            "integrity"@,
        ) is Some && optional_list(m, "css"@) is Some {
            Some(
                EntryModel {
                    file: m["file"@]->Str_0,
                    integrity: optional_string(m, "integrity"@)->Some_0,
                    css: optional_list(m, "css"@)->Some_0,
                },
            )
        } else {
            None
        },
        _ => None,
    }
}

/// The manifest that `j` describes: an object all of whose members are entries.
pub open spec fn manifest_of(j: JsonModel) -> Option<Map<Seq<char>, EntryModel>> {
    match j {
        JsonModel::Object(m) => if forall|k: Seq<char>|
            #[trigger] m.contains_key(k) ==> entry_of(m[k]) is Some {
            Some(Map::new(|k: Seq<char>| m.contains_key(k), |k: Seq<char>| entry_of(m[k])->Some_0))
        } else {
            None
        },
        _ => None,
    }
}

/// The manifest that the bytes `b` hold, if they hold one.
pub open spec fn manifest_of_bytes(b: Seq<u8>) -> Option<Map<Seq<char>, EntryModel>> {
    match json_of_bytes(b) {
        Some(j) => manifest_of(j),
        None => None,
    }
}

/// Resolving `entry` in the manifest bytes `b`: `None` for a malformed
/// manifest, `Some(None)` for a well-formed one without that entry.
pub open spec fn resolution(b: Seq<u8>, entry: Seq<char>) -> Option<Option<EntryModel>> {
    match manifest_of_bytes(b) {
        Some(m) => if m.contains_key(entry) {
            Some(Some(m[entry]))
        } else {
            Some(None)
        },
        None => None,
    }
}

/// The position of the member named `key` among `members`, if there is one.
fn find_member(members: &Vec<(String, serde_json::Value)>, key: &str) -> (r: Option<usize>)
    ensures
        r is Some ==> r->Some_0 < members@.len() && members@[r->Some_0 as int].0@ == key@,
        r is None ==> forall|i: int| 0 <= i < members@.len() ==> (#[trigger] members@[i]).0@ != key@,
{
    let target = String::from_str(key);
    let mut i: usize = 0;
    while i < members.len()
        invariant
            i <= members@.len(),
            target@ == key@,
            forall|j: int| 0 <= j < i ==> (#[trigger] members@[j]).0@ != key@,
        decreases members@.len() - i,
    {
        if members[i].0 == target {
            return Some(i);
        }
        i = i + 1;
    }
    None
}

/// Reads the optional string member `key` of the object whose members are `members`.
fn read_optional_string(
    members: &Vec<(String, serde_json::Value)>,
    key: &str,
    m: Ghost<Map<Seq<char>, JsonModel>>,
) -> (r: Option<Option<String>>)
    requires
        forall|i: int|
            0 <= i < members@.len() ==> m@.contains_key((#[trigger] members@[i]).0@) && m@[members@[i].0@]
                == json_model(members@[i].1),
        forall|k: Seq<char>|
            #[trigger] m@.contains_key(k) ==> exists|i: int|
                0 <= i < members@.len() && (#[trigger] members@[i]).0@ == k,
    ensures
        r is Some <==> optional_string(m@, key@) is Some,
        r is Some ==> match r->Some_0 {
            Some(s) => optional_string(m@, key@)->Some_0 == Some(s@),
            None => optional_string(m@, key@)->Some_0 is None,
        },
{
    match find_member(members, key) {
        None => Some(None),
        Some(i) => {
            let v = &members[i].1;
            assert(m@.contains_key(key@) && m@[key@] == json_model(*v));
            if v.is_null() {
                Some(None)
            } else {
                match v.as_str() {
                    Some(s) => Some(Some(String::from_str(s))),
                    None => None,
                }
            }
        },
    }
}

/// Reads the optional list-of-strings member `key` of the object whose members are `members`.
fn read_optional_list(
    members: &Vec<(String, serde_json::Value)>,
    key: &str,
    m: Ghost<Map<Seq<char>, JsonModel>>,
) -> (r: Option<Option<Vec<String>>>)
    requires
        forall|i: int|
            0 <= i < members@.len() ==> m@.contains_key((#[trigger] members@[i]).0@) && m@[members@[i].0@]
                == json_model(members@[i].1),
        forall|k: Seq<char>|
            #[trigger] m@.contains_key(k) ==> exists|i: int|
                0 <= i < members@.len() && (#[trigger] members@[i]).0@ == k,
    ensures
        r is Some <==> optional_list(m@, key@) is Some,
        r is Some ==> match r->Some_0 {
            Some(v) => optional_list(m@, key@)->Some_0 == Some(strings_view(v@)),
            None => optional_list(m@, key@)->Some_0 is None,
        },
{
    match find_member(members, key) {
        None => Some(None),
        Some(i) => {
            let v = &members[i].1;
            assert(m@.contains_key(key@) && m@[key@] == json_model(*v));
            if v.is_null() {
                return Some(None);
            }
            match v.as_array() {
                None => None,
                Some(items) => {
                    let ghost a = json_model(*v)->Array_0;
                    let mut out: Vec<String> = Vec::new();
                    let mut j: usize = 0;
                    while j < items.len()
                        invariant
                            j <= items@.len(),
                            a.len() == items@.len(),
                            m@.contains_key(key@),
                            m@[key@] == JsonModel::Array(a),
                            forall|t: int| 0 <= t < items@.len() ==> #[trigger] json_model(items@[t]) == a[t],
                            out@.len() == j,
                            forall|t: int| 0 <= t < j ==> (#[trigger] a[t]) is Str && out@[t]@ == a[t]->Str_0,
                        decreases items@.len() - j,
                    {
                        match items[j].as_str() {
                            Some(s) => out.push(String::from_str(s)),
                            None => {
                                assert(!(a[j as int] is Str));
                                assert(!(forall|t: int| 0 <= t < a.len() ==> (#[trigger] a[t]) is Str));
                                assert(optional_list(m@, key@) is None);
                                return None;
                            },
                        }
                        j = j + 1;
                    }
                    assert(strings_view(out@) =~= a.map_values(|x: JsonModel| x->Str_0));
                    Some(Some(out))
                },
            }
        },
    }
}

/// Reads the manifest entry that `v` describes.
fn read_entry(v: &serde_json::Value) -> (r: Option<ManifestEntry>)
    ensures
        r is Some <==> entry_of(json_model(*v)) is Some,
        r is Some ==> r->Some_0@ == entry_of(json_model(*v))->Some_0,
{
    let members = match object_members(v) {
        Some(members) => members,
        None => return None,
    };
    let ghost m = json_model(*v)->Object_0;
    let file = match find_member(&members, "file") {
        Some(i) => match members[i].1.as_str() {
            Some(s) => String::from_str(s),
            None => return None,
        },
        None => return None,
    };
    let integrity = match read_optional_string(&members, "integrity", Ghost(m)) {
        Some(x) => x,
        None => return None,
    };
    let css = match read_optional_list(&members, "css", Ghost(m)) {
        Some(x) => x,
        None => return None,
    };
    Some(ManifestEntry { file, integrity, css })
}

/// Resolves `entry` in the manifest bytes `manifest`.
pub fn resolve(manifest: &[u8], entry: &'static str) -> (r: Result<ManifestEntry, ViteError>)
    ensures
        resolution(manifest@, entry@) is None <==> r matches Err(ViteError::MalformedManifest),
        resolution(manifest@, entry@) == Some(None::<EntryModel>) <==> (r matches Err(
            ViteError::EntryMissing(e),
        ) && e == entry),
        r is Ok <==> resolution(manifest@, entry@) matches Some(Some(_)),
        r is Ok ==> resolution(manifest@, entry@) == Some(Some(r->Ok_0@)),
        r is Err ==> !(r matches Err(ViteError::ManifestMissing)),
{
    let value = match parse_json(manifest) {
        Ok(value) => value,
        Err(_) => return Err(ViteError::MalformedManifest),
    };
    let members = match object_members(&value) {
        Some(members) => members,
        None => return Err(ViteError::MalformedManifest),
    };
    let ghost m = json_model(value)->Object_0;
    let target = String::from_str(entry);
    let mut found: Option<ManifestEntry> = None;
    let mut i: usize = 0;
    while i < members.len()
        invariant
            i <= members@.len(),
            target@ == entry@,
            json_model(value) == JsonModel::Object(m),
            json_of_bytes(manifest@) == Some(json_model(value)),
            forall|t: int|
                0 <= t < members@.len() ==> m.contains_key((#[trigger] members@[t]).0@) && m[members@[t].0@]
                    == json_model(members@[t].1),
            forall|t: int| 0 <= t < i ==> (entry_of(json_model(#[trigger] members@[t].1)) is Some),
            found is Some <==> exists|t: int| 0 <= t < i && (#[trigger] members@[t]).0@ == entry@,
            found is Some ==> m.contains_key(entry@) && entry_of(m[entry@]) == Some(found->Some_0@),
        decreases members@.len() - i,
    {
        let parsed = read_entry(&members[i].1);
        match parsed {
            None => {
                assert(m.contains_key(members@[i as int].0@));
                assert(entry_of(m[members@[i as int].0@]) is None);
                assert(!(forall|k2: Seq<char>| #[trigger] m.contains_key(k2) ==> entry_of(m[k2]) is Some));
                assert(manifest_of(json_model(value)) is None);
                return Err(ViteError::MalformedManifest);
            },
            Some(e) => {
                if members[i].0 == target {
                    found = Some(e);
                }
            },
        }
        i = i + 1;
    }
    assert forall|k: Seq<char>| #[trigger] m.contains_key(k) implies entry_of(m[k]) is Some by {
        let t = choose|t: int| 0 <= t < members@.len() && (#[trigger] members@[t]).0@ == k;
        assert(entry_of(json_model(members@[t].1)) is Some);
    }
    match found {
        Some(e) => Ok(e),
        None => {
            assert(!m.contains_key(entry@));
            Err(ViteError::EntryMissing(entry))
        },
    }
}

/// Resolution depends on the manifest bytes and the entry name alone: the same
/// bytes give the same entry, or the same error, every time.
pub proof fn lemma_resolve_deterministic(b1: Seq<u8>, b2: Seq<u8>, entry: Seq<char>)
    requires
        b1 == b2,
    ensures
        resolution(b1, entry) == resolution(b2, entry),
{
}

/// In a well-formed manifest, a name that has no entry gives the missing-entry
/// error, never the malformed-manifest one.
pub proof fn lemma_absent_entry_is_missing(b: Seq<u8>, entry: Seq<char>)
    requires
        manifest_of_bytes(b) is Some,
        !manifest_of_bytes(b)->Some_0.contains_key(entry),
    ensures
        resolution(b, entry) == Some(None::<EntryModel>),
{
}

} // verus!
