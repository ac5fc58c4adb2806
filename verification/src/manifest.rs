//! Loading the manifest: the TOML document `entries = [ { title, filename },
//! .. ]` becomes the ordered blog index.  The TOML crate parses the text and
//! hands over the raw entries; key derivation, path joining and ordering are
//! this crate's own verified logic.

use vstd::prelude::*;
use crate::blog::{BlogEntry, BlogIndex};
use crate::errors::LoadError;
use crate::text;

verus! {

/// The raw entries that the manifest text declares, as (title, filename)
/// pairs in declaration order, or `None` when the text is not a TOML
/// document of the shape `entries = [ { title, filename }, .. ]`.  A
/// function of the text alone.
pub uninterp spec fn manifest_entries(text: Seq<char>) -> Option<
    Seq<(Seq<char>, Seq<char>)>,
>;

/// One raw manifest entry, exactly as declared in the manifest: the display
/// title and the Markdown filename.  Structural input only; the loaded
/// index keeps the derived descriptor instead.
#[derive(Debug, Clone, PartialEq, Eq)]
pub struct RawEntry {
    pub title: String,
    pub filename: String,
}

/// The (title, filename) view of each raw entry, in order.
pub open spec fn raw_views(items: Seq<RawEntry>) -> Seq<(Seq<char>, Seq<char>)> {
    Seq::new(items.len(), |i: int| (items[i].title@, items[i].filename@))
}

/// Relies on `toml::from_str` and `toml::Value::{get, as_array, as_str}`,
/// doing in one step what the manifest schema asks of the parse: the raw
/// entries a text yields are a function of the text alone.  `Err(Some(m))`
/// carries the TOML parser's message for text it rejects; `Err(None)` is
/// TOML of the wrong shape.
#[verifier::external_body]
fn parse_manifest(text: &str) -> (r: Result<Vec<RawEntry>, Option<String>>)
    ensures
        match r {
            Ok(items) => manifest_entries(text@) == Some(raw_views(items@)),
            Err(m) => manifest_entries(text@) is None,
        },
{
    let doc: toml::Value = toml::from_str(text).map_err(|e| Some(e.to_string()))?;
    let arr = doc.get("entries").and_then(toml::Value::as_array).ok_or(None)?;
    let mut items = Vec::with_capacity(arr.len());
    for item in arr {
        let title = item.get("title").and_then(toml::Value::as_str).ok_or(None)?;
        let filename = item.get("filename").and_then(toml::Value::as_str).ok_or(None)?;
        items.push(RawEntry { title: title.to_owned(), filename: filename.to_owned() });
    }
    Ok(items)
}

/// Descriptor `e` is what loading derives from manifest entry `item` under
/// content directory `dir`.
pub open spec fn entry_from(e: BlogEntry, dir: Seq<char>, item: RawEntry) -> bool {
    &&& e.key@ == text::key_of(item.filename@)
    &&& e.path@ == text::joined_path(dir, item.filename@)
    &&& e.title@ == item.title@
}

/// Descriptor `e` is what loading derives from the raw (title, filename)
/// pair `item` under content directory `dir`.
pub open spec fn entry_from_pair(e: BlogEntry, dir: Seq<char>, item: (Seq<char>, Seq<char>)) -> bool {
    &&& e.key@ == text::key_of(item.1)
    &&& e.path@ == text::joined_path(dir, item.1)
    &&& e.title@ == item.0
}

/// Builds the index from the raw manifest entries: one descriptor per
/// entry, in manifest order, with the key derived from the filename and the
/// path joined under `dir`.
pub fn build_index(items: &Vec<RawEntry>, dir: &str) -> (r: BlogIndex)
    ensures
        r.entries@.len() == items@.len(),
        forall|i: int| 0 <= i < items@.len() ==> entry_from(r.entries@[i], dir@, items@[i]),
{
    let mut entries: Vec<BlogEntry> = Vec::new();
    let n = items.len();
    for i in 0..n
        invariant
            n == items@.len(),
            entries@.len() == i,
            forall|j: int| 0 <= j < i ==> entry_from(entries@[j], dir@, items@[j]),
    {
        let e = BlogEntry {
            key: text::strip_extension(items[i].filename.as_str()),
            path: text::join_path(dir, items[i].filename.as_str()),
            title: items[i].title.clone(),
        };
        entries.push(e);
    }
    BlogIndex { entries }
}

/// Loads the index from the manifest text: success exactly when the text is
/// a manifest, and then one descriptor per declared entry, in declaration
/// order, derived as `entry_from_pair` says.  The caller treats failure as
/// fatal, so no index ever exists for a bad manifest.  A document the TOML
/// parser rejected carries the parser's message; one of the wrong shape
/// carries a schema message.
pub fn load_from_str(text: &str, dir: &str) -> (r: Result<BlogIndex, LoadError>)
    ensures
        r is Ok <==> manifest_entries(text@) is Some,
        match r {
            Ok(idx) => (manifest_entries(text@) matches Some(es) && idx.entries@.len()
                == es.len() && forall|i: int|
                0 <= i < es.len() ==> entry_from_pair(idx.entries@[i], dir@, es[i])),
            Err(e) => e is Parse,
        },
{
    let items = match parse_manifest(text) {
        Ok(items) => items,
        Err(Some(msg)) => {
            return Err(LoadError::Parse(msg));
        },
        Err(None) => {
            return Err(LoadError::Parse(
                "manifest must hold entries = [ { title, filename }, .. ]".to_owned(),
            ));
        },
    };
    let idx = build_index(&items, dir);
    proof {
        let es = raw_views(items@);
        assert forall|i: int| 0 <= i < es.len() implies entry_from_pair(
            idx.entries@[i],
            dir@,
            es[i],
        ) by {
            assert(entry_from(idx.entries@[i], dir@, items@[i]));
        }
    }
    Ok(idx)
}

} // verus!
