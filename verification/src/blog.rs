//! The blog index and the queries served from it: the ordered list of entry
//! descriptors built at startup, key lookup, and resolution of a request key
//! to the source file that must be read.

use vstd::prelude::*;
use crate::errors::{LoadError, RenderError};
use crate::manifest::{entry_from_pair, load_from_str, manifest_entries};
use crate::text;

verus! {

/// One blog entry: the URL key, the path of the Markdown source file, and
/// the display title.
#[derive(Debug, Clone, PartialEq, Eq)]
pub struct BlogEntry {
    pub key: String,
    pub path: String,
    pub title: String,
}

/// The ordered index of all blog entries, built once from the manifest at
/// startup and read-only from then on.  Order is manifest order.
#[derive(Debug, Clone, PartialEq, Eq)]
pub struct BlogIndex {
    pub entries: Vec<BlogEntry>,
}

impl BlogIndex {
    /// Some entry carries this key.
    pub open spec fn has_key(self, key: Seq<char>) -> bool {
        exists|i: int| 0 <= i < self.entries@.len() && self.entries@[i].key@ == key
    }

    /// Entry `i` is the first one, in manifest order, that carries `key`.
    pub open spec fn first_match(self, key: Seq<char>, i: int) -> bool {
        &&& 0 <= i < self.entries@.len()
        &&& self.entries@[i].key@ == key
        &&& forall|j: int| 0 <= j < i ==> self.entries@[j].key@ != key
    }

    /// The full ordered index, as-is: no filtering, no reordering.
    pub fn list(&self) -> (r: &Vec<BlogEntry>)
        ensures
            r == &self.entries,
    {
        &self.entries
    }

    /// Linear scan for the first entry whose key equals `key`,
    /// byte-for-byte: case-sensitive, no normalization.
    pub fn find(&self, key: &str) -> (r: Option<usize>)
        ensures
            match r {
                Some(i) => self.first_match(key@, i as int),
                None => !self.has_key(key@),
            },
    {
        let n = self.entries.len();
        for i in 0..n
            invariant
                n == self.entries@.len(),
                forall|j: int| 0 <= j < i ==> self.entries@[j].key@ != key@,
        {
            if text::str_eq(self.entries[i].key.as_str(), key) {
                return Some(i);
            }
        }
        None
    }

    /// Resolves a request key to the source path that must be read for it,
    /// or fails with `NotFound` when no entry carries the key.
    pub fn entry_source(&self, key: &str) -> (r: Result<String, RenderError>)
        ensures
            match r {
                Ok(path) => exists|i: int|
                    self.first_match(key@, i) && path@ == self.entries@[i].path@,
                Err(e) => !self.has_key(key@) && (e matches RenderError::NotFound(k)
                    && k@ == key@),
            },
    {
        match self.find(key) {
            Some(i) => Ok(self.entries[i].path.clone()),
            None => Err(RenderError::NotFound(key.to_owned())),
        }
    }
}

/// Handle under which the embedding application installs the blog
/// component.  The application mounts the routes; the index itself comes
/// from [`BlogFairing::load`].
pub struct BlogFairing;

impl BlogFairing {
    /// The startup step behind attaching the component: builds the index
    /// from the manifest text found in the content directory `dir`.  A
    /// failure here is fatal — without the index the blog routes are never
    /// mounted.
    pub fn load(&self, manifest_text: &str, dir: &str) -> (r: Result<BlogIndex, LoadError>)
        ensures
            r is Ok <==> manifest_entries(manifest_text@) is Some,
            match r {
                Ok(idx) => (manifest_entries(manifest_text@) matches Some(es)
                    && idx.entries@.len() == es.len() && forall|i: int|
                    0 <= i < es.len() ==> entry_from_pair(idx.entries@[i], dir@, es[i])),
                Err(e) => e is Parse,
            },
    {
        load_from_str(manifest_text, dir)
    }
}

/// The blog component, ready to attach.
pub fn fairing() -> (r: BlogFairing)
    ensures
        r == BlogFairing,
{
    BlogFairing
}

} // verus!
