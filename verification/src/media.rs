//! Media files and their free-form metadata.
//!
//! Metadata is a string-to-string mapping held as an association list; the
//! first entry for a key is authoritative, and insertion replaces that entry.

use crate::strutil::str_eq;
use vstd::prelude::*;

verus! {

#[derive(Debug, Clone, Copy, PartialEq, Eq, Structural)]
pub enum MediaType {
    Video,
    Audio,
    Image,
}

/// Look a key up in an association list: the first matching entry wins.
pub open spec fn meta_get(m: Seq<(String, String)>, key: Seq<char>) -> Option<Seq<char>>
    decreases m.len(),
{
    if m.len() == 0 {
        None
    } else if m[0].0@ == key {
        Some(m[0].1@)
    } else {
        meta_get(m.drop_first(), key)
    }
}

/// Index of the first entry for `key`, if any.
pub open spec fn meta_index_of(m: Seq<(String, String)>, key: Seq<char>) -> int
    decreases m.len(),
{
    if m.len() == 0 {
        0
    } else if m[0].0@ == key {
        0
    } else {
        1 + meta_index_of(m.drop_first(), key)
    }
}

pub proof fn lemma_meta_index_of(m: Seq<(String, String)>, key: Seq<char>)
    requires
        meta_get(m, key) is Some,
    ensures
        0 <= meta_index_of(m, key) < m.len(),
        m[meta_index_of(m, key)].0@ == key,
        m[meta_index_of(m, key)].1@ == meta_get(m, key)->Some_0,
        forall|j: int| 0 <= j < meta_index_of(m, key) ==> m[j].0@ != key,
    decreases m.len(),
{
    if m.len() == 0 {
    } else if m[0].0@ == key {
    } else {
        lemma_meta_index_of(m.drop_first(), key);
        assert forall|j: int| 0 <= j < meta_index_of(m, key) implies m[j].0@ != key by {
            if j > 0 {
                assert(m[j] == m.drop_first()[j - 1]);
            }
        }
    }
}

/// Replacing the first entry for its own key changes exactly that key's value.
pub proof fn lemma_meta_get_update(
    m: Seq<(String, String)>,
    i: int,
    p: (String, String),
    key: Seq<char>,
)
    requires
        0 <= i < m.len(),
        m[i].0@ == p.0@,
        forall|j: int| 0 <= j < i ==> m[j].0@ != p.0@,
    ensures
        meta_get(m.update(i, p), key) == (if key == p.0@ {
            Some(p.1@)
        } else {
            meta_get(m, key)
        }),
    decreases m.len(),
{
    if m.len() == 0 {
    } else if i == 0 {
        assert(m.update(0, p).drop_first() =~= m.drop_first());
        if key == p.0@ {
        } else {
            assert(m[0].0@ != key);
        }
    } else {
        assert(m.update(i, p).drop_first() =~= m.drop_first().update(i - 1, p));
        assert(forall|j: int| 0 <= j < i - 1 ==> m.drop_first()[j].0@ != p.0@);
        lemma_meta_get_update(m.drop_first(), i - 1, p, key);
    }
}

/// Appending an entry for an absent key adds exactly that key.
pub proof fn lemma_meta_get_push(m: Seq<(String, String)>, p: (String, String), key: Seq<char>)
    requires
        meta_get(m, p.0@) is None,
    ensures
        meta_get(m.push(p), key) == (if key == p.0@ {
            Some(p.1@)
        } else {
            meta_get(m, key)
        }),
    decreases m.len(),
{
    if m.len() == 0 {
        assert(m.push(p)[0] == p);
        assert(m.push(p).drop_first() =~= m);
    } else {
        assert(m.push(p)[0] == m[0]);
        assert(m.push(p).drop_first() =~= m.drop_first().push(p));
        lemma_meta_get_push(m.drop_first(), p, key);
    }
}

/// Value equality of two media files: every field agrees, the metadata as
/// its sequence of entries. (`Vec` values cannot be compared with `==` in
/// specifications, so this is the equality the contracts use.)
pub open spec fn media_like(a: MediaFile, b: MediaFile) -> bool {
    &&& a.file_id == b.file_id
    &&& a.file_type == b.file_type
    &&& a.file_path == b.file_path
    &&& a.file_size == b.file_size
    &&& a.original_name == b.original_name
    &&& a.mime_type == b.mime_type
    &&& a.metadata@ == b.metadata@
}

/// A file to be processed, together with the options bag for the run.
#[derive(Debug)]
pub struct MediaFile {
    pub file_id: String,
    pub file_type: MediaType,
    pub file_path: String,
    pub file_size: u64,
    pub original_name: String,
    pub mime_type: String,
    pub metadata: Vec<(String, String)>,
}

impl MediaFile {
    pub fn new(
        file_id: String,
        file_type: MediaType,
        file_path: String,
        file_size: u64,
        original_name: String,
        mime_type: String,
    ) -> (m: MediaFile)
        ensures
            m.file_id == file_id,
            m.file_type == file_type,
            m.file_path == file_path,
            m.file_size == file_size,
            m.original_name == original_name,
            m.mime_type == mime_type,
            m.metadata@ == Seq::<(String, String)>::empty(),
    {
        MediaFile {
            file_id,
            file_type,
            file_path,
            file_size,
            original_name,
            mime_type,
            metadata: Vec::new(),
        }
    }

    /// Store `value` under `key`, replacing the entry a lookup would find.
    pub fn add_metadata(&mut self, key: String, value: String)
        ensures
            meta_get(final(self).metadata@, key@) == Some(value@),
            forall|k: Seq<char>| k != key@ ==> meta_get(final(self).metadata@, k) == meta_get(
                old(self).metadata@,
                k,
            ),
            final(self).metadata@.len() == (if meta_get(old(self).metadata@, key@) is Some {
                old(self).metadata@.len()
            } else {
                old(self).metadata@.len() + 1
            }),
            final(self).file_id == old(self).file_id,
            final(self).file_type == old(self).file_type,
            final(self).file_path == old(self).file_path,
            final(self).file_size == old(self).file_size,
            final(self).original_name == old(self).original_name,
            final(self).mime_type == old(self).mime_type,
    {
        let ghost m0 = self.metadata@;
        let ghost self0 = *self;
        let mut i: usize = 0;
        while i < self.metadata.len()
            invariant
                i <= self.metadata.len(),
                self0 == *old(self),
                m0 == old(self).metadata@,
                *self == self0,
                self.metadata@ == m0,
                forall|j: int| 0 <= j < i ==> m0[j].0@ != key@,
            decreases self.metadata.len() - i,
        {
            if str_eq(self.metadata[i].0.as_str(), key.as_str()) {
                proof {
                    lemma_meta_get_first_match(m0, i as int, key@);
                }
                let p = (key, value);
                proof {
                    lemma_meta_get_update(m0, i as int, p, key@);
                    assert(forall|k: Seq<char>| k != key@ ==> meta_get(m0.update(i as int, p), k)
                        == meta_get(m0, k)) by {
                        assert forall|k: Seq<char>| k != key@ implies meta_get(
                            m0.update(i as int, p),
                            k,
                        ) == meta_get(m0, k) by {
                            lemma_meta_get_update(m0, i as int, p, k);
                        }
                    }
                }
                self.metadata.set(i, p);
                return ;
            }
            i = i + 1;
        }
        proof {
            lemma_meta_get_absent(m0, key@);
        }
        let p = (key, value);
        proof {
            lemma_meta_get_push(m0, p, key@);
            assert forall|k: Seq<char>| k != key@ implies meta_get(m0.push(p), k) == meta_get(
                m0,
                k,
            ) by {
                lemma_meta_get_push(m0, p, k);
            }
        }
        self.metadata.push(p);
    }

    /// Builder-style variant of [`MediaFile::add_metadata`].
    pub fn with_metadata(self, key: String, value: String) -> (m: MediaFile)
        ensures
            meta_get(m.metadata@, key@) == Some(value@),
            forall|k: Seq<char>| k != key@ ==> meta_get(m.metadata@, k) == meta_get(
                self.metadata@,
                k,
            ),
            m.metadata@.len() == (if meta_get(self.metadata@, key@) is Some {
                self.metadata@.len()
            } else {
                self.metadata@.len() + 1
            }),
            m.file_id == self.file_id,
            m.file_type == self.file_type,
            m.file_path == self.file_path,
            m.file_size == self.file_size,
            m.original_name == self.original_name,
            m.mime_type == self.mime_type,
    {
        let mut m = self;
        m.add_metadata(key, value);
        m
    }

    /// An equal copy of this file description.
    pub fn duplicate(&self) -> (r: MediaFile)
        ensures
            media_like(r, *self),
    {
        let mut metadata: Vec<(String, String)> = Vec::new();
        let mut i: usize = 0;
        while i < self.metadata.len()
            invariant
                i <= self.metadata.len(),
                metadata@ =~= self.metadata@.subrange(0, i as int),
            decreases self.metadata.len() - i,
        {
            metadata.push((self.metadata[i].0.clone(), self.metadata[i].1.clone()));
            i = i + 1;
        }
        proof {
            assert(metadata@ =~= self.metadata@);
        }
        MediaFile {
            file_id: self.file_id.clone(),
            file_type: self.file_type,
            file_path: self.file_path.clone(),
            file_size: self.file_size,
            original_name: self.original_name.clone(),
            mime_type: self.mime_type.clone(),
            metadata,
        }
    }

    /// The value stored under `key`, if any.
    pub fn get_metadata(&self, key: &str) -> (r: Option<&String>)
        ensures
            match r {
                Some(v) => meta_get(self.metadata@, key@) == Some(v@),
                None => meta_get(self.metadata@, key@) is None,
            },
    {
        let mut i: usize = 0;
        while i < self.metadata.len()
            invariant
                i <= self.metadata.len(),
                forall|j: int| 0 <= j < i ==> self.metadata@[j].0@ != key@,
            decreases self.metadata.len() - i,
        {
            if str_eq(self.metadata[i].0.as_str(), key) {
                proof {
                    lemma_meta_get_first_match(self.metadata@, i as int, key@);
                }
                return Some(&self.metadata[i].1);
            }
            i = i + 1;
        }
        proof {
            lemma_meta_get_absent(self.metadata@, key@);
        }
        None
    }
}

/// If entry `i` is the first whose key matches, the lookup returns its value.
pub proof fn lemma_meta_get_first_match(m: Seq<(String, String)>, i: int, key: Seq<char>)
    requires
        0 <= i < m.len(),
        m[i].0@ == key,
        forall|j: int| 0 <= j < i ==> m[j].0@ != key,
    ensures
        meta_get(m, key) == Some(m[i].1@),
        meta_index_of(m, key) == i,
    decreases m.len(),
{
    if i == 0 {
    } else {
        assert(forall|j: int| 0 <= j < i - 1 ==> m.drop_first()[j].0@ != key);
        lemma_meta_get_first_match(m.drop_first(), i - 1, key);
    }
}

/// If no entry's key matches, the lookup misses.
pub proof fn lemma_meta_get_absent(m: Seq<(String, String)>, key: Seq<char>)
    requires
        forall|j: int| 0 <= j < m.len() ==> m[j].0@ != key,
    ensures
        meta_get(m, key) is None,
    decreases m.len(),
{
    if m.len() == 0 {
    } else {
        assert(forall|j: int| 0 <= j < m.drop_first().len() ==> m.drop_first()[j].0@ != key);
        lemma_meta_get_absent(m.drop_first(), key);
    }
}

} // verus!
