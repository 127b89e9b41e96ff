//! Embedded resources and the immutable table that maps a relative path key
//! to its resource record.

use crate::strutil::str_eq;
use vstd::prelude::*;

verus! {

/// The spec-level value of a resource record.
pub struct ResourceView {
    pub data: Seq<u8>,
    pub modified: u64,
    pub mime_type: Seq<char>,
}

/// A static file baked into the program: its bytes, its modification time in
/// seconds since the epoch (zero when unknown), and its MIME type.
pub struct Resource {
    pub data: Vec<u8>,
    pub modified: u64,
    pub mime_type: String,
}

impl View for Resource {
    type V = ResourceView;

    open spec fn view(&self) -> ResourceView {
        ResourceView { data: self.data@, modified: self.modified, mime_type: self.mime_type@ }
    }
}

/// Builds a resource record from its parts.
pub fn new_resource(data: Vec<u8>, modified: u64, mime_type: String) -> (r: Resource)
    ensures
        r@ == (ResourceView { data: data@, modified, mime_type: mime_type@ }),
{
    Resource { data, modified, mime_type }
}

impl Resource {
    /// The resource's bytes.
    pub fn data(&self) -> (r: &Vec<u8>)
        ensures
            r@ == self@.data,
    {
        &self.data
    }

    /// The resource's modification time, in seconds since the epoch.
    pub fn modified(&self) -> (r: u64)
        ensures
            r == self@.modified,
    {
        self.modified
    }

    /// The resource's MIME type.
    pub fn mime_type(&self) -> (r: &str)
        ensures
            r@ == self@.mime_type,
    {
        self.mime_type.as_str()
    }
}

pub(crate) fn clone_bytes(v: &Vec<u8>) -> (r: Vec<u8>)
    ensures
        r@ == v@,
{
    let r = v.clone();
    proof {
        assert(r@ =~= v@);
    }
    r
}

impl Clone for Resource {
    fn clone(&self) -> (r: Self)
        ensures
            r@ == self@,
    {
        Resource {
            data: clone_bytes(&self.data),
            modified: self.modified,
            mime_type: self.mime_type.clone(),
        }
    }
}

/// The mapping a sequence of key/resource entries stands for: a later entry
/// shadows an earlier one with the same key.
pub open spec fn map_of(entries: Seq<(String, Resource)>) -> Map<Seq<char>, ResourceView>
    decreases entries.len(),
{
    if entries.len() == 0 {
        Map::<Seq<char>, ResourceView>::empty()
    } else {
        map_of(entries.drop_last()).insert(entries.last().0@, entries.last().1@)
    }
}

/// The immutable resource table: a mapping from a normalized relative path
/// (forward-slash separated, no leading slash) to a resource record.
pub struct ResourceTable {
    entries: Vec<(String, Resource)>,
}

impl View for ResourceTable {
    type V = Map<Seq<char>, ResourceView>;

    closed spec fn view(&self) -> Map<Seq<char>, ResourceView> {
        map_of(self.entries@)
    }
}

proof fn lemma_map_of_absent(entries: Seq<(String, Resource)>, k: Seq<char>)
    requires
        forall|i: int| 0 <= i < entries.len() ==> (#[trigger] entries[i]).0@ != k,
    ensures
        !map_of(entries).contains_key(k),
    decreases entries.len(),
{
    if entries.len() > 0 {
        lemma_map_of_absent(entries.drop_last(), k);
    }
}

proof fn lemma_map_of_found(entries: Seq<(String, Resource)>, i: int)
    requires
        0 <= i < entries.len(),
        forall|j: int| i < j < entries.len() ==> (#[trigger] entries[j]).0@ != entries[i].0@,
    ensures
        map_of(entries).contains_key(entries[i].0@),
        map_of(entries)[entries[i].0@] == entries[i].1@,
    decreases entries.len(),
{
    if i == entries.len() - 1 {
    } else {
        assert(entries.drop_last()[i] == entries[i]);
        lemma_map_of_found(entries.drop_last(), i);
    }
}

impl ResourceTable {
    /// An empty table.
    pub fn new() -> (r: ResourceTable)
        ensures
            r@ == Map::<Seq<char>, ResourceView>::empty(),
    {
        ResourceTable { entries: Vec::new() }
    }

    /// Adds `value` under `key`, replacing what an earlier insertion put
    /// there.
    pub fn insert(&mut self, key: String, value: Resource)
        ensures
            final(self)@ == old(self)@.insert(key@, value@),
    {
        self.entries.push((key, value));
        proof {
            assert(self.entries@.drop_last() =~= old(self).entries@);
        }
    }

    /// Looks up the resource stored under `path`.
    pub fn get_resource(&self, path: &str) -> (r: Option<&Resource>)
        ensures
            match r {
                Option::Some(res) => self@.contains_key(path@) && res@ == self@[path@],
                Option::None => !self@.contains_key(path@),
            },
    {
        let mut i: usize = self.entries.len();
        while i > 0
            invariant
                0 <= i <= self.entries.len(),
                forall|j: int|
                    i <= j < self.entries@.len() ==> (#[trigger] self.entries@[j]).0@ != path@,
            decreases i,
        {
            i = i - 1;
            if str_eq(self.entries[i].0.as_str(), path) {
                proof {
                    lemma_map_of_found(self.entries@, i as int);
                }
                return Option::Some(&self.entries[i].1);
            }
        }
        proof {
            lemma_map_of_absent(self.entries@, path@);
        }
        Option::None
    }

    /// Does the table hold an entry under `path`?
    pub fn contains_key(&self, path: &str) -> (r: bool)
        ensures
            r == self@.contains_key(path@),
    {
        self.get_resource(path).is_some()
    }
}

proof fn lemma_map_of_congruent(a: Seq<(String, Resource)>, b: Seq<(String, Resource)>)
    requires
        a.len() == b.len(),
        forall|i: int|
            0 <= i < a.len() ==> (#[trigger] a[i]).0@ == b[i].0@ && a[i].1@ == b[i].1@,
    ensures
        map_of(a) == map_of(b),
    decreases a.len(),
{
    if a.len() > 0 {
        assert(forall|i: int|
            0 <= i < a.len() - 1 ==> (#[trigger] a.drop_last()[i]).0@ == b.drop_last()[i].0@
                && a.drop_last()[i].1@ == b.drop_last()[i].1@) by {
            assert(forall|i: int| 0 <= i < a.len() - 1 ==> a.drop_last()[i] == #[trigger] a[i]);
            assert(forall|i: int| 0 <= i < b.len() - 1 ==> b.drop_last()[i] == #[trigger] b[i]);
        }
        lemma_map_of_congruent(a.drop_last(), b.drop_last());
        assert(a.last().0@ == b.last().0@ && a.last().1@ == b.last().1@);
    }
}

impl Clone for ResourceTable {
    fn clone(&self) -> (r: Self)
        ensures
            r@ == self@,
    {
        let mut entries: Vec<(String, Resource)> = Vec::new();
        let mut i: usize = 0;
        while i < self.entries.len()
            invariant
                0 <= i <= self.entries.len(),
                entries@.len() == i,
                forall|j: int|
                    0 <= j < i ==> (#[trigger] entries@[j]).0@ == self.entries@[j].0@
                        && entries@[j].1@ == self.entries@[j].1@,
            decreases self.entries.len() - i,
        {
            let key = self.entries[i].0.clone();
            let value = self.entries[i].1.clone();
            entries.push((key, value));
            i += 1;
        }
        proof {
            lemma_map_of_congruent(entries@, self.entries@);
        }
        ResourceTable { entries }
    }
}

} // verus!
