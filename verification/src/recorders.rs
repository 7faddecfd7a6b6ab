//! The files being recorded to. Each has a slot, and the lock of that slot
//! guards every write to the file.

use vstd::prelude::*;
use crate::stream::{frame_document, framed};
use crate::text::str_eq;

verus! {

/// The registered paths after one more registration: as they were where the
/// path was among them, else with the path at the end.
pub open spec fn registered(paths: Seq<Seq<char>>, path: Seq<char>) -> Seq<Seq<char>> {
    if paths.contains(path) {
        paths
    } else {
        paths.push(path)
    }
}

/// Registering never moves or removes a path, registering a path a second
/// time changes nothing, and a registered path is among the paths.
pub proof fn lemma_registry_only_grows(paths: Seq<Seq<char>>, path: Seq<char>)
    ensures
        registered(paths, path).contains(path),
        registered(registered(paths, path), path) == registered(paths, path),
        paths.len() <= registered(paths, path).len(),
        forall|i: int| 0 <= i < paths.len() ==> #[trigger] registered(paths, path)[i] == paths[i],
        paths.no_duplicates() ==> registered(paths, path).no_duplicates(),
{
    if !paths.contains(path) {
        assert(registered(paths, path)[paths.len() as int] == path);
    }
}

/// What is written for one recording, and under which lock.
#[derive(Debug)]
pub struct Append {
    /// The slot of the cassette file, whose lock is held while writing.
    pub slot: usize,
    /// The bytes to add at the end of the file.
    pub bytes: Vec<u8>,
}

/// The files being recorded to, in the order in which they were registered.
/// The place of a path in that order is its slot.
#[derive(Debug)]
pub struct RecorderRegistry {
    paths: Vec<String>,
}

impl View for RecorderRegistry {
    type V = Seq<Seq<char>>;

    closed spec fn view(&self) -> Seq<Seq<char>> {
        self.paths.deep_view()
    }
}

impl RecorderRegistry {
    #[verifier::type_invariant]
    spec fn paths_are_distinct(&self) -> bool {
        self.paths.deep_view().no_duplicates()
    }

    /// A registry with no file registered.
    pub fn new() -> (registry: RecorderRegistry)
        ensures
            registry@ == Seq::<Seq<char>>::empty(),
    {
        RecorderRegistry { paths: Vec::new() }
    }

    /// How many files are registered.
    pub fn len(&self) -> (n: usize)
        ensures
            n == self@.len(),
    {
        self.paths.len()
    }

    /// The slot of a path, where it is registered.
    pub fn slot(&self, path: &str) -> (r: Option<usize>)
        ensures
            self@.no_duplicates(),
            match r {
                Some(slot) => slot < self@.len() && self@[slot as int] == path@,
                None => !self@.contains(path@),
            },
    {
        proof {
            use_type_invariant(self);
        }
        let mut i: usize = 0;
        while i < self.paths.len()
            invariant
                i <= self.paths.len(),
                self.paths.deep_view().no_duplicates(),
                forall|j: int| 0 <= j < i ==> self.paths.deep_view()[j] != path@,
            decreases self.paths.len() - i,
        {
            if str_eq(self.paths[i].as_str(), path) {
                return Some(i);
            }
            i += 1;
        }
        None
    }

    /// What is written for the document of an exchange recorded to a path:
    /// the document and the separator after it, under the lock of the
    /// path's slot. Nothing is written for a path that is not registered.
    pub fn append(&self, path: &str, document: &[u8]) -> (r: Option<Append>)
        ensures
            r is Some <==> self@.contains(path@),
            r matches Some(append) ==> {
                &&& append.slot < self@.len()
                &&& self@[append.slot as int] == path@
                &&& append.bytes@ == framed(document@)
            },
    {
        match self.slot(path) {
            Some(slot) => Some(Append { slot, bytes: frame_document(document) }),
            None => None,
        }
    }

    /// Registers a path and gives its slot. A path that is registered keeps
    /// the slot it has, and the registry stays as it is.
    pub fn register(&mut self, path: &str) -> (slot: usize)
        ensures
            final(self)@ == registered(old(self)@, path@),
            final(self)@.no_duplicates(),
            slot < final(self)@.len(),
            final(self)@[slot as int] == path@,
    {
        proof {
            use_type_invariant(&*self);
        }
        let ghost before = self@;
        match self.slot(path) {
            Some(slot) => slot,
            None => {
                proof {
                    lemma_registry_only_grows(before, path@);
                }
                let mut taken = RecorderRegistry::new();
                core::mem::swap(self, &mut taken);
                let mut paths = taken.paths;
                let slot = paths.len();
                paths.push(path.to_owned());
                assert(paths.deep_view() =~= before.push(path@));
                *self = RecorderRegistry { paths };
                slot
            },
        }
    }
}

} // verus!
