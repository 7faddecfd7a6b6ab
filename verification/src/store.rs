//! The cassettes loaded for replay. Each is loaded once, under the path of
//! its file, and then only read.

use vstd::prelude::*;
use crate::cassette::{Cassette, Tagged, Tape, all_exchanges, tape_of, replayed};
use crate::error::VcrError;
use crate::message::{VcrRequest, VcrResponse, RequestView, ResponseView};
use crate::table::{
    entries_map, distinct_names, has_name, lemma_lookup_at, lemma_lookup_absent,
    lemma_push_keeps_distinct, lemma_push_map,
};
use crate::text::str_eq;

verus! {

/// The loaded cassettes: from the path of a file to its exchanges.
pub type Shelf = Map<Seq<char>, Tape>;

/// The shelf after a cassette was loaded for a path: as it was where the
/// path had one already, else with the new cassette under the path.
pub open spec fn loaded(shelf: Shelf, path: Seq<char>, tape: Tape) -> Shelf {
    if shelf.contains_key(path) {
        shelf
    } else {
        shelf.insert(path, tape)
    }
}

/// The response that the shelf answers a request with: that of the first
/// exchange with an equal request on the cassette of the path.
pub open spec fn answer(shelf: Shelf, path: Seq<char>, request: RequestView) -> Option<
    ResponseView,
> {
    if shelf.contains_key(path) {
        replayed(shelf[path], request)
    } else {
        None
    }
}

/// Loading the same path again changes nothing: the shelf stays as the
/// first load left it, the path stays loaded, and what it holds is what was
/// there first.
pub proof fn lemma_load_is_idempotent(shelf: Shelf, path: Seq<char>, first: Tape, second: Tape)
    ensures
        loaded(shelf, path, first).contains_key(path),
        loaded(loaded(shelf, path, first), path, second) == loaded(shelf, path, first),
        !shelf.contains_key(path) ==> loaded(shelf, path, first)[path] == first,
        shelf.contains_key(path) ==> loaded(shelf, path, first) == shelf,
        forall|other: Seq<char>|
            other != path ==> (#[trigger] loaded(shelf, path, first).contains_key(other)
                == shelf.contains_key(other)),
        forall|other: Seq<char>|
            other != path && shelf.contains_key(other) ==> #[trigger] loaded(shelf, path, first)[other]
                == shelf[other],
{
}

/// The cassettes loaded for replay, each under the path of its file.
#[derive(Debug)]
pub struct CassetteStore {
    entries: Vec<(String, Cassette)>,
}

impl View for CassetteStore {
    type V = Shelf;

    open spec fn view(&self) -> Shelf {
        entries_map(self.spec_entries())
    }
}

impl CassetteStore {
    /// The paths with their cassettes in the order in which they were
    /// loaded.
    pub closed spec fn spec_entries(&self) -> Seq<(Seq<char>, Tape)> {
        Seq::new(self.entries@.len(), |i: int| (self.entries@[i].0@, self.entries@[i].1@))
    }

    #[verifier::type_invariant]
    spec fn paths_are_distinct(&self) -> bool {
        distinct_names(self.spec_entries())
    }

    /// A store with no cassette loaded.
    pub fn new() -> (store: CassetteStore)
        ensures
            store@ == Map::<Seq<char>, Tape>::empty(),
    {
        CassetteStore { entries: Vec::new() }
    }

    /// Where the path stands among the entries.
    fn position(&self, path: &str) -> (at: Option<usize>)
        ensures
            match at {
                Some(i) => i < self.spec_entries().len() && self.spec_entries()[i as int].0
                    == path@,
                None => !has_name(self.spec_entries(), path@),
            },
    {
        let mut i: usize = 0;
        while i < self.entries.len()
            invariant
                i <= self.entries.len(),
                forall|j: int| 0 <= j < i ==> (#[trigger] self.spec_entries()[j]).0 != path@,
            decreases self.entries.len() - i,
        {
            if str_eq(self.entries[i].0.as_str(), path) {
                return Some(i);
            }
            i += 1;
        }
        None
    }

    /// The cassette loaded for a path.
    pub fn cassette(&self, path: &str) -> (r: Option<&Cassette>)
        ensures
            match r {
                Some(cassette) => self@.contains_key(path@) && self@[path@] == cassette@,
                None => !self@.contains_key(path@),
            },
    {
        proof {
            use_type_invariant(self);
        }
        match self.position(path) {
            Some(i) => {
                proof {
                    lemma_lookup_at(self.spec_entries(), i as int);
                }
                Some(&self.entries[i].1)
            },
            None => {
                proof {
                    lemma_lookup_absent(self.spec_entries(), path@);
                }
                None
            },
        }
    }

    /// Whether a cassette is loaded for the path, so that its file need not
    /// be read.
    pub fn is_loaded(&self, path: &str) -> (r: bool)
        ensures
            r == self@.contains_key(path@),
    {
        self.cassette(path).is_some()
    }

    /// Makes sure that a cassette is loaded for the path. Where one is there
    /// already, nothing changes and the documents are not looked at. Else the
    /// documents of the file become the cassette; a document that is not a
    /// request and then a response fails the load, and nothing is loaded.
    pub fn ensure_loaded(&mut self, path: &str, docs: Vec<(Tagged, Tagged)>) -> (r: Result<
        (),
        VcrError,
    >)
        ensures
            r is Ok <==> old(self)@.contains_key(path@) || all_exchanges(docs@),
            r is Ok ==> final(self)@ == loaded(old(self)@, path@, tape_of(docs@)),
            r matches Err(e) ==> e is Parse && final(self)@ == old(self)@,
    {
        proof {
            use_type_invariant(&*self);
        }
        if self.is_loaded(path) {
            return Ok(());
        }
        match Cassette::from_documents(docs) {
            Ok(cassette) => {
                let ghost before = self.spec_entries();
                let name = path.to_owned();
                proof {
                    if has_name(before, path@) {
                        let i = choose|i: int| 0 <= i < before.len() && (#[trigger] before[i]).0 == path@;
                        lemma_lookup_at(before, i);
                    }
                    lemma_push_keeps_distinct(before, path@, cassette@);
                    lemma_push_map(before, path@, cassette@);
                }
                let mut taken = CassetteStore::new();
                core::mem::swap(self, &mut taken);
                let mut entries = taken.entries;
                let ghost tape = cassette@;
                entries.push((name, cassette));
                assert(Seq::new(entries@.len(), |i: int| (entries@[i].0@, entries@[i].1@))
                    =~= before.push((path@, tape)));
                *self = CassetteStore { entries };
                Ok(())
            },
            Err(e) => Err(e),
        }
    }

    /// The recorded response to a request on the cassette of a path: that of
    /// the first exchange whose request equals it. Nothing is found where
    /// no exchange has the request, or no cassette is loaded for the path.
    pub fn find(&self, path: &str, request: &VcrRequest) -> (r: Option<&VcrResponse>)
        ensures
            match r {
                Some(response) => answer(self@, path@, request@) == Some(response@),
                None => answer(self@, path@, request@) is None,
            },
    {
        match self.cassette(path) {
            Some(cassette) => cassette.find(request),
            None => None,
        }
    }
}

} // verus!
