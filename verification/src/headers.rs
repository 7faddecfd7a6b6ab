//! Header sets: each header name with its values in the order they were given.

use vstd::prelude::*;
use vstd::set_lib::lemma_subset_equality;
use vstd::std_specs::cmp::PartialEqSpecImpl;
use crate::text::{str_eq, strings_eq, clone_strings};
use crate::table::{
    entries_map, distinct_names, has_name, merged, put, lemma_lookup_at, lemma_lookup_absent,
    lemma_lookup_found, lemma_map_size, lemma_merged, lemma_place_of, lemma_put,
};

verus! {

/// A list of headers as it is read off a message: names with their values.
pub type HeaderList = Seq<(Seq<char>, Seq<Seq<char>>)>;

/// A header set: from each name to its values in order.
pub type HeaderMap = Map<Seq<char>, Seq<Seq<char>>>;

/// The headers of a message.
#[derive(Debug)]
pub struct Headers {
    entries: Vec<(String, Vec<String>)>,
}

impl View for Headers {
    type V = HeaderMap;

    open spec fn view(&self) -> HeaderMap {
        entries_map(self.spec_entries())
    }
}

impl Headers {
    /// The entries in the order in which their names first came in.
    pub closed spec fn spec_entries(&self) -> HeaderList {
        self.entries.deep_view()
    }

    #[verifier::type_invariant]
    spec fn names_are_distinct(&self) -> bool {
        distinct_names(self.entries.deep_view())
    }

    /// The empty header set.
    pub fn new() -> (headers: Headers)
        ensures
            headers@ == Map::<Seq<char>, Seq<Seq<char>>>::empty(),
            headers.spec_entries() == Seq::<(Seq<char>, Seq<Seq<char>>)>::empty(),
    {
        Headers { entries: Vec::new() }
    }

    /// How many names the set holds.
    pub fn len(&self) -> (n: usize)
        ensures
            self@.dom().finite(),
            n == self@.len(),
            n == self.spec_entries().len(),
    {
        proof {
            use_type_invariant(self);
            lemma_map_size(self.spec_entries());
        }
        self.entries.len()
    }

    /// Where the name stands among the entries.
    fn position(&self, name: &str) -> (at: Option<usize>)
        ensures
            match at {
                Some(i) => i < self.spec_entries().len() && self.spec_entries()[i as int].0 == name@,
                None => !has_name(self.spec_entries(), name@),
            },
    {
        let mut i: usize = 0;
        while i < self.entries.len()
            invariant
                i <= self.entries.len(),
                forall|j: int| 0 <= j < i ==> (#[trigger] self.entries.deep_view()[j]).0 != name@,
            decreases self.entries.len() - i,
        {
            if str_eq(self.entries[i].0.as_str(), name) {
                return Some(i);
            }
            i += 1;
        }
        None
    }

    /// The values recorded under a name.
    pub fn get(&self, name: &str) -> (values: Option<&Vec<String>>)
        ensures
            match values {
                Some(v) => self@.contains_key(name@) && self@[name@] == v.deep_view(),
                None => !self@.contains_key(name@),
            },
    {
        proof {
            use_type_invariant(self);
        }
        match self.position(name) {
            Some(i) => {
                proof {
                    lemma_lookup_at(self.spec_entries(), i as int);
                }
                Some(&self.entries[i].1)
            },
            None => {
                proof {
                    lemma_lookup_absent(self.spec_entries(), name@);
                }
                None
            },
        }
    }

    /// Records the values of a name, in place of those it had.
    pub fn insert(&mut self, name: String, values: Vec<String>)
        ensures
            final(self)@ == old(self)@.insert(name@, values.deep_view()),
            final(self).spec_entries() == put(old(self).spec_entries(), name@, values.deep_view()),
    {
        proof {
            use_type_invariant(&*self);
        }
        let ghost before = self.spec_entries();
        let ghost key = name@;
        let ghost val = values.deep_view();
        let at = self.position(name.as_str());
        let mut taken = Headers::new();
        core::mem::swap(self, &mut taken);
        let mut entries = taken.entries;
        proof {
            lemma_put(before, key, val);
        }
        match at {
            Some(i) => {
                proof {
                    lemma_place_of(before, i as int);
                }
                entries.set(i, (name, values));
                assert(entries.deep_view() =~= put(before, key, val));
            },
            None => {
                entries.push((name, values));
                assert(entries.deep_view() =~= put(before, key, val));
            },
        }
        *self = Headers { entries };
    }

    /// The header set of a list of entries, taken one after another.
    pub fn from_entries(list: &Vec<(String, Vec<String>)>) -> (headers: Headers)
        ensures
            headers.spec_entries() == merged(list.deep_view()),
            headers@ == entries_map(list.deep_view()),
    {
        let ghost all = list.deep_view();
        let mut headers = Headers::new();
        let mut i: usize = 0;
        while i < list.len()
            invariant
                i <= list.len(),
                all == list.deep_view(),
                headers.spec_entries() == merged(all.take(i as int)),
            decreases list.len() - i,
        {
            let name = list[i].0.clone();
            let values = clone_strings(&list[i].1);
            assert(all.take(i + 1).drop_last() =~= all.take(i as int));
            headers.insert(name, values);
            i += 1;
        }
        proof {
            assert(all.take(i as int) =~= all);
            lemma_merged(all);
        }
        headers
    }

    /// The entries as a list, each name once.
    pub fn entries(&self) -> (list: Vec<(String, Vec<String>)>)
        ensures
            list.deep_view() == self.spec_entries(),
            distinct_names(list.deep_view()),
            entries_map(list.deep_view()) == self@,
    {
        proof {
            use_type_invariant(self);
        }
        let mut list: Vec<(String, Vec<String>)> = Vec::new();
        let mut i: usize = 0;
        while i < self.entries.len()
            invariant
                i <= self.entries.len(),
                list.len() == i,
                forall|j: int| 0 <= j < i ==> (#[trigger] list.deep_view()[j]) == self.entries.deep_view()[j],
            decreases self.entries.len() - i,
        {
            let name = self.entries[i].0.clone();
            let values = clone_strings(&self.entries[i].1);
            let ghost before = list.deep_view();
            list.push((name, values));
            assert forall|j: int| 0 <= j < i + 1 implies (#[trigger] list.deep_view()[j])
                == self.entries.deep_view()[j] by {
                if j < i {
                    assert(list.deep_view()[j] == before[j]);
                }
            }
            i += 1;
        }
        assert(list.deep_view() =~= self.spec_entries());
        list
    }

    /// Whether every name of this set has the same values in the other.
    pub fn is_within(&self, other: &Headers) -> (r: bool)
        ensures
            r == self@.submap_of(other@),
    {
        proof {
            use_type_invariant(self);
        }
        let mut i: usize = 0;
        while i < self.entries.len()
            invariant
                i <= self.entries.len(),
                distinct_names(self.spec_entries()),
                forall|j: int|
                    0 <= j < i ==> {
                        let e = #[trigger] self.spec_entries()[j];
                        other@.contains_key(e.0) && other@[e.0] == e.1
                    },
            decreases self.entries.len() - i,
        {
            proof {
                lemma_lookup_at(self.spec_entries(), i as int);
            }
            let same = match other.get(self.entries[i].0.as_str()) {
                Some(values) => strings_eq(&self.entries[i].1, values),
                None => false,
            };
            if !same {
                assert(self@.dom().contains(self.spec_entries()[i as int].0));
                return false;
            }
            i += 1;
        }
        proof {
            assert forall|k: Seq<char>| self@.contains_key(k) implies #[trigger] other@.contains_key(k)
                && self@[k] == other@[k] by {
                lemma_lookup_found(self.spec_entries(), k);
            }
        }
        true
    }
}

impl Clone for Headers {
    fn clone(&self) -> (r: Headers)
        ensures
            r@ == self@,
            r.spec_entries() == self.spec_entries(),
    {
        proof {
            use_type_invariant(self);
        }
        Headers { entries: self.entries() }
    }
}

impl PartialEq for Headers {
    fn eq(&self, other: &Headers) -> (r: bool) {
        let r = self.len() == other.len() && self.is_within(other);
        proof {
            if r {
                lemma_subset_equality(self@.dom(), other@.dom());
                assert(self@ =~= other@);
            }
        }
        r
    }
}

impl Eq for Headers {
}

impl PartialEqSpecImpl for Headers {
    open spec fn obeys_eq_spec() -> bool {
        true
    }

    open spec fn eq_spec(&self, other: &Headers) -> bool {
        self@ == other@
    }
}

} // verus!
