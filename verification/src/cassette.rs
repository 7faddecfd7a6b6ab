//! Cassettes: recorded exchanges in the order in which they were recorded,
//! and the search for the one that answers a request.

use vstd::prelude::*;
use crate::error::VcrError;
use crate::message::{VcrRequest, VcrResponse, RequestView, ResponseView};

verus! {

/// The recorded exchanges of a cassette, oldest first.
pub type Tape = Seq<(RequestView, ResponseView)>;

/// One recorded exchange: a request and the response it got.
#[derive(Debug)]
pub struct Interaction {
    pub request: VcrRequest,
    pub response: VcrResponse,
}

impl View for Interaction {
    type V = (RequestView, ResponseView);

    open spec fn view(&self) -> (RequestView, ResponseView) {
        (self.request@, self.response@)
    }
}

/// A record of a cassette document with the tag that says what it is.
#[derive(Debug)]
pub enum Tagged {
    Request(VcrRequest),
    Response(VcrResponse),
}

/// Whether the two records of a document are a request and then a response.
pub open spec fn is_exchange(pair: (Tagged, Tagged)) -> bool {
    pair.0 is Request && pair.1 is Response
}

/// The exchange that the two records of a document hold.
pub open spec fn exchange_of(pair: (Tagged, Tagged)) -> (RequestView, ResponseView) {
    (pair.0->Request_0@, pair.1->Response_0@)
}

/// Whether every document holds a request and then a response.
pub open spec fn all_exchanges(docs: Seq<(Tagged, Tagged)>) -> bool {
    forall|i: int| 0 <= i < docs.len() ==> is_exchange(#[trigger] docs[i])
}

/// The exchanges that the documents hold, in their order.
pub open spec fn tape_of(docs: Seq<(Tagged, Tagged)>) -> Tape {
    Seq::new(docs.len(), |i: int| exchange_of(docs[i]))
}

/// The index of the first exchange at or after `from` whose request is the
/// given one.
pub open spec fn first_match_from(tape: Tape, request: RequestView, from: int) -> Option<int>
    decreases tape.len() - from,
{
    if from < 0 || from >= tape.len() {
        None
    } else if tape[from].0 == request {
        Some(from)
    } else {
        first_match_from(tape, request, from + 1)
    }
}

/// The index of the first exchange whose request is the given one.
pub open spec fn first_match(tape: Tape, request: RequestView) -> Option<int> {
    first_match_from(tape, request, 0)
}

/// The response that a cassette answers a request with: that of the first
/// exchange with an equal request.
pub open spec fn replayed(tape: Tape, request: RequestView) -> Option<ResponseView> {
    match first_match(tape, request) {
        Some(i) => Some(tape[i].1),
        None => None,
    }
}

/// What `first_match_from` finds: an exchange with the request that no
/// exchange from `from` on precedes; or nothing, where none has it.
pub proof fn lemma_first_match_from(tape: Tape, request: RequestView, from: int)
    requires
        0 <= from,
    ensures
        match first_match_from(tape, request, from) {
            Some(k) => {
                &&& from <= k < tape.len()
                &&& tape[k].0 == request
                &&& forall|j: int| from <= j < k ==> (#[trigger] tape[j]).0 != request
            },
            None => forall|j: int| from <= j < tape.len() ==> (#[trigger] tape[j]).0 != request,
        },
    decreases tape.len() - from,
{
    if from < tape.len() && tape[from].0 != request {
        lemma_first_match_from(tape, request, from + 1);
    }
}

/// A cassette answers with the first exchange that has the request: it has
/// the request, no earlier exchange has it, and where no exchange has it
/// nothing is found.
pub proof fn lemma_first_match(tape: Tape, request: RequestView)
    ensures
        match first_match(tape, request) {
            Some(k) => {
                &&& 0 <= k < tape.len()
                &&& tape[k].0 == request
                &&& forall|j: int| 0 <= j < k ==> (#[trigger] tape[j]).0 != request
                &&& replayed(tape, request) == Some(tape[k].1)
            },
            None => {
                &&& forall|j: int| 0 <= j < tape.len() ==> (#[trigger] tape[j]).0 != request
                &&& replayed(tape, request) is None
            },
        },
{
    lemma_first_match_from(tape, request, 0);
}

/// Of two exchanges with the same request the later one is never the
/// answer: the answer stands at the earlier one or before it, and at the
/// earlier one itself where nothing before it has the request.
pub proof fn lemma_earlier_match_wins(tape: Tape, request: RequestView, k: int, j: int)
    requires
        0 <= k < j < tape.len(),
        tape[k].0 == request,
        tape[j].0 == request,
    ensures
        first_match(tape, request) is Some,
        0 <= first_match(tape, request)->0 <= k,
        first_match(tape, request) != Some(j),
        (forall|i: int| 0 <= i < k ==> (#[trigger] tape[i]).0 != request) ==> replayed(
            tape,
            request,
        ) == Some(tape[k].1),
{
    lemma_first_match_from(tape, request, 0);
}

/// Recording one more exchange changes no answer that the cassette gave
/// before. A request that had no answer gets the response of the new
/// exchange if it is the request of that exchange, and still none if not.
pub proof fn lemma_push_keeps_answers(
    tape: Tape,
    exchange: (RequestView, ResponseView),
    request: RequestView,
)
    ensures
        replayed(tape, request) is Some ==> replayed(tape.push(exchange), request) == replayed(
            tape,
            request,
        ),
        replayed(tape, request) is None ==> replayed(tape.push(exchange), request) == (if exchange.0
            == request {
            Some(exchange.1)
        } else {
            None
        }),
{
    let more = tape.push(exchange);
    lemma_first_match(tape, request);
    lemma_first_match(more, request);
    assert(more[tape.len() as int] == exchange);
    if let Some(k) = first_match(tape, request) {
        assert(more[k] == tape[k]);
    }
}

impl Interaction {
    /// The exchange of a document's two records. They must be a request and
    /// then a response.
    pub fn from_tagged(first: Tagged, second: Tagged) -> (r: Result<Interaction, VcrError>)
        ensures
            r is Ok <==> is_exchange((first, second)),
            r matches Ok(exchange) ==> exchange.request == first->Request_0 && exchange.response
                == second->Response_0,
            r matches Err(e) ==> e is Parse,
    {
        match first {
            Tagged::Request(request) => match second {
                Tagged::Response(response) => Ok(Interaction { request, response }),
                Tagged::Request(_) => Err(VcrError::malformed()),
            },
            Tagged::Response(_) => Err(VcrError::malformed()),
        }
    }

    /// The two records that make the document of an exchange: the request,
    /// then the response.
    pub fn into_tagged(self) -> (pair: (Tagged, Tagged))
        ensures
            pair.0 == Tagged::Request(self.request),
            pair.1 == Tagged::Response(self.response),
    {
        (Tagged::Request(self.request), Tagged::Response(self.response))
    }
}

/// The recorded exchanges of one cassette file.
#[derive(Debug)]
pub struct Cassette {
    interactions: Vec<Interaction>,
}

impl View for Cassette {
    type V = Tape;

    closed spec fn view(&self) -> Tape {
        Seq::new(self.interactions@.len(), |i: int| self.interactions@[i]@)
    }
}

impl Cassette {
    /// A cassette with nothing recorded.
    pub fn new() -> (cassette: Cassette)
        ensures
            cassette@ == Seq::<(RequestView, ResponseView)>::empty(),
    {
        Cassette { interactions: Vec::new() }
    }

    /// How many exchanges are recorded.
    pub fn len(&self) -> (n: usize)
        ensures
            n == self@.len(),
    {
        self.interactions.len()
    }

    /// Records one more exchange after those that are there.
    pub fn push(&mut self, interaction: Interaction)
        ensures
            final(self)@ == old(self)@.push(interaction@),
    {
        self.interactions.push(interaction);
    }

    /// The exchange at an index.
    pub fn get(&self, index: usize) -> (r: Option<&Interaction>)
        ensures
            r is Some <==> index < self@.len(),
            r matches Some(exchange) ==> exchange@ == self@[index as int],
    {
        if index < self.interactions.len() {
            Some(&self.interactions[index])
        } else {
            None
        }
    }

    /// The index of the first exchange whose request equals the given one.
    pub fn position(&self, request: &VcrRequest) -> (r: Option<usize>)
        ensures
            match r {
                Some(i) => first_match(self@, request@) == Some(i as int),
                None => first_match(self@, request@) is None,
            },
    {
        let mut i: usize = 0;
        while i < self.interactions.len()
            invariant
                i <= self.interactions.len(),
                first_match_from(self@, request@, i as int) == first_match(self@, request@),
            decreases self.interactions.len() - i,
        {
            if self.interactions[i].request == *request {
                return Some(i);
            }
            i += 1;
        }
        None
    }

    /// The recorded response to a request: that of the first exchange whose
    /// request equals it.
    pub fn find(&self, request: &VcrRequest) -> (r: Option<&VcrResponse>)
        ensures
            match r {
                Some(response) => replayed(self@, request@) == Some(response@),
                None => replayed(self@, request@) is None,
            },
    {
        match self.position(request) {
            Some(i) => {
                proof {
                    lemma_first_match(self@, request@);
                }
                Some(&self.interactions[i].response)
            },
            None => None,
        }
    }

    /// The cassette of a file's documents, in their order. Every document
    /// must hold a request and then a response; one that does not fails the
    /// whole cassette.
    pub fn from_documents(docs: Vec<(Tagged, Tagged)>) -> (r: Result<Cassette, VcrError>)
        ensures
            r is Ok <==> all_exchanges(docs@),
            r matches Ok(cassette) ==> cassette@ == tape_of(docs@),
            r matches Err(e) ==> e is Parse,
    {
        let mut cassette = Cassette::new();
        for pair in it: docs
            invariant
                it.seq() == docs@,
                cassette@.len() == it.index(),
                forall|i: int| 0 <= i < it.index() ==> is_exchange(#[trigger] docs[i]),
                forall|i: int| 0 <= i < it.index() ==> cassette@[i] == exchange_of(docs[i]),
        {
            let (first, second) = pair;
            match Interaction::from_tagged(first, second) {
                Ok(exchange) => {
                    cassette.push(exchange);
                },
                Err(e) => {
                    return Err(e);
                },
            }
        }
        Ok(cassette)
    }
}

} // verus!
