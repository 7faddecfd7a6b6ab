//! The decisions of the middleware: what construction sets up, and what is
//! done with each intercepted request.

use vstd::prelude::*;
use vstd::std_specs::cmp::PartialEqSpecImpl;
use crate::cassette::{Tagged, all_exchanges, tape_of};
use crate::error::VcrError;
use crate::message::{VcrRequest, VcrResponse};
use crate::recorders::{Append, RecorderRegistry, registered};
use crate::store::{CassetteStore, answer, loaded};
use crate::stream::framed;
use crate::text::str_eq;

verus! {

/// Whether exchanges are captured to a cassette or answered from one.
#[derive(Clone, Copy, Debug, PartialEq, Eq, Hash, Structural)]
pub enum VcrMode {
    Record,
    Replay,
}

/// A record-replay middleware: a mode and the path of a cassette file, both
/// fixed when it is made.
#[derive(Debug)]
pub struct VcrMiddleware {
    mode: VcrMode,
    file: String,
}

/// What is done with an intercepted request.
#[derive(Debug)]
pub enum Action<'a> {
    /// The real call is made, and its response recorded.
    Forward,
    /// No call is made: this recorded response is the answer.
    Respond(&'a VcrResponse),
}

impl VcrMiddleware {
    /// The mode that the middleware was made with.
    pub closed spec fn spec_mode(&self) -> VcrMode {
        self.mode
    }

    /// The path of the cassette file that the middleware was made with.
    pub closed spec fn spec_file(&self) -> Seq<char> {
        self.file@
    }

    /// Whether making a middleware needs the documents of the cassette file:
    /// only for replay, and only while no cassette is loaded for the path.
    pub fn must_load(mode: VcrMode, recording: &str, cassettes: &CassetteStore) -> (r: bool)
        ensures
            r == (mode is Replay && !cassettes@.contains_key(recording@)),
    {
        match mode {
            VcrMode::Replay => !cassettes.is_loaded(recording),
            VcrMode::Record => false,
        }
    }

    /// Makes a middleware for a cassette file. For replay it makes sure that
    /// the cassette is loaded, from the documents given if it is not there
    /// yet; for recording it registers the file. The other map is left alone.
    pub fn new(
        mode: VcrMode,
        recording: &str,
        cassettes: &mut CassetteStore,
        recorders: &mut RecorderRegistry,
        docs: Vec<(Tagged, Tagged)>,
    ) -> (r: Result<VcrMiddleware, VcrError>)
        ensures
            r is Ok <==> mode is Record || old(cassettes)@.contains_key(recording@)
                || all_exchanges(docs@),
            r matches Ok(made) ==> made.spec_mode() == mode && made.spec_file() == recording@,
            r matches Err(e) ==> e is Parse,
            mode is Replay && r is Ok ==> final(cassettes)@ == loaded(
                old(cassettes)@,
                recording@,
                tape_of(docs@),
            ),
            mode is Record || r is Err ==> final(cassettes)@ == old(cassettes)@,
            mode is Record ==> final(recorders)@ == registered(old(recorders)@, recording@),
            mode is Replay ==> final(recorders)@ == old(recorders)@,
    {
        match mode {
            VcrMode::Replay => {
                match cassettes.ensure_loaded(recording, docs) {
                    Ok(()) => {},
                    Err(e) => {
                        return Err(e);
                    },
                }
            },
            VcrMode::Record => {
                let _ = recorders.register(recording);
            },
        }
        Ok(VcrMiddleware { mode, file: recording.to_owned() })
    }

    /// The mode.
    pub fn mode(&self) -> (mode: VcrMode)
        ensures
            mode == self.spec_mode(),
    {
        self.mode
    }

    /// The path of the cassette file.
    pub fn file(&self) -> (file: &str)
        ensures
            file@ == self.spec_file(),
    {
        self.file.as_str()
    }

    /// Decides what is done with an intercepted request. When recording the
    /// real call goes ahead. When replaying the answer is the recorded
    /// response of the first exchange with an equal request, and a request
    /// that no exchange has is an error: no call is ever made.
    pub fn handle<'a>(&self, cassettes: &'a CassetteStore, request: &VcrRequest) -> (r: Result<
        Action<'a>,
        VcrError,
    >)
        ensures
            match self.spec_mode() {
                VcrMode::Record => r matches Ok(Action::Forward),
                VcrMode::Replay => match answer(cassettes@, self.spec_file(), request@) {
                    Some(response) => r matches Ok(Action::Respond(found)) && found@ == response,
                    None => r matches Err(VcrError::NoMatch),
                },
            },
    {
        match self.mode {
            VcrMode::Record => Ok(Action::Forward),
            VcrMode::Replay => match cassettes.find(self.file.as_str(), request) {
                Some(response) => Ok(Action::Respond(response)),
                None => Err(VcrError::NoMatch),
            },
        }
    }

    /// What is written for the document of a recorded exchange: the document
    /// and the separator after it, under the lock of the file's slot.
    /// Nothing is written when replaying, nor for a file that is not
    /// registered.
    pub fn record(&self, recorders: &RecorderRegistry, document: &[u8]) -> (r: Option<Append>)
        ensures
            r is Some <==> self.spec_mode() is Record && recorders@.contains(self.spec_file()),
            r matches Some(append) ==> {
                &&& append.slot < recorders@.len()
                &&& recorders@[append.slot as int] == self.spec_file()
                &&& append.bytes@ == framed(document@)
            },
    {
        match self.mode {
            VcrMode::Replay => None,
            VcrMode::Record => recorders.append(self.file.as_str(), document),
        }
    }
}

impl Clone for VcrMiddleware {
    fn clone(&self) -> (r: VcrMiddleware)
        ensures
            r.spec_mode() == self.spec_mode(),
            r.spec_file() == self.spec_file(),
    {
        VcrMiddleware { mode: self.mode, file: self.file.clone() }
    }
}

impl PartialEq for VcrMiddleware {
    fn eq(&self, other: &VcrMiddleware) -> (r: bool) {
        self.mode == other.mode && str_eq(self.file.as_str(), other.file.as_str())
    }
}

impl Eq for VcrMiddleware {
}

impl PartialEqSpecImpl for VcrMiddleware {
    open spec fn obeys_eq_spec() -> bool {
        true
    }

    open spec fn eq_spec(&self, other: &VcrMiddleware) -> bool {
        self.spec_mode() == other.spec_mode() && self.spec_file() == other.spec_file()
    }
}

} // verus!
