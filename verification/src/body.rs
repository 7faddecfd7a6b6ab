//! Message bodies: readable text where the bytes allow it, raw bytes otherwise.

use vstd::prelude::*;
use vstd::utf8::*;
use vstd::string::*;
use vstd::slice::slice_to_vec;
use vstd::std_specs::cmp::PartialEqSpecImpl;
use vstd::std_specs::convert::FromSpecImpl;
use crate::text::bytes_eq;

verus! {

/// The error of `core::str::from_utf8`. Nothing is read from it.
#[verifier::external_type_specification]
#[verifier::external_body]
pub struct ExUtf8Error(core::str::Utf8Error);

/// `core::str::from_utf8` succeeds exactly on well-formed UTF-8, and the
/// string slice it returns covers the very bytes it was given.
pub assume_specification[ core::str::from_utf8 ](v: &[u8]) -> (r: Result<&str, core::str::Utf8Error>)
    ensures
        r is Ok <==> valid_utf8(v@),
        r matches Ok(s) ==> s.spec_bytes() == v@,
;

/// The content of a request or response.
#[derive(Debug)]
pub enum Body {
    Bytes(Vec<u8>),
    Str(String),
}

/// Mathematical value of a [`Body`].
pub enum BodyView {
    Bytes(Seq<u8>),
    Str(Seq<char>),
}

impl View for Body {
    type V = BodyView;

    open spec fn view(&self) -> BodyView {
        match self {
            Body::Bytes(b) => BodyView::Bytes(b@),
            Body::Str(s) => BodyView::Str(s@),
        }
    }
}

impl BodyView {
    /// The raw bytes that the body stands for.
    pub open spec fn bytes(self) -> Seq<u8> {
        match self {
            BodyView::Bytes(b) => b,
            BodyView::Str(s) => encode_utf8(s),
        }
    }

    /// How raw bytes are classified: text when they are well-formed UTF-8,
    /// the bytes themselves otherwise.
    pub open spec fn classify(bytes: Seq<u8>) -> BodyView {
        if valid_utf8(bytes) {
            BodyView::Str(decode_utf8(bytes))
        } else {
            BodyView::Bytes(bytes)
        }
    }
}

impl<'a> From<&'a [u8]> for Body {
    /// Classifies raw bytes: text if they are well-formed UTF-8, else the
    /// bytes as they are.
    fn from(bytes: &'a [u8]) -> (body: Body)
        ensures
            body@ == BodyView::classify(bytes@),
    {
        match core::str::from_utf8(bytes) {
            Ok(s) => {
                proof {
                    encode_utf8_decode_utf8(s@);
                }
                Body::Str(s.to_owned())
            },
            Err(_) => Body::Bytes(slice_to_vec(bytes)),
        }
    }
}

// What `from` returns is said by its own `ensures`, over the view of the
// body: a body owns its buffer, so no value of it can be named here.
impl<'a> FromSpecImpl<&'a [u8]> for Body {
    open spec fn obeys_from_spec() -> bool {
        false
    }

    open spec fn from_spec(bytes: &'a [u8]) -> Body {
        arbitrary()
    }
}

impl Body {
    /// The raw bytes of the body: a text body in UTF-8.
    pub fn to_bytes(&self) -> (bytes: Vec<u8>)
        ensures
            bytes@ == self@.bytes(),
    {
        match self {
            Body::Bytes(b) => slice_to_vec(b.as_slice()),
            Body::Str(s) => slice_to_vec(s.as_str().as_bytes()),
        }
    }
}

impl Clone for Body {
    fn clone(&self) -> (r: Body)
        ensures
            r@ == self@,
    {
        match self {
            Body::Bytes(b) => Body::Bytes(slice_to_vec(b.as_slice())),
            Body::Str(s) => Body::Str(s.clone()),
        }
    }
}

impl PartialEq for Body {
    fn eq(&self, other: &Body) -> (r: bool) {
        match (self, other) {
            (Body::Bytes(a), Body::Bytes(b)) => bytes_eq(a.as_slice(), b.as_slice()),
            (Body::Str(a), Body::Str(b)) => *a == *b,
            _ => false,
        }
    }
}

impl Eq for Body {
}

impl PartialEqSpecImpl for Body {
    open spec fn obeys_eq_spec() -> bool {
        true
    }

    open spec fn eq_spec(&self, other: &Body) -> bool {
        self@ == other@
    }
}

/// Classifying bytes and writing the body out again gives back the bytes.
pub proof fn lemma_classify_keeps_bytes(bytes: Seq<u8>)
    ensures
        BodyView::classify(bytes).bytes() == bytes,
        valid_utf8(bytes) ==> BodyView::classify(bytes) == BodyView::Str(decode_utf8(bytes)),
        !valid_utf8(bytes) ==> BodyView::classify(bytes) == BodyView::Bytes(bytes),
{
    if valid_utf8(bytes) {
        decode_utf8_encode_utf8(bytes);
    }
}

} // verus!
