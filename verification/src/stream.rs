//! The cassette file as a stream of documents, each followed by a separator
//! line.

use vstd::prelude::*;

verus! {

/// The byte that ends a line.
pub const LINE_FEED: u8 = 10;

/// The byte of the character `-`.
pub const HYPHEN: u8 = 45;

/// The separator: a line feed, three hyphens and a line feed.
pub open spec fn separator() -> Seq<u8> {
    seq![LINE_FEED, HYPHEN, HYPHEN, HYPHEN, LINE_FEED]
}

/// Whether a separator stands at index `i` of the stream.
pub open spec fn separator_at(stream: Seq<u8>, i: int) -> bool {
    &&& 0 <= i
    &&& i + 5 <= stream.len()
    &&& stream[i] == LINE_FEED
    &&& stream[i + 1] == HYPHEN
    &&& stream[i + 2] == HYPHEN
    &&& stream[i + 3] == HYPHEN
    &&& stream[i + 4] == LINE_FEED
}

/// The index of the first separator at or after `from`, or the length of
/// the stream where there is none.
pub open spec fn first_separator(stream: Seq<u8>, from: int) -> int
    decreases stream.len() - from,
{
    if from + 5 > stream.len() {
        stream.len() as int
    } else if separator_at(stream, from) {
        from
    } else {
        first_separator(stream, from + 1)
    }
}

/// The documents of a stream. Each separator ends a document; what follows
/// the last separator is a document too, unless it is empty.
pub open spec fn documents(stream: Seq<u8>) -> Seq<Seq<u8>>
    decreases stream.len(),
{
    if stream.len() == 0 {
        Seq::empty()
    } else {
        let end = first_separator(stream, 0);
        if 0 <= end && end + 5 <= stream.len() {
            seq![stream.subrange(0, end)] + documents(stream.subrange(end + 5, stream.len() as int))
        } else {
            seq![stream]
        }
    }
}

/// A document followed by the separator.
pub open spec fn framed(document: Seq<u8>) -> Seq<u8> {
    document + separator()
}

/// Whether the separator that follows a document is the first one to be
/// found: the document holds none, nor does its end run into one.
pub open spec fn frame_safe(document: Seq<u8>) -> bool {
    first_separator(framed(document), 0) == document.len()
}

/// The stream that holds the given documents, one after another.
pub open spec fn stream_of(docs: Seq<Seq<u8>>) -> Seq<u8>
    decreases docs.len(),
{
    if docs.len() == 0 {
        Seq::empty()
    } else {
        stream_of(docs.drop_last()) + framed(docs.last())
    }
}

/// What `first_separator` finds: no separator stands before it, and one
/// stands at it unless it is the end of the stream.
pub proof fn lemma_first_separator(stream: Seq<u8>, from: int)
    requires
        0 <= from <= stream.len(),
    ensures
        from <= first_separator(stream, from) <= stream.len(),
        forall|j: int| from <= j < first_separator(stream, from) ==> !separator_at(stream, j),
        first_separator(stream, from) < stream.len() ==> separator_at(
            stream,
            first_separator(stream, from),
        ),
    decreases stream.len() - from,
{
    if from + 5 <= stream.len() && !separator_at(stream, from) {
        lemma_first_separator(stream, from + 1);
    }
}

/// An index with no separator before it, which holds one or is the end of
/// the stream, is what `first_separator` finds.
pub proof fn lemma_first_separator_is(stream: Seq<u8>, from: int, end: int)
    requires
        0 <= from <= end <= stream.len(),
        forall|j: int| from <= j < end ==> !separator_at(stream, j),
        separator_at(stream, end) || end == stream.len(),
    ensures
        first_separator(stream, from) == end,
    decreases end - from,
{
    if from + 5 <= stream.len() && !separator_at(stream, from) {
        lemma_first_separator_is(stream, from + 1, end);
    }
}

/// A framed document in front of a stream is the first document of the
/// whole, and the documents of the stream follow.
pub proof fn lemma_documents_after_frame(document: Seq<u8>, rest: Seq<u8>)
    requires
        frame_safe(document),
    ensures
        documents(framed(document) + rest) == seq![document] + documents(rest),
{
    let one = framed(document);
    let all = one + rest;
    let n = document.len() as int;
    lemma_first_separator(one, 0);
    assert forall|j: int| 0 <= j < n implies !separator_at(all, j) by {
        assert(!separator_at(one, j));
    }
    lemma_first_separator_is(all, 0, n);
    assert(all.subrange(0, n) =~= document);
    assert(all.subrange(n + 5, all.len() as int) =~= rest);
}

/// Whether each of the documents is safe to frame.
pub open spec fn all_frame_safe(docs: Seq<Seq<u8>>) -> bool {
    forall|i: int| 0 <= i < docs.len() ==> frame_safe(#[trigger] docs[i])
}

/// A stream of documents begins with its first document, framed.
pub proof fn lemma_stream_of_front(docs: Seq<Seq<u8>>)
    requires
        docs.len() > 0,
    ensures
        stream_of(docs) == framed(docs.first()) + stream_of(docs.drop_first()),
    decreases docs.len(),
{
    if docs.len() == 1 {
        assert(stream_of(docs.drop_last()) =~= Seq::empty());
    } else {
        let front = docs.drop_last();
        lemma_stream_of_front(front);
        assert(front.drop_first() =~= docs.drop_first().drop_last());
    }
}

/// Reading back a stream to which documents were written one after another
/// gives those documents, in the order written, as long as each was safe to
/// frame.
pub proof fn lemma_documents_of_stream(docs: Seq<Seq<u8>>)
    requires
        all_frame_safe(docs),
    ensures
        documents(stream_of(docs)) == docs,
    decreases docs.len(),
{
    if docs.len() > 0 {
        let rest = docs.drop_first();
        lemma_documents_of_stream(rest);
        lemma_stream_of_front(docs);
        lemma_documents_after_frame(docs.first(), stream_of(rest));
    }
}

/// Appending one more framed document to such a stream adds that document,
/// and nothing else, to what is read back.
pub proof fn lemma_append_adds_one(docs: Seq<Seq<u8>>, document: Seq<u8>)
    requires
        all_frame_safe(docs),
        frame_safe(document),
    ensures
        documents(stream_of(docs) + framed(document)) == docs.push(document),
{
    let more = docs.push(document);
    assert(more.drop_last() =~= docs);
    lemma_documents_of_stream(more);
}

/// Whether a separator stands at index `i`.
fn separator_stands_at(stream: &[u8], i: usize) -> (r: bool)
    requires
        i <= stream.len(),
    ensures
        r == separator_at(stream@, i as int),
{
    stream.len() - i >= 5 && stream[i] == LINE_FEED && stream[i + 1] == HYPHEN && stream[i + 2]
        == HYPHEN && stream[i + 3] == HYPHEN && stream[i + 4] == LINE_FEED
}

/// The index of the first separator at or after `from`, or the length of
/// the stream.
fn find_separator(stream: &[u8], from: usize) -> (end: usize)
    requires
        from <= stream.len(),
    ensures
        end == first_separator(stream@, from as int),
        from <= end <= stream.len(),
        end < stream.len() ==> end + 5 <= stream.len(),
{
    let mut i: usize = from;
    while i < stream.len()
        invariant
            from <= i <= stream.len(),
            first_separator(stream@, i as int) == first_separator(stream@, from as int),
        decreases stream.len() - i,
    {
        if separator_stands_at(stream, i) {
            return i;
        }
        i += 1;
    }
    i
}

/// A copy of the bytes from `from` up to `to`.
fn copy_range(stream: &[u8], from: usize, to: usize) -> (out: Vec<u8>)
    requires
        from <= to <= stream.len(),
    ensures
        out@ == stream@.subrange(from as int, to as int),
{
    let mut out: Vec<u8> = Vec::new();
    let mut i: usize = from;
    while i < to
        invariant
            from <= i <= to <= stream.len(),
            out@ == stream@.subrange(from as int, i as int),
        decreases to - i,
    {
        out.push(stream[i]);
        i += 1;
    }
    out
}

/// Splits a stream into its documents.
pub fn split_documents(stream: &[u8]) -> (docs: Vec<Vec<u8>>)
    ensures
        docs.deep_view() == documents(stream@),
{
    let n = stream.len();
    let mut docs: Vec<Vec<u8>> = Vec::new();
    let mut start: usize = 0;
    assert(stream@.subrange(0, n as int) =~= stream@);
    while start < n
        invariant
            start <= n,
            n == stream.len(),
            docs.deep_view() + documents(stream@.subrange(start as int, n as int)) == documents(
                stream@,
            ),
        decreases n - start,
    {
        let ghost rest = stream@.subrange(start as int, n as int);
        let ghost before = docs.deep_view();
        let end = find_separator(stream, start);
        let doc = copy_range(stream, start, end);
        proof {
            lemma_first_separator(stream@, start as int);
            assert forall|j: int| 0 <= j < end - start implies !separator_at(rest, j) by {
                assert(!separator_at(stream@, start + j));
            }
            lemma_first_separator_is(rest, 0, end - start);
            assert(rest.subrange(0, end - start) =~= doc@);
        }
        assert(doc.deep_view() =~= doc@);
        docs.push(doc);
        if end < n {
            assert(rest.subrange(end - start + 5, rest.len() as int) =~= stream@.subrange(
                end + 5,
                n as int,
            ));
            start = end + 5;
        } else {
            start = n;
        }
        assert(before + (seq![doc@] + documents(stream@.subrange(start as int, n as int)))
            =~= before.push(doc@) + documents(stream@.subrange(start as int, n as int)));
    }
    docs
}

/// A document followed by the separator: what is appended to the cassette
/// file for one recording.
pub fn frame_document(document: &[u8]) -> (bytes: Vec<u8>)
    ensures
        bytes@ == framed(document@),
{
    let mut bytes = copy_range(document, 0, document.len());
    bytes.push(LINE_FEED);
    bytes.push(HYPHEN);
    bytes.push(HYPHEN);
    bytes.push(HYPHEN);
    bytes.push(LINE_FEED);
    bytes
}

/// Whether the document can be framed and found again by its separator.
pub fn is_frame_safe(document: &[u8]) -> (r: bool)
    ensures
        r == frame_safe(document@),
{
    let bytes = frame_document(document);
    find_separator(bytes.as_slice(), 0) == document.len()
}

} // verus!
