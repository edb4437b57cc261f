//! The document data model: archival record content and headers paired
//! with the identification metadata produced for that record.

use vstd::multiset::Multiset;
use vstd::prelude::*;

use crate::error::Error;
use crate::identifiers::Identification;

verus! {

#[verifier::external_type_specification]
#[verifier::external_body]
pub struct ExRawRecordHeader(warc::RawRecordHeader);

/// Every header of a record's raw header block, as (display name, raw
/// value) pairs; a header map carries no order, so the contents are a
/// multiset.
pub uninterp spec fn header_entries(h: warc::RawRecordHeader) -> Multiset<(Seq<char>, Seq<u8>)>;

/// The raw value stored in a record's header block under the
/// record-identifier key, if any.
pub uninterp spec fn record_id_of(h: warc::RawRecordHeader) -> Option<Seq<u8>>;

/// The best-effort text of a byte sequence: invalid encoding is replaced,
/// the rest is decoded; the result depends on the bytes alone.
pub uninterp spec fn lossy_text_of(bytes: Seq<u8>) -> Seq<char>;

/// Relies on HashMap::get on warc's RawRecordHeader header map: the value
/// under WarcHeader::RecordID, a lookup the map determines.
#[verifier::external_body]
fn record_id_bytes(h: &warc::RawRecordHeader) -> (r: Option<Vec<u8>>)
    ensures
        r is Some <==> record_id_of(*h) is Some,
        r matches Some(v) ==> record_id_of(*h) == Some(v@),
{
    h.headers.get(&warc::WarcHeader::RecordID).cloned()
}

/// Relies on HashMap::iter on warc's RawRecordHeader header map and on
/// WarcHeader's display name: every header as a (name, value) pair, in
/// whatever order the map yields them.
#[verifier::external_body]
fn header_pairs(h: &warc::RawRecordHeader) -> (r: Vec<(String, Vec<u8>)>)
    ensures
        r@.map_values(|p: (String, Vec<u8>)| (p.0@, p.1@)).to_multiset() == header_entries(*h),
{
    h.headers.iter().map(|(k, v)| (k.to_string(), v.clone())).collect()
}

/// Relies on String::from_utf8_lossy: best-effort text of the bytes.
#[verifier::external_body]
fn utf8_lossy(bytes: &Vec<u8>) -> (r: String)
    ensures
        r@ == lossy_text_of(bytes@),
        bytes@.len() == 0 ==> r@.len() == 0,
{
    String::from_utf8_lossy(bytes).into_owned()
}

/// Index of the first line feed of a text, or the text's length where
/// it holds none.
pub open spec fn spec_first_newline(s: Seq<char>) -> int
    decreases s.len(),
{
    if s.len() == 0 {
        0
    } else if s[0] == '\n' {
        0
    } else {
        1 + spec_first_newline(s.skip(1))
    }
}

/// A line as rendered for inspection: a carriage return standing right
/// before the line feed belongs to the line ending and is dropped.
pub open spec fn spec_trim_cr(line: Seq<char>) -> Seq<char> {
    if line.len() > 0 && line[line.len() - 1] == '\r' {
        line.take(line.len() - 1)
    } else {
        line
    }
}

/// The lines of a text, split at each line feed, with a carriage return
/// right before a line feed dropped; a final line ending opens no
/// further line, and an empty text has no lines.
pub open spec fn spec_lines(s: Seq<char>) -> Seq<Seq<char>>
    decreases s.len(),
{
    if s.len() == 0 {
        Seq::empty()
    } else {
        let i = spec_first_newline(s);
        if 0 <= i < s.len() {
            seq![spec_trim_cr(s.take(i))] + spec_lines(s.skip(i + 1))
        } else {
            seq![s]
        }
    }
}

/// A text whose characters up to `i` hold no line feed, with `i` on a
/// line feed or at the end, has its first line feed exactly at `i`.
proof fn lemma_first_newline_at(s: Seq<char>, i: int)
    requires
        0 <= i <= s.len(),
        forall|j: int| 0 <= j < i ==> s[j] != '\n',
        i < s.len() ==> s[i] == '\n',
    ensures
        spec_first_newline(s) == i,
    decreases s.len(),
{
    if s.len() == 0 {
    } else if s[0] == '\n' {
        assert(i == 0);
    } else {
        assert(s[0] != '\n');
        assert(i >= 1);
        assert forall|j: int| 0 <= j < i - 1 implies s.skip(1)[j] != '\n' by {
            assert(s[j + 1] != '\n');
        }
        assert(i - 1 < s.skip(1).len() ==> s.skip(1)[i - 1] == '\n');
        lemma_first_newline_at(s.skip(1), i - 1);
    }
}

/// Split a text into its lines, as [`spec_lines`] describes: one entry
/// per line, line endings dropped, no entry for a final line ending.
pub fn split_lines(text: &str) -> (r: Vec<String>)
    ensures
        r.deep_view() == spec_lines(text@),
{
    let n = text.unicode_len();
    let mut lines: Vec<String> = Vec::new();
    let mut start: usize = 0;
    proof {
        assert(text@.skip(0) =~= text@);
        assert(lines.deep_view() + spec_lines(text@) =~= spec_lines(text@));
    }
    while start < n
        invariant
            start <= n,
            n == text@.len(),
            spec_lines(text@) == lines.deep_view() + spec_lines(text@.skip(start as int)),
        decreases n - start,
    {
        let ghost prev = lines.deep_view();
        let ghost rem = text@.skip(start as int);
        let mut pos: usize = start;
        while pos < n && text.get_char(pos) != '\n'
            invariant
                start <= pos <= n,
                n == text@.len(),
                forall|j: int| start <= j < pos ==> text@[j] != '\n',
            decreases n - pos,
        {
            pos = pos + 1;
        }
        proof {
            assert forall|j: int| 0 <= j < pos - start implies rem[j] != '\n' by {
                assert(text@[start + j] != '\n');
            }
            assert(pos - start < rem.len() ==> rem[pos - start] == '\n');
            lemma_first_newline_at(rem, pos - start);
        }
        if pos < n {
            let end = if pos > start && text.get_char(pos - 1) == '\r' {
                pos - 1
            } else {
                pos
            };
            let line = String::from_str(text.substring_char(start, end));
            lines.push(line);
            proof {
                assert(spec_trim_cr(rem.take(pos - start)) =~= text@.subrange(
                    start as int,
                    end as int,
                ));
                assert(rem.skip(pos - start + 1) =~= text@.skip(pos + 1));
                assert(lines.deep_view() =~= prev.push(line@));
                assert(prev + (seq![line@] + spec_lines(text@.skip(pos + 1))) =~= prev.push(line@)
                    + spec_lines(text@.skip(pos + 1)));
            }
            start = pos + 1;
        } else {
            let line = String::from_str(text.substring_char(start, n));
            lines.push(line);
            proof {
                assert(rem =~= text@.subrange(start as int, n as int));
                assert(spec_lines(rem) == seq![rem]);
                assert(lines.deep_view() =~= prev.push(line@));
                assert(prev + seq![rem] =~= prev.push(line@));
                assert(text@.skip(n as int) =~= Seq::<char>::empty());
                assert(prev.push(line@) + spec_lines(text@.skip(n as int)) =~= prev.push(line@));
            }
            start = n;
        }
    }
    proof {
        assert(text@.skip(n as int) =~= Seq::<char>::empty());
        assert(lines.deep_view() + spec_lines(text@.skip(n as int)) =~= lines.deep_view());
    }
    lines
}

/// Decode each raw header value best-effort, keeping names, order and
/// count: the rendering step of the diagnostic representation, verified
/// for whatever pairs the header map handed out.
pub fn render_header_pairs(pairs: &Vec<(String, Vec<u8>)>) -> (r: Vec<(String, String)>)
    ensures
        r@.len() == pairs@.len(),
        forall|i: int|
            0 <= i < pairs@.len() ==> (#[trigger] r@[i]).0@ == pairs@[i].0@ && r@[i].1@
                == lossy_text_of(pairs@[i].1@),
{
    let mut out: Vec<(String, String)> = Vec::new();
    let mut i: usize = 0;
    while i < pairs.len()
        invariant
            i <= pairs@.len(),
            out@.len() == i,
            forall|j: int|
                0 <= j < i ==> (#[trigger] out@[j]).0@ == pairs@[j].0@ && out@[j].1@
                    == lossy_text_of(pairs@[j].1@),
        decreases pairs@.len() - i,
    {
        let name = pairs[i].0.clone();
        let text = utf8_lossy(&pairs[i].1);
        out.push((name, text));
        i = i + 1;
    }
    out
}

/// Identification metadata of one record: the document-level result and
/// one optional result per sentence, in sentence order. A sentence's
/// entry is `None` where the sentence was too short to classify or no
/// prediction cleared the confidence threshold. Immutable once built.
#[derive(Debug)]
pub struct Metadata {
    identification: Identification,
    sentence_identifications: Vec<Option<Identification>>,
}

impl Metadata {
    /// The document-level identification.
    pub closed spec fn spec_identification(&self) -> Identification {
        self.identification
    }

    /// The per-sentence identifications, one per sentence, in order.
    pub closed spec fn spec_sentence_identifications(&self) -> Seq<Option<Identification>> {
        self.sentence_identifications@
    }

    /// Pair a document-level identification with the per-sentence
    /// results. The sequence keeps one entry per supplied sentence, in
    /// the supplied order, however many entries are `None`.
    pub fn new(
        identification: Identification,
        sentence_identifications: Vec<Option<Identification>>,
    ) -> (r: Metadata)
        ensures
            r.spec_identification() == identification,
            r.spec_sentence_identifications() == sentence_identifications@,
    {
        Metadata { identification, sentence_identifications }
    }

    /// The document-level identification.
    pub fn identification(&self) -> (r: &Identification)
        ensures
            *r == self.spec_identification(),
    {
        &self.identification
    }

    /// The per-sentence identifications, one entry per sentence supplied
    /// at construction, in the original order.
    pub fn sentence_identifications(&self) -> (r: &Vec<Option<Identification>>)
        ensures
            r@ == self.spec_sentence_identifications(),
    {
        &self.sentence_identifications
    }
}

/// One archival record ready for downstream consumption: its full text,
/// its raw header block, and the identification metadata computed for
/// it. All fields are set once at construction and only read afterwards.
pub struct Document {
    content: String,
    warc_headers: warc::RawRecordHeader,
    metadata: Metadata,
}

impl Document {
    /// The record's full text.
    pub closed spec fn spec_content(&self) -> Seq<char> {
        self.content@
    }

    /// The record's raw header block.
    pub closed spec fn spec_headers(&self) -> warc::RawRecordHeader {
        self.warc_headers
    }

    /// The record's identification metadata.
    pub closed spec fn spec_metadata(&self) -> Metadata {
        self.metadata
    }

    /// Build a document from already-computed parts.
    pub fn new(content: String, warc_headers: warc::RawRecordHeader, metadata: Metadata) -> (r:
        Document)
        ensures
            r.spec_content() == content@,
            r.spec_headers() == warc_headers,
            r.spec_metadata() == metadata,
    {
        Document { content, warc_headers, metadata }
    }

    /// The record's full text.
    pub fn content(&self) -> (r: &String)
        ensures
            r@ == self.spec_content(),
    {
        &self.content
    }

    /// The document-level identification.
    pub fn identification(&self) -> (r: &Identification)
        ensures
            *r == self.spec_metadata().spec_identification(),
    {
        &self.metadata.identification
    }

    /// The identification metadata.
    pub fn metadata(&self) -> (r: &Metadata)
        ensures
            *r == self.spec_metadata(),
    {
        &self.metadata
    }

    /// The record's text split into lines, as [`spec_lines`] describes,
    /// to aid inspection of per-sentence identification.
    pub fn content_lines(&self) -> (r: Vec<String>)
        ensures
            r.deep_view() == spec_lines(self.spec_content()),
    {
        split_lines(self.content.as_str())
    }

    /// Every header of the record as (name, best-effort text) pairs, for
    /// inspection only: some listing of [`header_entries`] with each
    /// value decoded as [`lossy_text_of`] describes. A header map
    /// carries no order, so none is promised.
    pub fn rendered_headers(&self) -> (r: Vec<(String, String)>)
        ensures
            exists|pairs: Seq<(Seq<char>, Seq<u8>)>|
                {
                    &&& #[trigger] pairs.to_multiset() == header_entries(self.spec_headers())
                    &&& r@.len() == pairs.len()
                    &&& forall|i: int|
                        0 <= i < pairs.len() ==> (#[trigger] r@[i]).0@ == pairs[i].0 && r@[i].1@
                            == lossy_text_of(pairs[i].1)
                },
    {
        let raw = header_pairs(&self.warc_headers);
        let r = render_header_pairs(&raw);
        proof {
            let pairs = raw@.map_values(|p: (String, Vec<u8>)| (p.0@, p.1@));
            assert(pairs.to_multiset() == header_entries(self.spec_headers()));
            assert(r@.len() == pairs.len());
            assert(forall|i: int|
                0 <= i < pairs.len() ==> (#[trigger] r@[i]).0@ == pairs[i].0 && r@[i].1@
                    == lossy_text_of(pairs[i].1));
        }
        r
    }

    /// The record identifier, read from the record-identifier header and
    /// decoded best-effort. A document without that header cannot be
    /// identified downstream, so its absence is surfaced as
    /// [`Error::MissingHeader`].
    pub fn warc_id(&self) -> (r: Result<String, Error>)
        ensures
            record_id_of(self.spec_headers()) matches Some(b) ==> r matches Ok(s) && s@
                == lossy_text_of(b),
            record_id_of(self.spec_headers()) is None ==> r == Err::<String, Error>(
                Error::MissingHeader,
            ),
    {
        match record_id_bytes(&self.warc_headers) {
            Some(b) => Ok(utf8_lossy(&b)),
            None => Err(Error::MissingHeader),
        }
    }
}

} // verus!
