//! Reading a manifest piece by piece with `quick_xml`.
//!
//! The reader is `quick_xml`'s, and nothing of what it does is proved here.
//! What it yields is turned into a `Reading`; the readings of a document are
//! given a name, and the three functions that touch the reader say, without
//! proof, how each call takes the next of them.

use quick_xml::events::Event;
use quick_xml::name::QName;
use quick_xml::reader::Reader;
use vstd::prelude::*;

verus! {

/// `quick_xml`'s reader, of which nothing is seen here but that it exists.
#[verifier::external_type_specification]
#[verifier::external_body]
#[verifier::reject_recursive_types(R)]
pub struct ExReader<R>(Reader<R>);

/// One attribute of an opening tag, as it is written in the document.
#[derive(Debug, PartialEq, Eq)]
pub struct XmlAttribute {
    pub key: String,
    pub value: String,
}

/// An attribute, its key and value as sequences of characters.
pub struct XmlAttributeView {
    pub key: Seq<char>,
    pub value: Seq<char>,
}

impl View for XmlAttribute {
    type V = XmlAttributeView;

    open spec fn view(&self) -> XmlAttributeView {
        XmlAttributeView { key: self.key@, value: self.value@ }
    }
}

impl DeepView for XmlAttribute {
    type V = XmlAttributeView;

    open spec fn deep_view(&self) -> XmlAttributeView {
        self@
    }
}

/// One thing read from a manifest.
#[derive(Debug, PartialEq, Eq)]
pub enum Reading {
    /// An opening tag with its attributes, in the order of the document;
    /// `None` stands for an attribute that could not be read.
    Open { name: String, attributes: Vec<Option<XmlAttribute>> },
    /// A closing tag.
    Close { name: String },
    /// What stands between an opening tag and its closing tag, unchanged.
    Text { content: String },
    /// Anything else: loose text, a comment, a declaration, an empty element.
    Other,
    /// The end of the document.
    Eof,
    /// The document is not well formed at this point.
    Malformed,
}

/// A reading, its texts as sequences of characters.
pub enum ReadingView {
    Open { name: Seq<char>, attributes: Seq<Option<XmlAttributeView>> },
    Close { name: Seq<char> },
    Text { content: Seq<char> },
    Other,
    Eof,
    Malformed,
}

impl View for Reading {
    type V = ReadingView;

    open spec fn view(&self) -> ReadingView {
        match *self {
            Reading::Open { name, attributes } => ReadingView::Open {
                name: name@,
                attributes: attributes.deep_view(),
            },
            Reading::Close { name } => ReadingView::Close { name: name@ },
            Reading::Text { content } => ReadingView::Text { content: content@ },
            Reading::Other => ReadingView::Other,
            Reading::Eof => ReadingView::Eof,
            Reading::Malformed => ReadingView::Malformed,
        }
    }
}

impl DeepView for Reading {
    type V = ReadingView;

    open spec fn deep_view(&self) -> ReadingView {
        self@
    }
}

/// The tags whose content is read as one text: `name`, `login`, `clientId`
/// and `categoryId`.
pub open spec fn reads_text(name: Seq<char>) -> bool {
    name == "name"@ || name == "login"@ || name == "clientId"@ || name == "categoryId"@
}

/// Nothing is read after the end of the document or after a failure.
pub open spec fn is_last(reading: ReadingView) -> bool {
    reading is Eof || reading is Malformed
}

/// The last reading taken ended the document.
pub open spec fn ended(taken: Seq<ReadingView>) -> bool {
    taken.len() > 0 && is_last(taken.last())
}

/// The last reading taken opened a tag whose content is read as one text.
pub open spec fn awaits_text(taken: Seq<ReadingView>) -> bool {
    taken.len() > 0 && taken.last() is Open && reads_text(taken.last()->Open_name)
}

/// The readings of a document: what a `quick_xml` reader that trims text
/// yields for it, call by call, when the content of each tag of `reads_text`
/// is read as one text up to its closing tag and one event is read at every
/// other step. The sequence ends with the first `Eof` or `Malformed`. It is
/// finite, because the reader consumes some of the document with every
/// reading that is not the last.
pub uninterp spec fn readings(document: Seq<char>) -> Seq<ReadingView>;

/// The readings that have been taken from a reader, in order.
pub uninterp spec fn taken(reader: Reader<&[u8]>) -> Seq<ReadingView>;

/// The readings that a reader has yet to yield, in order.
pub uninterp spec fn unread(reader: Reader<&[u8]>) -> Seq<ReadingView>;

/// A reader at the start of `document`.
///
/// Trusted: `Reader::from_str`, then `Reader::trim_text(true)`. The contract
/// claims nothing of what the reader will yield; it gives it its name,
/// `readings(document)`.
#[verifier::external_body]
pub(crate) fn open_reader<'a>(document: &'a str) -> (reader: Reader<&'a [u8]>)
    ensures
        taken(reader) == Seq::<ReadingView>::empty(),
        unread(reader) == readings(document@),
{
    let mut reader = Reader::from_str(document);
    reader.trim_text(true);
    reader
}

/// Takes the next event from the reader.
///
/// Trusted: `Reader::read_event_into`, whose result is turned into a
/// `Reading`. An opening tag comes back with its name and with what
/// `Attributes` yields, an attribute as it is and an error as `None`; a
/// closing tag with its name; a failure as `Malformed`; every event but
/// `Start`, `End` and `Eof` as `Other`. The document is a string, so the bytes of a name or of
/// a value are text as they stand. The contract claims that a reader that
/// has not ended has a next reading, that the result is this reading, and
/// that the call moves it from the readings ahead to the readings taken.
#[verifier::external_body]
pub(crate) fn read_event(reader: &mut Reader<&[u8]>) -> (reading: Reading)
    requires
        !ended(taken(*old(reader))),
        !awaits_text(taken(*old(reader))),
    ensures
        unread(*old(reader)).len() > 0,
        reading@ == unread(*old(reader)).first(),
        unread(*final(reader)) == unread(*old(reader)).drop_first(),
        taken(*final(reader)) == taken(*old(reader)).push(reading@),
        !(reading is Text),
{
    let mut buf = Vec::new();
    match reader.read_event_into(&mut buf) {
        Err(_) => Reading::Malformed,
        Ok(Event::Eof) => Reading::Eof,
        Ok(Event::Start(e)) => Reading::Open {
            name: String::from_utf8_lossy(e.name().as_ref()).into_owned(),
            attributes: e.attributes().map(|a| a.ok().map(|a| XmlAttribute {
                key: String::from_utf8_lossy(a.key.as_ref()).into_owned(),
                value: String::from_utf8_lossy(&a.value).into_owned(),
            })).collect(),
        },
        Ok(Event::End(e)) => Reading::Close { name: String::from_utf8_lossy(e.name().as_ref()).into_owned() },
        Ok(_) => Reading::Other,
    }
}

/// Takes the content of the tag that was opened last, up to its closing tag.
///
/// Trusted: `Reader::read_text` with `end` as the name of the closing tag;
/// the text comes back as it stands in the document, a failure as
/// `Malformed`. The contract claims of the result what `read_event` claims
/// of its own.
#[verifier::external_body]
pub(crate) fn read_text(reader: &mut Reader<&[u8]>, end: &str) -> (reading: Reading)
    requires
        awaits_text(taken(*old(reader))),
        end@ == taken(*old(reader)).last()->Open_name,
    ensures
        unread(*old(reader)).len() > 0,
        reading@ == unread(*old(reader)).first(),
        unread(*final(reader)) == unread(*old(reader)).drop_first(),
        taken(*final(reader)) == taken(*old(reader)).push(reading@),
        reading is Text || reading is Malformed,
{
    match reader.read_text(QName(end.as_bytes())) {
        Ok(text) => Reading::Text { content: text.into_owned() },
        Err(_) => Reading::Malformed,
    }
}

} // verus!
