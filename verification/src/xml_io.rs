//! The boundary to the XML reader and writer: plain token and event types,
//! and the calls that turn text into tokens and events into text.

use vstd::prelude::*;
use vstd::utf8::{decode_utf8, valid_utf8};

verus! {

/// Mathematical value of an [`XmlAttribute`].
pub struct AttrView {
    pub name: Seq<char>,
    pub value: Seq<char>,
}

/// One attribute of a start tag.
#[derive(Debug, PartialEq, Eq)]
pub struct XmlAttribute {
    pub name: String,
    pub value: String,
}

impl View for XmlAttribute {
    type V = AttrView;

    open spec fn view(&self) -> AttrView {
        AttrView { name: self.name@, value: self.value@ }
    }
}

/// The views of a sequence of attributes, in order.
pub open spec fn attrs_view(attrs: Seq<XmlAttribute>) -> Seq<AttrView> {
    attrs.map_values(|a: XmlAttribute| a@)
}

/// Mathematical value of an [`XmlToken`].
pub enum TokenView {
    Start { name: Seq<char>, attributes: Seq<AttrView> },
    Text(Seq<char>),
    End { name: Seq<char> },
    Other,
}

/// What the reader reports of a document, as far as the edit model reads it.
#[derive(Debug, PartialEq, Eq)]
pub enum XmlToken {
    /// A start tag, with the local names of the element and its attributes.
    Start { name: String, attributes: Vec<XmlAttribute> },
    /// Character data, with entities resolved.
    Text(String),
    /// An end tag, or the end of an empty-element tag.
    End { name: String },
    /// Anything else: document start and end, whitespace between tags,
    /// comments, CDATA sections, processing instructions.
    Other,
}

impl View for XmlToken {
    type V = TokenView;

    open spec fn view(&self) -> TokenView {
        match *self {
            XmlToken::Start { name, attributes } => TokenView::Start {
                name: name@,
                attributes: attrs_view(attributes@),
            },
            XmlToken::Text(text) => TokenView::Text(text@),
            XmlToken::End { name } => TokenView::End { name: name@ },
            XmlToken::Other => TokenView::Other,
        }
    }
}

/// The views of a sequence of tokens, in order.
pub open spec fn tokens_view(tokens: Seq<XmlToken>) -> Seq<TokenView> {
    tokens.map_values(|t: XmlToken| t@)
}

/// Mathematical value of an [`XmlWrite`].
pub enum WriteView {
    Start { name: Seq<char>, attributes: Seq<AttrView> },
    Text(Seq<char>),
    End,
}

/// One instruction to the writer.
#[derive(Debug, PartialEq, Eq)]
pub enum XmlWrite {
    /// Open an element with the given attributes.
    Start { name: String, attributes: Vec<XmlAttribute> },
    /// Character data inside the open element.
    Text(String),
    /// Close the innermost open element.
    End,
}

impl View for XmlWrite {
    type V = WriteView;

    open spec fn view(&self) -> WriteView {
        match *self {
            XmlWrite::Start { name, attributes } => WriteView::Start {
                name: name@,
                attributes: attrs_view(attributes@),
            },
            XmlWrite::Text(text) => WriteView::Text(text@),
            XmlWrite::End => WriteView::End,
        }
    }
}

/// The views of a sequence of writer instructions, in order.
pub open spec fn writes_view(events: Seq<XmlWrite>) -> Seq<WriteView> {
    events.map_values(|e: XmlWrite| e@)
}

/// The reader's error: a position and a kind. Nothing of it is read but
/// its message.
#[verifier::external_type_specification]
#[verifier::external_body]
pub struct ExReaderError(xml::reader::Error);

/// The writer's error. Nothing of it is read but its message.
#[verifier::external_type_specification]
#[verifier::external_body]
pub struct ExWriterError(xml::writer::Error);

/// The tokens that the XML reader reports for a text, up to and including
/// the end of the document; `None` where it reports an error.
pub uninterp spec fn xml_tokens(content: Seq<char>) -> Option<Seq<TokenView>>;

/// The bytes that the indenting XML writer puts out for a sequence of
/// instructions; `None` where it refuses one of them.
pub uninterp spec fn xml_bytes(events: Seq<WriteView>) -> Option<Seq<u8>>;

/// Runs `xml::reader::EventReader` with its default configuration over
/// `content` and collects what its iterator yields: start tags, character
/// data and end tags as such, with local names, and every other event as
/// [`XmlToken::Other`]. The first error ends the reading. What the reader
/// yields is a function of the text alone; the contract gives it the name
/// [`xml_tokens`] and claims nothing else of it.
#[verifier::external_body]
pub(crate) fn read_tokens(content: &str) -> (r: Result<Vec<XmlToken>, xml::reader::Error>)
    ensures
        r matches Ok(tokens) ==> xml_tokens(content@) == Some(tokens_view(tokens@)),
        r is Err ==> xml_tokens(content@) is None,
{
    let mut tokens = Vec::new();
    for event in xml::reader::EventReader::new(content.as_bytes()) {
        tokens.push(match event? {
            xml::reader::XmlEvent::StartElement { name, attributes, .. } => XmlToken::Start {
                name: name.local_name,
                attributes: attributes.into_iter().map(|a| XmlAttribute { name: a.name.local_name, value: a.value }).collect(),
            },
            xml::reader::XmlEvent::Characters(text) => XmlToken::Text(text),
            xml::reader::XmlEvent::EndElement { name } => XmlToken::End { name: name.local_name },
            _ => XmlToken::Other,
        });
    }
    Ok(tokens)
}

/// The message of a reader error, as its `Display` impl writes it. Nothing
/// is claimed of the text.
#[verifier::external_body]
pub(crate) fn reader_error_text(error: &xml::reader::Error) -> (r: String) {
    error.to_string()
}

/// Feeds `events` to an `xml::writer::EventWriter` over a byte vector,
/// configured to indent and to write empty elements without padding, and
/// returns the bytes it wrote. The first refusal ends the writing. What
/// the writer puts out is a function of the instructions alone; the
/// contract gives it the name [`xml_bytes`] and claims nothing else of it.
#[verifier::external_body]
pub(crate) fn write_events(events: &Vec<XmlWrite>) -> (r: Result<Vec<u8>, xml::writer::Error>)
    ensures
        r matches Ok(bytes) ==> xml_bytes(writes_view(events@)) == Some(bytes@),
        r is Err ==> xml_bytes(writes_view(events@)) is None,
{
    let config = xml::writer::EmitterConfig::new().perform_indent(true).pad_self_closing(false);
    let mut writer = config.create_writer(Vec::new());
    for event in events {
        match event {
            XmlWrite::Start { name, attributes } => {
                let start = xml::writer::XmlEvent::start_element(name.as_str());
                writer.write(attributes.iter().fold(start, |e, a| e.attr(a.name.as_str(), a.value.as_str())))?
            }
            XmlWrite::Text(text) => writer.write(xml::writer::XmlEvent::characters(text))?,
            XmlWrite::End => writer.write(xml::writer::XmlEvent::end_element())?,
        }
    }
    Ok(writer.into_inner())
}

/// The message of a writer error, as its `Display` impl writes it. Nothing
/// is claimed of the text.
#[verifier::external_body]
pub(crate) fn writer_error_text(error: &xml::writer::Error) -> (r: String) {
    error.to_string()
}

/// `String::from_utf8`: the decoded text where the bytes are valid UTF-8,
/// nothing where they are not.
#[verifier::external_body]
pub(crate) fn utf8_text(bytes: Vec<u8>) -> (r: Option<String>)
    ensures
        r is Some <==> valid_utf8(bytes@),
        r matches Some(text) ==> text@ == decode_utf8(bytes@),
{
    String::from_utf8(bytes).ok()
}

} // verus!
