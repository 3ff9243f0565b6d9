//! The boundary to the XML tokenizer (`quick_xml`): what it hands out, seen
//! as plain values, and the calls into it.
//!
//! The tokenizer is not verified here. Its behaviour is given names, and the
//! contracts of the calls say how their results follow from what is named.

use quick_xml::events::Event;
use vstd::prelude::*;

verus! {

/// `quick_xml::Reader`, used over a byte slice. Opaque: the scanner sees it
/// only through `pending` and `element_text`.
#[verifier::external_type_specification]
#[verifier::external_body]
#[verifier::reject_recursive_types(R)]
pub struct ExReader<R>(quick_xml::Reader<R>);

/// One event of the tokenizer, as far as the scanner looks at it.
#[derive(Debug)]
pub enum XmlEvent {
    /// A start tag, with the element's name.
    Start(Vec<u8>),
    /// An end tag, with the element's name.
    End(Vec<u8>),
    /// Anything else: text, an empty element, a comment, a declaration.
    Other,
    /// The end of the input.
    Eof,
}

/// What reading an element's text gives, asked right after its start tag
/// was handed out.
pub enum Inner {
    /// The raw text up to the element's end tag, and how many of the
    /// tokens that follow the start tag the read uses up, the end tag
    /// included.
    Text { content: Seq<char>, skip: nat },
    /// The read fails.
    Fault { error: quick_xml::Error },
}

/// One token of a document: an event, or the fault that ends the reading.
pub enum Lexeme {
    Start { name: Seq<u8>, inner: Inner },
    End { name: Seq<u8> },
    Other,
    Eof,
    Fault { error: quick_xml::Error },
}

impl Lexeme {
    /// A token after which nothing more is read.
    pub open spec fn is_last(self) -> bool {
        self is Eof || self is Fault
    }

    /// `res` is what the tokenizer returns when it hands this token out.
    pub open spec fn handed_out_as(self, res: Result<XmlEvent, quick_xml::Error>) -> bool {
        match self {
            Lexeme::Start { name, .. } => res matches Ok(XmlEvent::Start(n)) && n@ == name,
            Lexeme::End { name } => res matches Ok(XmlEvent::End(n)) && n@ == name,
            Lexeme::Other => res matches Ok(XmlEvent::Other),
            Lexeme::Eof => res matches Ok(XmlEvent::Eof),
            Lexeme::Fault { error } => res == Err::<XmlEvent, quick_xml::Error>(error),
        }
    }
}

/// What reading an element's text gives, as a value that a caller can
/// write down.
#[derive(Debug)]
pub enum ElementText {
    Text { content: String, skip: usize },
    Fault { error: quick_xml::Error },
}

/// One token of a document, as a value that a caller can write down.
#[derive(Debug)]
pub enum XmlToken {
    Start { name: Vec<u8>, inner: ElementText },
    End { name: Vec<u8> },
    Other,
    Eof,
    Fault { error: quick_xml::Error },
}

impl View for ElementText {
    type V = Inner;

    open spec fn view(&self) -> Inner {
        match self {
            ElementText::Text { content, skip } => Inner::Text {
                content: content@,
                skip: *skip as nat,
            },
            ElementText::Fault { error } => Inner::Fault { error: *error },
        }
    }
}

impl View for XmlToken {
    type V = Lexeme;

    open spec fn view(&self) -> Lexeme {
        match self {
            XmlToken::Start { name, inner } => Lexeme::Start { name: name@, inner: inner@ },
            XmlToken::End { name } => Lexeme::End { name: name@ },
            XmlToken::Other => Lexeme::Other,
            XmlToken::Eof => Lexeme::Eof,
            XmlToken::Fault { error } => Lexeme::Fault { error: *error },
        }
    }
}

/// The values of a list of tokens, in order.
pub open spec fn token_views(tokens: Seq<XmlToken>) -> Seq<Lexeme> {
    Seq::new(tokens.len(), |i: int| tokens[i]@)
}

/// The tokens of a document: what a fresh tokenizer over `input` hands out,
/// call after call, up to and with the end of the input or the first fault.
pub uninterp spec fn xml_lexemes(input: Seq<u8>) -> Seq<Lexeme>;

/// The tokens that a tokenizer has yet to hand out, up to and with the end
/// of the input or the first fault.
pub uninterp spec fn pending(reader: quick_xml::Reader<&[u8]>) -> Seq<Lexeme>;

/// What reading the text of the element `end` gives in the tokenizer's
/// present state.
pub uninterp spec fn element_text(reader: quick_xml::Reader<&[u8]>, end: Seq<u8>) -> Inner;

/// `quick_xml::Reader::from_reader` over a byte slice, with the default
/// configuration. The new tokenizer has the document's tokens before it.
#[verifier::external_body]
pub(crate) fn open_reader<'a>(input: &'a [u8]) -> (reader: quick_xml::Reader<&'a [u8]>)
    ensures
        pending(reader) == xml_lexemes(input@),
{
    quick_xml::Reader::from_reader(input)
}

/// `quick_xml::Reader::read_event`. It hands out the first pending token;
/// unless that was the last one, the rest stays pending. After a start tag
/// the element's text can be read, with the outcome that the token names.
#[verifier::external_body]
pub(crate) fn next_event<'a>(reader: &mut quick_xml::Reader<&'a [u8]>) -> (res: Result<
    XmlEvent,
    quick_xml::Error,
>)
    ensures
        pending(*old(reader)).len() > 0,
        pending(*old(reader))[0].handed_out_as(res),
        !pending(*old(reader))[0].is_last() ==> pending(*final(reader)) == pending(
            *old(reader),
        ).skip(1),
        pending(*old(reader))[0] matches Lexeme::Start { name, inner } ==> element_text(
            *final(reader),
            name,
        ) == inner,
{
    match reader.read_event() {
        Ok(Event::Start(e)) => Ok(XmlEvent::Start(e.name().as_ref().to_vec())),
        Ok(Event::End(e)) => Ok(XmlEvent::End(e.name().as_ref().to_vec())),
        Ok(Event::Eof) => Ok(XmlEvent::Eof),
        Ok(Event::Empty(_) | Event::Text(_) | Event::CData(_)) => Ok(XmlEvent::Other),
        Ok(Event::Comment(_) | Event::Decl(_) | Event::PI(_)) => Ok(XmlEvent::Other),
        Ok(Event::DocType(_)) => Ok(XmlEvent::Other),
        Err(e) => Err(e),
    }
}

/// `quick_xml::Reader::read_text`. It returns the raw text up to the end
/// tag of `end` and uses up the tokens in between and the end tag, or it
/// fails: the outcome is the one named for the tokenizer's state.
#[verifier::external_body]
pub(crate) fn read_text<'a>(reader: &mut quick_xml::Reader<&'a [u8]>, end: &[u8]) -> (res: Result<
    String,
    quick_xml::Error,
>)
    ensures
        match element_text(*old(reader), end@) {
            Inner::Text { content, skip } => {
                &&& res matches Ok(text)
                &&& text@ == content
                &&& skip <= pending(*old(reader)).len()
                &&& pending(*final(reader)) == pending(*old(reader)).skip(skip as int)
            },
            Inner::Fault { error } => res == Err::<String, quick_xml::Error>(error),
        },
{
    match reader.read_text(quick_xml::name::QName(end)) {
        Ok(text) => Ok(text.into_owned()),
        Err(e) => Err(e),
    }
}

} // verus!
