//! The document event stream: an internal, stable representation of the
//! markdown events, with the parser and serializer behind trusted wrappers.

use vstd::prelude::*;
use pulldown_cmark::CodeBlockKind;
use pulldown_cmark::Options;
use pulldown_cmark::Event as PdEvent;
use pulldown_cmark::Tag;
use pulldown_cmark::TagEnd;

verus! {

/// The parser's own event type, carried through opaquely for every event the
/// tracker does not inspect.
#[verifier::external_type_specification]
#[verifier::external_body]
pub struct ExPdEvent<'a>(PdEvent<'a>);

/// One semantic event of a document, in the library's own representation.
/// Fenced code block boundaries and text runs are held as plain values; every
/// other event of the parser passes through untouched inside `Other`.
pub enum Event {
    /// Start of a fenced code block, with its language tag.
    FenceStart(String),
    /// End of a code block.
    FenceEnd,
    /// A run of text.
    Text(String),
    /// Start of a paragraph emitted in place of a substituted fence.
    ParaStart,
    /// End of a paragraph emitted in place of a substituted fence.
    ParaEnd,
    /// Raw markup inserted verbatim by the renderer substitution.
    Html(String),
    /// Any other event of the parser, re-emitted unchanged.
    Other(PdEvent<'static>),
}

/// The mathematical model of one event: string payloads as character
/// sequences, opaque events as themselves.
#[verifier::ext_equal]
pub enum EvModel {
    FenceStart(Seq<char>),
    FenceEnd,
    Text(Seq<char>),
    ParaStart,
    ParaEnd,
    Html(Seq<char>),
    Other(PdEvent<'static>),
}

impl View for Event {
    type V = EvModel;

    open spec fn view(&self) -> EvModel {
        match self {
            Event::FenceStart(t) => EvModel::FenceStart(t@),
            Event::FenceEnd => EvModel::FenceEnd,
            Event::Text(t) => EvModel::Text(t@),
            Event::ParaStart => EvModel::ParaStart,
            Event::ParaEnd => EvModel::ParaEnd,
            Event::Html(t) => EvModel::Html(t@),
            Event::Other(e) => EvModel::Other(*e),
        }
    }
}

/// The model of a whole stream.
pub open spec fn models(es: Seq<Event>) -> Seq<EvModel> {
    es.map_values(|e: Event| e@)
}

/// What parsing a text yields: with a fixed extension configuration the
/// parser is deterministic, so the stream is a function of the text alone.
pub uninterp spec fn events_of(text: Seq<char>) -> Seq<EvModel>;

/// What serializing a stream yields: the serializer is deterministic, so the
/// text is a function of the stream alone.
pub uninterp spec fn cmark_of(events: Seq<EvModel>) -> Seq<char>;

/// Whether serializing a stream succeeds: the serializer writes into an
/// in-memory string, which never fails, so success too is a function of the
/// stream alone (it refuses streams no markdown could have produced).
pub uninterp spec fn cmark_ok_of(events: Seq<EvModel>) -> bool;

/// Why a document could not be transformed.
#[derive(Debug, Clone, Copy, PartialEq, Eq, Structural)]
pub enum TransformError {
    /// The serializer could not write the event stream back as markdown.
    Serialize,
}

/// Relies on pulldown_cmark::Parser::new_ext: under fixed option flags (all
/// extensions on) the event stream is a function of the text alone. Each
/// event is carried over one for one: fenced code block boundaries by their
/// language tag, text runs by their payload, everything else opaquely.
#[verifier::external_body]
pub(crate) fn parse_events(text: &str) -> (r: Vec<Event>)
    ensures
        models(r@) == events_of(text@),
{
    pulldown_cmark::Parser::new_ext(text, Options::all())
        .map(|e| match e {
            PdEvent::Start(Tag::CodeBlock(CodeBlockKind::Fenced(t))) => {
                Event::FenceStart(t.into_string())
            }
            PdEvent::End(TagEnd::CodeBlock) => Event::FenceEnd,
            PdEvent::Text(t) => Event::Text(t.into_string()),
            other => Event::Other(other.into_static()),
        })
        .collect()
}

/// Relies on pulldown_cmark_to_cmark::cmark: the markdown it writes, and
/// whether it succeeds, are functions of the event stream alone (the writer
/// is an in-memory string, which never fails; an error only reports a
/// stream no markdown could have produced). On success the whole stream was
/// written in order, raw markup payloads verbatim. Its error is mapped to
/// the library's own.
#[verifier::external_body]
pub(crate) fn serialize_events(events: &Vec<Event>) -> (r: Result<String, TransformError>)
    ensures
        (r is Ok) == cmark_ok_of(models(events@)),
        r matches Ok(s) ==> s@ == cmark_of(models(events@)),
        r matches Err(e) ==> e == TransformError::Serialize,
{
    let mut buf = String::new();
    let it = events.iter().map(|e| match e {
        Event::FenceStart(t) => PdEvent::Start(Tag::CodeBlock(CodeBlockKind::Fenced(t.clone().into()))),
        Event::FenceEnd => PdEvent::End(TagEnd::CodeBlock),
        Event::Text(t) => PdEvent::Text(t.clone().into()),
        Event::ParaStart => PdEvent::Start(Tag::Paragraph),
        Event::ParaEnd => PdEvent::End(TagEnd::Paragraph),
        Event::Html(t) => PdEvent::Html(t.clone().into()),
        Event::Other(o) => o.clone(),
    });
    match pulldown_cmark_to_cmark::cmark(it, &mut buf, Options::all()) {
        Ok(_) => Ok(buf),
        Err(_) => Err(TransformError::Serialize),
    }
}

} // verus!
