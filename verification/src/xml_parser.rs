//! The report parser: the pre-pass over the document type declaration and
//! then one forward scan over the tokens of what is left.

use vstd::prelude::*;
use vstd::string::StringSliceAdditionalSpecFns;
use crate::doctype::doctype_block;
use crate::doctype::entity_declarations;
use crate::doctype::neutralize;
use crate::doctype::without;
use crate::doctype::neutralized;
use crate::error::DmarcError;
use crate::error::ErrorView;
use crate::models::record_views;
use crate::models::DmarcPolicy;
use crate::models::DmarcRecord;
use crate::models::PolicyView;
use crate::models::RecordView;
use crate::scanner::tag_of;
use crate::scanner::ModeView;
use crate::scanner::ScanView;
use crate::scanner::Scanner;
use crate::scanner::StartStep;
use crate::scanner::StartView;
use crate::scanner::Tag;
use crate::tokenizer::next_event;
use crate::tokenizer::open_reader;
use crate::tokenizer::pending;
use crate::tokenizer::read_text;
use crate::tokenizer::token_views;
use crate::tokenizer::xml_lexemes;
use crate::tokenizer::ElementText;
use crate::tokenizer::Inner;
use crate::tokenizer::Lexeme;
use crate::tokenizer::XmlEvent;
use crate::tokenizer::XmlToken;

verus! {

/// The nesting ceiling that `parse_dmarc_xml` scans with.
pub const MAX_DEPTH: u32 = 100;

/// Mathematical value of what a parse returns.
pub open spec fn outcome_view(r: Result<(Vec<DmarcRecord>, DmarcPolicy), DmarcError>) -> Result<
    (Seq<RecordView>, PolicyView),
    ErrorView,
> {
    match r {
        Ok((records, policy)) => Ok((record_views(records@), policy@)),
        Err(e) => Err(e@),
    }
}

/// Mathematical value of an [`Advance`].
pub enum AdvanceView {
    Stop(Result<(Seq<RecordView>, PolicyView), ErrorView>),
    Go { state: ScanView, jump: nat },
}

/// What one token does to the scan in state `s`: a fault, or a start tag
/// beyond the ceiling, ends it with the error; the end of the input ends it
/// with what was gathered; any other token leads to a next state, and a
/// text read also jumps over the tokens that it uses up.
pub open spec fn advance(s: ScanView, token: Lexeme, max_depth: u32) -> AdvanceView {
    match token {
        Lexeme::Fault { error } => AdvanceView::Stop(Err(ErrorView::Xml(error))),
        Lexeme::Eof => AdvanceView::Stop(Ok(s.finish())),
        Lexeme::Other => AdvanceView::Go { state: s, jump: 0 },
        Lexeme::End { name } => AdvanceView::Go { state: s.on_end(name), jump: 0 },
        Lexeme::Start { name, inner } => match s.on_start(name, max_depth) {
            StartView::TooDeep => AdvanceView::Stop(Err(ErrorView::DepthLimitExceeded)),
            StartView::Continue(next) => AdvanceView::Go { state: next, jump: 0 },
            StartView::ReadText(next, field) => match inner {
                Inner::Fault { error } => AdvanceView::Stop(Err(ErrorView::Xml(error))),
                Inner::Text { content, skip } => AdvanceView::Go {
                    state: next.on_text(field, content),
                    jump: skip,
                },
            },
        },
    }
}

/// The scan of a token sequence from token `i` on, in state `s`: the
/// tokens are taken in turn, each as `advance` says, until one ends the
/// scan; a sequence that runs out ends it like the end of the input.
pub open spec fn run(toks: Seq<Lexeme>, i: int, s: ScanView, max_depth: u32) -> Result<
    (Seq<RecordView>, PolicyView),
    ErrorView,
>
    decreases toks.len() - i,
{
    if i < 0 || i >= toks.len() {
        Ok(s.finish())
    } else {
        match advance(s, toks[i], max_depth) {
            AdvanceView::Stop(r) => r,
            AdvanceView::Go { state, jump } => if i + 1 + jump <= toks.len() {
                run(toks, i + 1 + jump, state, max_depth)
            } else {
                Ok(state.finish())
            },
        }
    }
}

/// The scan of a whole token sequence.
pub open spec fn scan(toks: Seq<Lexeme>, max_depth: u32) -> Result<
    (Seq<RecordView>, PolicyView),
    ErrorView,
> {
    run(toks, 0, ScanView::start(), max_depth)
}

/// What parsing a document gives: the refusal of the pre-pass, or the scan
/// of the tokens of the document without its declaration block.
pub open spec fn parse_outcome(doc: Seq<u8>, max_depth: u32) -> Result<
    (Seq<RecordView>, PolicyView),
    ErrorView,
> {
    match neutralized(doc) {
        Ok(clean) => scan(xml_lexemes(clean), max_depth),
        Err(e) => Err(e),
    }
}

/// What one token leads to.
#[derive(Debug)]
pub enum Advance {
    /// The scan is over, with this result.
    Stop(Result<(Vec<DmarcRecord>, DmarcPolicy), DmarcError>),
    /// The scan goes on in this state, after so many tokens are passed over.
    Go(Scanner, usize),
}

impl View for Advance {
    type V = AdvanceView;

    open spec fn view(&self) -> AdvanceView {
        match self {
            Advance::Stop(r) => AdvanceView::Stop(outcome_view(*r)),
            Advance::Go(s, jump) => AdvanceView::Go { state: s@, jump: *jump as nat },
        }
    }
}

/// Takes one token that is given as a value.
pub fn take_token(s: Scanner, token: XmlToken, max_depth: u32) -> (r: Advance)
    ensures
        r@ == advance(s@, token@, max_depth),
{
    match token {
        XmlToken::Fault { error } => Advance::Stop(Err(DmarcError::Xml(error))),
        XmlToken::Eof => Advance::Stop(Ok(s.finish())),
        XmlToken::Other => Advance::Go(s, 0),
        XmlToken::End { name } => Advance::Go(s.on_end(name.as_slice()), 0),
        XmlToken::Start { name, inner } => match s.on_start(name.as_slice(), max_depth) {
            StartStep::TooDeep => Advance::Stop(Err(DmarcError::DepthLimitExceeded)),
            StartStep::Continue(next) => Advance::Go(next, 0),
            StartStep::ReadText(next, field) => match inner {
                ElementText::Fault { error } => Advance::Stop(Err(DmarcError::Xml(error))),
                ElementText::Text { content, skip } => Advance::Go(
                    next.on_text(field, content.as_str()),
                    skip,
                ),
            },
        },
    }
}

/// Scans a token sequence that is given as values.
pub fn scan_tokens(tokens: Vec<XmlToken>, max_depth: u32) -> (r: Result<
    (Vec<DmarcRecord>, DmarcPolicy),
    DmarcError,
>)
    ensures
        outcome_view(r) == scan(token_views(tokens@), max_depth),
{
    let ghost all = tokens@;
    let ghost toks = token_views(tokens@);
    let mut s = Scanner::new();
    let mut to_skip: usize = 0;
    for token in it: tokens
        invariant
            it.seq() == all,
            toks == token_views(all),
            it.index() + to_skip <= all.len() ==> run(toks, it.index() + to_skip, s@, max_depth)
                == scan(toks, max_depth),
            it.index() + to_skip > all.len() ==> Ok::<(Seq<RecordView>, PolicyView), ErrorView>(
                s@.finish(),
            ) == scan(toks, max_depth),
    {
        assert(toks[it.index() as int] == token@);
        if to_skip > 0 {
            to_skip = to_skip - 1;
        } else {
            match take_token(s, token, max_depth) {
                Advance::Stop(r) => {
                    return r;
                },
                Advance::Go(next, jump) => {
                    s = next;
                    to_skip = jump;
                },
            }
        }
    }
    Ok(s.finish())
}

/// Scans a document: walks its tokens as the tokenizer hands them out.
pub fn scan_document(doc: &[u8], max_depth: u32) -> (r: Result<
    (Vec<DmarcRecord>, DmarcPolicy),
    DmarcError,
>)
    ensures
        outcome_view(r) == scan(xml_lexemes(doc@), max_depth),
{
    let mut reader = open_reader(doc);
    let ghost toks = pending(reader);
    let ghost i: int = 0;
    let mut s = Scanner::new();
    loop
        invariant
            0 <= i <= toks.len(),
            pending(reader) == toks.skip(i),
            run(toks, i, s@, max_depth) == scan(toks, max_depth),
            toks == xml_lexemes(doc@),
        decreases toks.len() - i,
    {
        let event = next_event(&mut reader);
        assert(toks.skip(i)[0] == toks[i]);
        match event {
            Err(error) => {
                return Err(DmarcError::Xml(error));
            },
            Ok(XmlEvent::Eof) => {
                return Ok(s.finish());
            },
            Ok(XmlEvent::Other) => {
                proof {
                    assert(toks.skip(i).skip(1) =~= toks.skip(i + 1));
                    i = i + 1;
                }
            },
            Ok(XmlEvent::End(name)) => {
                s = s.on_end(name.as_slice());
                proof {
                    assert(toks.skip(i).skip(1) =~= toks.skip(i + 1));
                    i = i + 1;
                }
            },
            Ok(XmlEvent::Start(name)) => {
                proof {
                    assert(toks.skip(i).skip(1) =~= toks.skip(i + 1));
                }
                match s.on_start(name.as_slice(), max_depth) {
                    StartStep::TooDeep => {
                        return Err(DmarcError::DepthLimitExceeded);
                    },
                    StartStep::Continue(next) => {
                        s = next;
                        proof {
                            i = i + 1;
                        }
                    },
                    StartStep::ReadText(next, field) => {
                        match read_text(&mut reader, name.as_slice()) {
                            Err(error) => {
                                return Err(DmarcError::Xml(error));
                            },
                            Ok(text) => {
                                s = next.on_text(field, text.as_str());
                                proof {
                                    let skip = toks[i]->Start_inner->skip;
                                    assert(toks.skip(i + 1).skip(skip as int) =~= toks.skip(
                                        i + 1 + skip,
                                    ));
                                    i = i + 1 + skip;
                                }
                            },
                        }
                    },
                }
            },
        }
    }
}

/// Parses a report under a nesting ceiling of the caller's choice.
pub fn parse_dmarc_xml_within(xml_content: &str, max_depth: u32) -> (r: Result<
    (Vec<DmarcRecord>, DmarcPolicy),
    DmarcError,
>)
    ensures
        outcome_view(r) == parse_outcome(xml_content.spec_bytes(), max_depth),
{
    match neutralize(xml_content.as_bytes()) {
        Ok(clean) => scan_document(clean.as_slice(), max_depth),
        Err(e) => Err(e),
    }
}

/// Parses a report: the records in document order and the published
/// policy, or the reason why the document was turned down.
pub fn parse_dmarc_xml(xml_content: &str) -> (r: Result<
    (Vec<DmarcRecord>, DmarcPolicy),
    DmarcError,
>)
    ensures
        outcome_view(r) == parse_outcome(xml_content.spec_bytes(), MAX_DEPTH),
{
    parse_dmarc_xml_within(xml_content, MAX_DEPTH)
}

/// A document whose declaration block declares two or more entities is
/// refused as such. Any other document is parsed as if the block were not
/// there: the outcome is the scan of the document without it.
pub proof fn lemma_entity_rule(doc: Seq<u8>, max_depth: u32)
    ensures
        match doctype_block(doc) {
            Some((begin, end)) => if entity_declarations(doc.subrange(begin, end)) >= 2 {
                parse_outcome(doc, max_depth) == Err::<(Seq<RecordView>, PolicyView), ErrorView>(
                    ErrorView::RecursiveEntities,
                )
            } else {
                parse_outcome(doc, max_depth) == scan(
                    xml_lexemes(without(doc, begin, end)),
                    max_depth,
                )
            },
            None => parse_outcome(doc, max_depth) == scan(xml_lexemes(doc), max_depth),
        },
{
}

/// Two parses of one text under one ceiling give equal results.
pub proof fn lemma_same_text_same_result(
    text: &str,
    max_depth: u32,
    first: Result<(Vec<DmarcRecord>, DmarcPolicy), DmarcError>,
    second: Result<(Vec<DmarcRecord>, DmarcPolicy), DmarcError>,
)
    requires
        outcome_view(first) == parse_outcome(text.spec_bytes(), max_depth),
        outcome_view(second) == parse_outcome(text.spec_bytes(), max_depth),
    ensures
        outcome_view(first) == outcome_view(second),
{
}

/// A start tag met with as many elements open as the ceiling allows ends
/// the scan with the depth error, whatever follows it.
pub proof fn lemma_start_at_ceiling(toks: Seq<Lexeme>, i: int, s: ScanView, max_depth: u32)
    requires
        0 <= i < toks.len(),
        toks[i] is Start,
        s.depth >= max_depth,
    ensures
        run(toks, i, s, max_depth) == Err::<(Seq<RecordView>, PolicyView), ErrorView>(
            ErrorView::DepthLimitExceeded,
        ),
{
}

/// An element that only nests: none of the leaves of a record and none of
/// the elements whose children are collected.
pub open spec fn only_nests(tag: Tag) -> bool {
    !(tag is PolicyPublished || tag is SourceIp || tag is Count || tag is HeaderFrom || tag is Dkim
        || tag is Spf)
}

/// The first `n` tokens are start tags of elements that only nest.
pub open spec fn opens_chain(toks: Seq<Lexeme>, n: int) -> bool {
    &&& n <= toks.len()
    &&& forall|k: int| 0 <= k < n ==> (#[trigger] toks[k]) is Start && only_nests(
        tag_of(toks[k]->Start_name),
    )
}

/// Inside a chain of elements that only nest, with as many open as tokens
/// were taken, the scan ends with the depth error.
proof fn lemma_chain_from(toks: Seq<Lexeme>, i: int, s: ScanView, max_depth: u32)
    requires
        opens_chain(toks, max_depth + 1),
        0 <= i <= max_depth,
        s.depth == i,
        s.mode is Main,
    ensures
        run(toks, i, s, max_depth) == Err::<(Seq<RecordView>, PolicyView), ErrorView>(
            ErrorView::DepthLimitExceeded,
        ),
    decreases max_depth - i,
{
    assert(toks[i] is Start);
    if i < max_depth {
        let name = toks[i]->Start_name;
        let next = s.on_start(name, max_depth)->Continue_0;
        assert(s.on_start(name, max_depth) is Continue);
        lemma_chain_from(toks, i + 1, next, max_depth);
    }
}

/// A document that opens with a chain of more than `max_depth` nested
/// elements is refused with the depth error, whatever follows the chain.
pub proof fn lemma_deep_nesting_fails(toks: Seq<Lexeme>, max_depth: u32)
    requires
        opens_chain(toks, max_depth + 1),
    ensures
        scan(toks, max_depth) == Err::<(Seq<RecordView>, PolicyView), ErrorView>(
            ErrorView::DepthLimitExceeded,
        ),
{
    lemma_chain_from(toks, 0, ScanView::start(), max_depth);
}

/// A state in which every percentage is from 0 to 100: that of the policy
/// published so far and that of a policy being collected.
pub open spec fn percent_in_range(s: ScanView) -> bool {
    &&& s.policy.pct <= 100
    &&& s.mode matches ModeView::Policy(p) ==> p.pct <= 100
}

/// No token takes a percentage out of its range.
proof fn lemma_advance_keeps_percent(s: ScanView, token: Lexeme, max_depth: u32)
    requires
        percent_in_range(s),
    ensures
        match advance(s, token, max_depth) {
            AdvanceView::Stop(r) => r matches Ok(found) ==> found.1.pct <= 100,
            AdvanceView::Go { state, .. } => percent_in_range(state),
        },
{
}

/// From a state with every percentage in its range, a scan that ends well
/// gives a policy with its percentage in range.
proof fn lemma_run_keeps_percent(toks: Seq<Lexeme>, i: int, s: ScanView, max_depth: u32)
    requires
        percent_in_range(s),
    ensures
        run(toks, i, s, max_depth) matches Ok(found) ==> found.1.pct <= 100,
    decreases toks.len() - i,
{
    if 0 <= i < toks.len() {
        lemma_advance_keeps_percent(s, toks[i], max_depth);
        match advance(s, toks[i], max_depth) {
            AdvanceView::Stop(_) => {},
            AdvanceView::Go { state, jump } => {
                if i + 1 + jump <= toks.len() {
                    lemma_run_keeps_percent(toks, i + 1 + jump, state, max_depth);
                }
            },
        }
    }
}

/// The percentage of the policy that a parse returns is from 0 to 100,
/// whatever number the document writes.
pub proof fn lemma_percentage_in_range(doc: Seq<u8>, max_depth: u32)
    ensures
        parse_outcome(doc, max_depth) matches Ok(found) ==> found.1.pct <= 100,
{
    if let Ok(clean) = neutralized(doc) {
        lemma_run_keeps_percent(xml_lexemes(clean), 0, ScanView::start(), max_depth);
    }
}

} // verus!
