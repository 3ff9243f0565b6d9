//! The report scanner as a state machine: what it keeps while it walks a
//! document, and how a start tag, an end tag, an element's text and the end
//! of the input change that.

use vstd::prelude::*;
use vstd::string::StringSliceAdditionalSpecFns;
use vstd::utf8::encode_utf8;
use crate::models::dkim_views;
use crate::models::record_views;
use crate::models::AlignmentMode;
use crate::models::DkimResult;
use crate::models::DkimVerdict;
use crate::models::DkimView;
use crate::models::DmarcPolicy;
use crate::models::DmarcRecord;
use crate::models::PolicyType;
use crate::models::PolicyView;
use crate::models::RecordView;
use crate::models::SpfResult;
use crate::models::SpfVerdict;
use crate::models::SpfView;
use crate::text::bytes_eq;
use crate::text::lower;
use crate::text::parse_decimal;
use crate::text::parse_unsigned;
use crate::text::same_ignoring_case;
use crate::text::spells;
use crate::text::to_lower;
use crate::text::trim;
use crate::text::trimmed;

verus! {

/// The elements that the scanner knows by name.
#[derive(Debug, Clone, Copy, PartialEq, Eq, Structural)]
pub enum Tag {
    Record,
    PolicyPublished,
    AuthResults,
    SourceIp,
    Count,
    HeaderFrom,
    Dkim,
    Spf,
    Domain,
    Adkim,
    Aspf,
    Disposition,
    Percent,
    Selector,
    Verdict,
    Scope,
    Unknown,
}

/// The places that an element's text can go to.
#[derive(Debug, Clone, Copy, PartialEq, Eq, Structural)]
pub enum Field {
    SourceIp,
    Count,
    HeaderFrom,
    PolicyDomain,
    Adkim,
    Aspf,
    Disposition,
    Percent,
    DkimDomain,
    Selector,
    DkimVerdict,
    SpfDomain,
    Scope,
    SpfVerdict,
}

/// Where the scanner is: in the body of the report, or inside one of the
/// three elements whose children it collects, with what it has collected.
#[derive(Debug)]
pub enum Mode {
    Main,
    Policy(DmarcPolicy),
    Dkim(DkimResult),
    Spf(SpfResult),
}

/// The scanner's state.
#[derive(Debug)]
pub struct Scanner {
    /// How many elements are open.
    pub depth: u32,
    /// The records closed so far, in document order.
    pub records: Vec<DmarcRecord>,
    /// The policy published so far.
    pub policy: DmarcPolicy,
    /// The record that is open, if one is.
    pub current: Option<DmarcRecord>,
    /// Whether the authentication results of a record are open.
    pub in_auth_results: bool,
    pub mode: Mode,
}

/// What a start tag leads to.
#[derive(Debug)]
pub enum StartStep {
    /// The element would be nested deeper than the ceiling.
    TooDeep,
    /// The scan goes on with the next token.
    Continue(Scanner),
    /// The element's text is to be read and put into the field.
    ReadText(Scanner, Field),
}

/// Mathematical value of a [`Mode`].
pub enum ModeView {
    Main,
    Policy(PolicyView),
    Dkim(DkimView),
    Spf(SpfView),
}

/// Mathematical value of a [`Scanner`].
pub struct ScanView {
    pub depth: u32,
    pub records: Seq<RecordView>,
    pub policy: PolicyView,
    pub current: Option<RecordView>,
    pub in_auth_results: bool,
    pub mode: ModeView,
}

/// Mathematical value of a [`StartStep`].
pub enum StartView {
    TooDeep,
    Continue(ScanView),
    ReadText(ScanView, Field),
}

impl View for Mode {
    type V = ModeView;

    open spec fn view(&self) -> ModeView {
        match self {
            Mode::Main => ModeView::Main,
            Mode::Policy(p) => ModeView::Policy(p@),
            Mode::Dkim(d) => ModeView::Dkim(d@),
            Mode::Spf(f) => ModeView::Spf(f@),
        }
    }
}

/// The value of a record that may be missing.
pub open spec fn record_view(record: Option<DmarcRecord>) -> Option<RecordView> {
    match record {
        Some(r) => Some(r@),
        None => None,
    }
}

impl View for Scanner {
    type V = ScanView;

    open spec fn view(&self) -> ScanView {
        ScanView {
            depth: self.depth,
            records: record_views(self.records@),
            policy: self.policy@,
            current: record_view(self.current),
            in_auth_results: self.in_auth_results,
            mode: self.mode@,
        }
    }
}

impl View for StartStep {
    type V = StartView;

    open spec fn view(&self) -> StartView {
        match self {
            StartStep::TooDeep => StartView::TooDeep,
            StartStep::Continue(s) => StartView::Continue(s@),
            StartStep::ReadText(s, f) => StartView::ReadText(s@, *f),
        }
    }
}

/// The element that a name stands for.
pub open spec fn tag_of(name: Seq<u8>) -> Tag {
    if name == "record".spec_bytes() {
        Tag::Record
    } else if name == "policy_published".spec_bytes() {
        Tag::PolicyPublished
    } else if name == "auth_results".spec_bytes() {
        Tag::AuthResults
    } else if name == "source_ip".spec_bytes() {
        Tag::SourceIp
    } else if name == "count".spec_bytes() {
        Tag::Count
    } else if name == "header_from".spec_bytes() {
        Tag::HeaderFrom
    } else if name == "dkim".spec_bytes() {
        Tag::Dkim
    } else if name == "spf".spec_bytes() {
        Tag::Spf
    } else if name == "domain".spec_bytes() {
        Tag::Domain
    } else if name == "adkim".spec_bytes() {
        Tag::Adkim
    } else if name == "aspf".spec_bytes() {
        Tag::Aspf
    } else if name == "p".spec_bytes() {
        Tag::Disposition
    } else if name == "pct".spec_bytes() {
        Tag::Percent
    } else if name == "selector".spec_bytes() {
        Tag::Selector
    } else if name == "result".spec_bytes() {
        Tag::Verdict
    } else if name == "scope".spec_bytes() {
        Tag::Scope
    } else {
        Tag::Unknown
    }
}

/// The alignment mode that a text asks for: strict where it begins with an
/// `s` of either case, relaxed otherwise.
pub open spec fn alignment_of(text: Seq<u8>) -> AlignmentMode {
    if text.len() > 0 && lower(text[0]) == 115 {
        AlignmentMode::Strict
    } else {
        AlignmentMode::Relaxed
    }
}

/// The disposition that a text asks for; any text outside the closed set
/// asks for none.
pub open spec fn disposition_of(text: Seq<u8>) -> PolicyType {
    if same_ignoring_case(text, "reject".spec_bytes()) {
        PolicyType::Reject
    } else if same_ignoring_case(text, "quarantine".spec_bytes()) {
        PolicyType::Quarantine
    } else {
        PolicyType::Monitor
    }
}

/// The percentage that a text writes, 100 where it writes no number from
/// 0 to 100.
pub open spec fn percent_of(text: Seq<u8>) -> u8 {
    match parse_unsigned(text, 100) {
        Some(v) => v as u8,
        None => 100,
    }
}

/// The message count that a text writes, 0 where it writes none.
pub open spec fn count_of(text: Seq<u8>) -> u32 {
    match parse_unsigned(text, 0xffff_ffff) {
        Some(v) => v as u32,
        None => 0,
    }
}

/// The DKIM verdict that a text names, `none` where it names none.
pub open spec fn dkim_verdict_of(text: Seq<u8>) -> DkimVerdict {
    match DkimVerdict::named(text) {
        Some(v) => v,
        None => DkimVerdict::Absent,
    }
}

/// The SPF verdict that a text names, `none` where it names none.
pub open spec fn spf_verdict_of(text: Seq<u8>) -> SpfVerdict {
    match SpfVerdict::named(text) {
        Some(v) => v,
        None => SpfVerdict::Absent,
    }
}

/// One less, but never below zero.
pub open spec fn one_less(depth: u32) -> u32 {
    if depth > 0 {
        (depth - 1) as u32
    } else {
        0
    }
}

/// A record with the text of one of its leaves put in. A count that
/// cannot be read stands for 0.
pub open spec fn record_with(r: RecordView, field: Field, text: Seq<char>) -> RecordView {
    match field {
        Field::SourceIp => RecordView { source_ip: text, ..r },
        Field::Count => RecordView { count: count_of(encode_utf8(text)), ..r },
        Field::HeaderFrom => RecordView { header_from: text, ..r },
        _ => r,
    }
}

/// A published policy with the text of one of its children put in. A mode,
/// a disposition or a percentage that cannot be read stands for its
/// default.
pub open spec fn policy_with(p: PolicyView, field: Field, text: Seq<char>) -> PolicyView {
    match field {
        Field::PolicyDomain => PolicyView { domain: text, ..p },
        Field::Adkim => PolicyView { adkim: alignment_of(encode_utf8(text)), ..p },
        Field::Aspf => PolicyView { aspf: alignment_of(encode_utf8(text)), ..p },
        Field::Disposition => PolicyView { policy: disposition_of(encode_utf8(text)), ..p },
        Field::Percent => PolicyView { pct: percent_of(encode_utf8(text)), ..p },
        _ => p,
    }
}

/// A DKIM result with the text of one of its children put in.
pub open spec fn dkim_with(d: DkimView, field: Field, text: Seq<char>) -> DkimView {
    match field {
        Field::DkimDomain => DkimView { domain: text, ..d },
        Field::Selector => DkimView { selector: text, ..d },
        Field::DkimVerdict => DkimView { result: dkim_verdict_of(encode_utf8(text)), ..d },
        _ => d,
    }
}

/// An SPF result with the text of one of its children put in.
pub open spec fn spf_with(f: SpfView, field: Field, text: Seq<char>) -> SpfView {
    match field {
        Field::SpfDomain => SpfView { domain: text, ..f },
        Field::Scope => SpfView { scope: text, ..f },
        Field::SpfVerdict => SpfView { result: spf_verdict_of(encode_utf8(text)), ..f },
        _ => f,
    }
}

impl ScanView {
    /// The state before the first token: nothing open, no record, and the
    /// policy of a domain that publishes none.
    pub open spec fn start() -> ScanView {
        ScanView {
            depth: 0,
            records: Seq::empty(),
            policy: PolicyView::unset(),
            current: None,
            in_auth_results: false,
            mode: ModeView::Main,
        }
    }

    /// The field that the text of an element goes to, if the scanner wants
    /// that text at all: inside a record its three leaves, and inside a
    /// collected element the children that belong to it.
    pub open spec fn wanted(self, tag: Tag) -> Option<Field> {
        match self.mode {
            ModeView::Main => if self.current is Some {
                match tag {
                    Tag::SourceIp => Some(Field::SourceIp),
                    Tag::Count => Some(Field::Count),
                    Tag::HeaderFrom => Some(Field::HeaderFrom),
                    _ => None,
                }
            } else {
                None
            },
            ModeView::Policy(_) => match tag {
                Tag::Domain => Some(Field::PolicyDomain),
                Tag::Adkim => Some(Field::Adkim),
                Tag::Aspf => Some(Field::Aspf),
                Tag::Disposition => Some(Field::Disposition),
                Tag::Percent => Some(Field::Percent),
                _ => None,
            },
            ModeView::Dkim(_) => match tag {
                Tag::Domain => Some(Field::DkimDomain),
                Tag::Selector => Some(Field::Selector),
                Tag::Verdict => Some(Field::DkimVerdict),
                _ => None,
            },
            ModeView::Spf(_) => match tag {
                Tag::Domain => Some(Field::SpfDomain),
                Tag::Scope => Some(Field::Scope),
                Tag::Verdict => Some(Field::SpfVerdict),
                _ => None,
            },
        }
    }

    /// The state after a start tag that opens no text read: in the body of
    /// the report a record opens a fresh record, the published policy and,
    /// inside the authentication results of an open record, a DKIM or SPF
    /// result start to be collected; any other element changes nothing.
    pub open spec fn opened(self, tag: Tag) -> ScanView {
        match self.mode {
            ModeView::Main => match tag {
                Tag::Record => ScanView { current: Some(RecordView::unset()), ..self },
                Tag::PolicyPublished => ScanView {
                    mode: ModeView::Policy(PolicyView::unset()),
                    ..self
                },
                Tag::AuthResults => ScanView { in_auth_results: true, ..self },
                Tag::Dkim => if self.in_auth_results && self.current is Some {
                    ScanView { mode: ModeView::Dkim(DkimView::unset()), ..self }
                } else {
                    self
                },
                Tag::Spf => if self.in_auth_results && self.current is Some {
                    ScanView { mode: ModeView::Spf(SpfView::unset()), ..self }
                } else {
                    self
                },
                _ => self,
            },
            _ => self,
        }
    }

    /// What a start tag leads to. Every start tag opens one more element,
    /// and none may open beyond the ceiling.
    pub open spec fn on_start(self, name: Seq<u8>, max_depth: u32) -> StartView {
        if self.depth >= max_depth {
            StartView::TooDeep
        } else {
            let deeper = ScanView { depth: (self.depth + 1) as u32, ..self };
            match deeper.wanted(tag_of(name)) {
                Some(field) => StartView::ReadText(deeper, field),
                None => StartView::Continue(deeper.opened(tag_of(name))),
            }
        }
    }

    /// The state after an end tag, the count of open elements aside: in the
    /// body of the report the end of a record appends the open record, and
    /// the end of a collected element puts what was collected in its place.
    pub open spec fn closed(self, tag: Tag) -> ScanView {
        match self.mode {
            ModeView::Main => match tag {
                Tag::Record => match self.current {
                    Some(r) => ScanView { records: self.records.push(r), current: None, ..self },
                    None => self,
                },
                Tag::AuthResults => ScanView { in_auth_results: false, ..self },
                _ => self,
            },
            ModeView::Policy(p) => if tag == Tag::PolicyPublished {
                ScanView { policy: p, mode: ModeView::Main, ..self }
            } else {
                self
            },
            ModeView::Dkim(d) => if tag == Tag::Dkim {
                ScanView {
                    current: match self.current {
                        Some(r) => Some(RecordView { dkim: r.dkim.push(d), ..r }),
                        None => None,
                    },
                    mode: ModeView::Main,
                    ..self
                }
            } else {
                self
            },
            ModeView::Spf(f) => if tag == Tag::Spf {
                ScanView {
                    current: match self.current {
                        Some(r) => Some(RecordView { spf: f, ..r }),
                        None => None,
                    },
                    mode: ModeView::Main,
                    ..self
                }
            } else {
                self
            },
        }
    }

    /// The state after an end tag: one element fewer is open.
    pub open spec fn on_end(self, name: Seq<u8>) -> ScanView {
        let after = self.closed(tag_of(name));
        ScanView { depth: one_less(after.depth), ..after }
    }

    /// The state with a text put into a field, the count of open elements
    /// aside. The text is trimmed first, and goes to the record that is
    /// open or to what is being collected.
    pub open spec fn filled(self, field: Field, raw: Seq<char>) -> ScanView {
        let text = trimmed(raw);
        match self.mode {
            ModeView::Main => match self.current {
                Some(r) => ScanView { current: Some(record_with(r, field, text)), ..self },
                None => self,
            },
            ModeView::Policy(p) => ScanView {
                mode: ModeView::Policy(policy_with(p, field, text)),
                ..self
            },
            ModeView::Dkim(d) => ScanView { mode: ModeView::Dkim(dkim_with(d, field, text)), ..self },
            ModeView::Spf(f) => ScanView { mode: ModeView::Spf(spf_with(f, field, text)), ..self },
        }
    }

    /// The state after an element's text was read into a field. The read
    /// has used up the element's end tag, so one element fewer is open.
    pub open spec fn on_text(self, field: Field, raw: Seq<char>) -> ScanView {
        let after = self.filled(field, raw);
        ScanView { depth: one_less(after.depth), ..after }
    }

    /// What the scan yields when the input ends here: the records closed so
    /// far and the policy, which is the one being collected if the input
    /// ends inside it. An open record is dropped.
    pub open spec fn finish(self) -> (Seq<RecordView>, PolicyView) {
        (
            self.records,
            match self.mode {
                ModeView::Policy(p) => p,
                _ => self.policy,
            },
        )
    }
}

/// Tells which element a name stands for.
pub fn classify(name: &[u8]) -> (tag: Tag)
    ensures
        tag == tag_of(name@),
{
    if bytes_eq(name, "record".as_bytes()) {
        Tag::Record
    } else if bytes_eq(name, "policy_published".as_bytes()) {
        Tag::PolicyPublished
    } else if bytes_eq(name, "auth_results".as_bytes()) {
        Tag::AuthResults
    } else if bytes_eq(name, "source_ip".as_bytes()) {
        Tag::SourceIp
    } else if bytes_eq(name, "count".as_bytes()) {
        Tag::Count
    } else if bytes_eq(name, "header_from".as_bytes()) {
        Tag::HeaderFrom
    } else if bytes_eq(name, "dkim".as_bytes()) {
        Tag::Dkim
    } else if bytes_eq(name, "spf".as_bytes()) {
        Tag::Spf
    } else if bytes_eq(name, "domain".as_bytes()) {
        Tag::Domain
    } else if bytes_eq(name, "adkim".as_bytes()) {
        Tag::Adkim
    } else if bytes_eq(name, "aspf".as_bytes()) {
        Tag::Aspf
    } else if bytes_eq(name, "p".as_bytes()) {
        Tag::Disposition
    } else if bytes_eq(name, "pct".as_bytes()) {
        Tag::Percent
    } else if bytes_eq(name, "selector".as_bytes()) {
        Tag::Selector
    } else if bytes_eq(name, "result".as_bytes()) {
        Tag::Verdict
    } else if bytes_eq(name, "scope".as_bytes()) {
        Tag::Scope
    } else {
        Tag::Unknown
    }
}

/// Reads an alignment mode, leniently.
pub fn parse_alignment(text: &str) -> (mode: AlignmentMode)
    ensures
        mode == alignment_of(text.spec_bytes()),
{
    let bytes = text.as_bytes();
    if bytes.len() > 0 && to_lower(bytes[0]) == 115 {
        AlignmentMode::Strict
    } else {
        AlignmentMode::Relaxed
    }
}

/// Reads a disposition, leniently.
pub fn parse_disposition(text: &str) -> (policy: PolicyType)
    ensures
        policy == disposition_of(text.spec_bytes()),
{
    if spells(text, "reject") {
        PolicyType::Reject
    } else if spells(text, "quarantine") {
        PolicyType::Quarantine
    } else {
        PolicyType::Monitor
    }
}

/// Reads a percentage, leniently.
pub fn parse_percent(text: &str) -> (pct: u8)
    ensures
        pct == percent_of(text.spec_bytes()),
{
    match parse_decimal(text.as_bytes(), 100) {
        Some(v) => v as u8,
        None => 100,
    }
}

/// Reads a message count, leniently.
pub fn parse_count(text: &str) -> (count: u32)
    ensures
        count == count_of(text.spec_bytes()),
{
    match parse_decimal(text.as_bytes(), 0xffff_ffff) {
        Some(v) => v as u32,
        None => 0,
    }
}

/// Reads a DKIM verdict, leniently.
pub fn parse_dkim_verdict(text: &str) -> (verdict: DkimVerdict)
    ensures
        verdict == dkim_verdict_of(text.spec_bytes()),
{
    match DkimVerdict::from_str(text) {
        Ok(v) => v,
        Err(_) => DkimVerdict::Absent,
    }
}

/// Reads an SPF verdict, leniently.
pub fn parse_spf_verdict(text: &str) -> (verdict: SpfVerdict)
    ensures
        verdict == spf_verdict_of(text.spec_bytes()),
{
    match SpfVerdict::from_str(text) {
        Ok(v) => v,
        Err(_) => SpfVerdict::Absent,
    }
}

/// Puts the text of one of its leaves into a record.
pub fn fill_record(record: DmarcRecord, field: Field, text: String) -> (r: DmarcRecord)
    ensures
        r@ == record_with(record@, field, text@),
{
    let mut r = record;
    match field {
        Field::SourceIp => {
            r.source_ip = text;
        },
        Field::Count => {
            r.count = parse_count(text.as_str());
        },
        Field::HeaderFrom => {
            r.header_from = text;
        },
        _ => {},
    }
    r
}

/// Puts the text of one child of a `policy_published` element into the
/// policy that is being collected.
pub fn parse_policy_published(policy: DmarcPolicy, field: Field, text: String) -> (r: DmarcPolicy)
    ensures
        r@ == policy_with(policy@, field, text@),
{
    let mut r = policy;
    match field {
        Field::PolicyDomain => {
            r.domain = text;
        },
        Field::Adkim => {
            r.adkim = parse_alignment(text.as_str());
        },
        Field::Aspf => {
            r.aspf = parse_alignment(text.as_str());
        },
        Field::Disposition => {
            r.policy = parse_disposition(text.as_str());
        },
        Field::Percent => {
            r.pct = parse_percent(text.as_str());
        },
        _ => {},
    }
    r
}

/// Puts the text of one child of a `dkim` element into the result that is
/// being collected.
pub fn parse_dkim(dkim: DkimResult, field: Field, text: String) -> (r: DkimResult)
    ensures
        r@ == dkim_with(dkim@, field, text@),
{
    let mut r = dkim;
    match field {
        Field::DkimDomain => {
            r.domain = text;
        },
        Field::Selector => {
            r.selector = text;
        },
        Field::DkimVerdict => {
            r.result = parse_dkim_verdict(text.as_str());
        },
        _ => {},
    }
    r
}

/// Puts the text of one child of an `spf` element into the result that is
/// being collected.
pub fn parse_spf(spf: SpfResult, field: Field, text: String) -> (r: SpfResult)
    ensures
        r@ == spf_with(spf@, field, text@),
{
    let mut r = spf;
    match field {
        Field::SpfDomain => {
            r.domain = text;
        },
        Field::Scope => {
            r.scope = text;
        },
        Field::SpfVerdict => {
            r.result = parse_spf_verdict(text.as_str());
        },
        _ => {},
    }
    r
}

impl Scanner {
    /// The scanner before the first token.
    pub fn new() -> (s: Scanner)
        ensures
            s@ == ScanView::start(),
    {
        let s = Scanner {
            depth: 0,
            records: Vec::new(),
            policy: DmarcPolicy::default(),
            current: None,
            in_auth_results: false,
            mode: Mode::Main,
        };
        assert(s@.records =~= Seq::<RecordView>::empty());
        s
    }

    /// Tells which field the text of an element goes to, if any.
    pub fn wants(&self, tag: Tag) -> (field: Option<Field>)
        ensures
            field == self@.wanted(tag),
    {
        match &self.mode {
            Mode::Main => if self.current.is_some() {
                match tag {
                    Tag::SourceIp => Some(Field::SourceIp),
                    Tag::Count => Some(Field::Count),
                    Tag::HeaderFrom => Some(Field::HeaderFrom),
                    _ => None,
                }
            } else {
                None
            },
            Mode::Policy(_) => match tag {
                Tag::Domain => Some(Field::PolicyDomain),
                Tag::Adkim => Some(Field::Adkim),
                Tag::Aspf => Some(Field::Aspf),
                Tag::Disposition => Some(Field::Disposition),
                Tag::Percent => Some(Field::Percent),
                _ => None,
            },
            Mode::Dkim(_) => match tag {
                Tag::Domain => Some(Field::DkimDomain),
                Tag::Selector => Some(Field::Selector),
                Tag::Verdict => Some(Field::DkimVerdict),
                _ => None,
            },
            Mode::Spf(_) => match tag {
                Tag::Domain => Some(Field::SpfDomain),
                Tag::Scope => Some(Field::Scope),
                Tag::Verdict => Some(Field::SpfVerdict),
                _ => None,
            },
        }
    }

    /// Takes a start tag.
    pub fn on_start(self, name: &[u8], max_depth: u32) -> (step: StartStep)
        ensures
            step@ == self@.on_start(name@, max_depth),
    {
        if self.depth >= max_depth {
            return StartStep::TooDeep;
        }
        let tag = classify(name);
        let Scanner { depth, records, policy, current, in_auth_results, mode } = self;
        let deeper = Scanner { depth: depth + 1, records, policy, current, in_auth_results, mode };
        match deeper.wants(tag) {
            Some(field) => StartStep::ReadText(deeper, field),
            None => {
                let Scanner { depth, records, policy, current, in_auth_results, mode } = deeper;
                match mode {
                    Mode::Main => match tag {
                        Tag::Record => StartStep::Continue(
                            Scanner {
                                depth,
                                records,
                                policy,
                                current: Some(DmarcRecord::default()),
                                in_auth_results,
                                mode: Mode::Main,
                            },
                        ),
                        Tag::PolicyPublished => StartStep::Continue(
                            Scanner {
                                depth,
                                records,
                                policy,
                                current,
                                in_auth_results,
                                mode: Mode::Policy(DmarcPolicy::default()),
                            },
                        ),
                        Tag::AuthResults => StartStep::Continue(
                            Scanner {
                                depth,
                                records,
                                policy,
                                current,
                                in_auth_results: true,
                                mode: Mode::Main,
                            },
                        ),
                        Tag::Dkim => {
                            let collect = in_auth_results && current.is_some();
                            StartStep::Continue(
                                Scanner {
                                    depth,
                                    records,
                                    policy,
                                    current,
                                    in_auth_results,
                                    mode: if collect {
                                        Mode::Dkim(DkimResult::default())
                                    } else {
                                        Mode::Main
                                    },
                                },
                            )
                        },
                        Tag::Spf => {
                            let collect = in_auth_results && current.is_some();
                            StartStep::Continue(
                                Scanner {
                                    depth,
                                    records,
                                    policy,
                                    current,
                                    in_auth_results,
                                    mode: if collect {
                                        Mode::Spf(SpfResult::default())
                                    } else {
                                        Mode::Main
                                    },
                                },
                            )
                        },
                        _ => StartStep::Continue(
                            Scanner {
                                depth,
                                records,
                                policy,
                                current,
                                in_auth_results,
                                mode: Mode::Main,
                            },
                        ),
                    },
                    other => StartStep::Continue(
                        Scanner { depth, records, policy, current, in_auth_results, mode: other },
                    ),
                }
            },
        }
    }

    /// Takes an end tag.
    pub fn on_end(self, name: &[u8]) -> (after: Scanner)
        ensures
            after@ == self@.on_end(name@),
    {
        let tag = classify(name);
        let Scanner { depth, records, policy, current, in_auth_results, mode } = self;
        let depth = if depth > 0 {
            depth - 1
        } else {
            0
        };
        match mode {
            Mode::Main => match tag {
                Tag::Record => match current {
                    Some(r) => {
                        let mut records = records;
                        let ghost before = records@;
                        records.push(r);
                        assert(record_views(records@) =~= record_views(before).push(r@));
                        Scanner {
                            depth,
                            records,
                            policy,
                            current: None,
                            in_auth_results,
                            mode: Mode::Main,
                        }
                    },
                    None => Scanner {
                        depth,
                        records,
                        policy,
                        current: None,
                        in_auth_results,
                        mode: Mode::Main,
                    },
                },
                Tag::AuthResults => Scanner {
                    depth,
                    records,
                    policy,
                    current,
                    in_auth_results: false,
                    mode: Mode::Main,
                },
                _ => Scanner { depth, records, policy, current, in_auth_results, mode: Mode::Main },
            },
            Mode::Policy(p) => match tag {
                Tag::PolicyPublished => Scanner {
                    depth,
                    records,
                    policy: p,
                    current,
                    in_auth_results,
                    mode: Mode::Main,
                },
                _ => Scanner {
                    depth,
                    records,
                    policy,
                    current,
                    in_auth_results,
                    mode: Mode::Policy(p),
                },
            },
            Mode::Dkim(d) => match tag {
                Tag::Dkim => match current {
                    Some(r) => {
                        let DmarcRecord {
                            source_ip,
                            count,
                            policy_evaluated,
                            header_from,
                            envelope_from,
                            dkim,
                            spf,
                            date_range,
                        } = r;
                        let mut dkim = dkim;
                        let ghost before = dkim@;
                        dkim.push(d);
                        assert(dkim_views(dkim@) =~= dkim_views(before).push(d@));
                        Scanner {
                            depth,
                            records,
                            policy,
                            current: Some(
                                DmarcRecord {
                                    source_ip,
                                    count,
                                    policy_evaluated,
                                    header_from,
                                    envelope_from,
                                    dkim,
                                    spf,
                                    date_range,
                                },
                            ),
                            in_auth_results,
                            mode: Mode::Main,
                        }
                    },
                    None => Scanner {
                        depth,
                        records,
                        policy,
                        current: None,
                        in_auth_results,
                        mode: Mode::Main,
                    },
                },
                _ => Scanner {
                    depth,
                    records,
                    policy,
                    current,
                    in_auth_results,
                    mode: Mode::Dkim(d),
                },
            },
            Mode::Spf(f) => match tag {
                Tag::Spf => match current {
                    Some(r) => {
                        let mut r = r;
                        r.spf = f;
                        Scanner {
                            depth,
                            records,
                            policy,
                            current: Some(r),
                            in_auth_results,
                            mode: Mode::Main,
                        }
                    },
                    None => Scanner {
                        depth,
                        records,
                        policy,
                        current: None,
                        in_auth_results,
                        mode: Mode::Main,
                    },
                },
                _ => Scanner { depth, records, policy, current, in_auth_results, mode: Mode::Spf(f) },
            },
        }
    }

    /// Takes the text of the element whose start tag asked for it.
    pub fn on_text(self, field: Field, raw: &str) -> (after: Scanner)
        ensures
            after@ == self@.on_text(field, raw@),
    {
        let text = trim(raw);
        let Scanner { depth, records, policy, current, in_auth_results, mode } = self;
        let depth = if depth > 0 {
            depth - 1
        } else {
            0
        };
        match mode {
            Mode::Main => match current {
                Some(r) => Scanner {
                    depth,
                    records,
                    policy,
                    current: Some(fill_record(r, field, text)),
                    in_auth_results,
                    mode: Mode::Main,
                },
                None => Scanner {
                    depth,
                    records,
                    policy,
                    current: None,
                    in_auth_results,
                    mode: Mode::Main,
                },
            },
            Mode::Policy(p) => Scanner {
                depth,
                records,
                policy,
                current,
                in_auth_results,
                mode: Mode::Policy(parse_policy_published(p, field, text)),
            },
            Mode::Dkim(d) => Scanner {
                depth,
                records,
                policy,
                current,
                in_auth_results,
                mode: Mode::Dkim(parse_dkim(d, field, text)),
            },
            Mode::Spf(f) => Scanner {
                depth,
                records,
                policy,
                current,
                in_auth_results,
                mode: Mode::Spf(parse_spf(f, field, text)),
            },
        }
    }

    /// Ends the scan.
    pub fn finish(self) -> (r: (Vec<DmarcRecord>, DmarcPolicy))
        ensures
            (record_views(r.0@), r.1@) == self@.finish(),
    {
        let Scanner { depth: _, records, policy, current: _, in_auth_results: _, mode } = self;
        match mode {
            Mode::Policy(p) => (records, p),
            _ => (records, policy),
        }
    }
}

} // verus!
