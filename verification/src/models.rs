//! The report data model: the published policy, the per-source records and
//! the closed sets of verdicts, alignment modes and dispositions, each with
//! its mathematical view.

use vstd::prelude::*;
use vstd::string::StringSliceAdditionalSpecFns;
use crate::text::same_ignoring_case;
use crate::text::spells;

verus! {

/// Result of a DKIM check.
#[derive(Debug, Clone, Copy, PartialEq, Eq, Structural)]
pub enum DkimVerdict {
    /// No signature was there to check (written `none`).
    Absent,
    Pass,
    Fail,
    Neutral,
}

/// Result of an SPF check.
#[derive(Debug, Clone, Copy, PartialEq, Eq, Structural)]
pub enum SpfVerdict {
    /// No SPF record was there to check (written `none`).
    Absent,
    Pass,
    Fail,
    Neutral,
}

/// How strictly a domain must match for alignment.
#[derive(Debug, Clone, Copy, PartialEq, Eq, Structural)]
pub enum AlignmentMode {
    Relaxed,
    Strict,
}

/// What a domain owner asks receivers to do with failing mail.
#[derive(Debug, Clone, Copy, PartialEq, Eq, Structural)]
pub enum PolicyType {
    /// Take no action, only report (written `none`).
    Monitor,
    Quarantine,
    Reject,
}

/// The policy a domain publishes.
#[derive(Debug, Clone)]
pub struct DmarcPolicy {
    pub domain: String,
    pub adkim: AlignmentMode,
    pub aspf: AlignmentMode,
    pub policy: PolicyType,
    pub pct: u8,
}

/// What a receiver decided for one source.
#[derive(Debug, Clone)]
pub struct PolicyEvaluated {
    pub disposition: String,
    pub dkim: DkimVerdict,
    pub spf: SpfVerdict,
}

/// One DKIM signature and its verdict.
#[derive(Debug, Clone)]
pub struct DkimResult {
    pub domain: String,
    pub selector: String,
    pub result: DkimVerdict,
}

/// The SPF check and its verdict.
#[derive(Debug, Clone)]
pub struct SpfResult {
    pub domain: String,
    pub scope: String,
    pub result: SpfVerdict,
}

/// The period a report covers, in seconds since the epoch.
#[derive(Debug, Clone, Copy, PartialEq, Eq, Structural)]
pub struct DateRange {
    pub begin: i64,
    pub end: i64,
}

/// One row of a report: a sending source and what was observed of it.
#[derive(Debug, Clone)]
pub struct DmarcRecord {
    pub source_ip: String,
    pub count: u32,
    pub policy_evaluated: PolicyEvaluated,
    pub header_from: String,
    pub envelope_from: Option<String>,
    pub dkim: Vec<DkimResult>,
    pub spf: SpfResult,
    pub date_range: DateRange,
}

/// Mathematical value of a [`DmarcPolicy`].
pub struct PolicyView {
    pub domain: Seq<char>,
    pub adkim: AlignmentMode,
    pub aspf: AlignmentMode,
    pub policy: PolicyType,
    pub pct: u8,
}

/// Mathematical value of a [`PolicyEvaluated`].
pub struct EvaluatedView {
    pub disposition: Seq<char>,
    pub dkim: DkimVerdict,
    pub spf: SpfVerdict,
}

/// Mathematical value of a [`DkimResult`].
pub struct DkimView {
    pub domain: Seq<char>,
    pub selector: Seq<char>,
    pub result: DkimVerdict,
}

/// Mathematical value of a [`SpfResult`].
pub struct SpfView {
    pub domain: Seq<char>,
    pub scope: Seq<char>,
    pub result: SpfVerdict,
}

/// Mathematical value of a [`DmarcRecord`].
pub struct RecordView {
    pub source_ip: Seq<char>,
    pub count: u32,
    pub policy_evaluated: EvaluatedView,
    pub header_from: Seq<char>,
    pub envelope_from: Option<Seq<char>>,
    pub dkim: Seq<DkimView>,
    pub spf: SpfView,
    pub date_range: DateRange,
}

impl View for DmarcPolicy {
    type V = PolicyView;

    open spec fn view(&self) -> PolicyView {
        PolicyView {
            domain: self.domain@,
            adkim: self.adkim,
            aspf: self.aspf,
            policy: self.policy,
            pct: self.pct,
        }
    }
}

impl View for PolicyEvaluated {
    type V = EvaluatedView;

    open spec fn view(&self) -> EvaluatedView {
        EvaluatedView { disposition: self.disposition@, dkim: self.dkim, spf: self.spf }
    }
}

impl View for DkimResult {
    type V = DkimView;

    open spec fn view(&self) -> DkimView {
        DkimView { domain: self.domain@, selector: self.selector@, result: self.result }
    }
}

impl View for SpfResult {
    type V = SpfView;

    open spec fn view(&self) -> SpfView {
        SpfView { domain: self.domain@, scope: self.scope@, result: self.result }
    }
}

/// The values of a list of DKIM results, in order.
pub open spec fn dkim_views(list: Seq<DkimResult>) -> Seq<DkimView> {
    Seq::new(list.len(), |i: int| list[i]@)
}

/// The values of a list of records, in order.
pub open spec fn record_views(list: Seq<DmarcRecord>) -> Seq<RecordView> {
    Seq::new(list.len(), |i: int| list[i]@)
}

/// The value of a text that may be missing.
pub open spec fn text_view(text: Option<String>) -> Option<Seq<char>> {
    match text {
        Some(t) => Some(t@),
        None => None,
    }
}

impl View for DmarcRecord {
    type V = RecordView;

    open spec fn view(&self) -> RecordView {
        RecordView {
            source_ip: self.source_ip@,
            count: self.count,
            policy_evaluated: self.policy_evaluated@,
            header_from: self.header_from@,
            envelope_from: text_view(self.envelope_from),
            dkim: dkim_views(self.dkim@),
            spf: self.spf@,
            date_range: self.date_range,
        }
    }
}

impl PolicyView {
    /// The policy of a domain that publishes none: relaxed alignment, no
    /// requested action, applied to all mail.
    pub open spec fn unset() -> PolicyView {
        PolicyView {
            domain: Seq::empty(),
            adkim: AlignmentMode::Relaxed,
            aspf: AlignmentMode::Relaxed,
            policy: PolicyType::Monitor,
            pct: 100,
        }
    }
}

impl EvaluatedView {
    /// An evaluation with nothing filled in yet.
    pub open spec fn unset() -> EvaluatedView {
        EvaluatedView {
            disposition: Seq::empty(),
            dkim: DkimVerdict::Absent,
            spf: SpfVerdict::Absent,
        }
    }
}

impl DkimView {
    /// A DKIM result with nothing filled in yet.
    pub open spec fn unset() -> DkimView {
        DkimView { domain: Seq::empty(), selector: Seq::empty(), result: DkimVerdict::Absent }
    }
}

impl SpfView {
    /// An SPF result with nothing filled in yet.
    pub open spec fn unset() -> SpfView {
        SpfView { domain: Seq::empty(), scope: Seq::empty(), result: SpfVerdict::Absent }
    }
}

impl RecordView {
    /// A record with nothing filled in yet.
    pub open spec fn unset() -> RecordView {
        RecordView {
            source_ip: Seq::empty(),
            count: 0,
            policy_evaluated: EvaluatedView::unset(),
            header_from: Seq::empty(),
            envelope_from: None,
            dkim: Seq::empty(),
            spf: SpfView::unset(),
            date_range: DateRange { begin: 0, end: 0 },
        }
    }
}

/// The message for a word that names nothing of its kind.
pub open spec fn refusal(kind: Seq<char>, word: Seq<char>) -> Seq<char> {
    "Invalid "@ + kind + ": "@ + word
}

/// Words the message for a word that names nothing of its kind.
pub fn refuse(kind: &str, word: &str) -> (r: String)
    ensures
        r@ == refusal(kind@, word@),
{
    String::from_str("Invalid ").concat(kind).concat(": ").concat(word)
}

impl DkimVerdict {
    /// The word that stands for a verdict.
    pub open spec fn label(self) -> Seq<char> {
        match self {
            DkimVerdict::Absent => "none"@,
            DkimVerdict::Pass => "pass"@,
            DkimVerdict::Fail => "fail"@,
            DkimVerdict::Neutral => "neutral"@,
        }
    }

    /// The verdict that a word names, letter case aside.
    pub open spec fn named(word: Seq<u8>) -> Option<DkimVerdict> {
        if same_ignoring_case(word, "pass".spec_bytes()) {
            Some(DkimVerdict::Pass)
        } else if same_ignoring_case(word, "fail".spec_bytes()) {
            Some(DkimVerdict::Fail)
        } else if same_ignoring_case(word, "neutral".spec_bytes()) {
            Some(DkimVerdict::Neutral)
        } else if same_ignoring_case(word, "none".spec_bytes()) {
            Some(DkimVerdict::Absent)
        } else {
            None
        }
    }

    /// Reads a verdict from its word; any other text is refused with a
    /// message that quotes it.
    pub fn from_str(s: &str) -> (r: Result<DkimVerdict, String>)
        ensures
            match r {
                Ok(v) => DkimVerdict::named(s.spec_bytes()) == Some(v),
                Err(e) => DkimVerdict::named(s.spec_bytes()) is None && e@
                    == refusal("DKIM verdict"@, s@),
            },
    {
        if spells(s, "pass") {
            Ok(DkimVerdict::Pass)
        } else if spells(s, "fail") {
            Ok(DkimVerdict::Fail)
        } else if spells(s, "neutral") {
            Ok(DkimVerdict::Neutral)
        } else if spells(s, "none") {
            Ok(DkimVerdict::Absent)
        } else {
            Err(refuse("DKIM verdict", s))
        }
    }

    /// The verdict's word.
    pub fn to_string(&self) -> (r: String)
        ensures
            r@ == self.label(),
    {
        match self {
            DkimVerdict::Absent => String::from_str("none"),
            DkimVerdict::Pass => String::from_str("pass"),
            DkimVerdict::Fail => String::from_str("fail"),
            DkimVerdict::Neutral => String::from_str("neutral"),
        }
    }
}

impl SpfVerdict {
    /// The word that stands for a verdict.
    pub open spec fn label(self) -> Seq<char> {
        match self {
            SpfVerdict::Absent => "none"@,
            SpfVerdict::Pass => "pass"@,
            SpfVerdict::Fail => "fail"@,
            SpfVerdict::Neutral => "neutral"@,
        }
    }

    /// The verdict that a word names, letter case aside.
    pub open spec fn named(word: Seq<u8>) -> Option<SpfVerdict> {
        if same_ignoring_case(word, "pass".spec_bytes()) {
            Some(SpfVerdict::Pass)
        } else if same_ignoring_case(word, "fail".spec_bytes()) {
            Some(SpfVerdict::Fail)
        } else if same_ignoring_case(word, "neutral".spec_bytes()) {
            Some(SpfVerdict::Neutral)
        } else if same_ignoring_case(word, "none".spec_bytes()) {
            Some(SpfVerdict::Absent)
        } else {
            None
        }
    }

    /// Reads a verdict from its word; any other text is refused with a
    /// message that quotes it.
    pub fn from_str(s: &str) -> (r: Result<SpfVerdict, String>)
        ensures
            match r {
                Ok(v) => SpfVerdict::named(s.spec_bytes()) == Some(v),
                Err(e) => SpfVerdict::named(s.spec_bytes()) is None && e@
                    == refusal("SPF verdict"@, s@),
            },
    {
        if spells(s, "pass") {
            Ok(SpfVerdict::Pass)
        } else if spells(s, "fail") {
            Ok(SpfVerdict::Fail)
        } else if spells(s, "neutral") {
            Ok(SpfVerdict::Neutral)
        } else if spells(s, "none") {
            Ok(SpfVerdict::Absent)
        } else {
            Err(refuse("SPF verdict", s))
        }
    }

    /// The verdict's word.
    pub fn to_string(&self) -> (r: String)
        ensures
            r@ == self.label(),
    {
        match self {
            SpfVerdict::Absent => String::from_str("none"),
            SpfVerdict::Pass => String::from_str("pass"),
            SpfVerdict::Fail => String::from_str("fail"),
            SpfVerdict::Neutral => String::from_str("neutral"),
        }
    }
}

impl AlignmentMode {
    /// The word that stands for a mode.
    pub open spec fn label(self) -> Seq<char> {
        match self {
            AlignmentMode::Relaxed => "relaxed"@,
            AlignmentMode::Strict => "strict"@,
        }
    }

    /// The mode that a word or its initial names, letter case aside.
    pub open spec fn named(word: Seq<u8>) -> Option<AlignmentMode> {
        if same_ignoring_case(word, "r".spec_bytes()) || same_ignoring_case(
            word,
            "relaxed".spec_bytes(),
        ) {
            Some(AlignmentMode::Relaxed)
        } else if same_ignoring_case(word, "s".spec_bytes()) || same_ignoring_case(
            word,
            "strict".spec_bytes(),
        ) {
            Some(AlignmentMode::Strict)
        } else {
            None
        }
    }

    /// Reads a mode from its word or its initial; any other text is refused
    /// with a message that quotes it.
    pub fn from_str(s: &str) -> (r: Result<AlignmentMode, String>)
        ensures
            match r {
                Ok(v) => AlignmentMode::named(s.spec_bytes()) == Some(v),
                Err(e) => AlignmentMode::named(s.spec_bytes()) is None && e@
                    == refusal("alignment mode"@, s@),
            },
    {
        if spells(s, "r") || spells(s, "relaxed") {
            Ok(AlignmentMode::Relaxed)
        } else if spells(s, "s") || spells(s, "strict") {
            Ok(AlignmentMode::Strict)
        } else {
            Err(refuse("alignment mode", s))
        }
    }

    /// The mode's word.
    pub fn to_string(&self) -> (r: String)
        ensures
            r@ == self.label(),
    {
        match self {
            AlignmentMode::Relaxed => String::from_str("relaxed"),
            AlignmentMode::Strict => String::from_str("strict"),
        }
    }
}

impl PolicyType {
    /// The word that stands for a disposition.
    pub open spec fn label(self) -> Seq<char> {
        match self {
            PolicyType::Monitor => "none"@,
            PolicyType::Quarantine => "quarantine"@,
            PolicyType::Reject => "reject"@,
        }
    }

    /// The disposition that a word names, letter case aside.
    pub open spec fn named(word: Seq<u8>) -> Option<PolicyType> {
        if same_ignoring_case(word, "none".spec_bytes()) {
            Some(PolicyType::Monitor)
        } else if same_ignoring_case(word, "quarantine".spec_bytes()) {
            Some(PolicyType::Quarantine)
        } else if same_ignoring_case(word, "reject".spec_bytes()) {
            Some(PolicyType::Reject)
        } else {
            None
        }
    }

    /// Reads a disposition from its word; any other text is refused with a
    /// message that quotes it.
    pub fn from_str(s: &str) -> (r: Result<PolicyType, String>)
        ensures
            match r {
                Ok(v) => PolicyType::named(s.spec_bytes()) == Some(v),
                Err(e) => PolicyType::named(s.spec_bytes()) is None && e@
                    == refusal("policy type"@, s@),
            },
    {
        if spells(s, "none") {
            Ok(PolicyType::Monitor)
        } else if spells(s, "quarantine") {
            Ok(PolicyType::Quarantine)
        } else if spells(s, "reject") {
            Ok(PolicyType::Reject)
        } else {
            Err(refuse("policy type", s))
        }
    }

    /// The disposition's word.
    pub fn to_string(&self) -> (r: String)
        ensures
            r@ == self.label(),
    {
        match self {
            PolicyType::Monitor => String::from_str("none"),
            PolicyType::Quarantine => String::from_str("quarantine"),
            PolicyType::Reject => String::from_str("reject"),
        }
    }
}

impl Default for DkimVerdict {
    fn default() -> (r: DkimVerdict)
        ensures
            r == DkimVerdict::Absent,
    {
        DkimVerdict::Absent
    }
}

impl Default for SpfVerdict {
    fn default() -> (r: SpfVerdict)
        ensures
            r == SpfVerdict::Absent,
    {
        SpfVerdict::Absent
    }
}

impl Default for AlignmentMode {
    fn default() -> (r: AlignmentMode)
        ensures
            r == AlignmentMode::Relaxed,
    {
        AlignmentMode::Relaxed
    }
}

impl Default for PolicyType {
    fn default() -> (r: PolicyType)
        ensures
            r == PolicyType::Monitor,
    {
        PolicyType::Monitor
    }
}

impl Default for DmarcPolicy {
    fn default() -> (r: DmarcPolicy)
        ensures
            r@ == PolicyView::unset(),
    {
        DmarcPolicy {
            domain: String::new(),
            adkim: AlignmentMode::Relaxed,
            aspf: AlignmentMode::Relaxed,
            policy: PolicyType::Monitor,
            pct: 100,
        }
    }
}

impl Default for PolicyEvaluated {
    fn default() -> (r: PolicyEvaluated)
        ensures
            r@ == EvaluatedView::unset(),
    {
        PolicyEvaluated {
            disposition: String::new(),
            dkim: DkimVerdict::Absent,
            spf: SpfVerdict::Absent,
        }
    }
}

impl Default for DkimResult {
    fn default() -> (r: DkimResult)
        ensures
            r@ == DkimView::unset(),
    {
        DkimResult { domain: String::new(), selector: String::new(), result: DkimVerdict::Absent }
    }
}

impl Default for SpfResult {
    fn default() -> (r: SpfResult)
        ensures
            r@ == SpfView::unset(),
    {
        SpfResult { domain: String::new(), scope: String::new(), result: SpfVerdict::Absent }
    }
}

impl Default for DateRange {
    fn default() -> (r: DateRange)
        ensures
            r == (DateRange { begin: 0, end: 0 }),
    {
        DateRange { begin: 0, end: 0 }
    }
}

impl Default for DmarcRecord {
    fn default() -> (r: DmarcRecord)
        ensures
            r@ == RecordView::unset(),
    {
        let r = DmarcRecord {
            source_ip: String::new(),
            count: 0,
            policy_evaluated: PolicyEvaluated::default(),
            header_from: String::new(),
            envelope_from: None,
            dkim: Vec::new(),
            spf: SpfResult::default(),
            date_range: DateRange { begin: 0, end: 0 },
        };
        assert(r@.dkim =~= Seq::<DkimView>::empty());
        r
    }
}

impl PartialEq for DmarcPolicy {
    fn eq(&self, other: &DmarcPolicy) -> (r: bool) {
        self.domain == other.domain && self.adkim == other.adkim && self.aspf == other.aspf
            && self.policy == other.policy && self.pct == other.pct
    }
}

impl vstd::std_specs::cmp::PartialEqSpecImpl for DmarcPolicy {
    open spec fn obeys_eq_spec() -> bool {
        true
    }

    /// Two policies are equal where their values are.
    open spec fn eq_spec(&self, other: &DmarcPolicy) -> bool {
        self.domain@ == other.domain@ && self.adkim == other.adkim && self.aspf == other.aspf
            && self.policy == other.policy && self.pct == other.pct
    }
}

} // verus!
