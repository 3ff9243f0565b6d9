//! How results are worded for a reader: the output formats by name, and
//! one line for a DKIM or an SPF result.

use vstd::prelude::*;
use vstd::string::StringSliceAdditionalSpecFns;
use crate::models::dkim_views;
use crate::models::refusal;
use crate::models::refuse;
use crate::models::DkimResult;
use crate::models::DkimView;
use crate::models::SpfResult;
use crate::models::SpfView;
use crate::text::blank;
use crate::text::is_blank;
use crate::text::same_ignoring_case;
use crate::text::spells;

verus! {

/// The forms in which results are put out.
#[derive(Debug, Clone, Copy, PartialEq, Eq, Structural)]
pub enum OutputFormat {
    Table,
    Csv,
    Json,
}

impl OutputFormat {
    /// The format that a word names, letter case aside.
    pub open spec fn named(word: Seq<u8>) -> Option<OutputFormat> {
        if same_ignoring_case(word, "table".spec_bytes()) {
            Some(OutputFormat::Table)
        } else if same_ignoring_case(word, "csv".spec_bytes()) {
            Some(OutputFormat::Csv)
        } else if same_ignoring_case(word, "json".spec_bytes()) {
            Some(OutputFormat::Json)
        } else {
            None
        }
    }

    /// Reads a format from its word; any other text is refused with a
    /// message that quotes it.
    pub fn from_str(s: &str) -> (r: Result<OutputFormat, String>)
        ensures
            match r {
                Ok(v) => OutputFormat::named(s.spec_bytes()) == Some(v),
                Err(e) => OutputFormat::named(s.spec_bytes()) is None && e@
                    == refusal("output format"@, s@),
            },
    {
        if spells(s, "table") {
            Ok(OutputFormat::Table)
        } else if spells(s, "csv") {
            Ok(OutputFormat::Csv)
        } else if spells(s, "json") {
            Ok(OutputFormat::Json)
        } else {
            Err(refuse("output format", s))
        }
    }
}

/// The line for a DKIM result: that there is no signature where the domain
/// is blank, else the domain, the selector if it is not blank, and the
/// result's word.
pub open spec fn dkim_line(d: DkimView) -> Seq<char> {
    if is_blank(d.domain) {
        "No signature"@
    } else if is_blank(d.selector) {
        d.domain + ":"@ + d.result.label()
    } else {
        d.domain + " (selector: "@ + d.selector + "): "@ + d.result.label()
    }
}

/// The line for an SPF result: that there is no record where the domain is
/// blank, else the domain and the result's word.
pub open spec fn spf_line(f: SpfView) -> Seq<char> {
    if is_blank(f.domain) {
        "No SPF record"@
    } else {
        f.domain + ":"@ + f.result.label()
    }
}

/// The lines of the first `n` DKIM results, with `, ` between them.
pub open spec fn dkim_lines(list: Seq<DkimView>, n: int) -> Seq<char>
    decreases n,
{
    if n <= 0 {
        Seq::empty()
    } else if n == 1 {
        dkim_line(list[0])
    } else {
        dkim_lines(list, n - 1) + ", "@ + dkim_line(list[n - 1])
    }
}

/// The cell for the DKIM results of a record: their lines, or that there
/// is no signature where there are none.
pub open spec fn dkim_cell(list: Seq<DkimView>) -> Seq<char> {
    if list.len() == 0 {
        "No DKIM signature"@
    } else {
        dkim_lines(list, list.len() as int)
    }
}

/// Words a DKIM result.
pub fn format_dkim(d: &DkimResult) -> (r: String)
    ensures
        r@ == dkim_line(d@),
{
    if blank(d.domain.as_str()) {
        String::from_str("No signature")
    } else if blank(d.selector.as_str()) {
        d.domain.clone().concat(":").concat(d.result.to_string().as_str())
    } else {
        d.domain.clone().concat(" (selector: ").concat(d.selector.as_str()).concat("): ").concat(
            d.result.to_string().as_str(),
        )
    }
}

/// Words an SPF result.
pub fn format_spf(spf: &SpfResult) -> (r: String)
    ensures
        r@ == spf_line(spf@),
{
    if blank(spf.domain.as_str()) {
        String::from_str("No SPF record")
    } else {
        spf.domain.clone().concat(":").concat(spf.result.to_string().as_str())
    }
}

/// Words the DKIM results of a record.
pub fn format_dkim_list(list: &Vec<DkimResult>) -> (r: String)
    ensures
        r@ == dkim_cell(dkim_views(list@)),
{
    if list.len() == 0 {
        return String::from_str("No DKIM signature");
    }
    let ghost views = dkim_views(list@);
    let mut r = format_dkim(&list[0]);
    let mut i: usize = 1;
    while i < list.len()
        invariant
            1 <= i <= list.len(),
            views == dkim_views(list@),
            r@ == dkim_lines(views, i as int),
        decreases list.len() - i,
    {
        let line = format_dkim(&list[i]);
        r = r.concat(", ").concat(line.as_str());
        i = i + 1;
    }
    r
}

} // verus!
