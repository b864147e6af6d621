//! Reads the findings out of a log analysis that the engine wrote.
//!
//! The engine answers in free text. What counts as an issue, as a
//! recommendation and as a sign of severity is decided here, line by line
//! and without regard to case.

use vstd::prelude::*;
use vstd::string::*;
use crate::text::{
    chars_of, contains, fields, occurs_in, split_on, text_between, trim, trimmed, views,
};

verus! {

/// The largest number of issues, and of recommendations, that are listed.
pub const FINDINGS_LIMIT: usize = 5;

/// The length in bytes above which an analysis counts as detailed.
pub const DETAILED_LENGTH: usize = 500;

/// `text` in lower case.
pub uninterp spec fn lowercase(text: Seq<char>) -> Seq<char>;

/// `str::to_lowercase`: `text` in lower case.
#[verifier::external_body]
pub(crate) fn lower(text: &str) -> (lowered: String)
    ensures
        lowered@ == lowercase(text@),
{
    text.to_lowercase()
}

/// How severe the findings of an analysis are.
#[derive(Debug, Clone, Copy, PartialEq, Eq, Structural)]
pub enum Severity {
    Low,
    Medium,
    High,
    Critical,
}

impl Severity {
    /// The name under which a response reports the severity.
    pub open spec fn name(self) -> Seq<char> {
        match self {
            Severity::Low => "low"@,
            Severity::Medium => "medium"@,
            Severity::High => "high"@,
            Severity::Critical => "critical"@,
        }
    }

    pub fn as_str(&self) -> (name: &'static str)
        ensures
            name@ == self.name(),
    {
        match self {
            Severity::Low => "low",
            Severity::Medium => "medium",
            Severity::High => "high",
            Severity::Critical => "critical",
        }
    }
}

/// The findings of an analysis.
#[derive(Debug, Clone)]
pub struct LogAnalysis {
    pub analysis: String,
    pub issues: Vec<String>,
    pub recommendations: Vec<String>,
    pub severity: Severity,
    /// The confidence in the findings, in hundredths.
    pub confidence_percent: u8,
}

/// A line without the carriage return that may end it.
pub open spec fn without_return(line: Seq<char>) -> Seq<char> {
    if line.len() > 0 && line.last() == '\r' {
        line.drop_last()
    } else {
        line
    }
}

/// The lines of `text`. A line ends with a line feed, or with a carriage
/// return and a line feed; what follows the last line feed is a line of
/// its own unless it is empty.
pub open spec fn lines(text: Seq<char>) -> Seq<Seq<char>> {
    let parts = fields(text, '\n');
    let ended = parts.drop_last().map_values(|line: Seq<char>| without_return(line));
    if parts.last().len() > 0 {
        ended.push(parts.last())
    } else {
        ended
    }
}

/// Whether a line, in lower case, tells of an issue.
pub open spec fn tells_issue(lowered: Seq<char>) -> bool {
    occurs_in("issue"@, lowered) || occurs_in("error"@, lowered)
}

/// Whether a line, in lower case, recommends something.
pub open spec fn tells_recommendation(lowered: Seq<char>) -> bool {
    occurs_in("recommend"@, lowered) || occurs_in("suggest"@, lowered)
}

/// The first lines, `limit` at most, whose lower-case form is `wanted`,
/// each without the white space around it.
pub open spec fn picked(
    lines: Seq<Seq<char>>,
    wanted: spec_fn(Seq<char>) -> bool,
    limit: nat,
) -> Seq<Seq<char>>
    decreases lines.len(),
{
    if lines.len() == 0 {
        Seq::empty()
    } else {
        let before = picked(lines.drop_last(), wanted, limit);
        if before.len() < limit && wanted(lowercase(lines.last())) {
            before.push(trimmed(lines.last()))
        } else {
            before
        }
    }
}

/// The severity that a text in lower case tells of: the gravest of the
/// words `critical`, `error` and `warning` that occurs in it.
pub open spec fn severity_in(lowered: Seq<char>) -> Severity {
    if occurs_in("critical"@, lowered) {
        Severity::Critical
    } else if occurs_in("error"@, lowered) {
        Severity::High
    } else if occurs_in("warning"@, lowered) {
        Severity::Medium
    } else {
        Severity::Low
    }
}

/// The severity that an analysis tells of, without regard to case.
pub open spec fn severity_of(analysis: Seq<char>) -> Severity {
    severity_in(lowercase(analysis))
}

/// The confidence in an analysis of `length` bytes, in hundredths.
pub open spec fn confidence_of(length: nat) -> u8 {
    if length > DETAILED_LENGTH {
        80
    } else {
        60
    }
}

/// Whether a line in lower case tells of an issue.
pub fn is_issue(lowered: &str) -> (answer: bool)
    ensures
        answer == tells_issue(lowered@),
{
    contains(lowered, "issue") || contains(lowered, "error")
}

/// Whether a line in lower case recommends something.
pub fn is_recommendation(lowered: &str) -> (answer: bool)
    ensures
        answer == tells_recommendation(lowered@),
{
    contains(lowered, "recommend") || contains(lowered, "suggest")
}

/// The lines of `text`.
pub fn split_lines(text: &str) -> (list: Vec<String>)
    ensures
        views(list@) == lines(text@),
{
    let mut parts = split_on(text, '\n');
    let ghost all = views(parts@);
    let last = parts.pop().unwrap();
    assert(last@ == all.last());
    assert(views(parts@) =~= all.drop_last());
    let mut list: Vec<String> = Vec::new();
    let mut i: usize = 0;
    while i < parts.len()
        invariant
            i <= parts.len(),
            all.len() == parts.len() + 1,
            views(parts@) == all.drop_last(),
            list.len() == i,
            forall|k: int| 0 <= k < i ==> (#[trigger] list@[k])@ == without_return(all[k]),
        decreases parts.len() - i,
    {
        assert(views(parts@)[i as int] == parts@[i as int]@);
        assert(all.drop_last()[i as int] == all[i as int]);
        let chars = chars_of(parts[i].as_str());
        let end: usize = if chars.len() > 0 && chars[chars.len() - 1] == '\r' {
            chars.len() - 1
        } else {
            chars.len()
        };
        let line = text_between(&chars, 0, end);
        assert(line@ =~= without_return(all[i as int]));
        list.push(line);
        i = i + 1;
    }
    let ghost ended = all.drop_last().map_values(|line: Seq<char>| without_return(line));
    assert(views(list@) =~= ended);
    if !last.as_str().is_empty() {
        let ghost before = list@;
        list.push(last);
        assert(views(list@) =~= views(before).push(last@));
    }
    list
}

fn pick_issues(lines: &Vec<String>) -> (found: Vec<String>)
    ensures
        views(found@) == picked(
            views(lines@),
            |lowered: Seq<char>| tells_issue(lowered),
            FINDINGS_LIMIT as nat,
        ),
{
    let ghost all = views(lines@);
    let ghost wanted = |lowered: Seq<char>| tells_issue(lowered);
    let mut found: Vec<String> = Vec::new();
    let mut i: usize = 0;
    assert(all.take(0) =~= Seq::<Seq<char>>::empty());
    assert(views(found@) =~= Seq::<Seq<char>>::empty());
    while i < lines.len()
        invariant
            i <= lines.len(),
            all == views(lines@),
            wanted == |lowered: Seq<char>| tells_issue(lowered),
            views(found@) == picked(all.take(i as int), wanted, FINDINGS_LIMIT as nat),
        decreases lines.len() - i,
    {
        proof {
            assert(all.take(i + 1).drop_last() =~= all.take(i as int));
            assert(all.take(i + 1).last() == lines@[i as int]@);
        }
        if found.len() < FINDINGS_LIMIT {
            if is_issue(lower(lines[i].as_str()).as_str()) {
                let ghost before = found@;
                let line = trim(lines[i].as_str());
                found.push(line);
                assert(views(found@) =~= views(before).push(line@));
            }
        }
        i = i + 1;
    }
    assert(all.take(lines.len() as int) =~= all);
    found
}

fn pick_recommendations(lines: &Vec<String>) -> (found: Vec<String>)
    ensures
        views(found@) == picked(
            views(lines@),
            |lowered: Seq<char>| tells_recommendation(lowered),
            FINDINGS_LIMIT as nat,
        ),
{
    let ghost all = views(lines@);
    let ghost wanted = |lowered: Seq<char>| tells_recommendation(lowered);
    let mut found: Vec<String> = Vec::new();
    let mut i: usize = 0;
    assert(all.take(0) =~= Seq::<Seq<char>>::empty());
    assert(views(found@) =~= Seq::<Seq<char>>::empty());
    while i < lines.len()
        invariant
            i <= lines.len(),
            all == views(lines@),
            wanted == |lowered: Seq<char>| tells_recommendation(lowered),
            views(found@) == picked(all.take(i as int), wanted, FINDINGS_LIMIT as nat),
        decreases lines.len() - i,
    {
        proof {
            assert(all.take(i + 1).drop_last() =~= all.take(i as int));
            assert(all.take(i + 1).last() == lines@[i as int]@);
        }
        if found.len() < FINDINGS_LIMIT {
            if is_recommendation(lower(lines[i].as_str()).as_str()) {
                let ghost before = found@;
                let line = trim(lines[i].as_str());
                found.push(line);
                assert(views(found@) =~= views(before).push(line@));
            }
        }
        i = i + 1;
    }
    assert(all.take(lines.len() as int) =~= all);
    found
}

/// The severity that a text in lower case tells of.
pub fn grade(lowered: &str) -> (severity: Severity)
    ensures
        severity == severity_in(lowered@),
{
    if contains(lowered, "critical") {
        Severity::Critical
    } else if contains(lowered, "error") {
        Severity::High
    } else if contains(lowered, "warning") {
        Severity::Medium
    } else {
        Severity::Low
    }
}

/// The severity that `analysis` tells of.
pub fn assess_severity(analysis: &str) -> (severity: Severity)
    ensures
        severity == severity_of(analysis@),
{
    grade(lower(analysis).as_str())
}

/// The findings of `analysis`: the first lines that tell of an issue, the
/// first that recommend something, the severity, and the confidence.
pub fn analyze_logs(analysis: String) -> (findings: LogAnalysis)
    ensures
        findings.analysis == analysis,
        views(findings.issues@) == picked(
            lines(analysis@),
            |lowered: Seq<char>| tells_issue(lowered),
            FINDINGS_LIMIT as nat,
        ),
        views(findings.recommendations@) == picked(
            lines(analysis@),
            |lowered: Seq<char>| tells_recommendation(lowered),
            FINDINGS_LIMIT as nat,
        ),
        findings.severity == severity_of(analysis@),
        findings.confidence_percent == confidence_of(vstd::utf8::encode_utf8(analysis@).len()),
{
    let lines = split_lines(analysis.as_str());
    let issues = pick_issues(&lines);
    let recommendations = pick_recommendations(&lines);
    let severity = assess_severity(analysis.as_str());
    let confidence_percent: u8 = if analysis.as_str().as_bytes().len() > DETAILED_LENGTH {
        80
    } else {
        60
    };
    LogAnalysis { analysis, issues, recommendations, severity, confidence_percent }
}

} // verus!
