//! Reads the script and its explanation out of what the engine wrote.
//!
//! The engine answers in paragraphs, which a blank line separates. The
//! first paragraph is the script; the second explains it where it begins
//! with `Explanation:`.

use vstd::prelude::*;
use vstd::string::*;
use crate::text::{chars_of, text_between, trim, trimmed, views};

verus! {

/// The system that a script is to run on.
#[derive(Debug, Clone, Copy, PartialEq, Eq, Structural)]
pub enum Environment {
    Linux,
    Windows,
    MacOS,
}

impl Environment {
    /// The name by which prompts and responses call the system.
    pub open spec fn name(self) -> Seq<char> {
        match self {
            Environment::Linux => "linux"@,
            Environment::Windows => "windows"@,
            Environment::MacOS => "macos"@,
        }
    }

    pub fn as_str(&self) -> (name: &'static str)
        ensures
            name@ == self.name(),
    {
        match self {
            Environment::Linux => "linux",
            Environment::Windows => "windows",
            Environment::MacOS => "macos",
        }
    }
}

/// The language that a script is written in.
#[derive(Debug, Clone, Copy, PartialEq, Eq, Structural)]
pub enum ScriptLanguage {
    Bash,
    Python,
    Powershell,
}

impl ScriptLanguage {
    /// The name by which prompts and responses call the language.
    pub open spec fn name(self) -> Seq<char> {
        match self {
            ScriptLanguage::Bash => "bash"@,
            ScriptLanguage::Python => "python"@,
            ScriptLanguage::Powershell => "powershell"@,
        }
    }

    pub fn as_str(&self) -> (name: &'static str)
        ensures
            name@ == self.name(),
    {
        match self {
            ScriptLanguage::Bash => "bash",
            ScriptLanguage::Python => "python",
            ScriptLanguage::Powershell => "powershell",
        }
    }
}

/// A generated script with what is said about it.
#[derive(Debug, Clone)]
pub struct ScriptResponse {
    pub script: String,
    pub language: String,
    pub environment: String,
    pub explanation: String,
    pub safety_warnings: Vec<String>,
}

/// Where the paragraph that holds position `from` ends: at the first blank
/// line at or after `from`, or at the end of the text.
pub open spec fn paragraph_end(text: Seq<char>, from: int) -> int
    decreases text.len() - from,
{
    if from < 0 || from + 1 >= text.len() {
        text.len() as int
    } else if text[from] == '\n' && text[from + 1] == '\n' {
        from
    } else {
        paragraph_end(text, from + 1)
    }
}

/// The first paragraph of `text`.
pub open spec fn first_paragraph(text: Seq<char>) -> Seq<char> {
    text.subrange(0, paragraph_end(text, 0))
}

/// The second paragraph of `text`, where a blank line ends the first.
pub open spec fn second_paragraph(text: Seq<char>) -> Option<Seq<char>> {
    if paragraph_end(text, 0) < text.len() {
        Some(
            text.subrange(
                paragraph_end(text, 0) + 2,
                paragraph_end(text, paragraph_end(text, 0) + 2),
            ),
        )
    } else {
        None
    }
}

/// Whether `text` begins with `prefix`.
pub open spec fn begins_with(text: Seq<char>, prefix: Seq<char>) -> bool {
    prefix.len() <= text.len() && text.take(prefix.len() as int) == prefix
}

/// `text` without every `prefix` that it begins with, one after another.
pub open spec fn without_leading(text: Seq<char>, prefix: Seq<char>) -> Seq<char>
    decreases text.len(),
{
    if prefix.len() > 0 && begins_with(text, prefix) {
        without_leading(text.skip(prefix.len() as int), prefix)
    } else {
        text
    }
}

/// The script in what the engine wrote: the first paragraph, without the
/// heading `Script:` before it.
pub open spec fn script_of(content: Seq<char>) -> Seq<char> {
    without_leading(first_paragraph(content), "Script:\n"@)
}

/// The explanation in what the engine wrote: the second paragraph where it
/// begins with `Explanation:`, without that heading, and a fixed sentence
/// otherwise; without the white space around either.
pub open spec fn explanation_of(content: Seq<char>) -> Seq<char> {
    trimmed(
        match second_paragraph(content) {
            Some(paragraph) => if begins_with(paragraph, "Explanation:"@) {
                paragraph.skip("Explanation:"@.len() as int)
            } else {
                "Script generated based on requirements"@
            },
            None => "Script generated based on requirements"@,
        },
    )
}

/// The warnings that go with every script.
pub open spec fn standing_warnings() -> Seq<Seq<char>> {
    seq![
        "Test scripts in a non-production environment first"@,
        "Review script contents before execution"@,
        "Ensure proper backups are in place"@,
    ]
}

fn find_paragraph_end(chars: &Vec<char>, from: usize) -> (end: usize)
    requires
        from <= chars.len(),
    ensures
        end == paragraph_end(chars@, from as int),
        from <= end <= chars.len(),
        end < chars.len() ==> end + 2 <= chars.len(),
{
    let mut at: usize = from;
    while at < chars.len() && at + 1 < chars.len()
        invariant
            from <= at <= chars.len(),
            paragraph_end(chars@, from as int) == paragraph_end(chars@, at as int),
        decreases chars.len() - at,
    {
        if chars[at] == '\n' && chars[at + 1] == '\n' {
            return at;
        }
        at = at + 1;
    }
    chars.len()
}

fn begins_at(chars: &Vec<char>, from: usize, to: usize, prefix: &Vec<char>) -> (answer: bool)
    requires
        from <= to <= chars.len(),
    ensures
        answer == begins_with(chars@.subrange(from as int, to as int), prefix@),
{
    if prefix.len() > to - from {
        return false;
    }
    let ghost text = chars@.subrange(from as int, to as int);
    let mut k: usize = 0;
    while k < prefix.len()
        invariant
            from <= to <= chars.len(),
            prefix.len() <= to - from,
            text == chars@.subrange(from as int, to as int),
            k <= prefix.len(),
            forall|j: int| 0 <= j < k ==> text[j] == prefix@[j],
        decreases prefix.len() - k,
    {
        if chars[from + k] != prefix[k] {
            assert(text.take(prefix.len() as int)[k as int] != prefix@[k as int]);
            return false;
        }
        k = k + 1;
    }
    assert(text.take(prefix.len() as int) =~= prefix@);
    true
}

fn skip_leading(chars: &Vec<char>, from: usize, to: usize, prefix: &Vec<char>) -> (start: usize)
    requires
        from <= to <= chars.len(),
    ensures
        from <= start <= to,
        chars@.subrange(start as int, to as int) == without_leading(
            chars@.subrange(from as int, to as int),
            prefix@,
        ),
{
    let mut start: usize = from;
    if prefix.len() == 0 {
        return start;
    }
    while begins_at(chars, start, to, prefix)
        invariant
            prefix.len() > 0,
            from <= start <= to <= chars.len(),
            without_leading(chars@.subrange(from as int, to as int), prefix@) == without_leading(
                chars@.subrange(start as int, to as int),
                prefix@,
            ),
        decreases to - start,
    {
        assert(chars@.subrange(start as int, to as int).skip(prefix.len() as int)
            =~= chars@.subrange(start + prefix.len(), to as int));
        start = start + prefix.len();
    }
    start
}

/// The script in what the engine wrote.
pub fn extract_script(content: &str) -> (script: String)
    ensures
        script@ == script_of(content@),
{
    let chars = chars_of(content);
    let end = find_paragraph_end(&chars, 0);
    let heading = chars_of("Script:\n");
    let start = skip_leading(&chars, 0, end, &heading);
    text_between(&chars, start, end)
}

/// The explanation in what the engine wrote.
pub fn extract_explanation(content: &str) -> (explanation: String)
    ensures
        explanation@ == explanation_of(content@),
{
    let chars = chars_of(content);
    let first_end = find_paragraph_end(&chars, 0);
    if first_end < chars.len() {
        let from: usize = first_end + 2;
        let to = find_paragraph_end(&chars, from);
        let heading = chars_of("Explanation:");
        if begins_at(&chars, from, to, &heading) {
            assert(chars@.subrange(from as int, to as int).skip(heading.len() as int)
                =~= chars@.subrange(from + heading.len(), to as int));
            let body = text_between(&chars, from + heading.len(), to);
            return trim(body.as_str());
        }
    }
    trim("Script generated based on requirements")
}

/// The response for a script that the engine wrote for `environment` in
/// `language`.
pub fn generate_script(content: &str, environment: Environment, language: ScriptLanguage) -> (response:
    ScriptResponse)
    ensures
        response.script@ == script_of(content@),
        response.language@ == language.name(),
        response.environment@ == environment.name(),
        response.explanation@ == explanation_of(content@),
        views(response.safety_warnings@) == standing_warnings(),
{
    let mut safety_warnings: Vec<String> = Vec::new();
    safety_warnings.push(String::from_str("Test scripts in a non-production environment first"));
    safety_warnings.push(String::from_str("Review script contents before execution"));
    safety_warnings.push(String::from_str("Ensure proper backups are in place"));
    assert(views(safety_warnings@) =~= standing_warnings());
    ScriptResponse {
        script: extract_script(content),
        language: String::from_str(language.as_str()),
        environment: String::from_str(environment.as_str()),
        explanation: extract_explanation(content),
        safety_warnings,
    }
}

} // verus!
