//! What one invocation of the tool is asked to do, decided from the parsed
//! command line, and how a failure is reported.

use vstd::prelude::*;
use crate::text::texts;

verus! {

/// What an invocation does.
#[derive(Debug, Clone, PartialEq, Eq)]
pub enum Invocation {
    /// Print the version line.
    Version,
    /// Generate documentation for the standard library and all crates.
    GenerateAll,
    /// Generate documentation for all crates of the registry.
    GenerateCrates,
    /// Generate documentation for the standard library.
    GenerateStd,
    /// Generate documentation for the crate rooted at this directory.
    GeneratePath(String),
    /// Look the query up and show what matches.
    Search(String),
}

/// A command line that asks for nothing that can be done.
#[derive(Debug, Clone, Copy, PartialEq, Eq)]
pub enum UsageError {
    NoCrateDirectory,
    NoQuery,
}

/// An invocation over sequences of characters.
pub ghost enum InvocationView {
    Version,
    GenerateAll,
    GenerateCrates,
    GenerateStd,
    GeneratePath(Seq<char>),
    Search(Seq<char>),
}

impl View for Invocation {
    type V = InvocationView;

    open spec fn view(&self) -> InvocationView {
        match *self {
            Invocation::Version => InvocationView::Version,
            Invocation::GenerateAll => InvocationView::GenerateAll,
            Invocation::GenerateCrates => InvocationView::GenerateCrates,
            Invocation::GenerateStd => InvocationView::GenerateStd,
            Invocation::GeneratePath(dir) => InvocationView::GeneratePath(dir@),
            Invocation::Search(query) => InvocationView::Search(query@),
        }
    }
}

/// What to generate documentation for, by the value of the option.
pub open spec fn generation_target(value: Seq<char>) -> InvocationView {
    if value == "all"@ {
        InvocationView::GenerateAll
    } else if value == "crates"@ {
        InvocationView::GenerateCrates
    } else if value == "std"@ {
        InvocationView::GenerateStd
    } else {
        InvocationView::GeneratePath(value)
    }
}

/// The decision: the version flag wins over everything, generation wins over
/// a query, and a command line with none of the three is an error.
pub open spec fn planned(
    version: bool,
    generate: bool,
    generate_value: Option<Seq<char>>,
    query: Option<Seq<char>>,
) -> Result<InvocationView, UsageError> {
    if version {
        Ok(InvocationView::Version)
    } else if generate {
        match generate_value {
            Some(value) => Ok(generation_target(value)),
            None => Err(UsageError::NoCrateDirectory),
        }
    } else {
        match query {
            Some(text) => Ok(InvocationView::Search(text)),
            None => Err(UsageError::NoQuery),
        }
    }
}

/// The characters of an optional string slice.
pub open spec fn optional_str(value: Option<&str>) -> Option<Seq<char>> {
    match value {
        Some(s) => Some(s@),
        None => None,
    }
}

/// The view of a decision.
pub open spec fn plan_view(plan: Result<Invocation, UsageError>) -> Result<
    InvocationView,
    UsageError,
> {
    match plan {
        Ok(invocation) => Ok(invocation@),
        Err(error) => Err(error),
    }
}

/// Whether two string slices hold the same characters.
fn same_text(a: &str, b: &str) -> (same: bool)
    ensures
        same == (a@ == b@),
{
    String::from_str(a) == String::from_str(b)
}

/// Decides what an invocation does. `version` and `generate` say whether the
/// flag and the option were given, `generate_value` is the option's value and
/// `query` the positional argument.
pub fn plan(version: bool, generate: bool, generate_value: Option<&str>, query: Option<&str>) -> (out:
    Result<Invocation, UsageError>)
    ensures
        plan_view(out) == planned(
            version,
            generate,
            optional_str(generate_value),
            optional_str(query),
        ),
{
    if version {
        return Ok(Invocation::Version);
    }
    if generate {
        match generate_value {
            Some(value) => {
                if same_text(value, "all") {
                    return Ok(Invocation::GenerateAll);
                } else if same_text(value, "crates") {
                    return Ok(Invocation::GenerateCrates);
                } else if same_text(value, "std") {
                    return Ok(Invocation::GenerateStd);
                } else {
                    return Ok(Invocation::GeneratePath(String::from_str(value)));
                }
            },
            None => {
                return Err(UsageError::NoCrateDirectory);
            },
        }
    }
    match query {
        Some(text) => Ok(Invocation::Search(String::from_str(text))),
        None => Err(UsageError::NoQuery),
    }
}

/// What a usage error says.
pub open spec fn usage_message(error: UsageError) -> Seq<char> {
    match error {
        UsageError::NoCrateDirectory => "No crate source directory supplied"@,
        UsageError::NoQuery => "No search query was provided."@,
    }
}

impl UsageError {
    /// The message that tells the user what is missing.
    pub fn message(&self) -> (out: String)
        ensures
            out@ == usage_message(*self),
    {
        match self {
            UsageError::NoCrateDirectory => String::from_str("No crate source directory supplied"),
            UsageError::NoQuery => String::from_str("No search query was provided."),
        }
    }
}

/// The line that names the tool and its version.
pub open spec fn version_text(version: Seq<char>) -> Seq<char> {
    "oxidoc "@ + version
}

/// The line that names the tool and its version.
pub fn version_line(version: &str) -> (out: String)
    ensures
        out@ == version_text(version@),
{
    let mut out = String::from_str("oxidoc ");
    out.append(version);
    out
}

/// The first `count` causes of a failure, one line each.
pub open spec fn cause_lines(causes: Seq<Seq<char>>, count: nat) -> Seq<Seq<char>>
    recommends
        count <= causes.len(),
{
    Seq::new(count, |i: int| "caused by: "@ + causes[i])
}

/// The line for the backtrace, where there is one.
pub open spec fn backtrace_lines(backtrace: Option<Seq<char>>) -> Seq<Seq<char>> {
    match backtrace {
        Some(trace) => seq!["backtrace: "@ + trace],
        None => Seq::empty(),
    }
}

/// The report of a failure: the error, then its causes from the nearest to
/// the first, then the backtrace if one was recorded.
pub open spec fn failure_report(
    message: Seq<char>,
    causes: Seq<Seq<char>>,
    backtrace: Option<Seq<char>>,
) -> Seq<Seq<char>> {
    seq!["error: "@ + message] + cause_lines(causes, causes.len()) + backtrace_lines(backtrace)
}

/// The lines to write to the error stream for a failure.
pub fn error_report(message: &str, causes: &Vec<String>, backtrace: Option<&str>) -> (lines: Vec<
    String,
>)
    ensures
        texts(lines@) == failure_report(message@, texts(causes@), optional_str(backtrace)),
{
    let mut lines: Vec<String> = Vec::new();
    let mut first = String::from_str("error: ");
    first.append(message);
    lines.push(first);
    assert(texts(lines@) == seq!["error: "@ + message@] + cause_lines(texts(causes@), 0));
    let mut i: usize = 0;
    while i < causes.len()
        invariant
            i <= causes@.len(),
            texts(lines@) == seq!["error: "@ + message@] + cause_lines(texts(causes@), i as nat),
        decreases causes@.len() - i,
    {
        let mut line = String::from_str("caused by: ");
        line.append(causes[i].as_str());
        let ghost before = texts(lines@);
        lines.push(line);
        assert(texts(lines@) == before.push("caused by: "@ + causes@[i as int]@));
        assert(cause_lines(texts(causes@), (i + 1) as nat) == cause_lines(
            texts(causes@),
            i as nat,
        ).push("caused by: "@ + causes@[i as int]@));
        i += 1;
    }
    match backtrace {
        Some(trace) => {
            let mut line = String::from_str("backtrace: ");
            line.append(trace);
            let ghost before = texts(lines@);
            lines.push(line);
            assert(texts(lines@) == before.push("backtrace: "@ + trace@));
            assert(before.push("backtrace: "@ + trace@) == before + seq!["backtrace: "@ + trace@]);
        },
        None => {
            assert(texts(lines@) + Seq::<Seq<char>>::empty() == texts(lines@));
        },
    }
    lines
}

} // verus!
