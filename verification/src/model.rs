//! The outcome of a check, and the record of it that the reports are made from.
use vstd::prelude::*;
use crate::colors::{green, painted, red, yellow};

verus! {

/// The outcome of one check.
#[derive(Clone, Copy, Debug, PartialEq, Eq, Structural)]
pub enum TestState {
    Pass,
    Skip,
    Fail,
}

/// The view of an optional message.
pub open spec fn opt_view(m: Option<String>) -> Option<Seq<char>> {
    match m {
        Some(s) => Some(s@),
        None => None,
    }
}

/// What a check reported: the name it reports under, its outcome and an
/// optional message.
pub struct TestResult {
    pub name: String,
    pub stat: TestState,
    pub mesg: Option<String>,
}

/// The view of a [`TestResult`].
pub struct ResultView {
    pub name: Seq<char>,
    pub stat: TestState,
    pub mesg: Option<Seq<char>>,
}

impl View for TestResult {
    type V = ResultView;

    open spec fn view(&self) -> ResultView {
        ResultView { name: self.name@, stat: self.stat, mesg: opt_view(self.mesg) }
    }
}

/// The record of one check for the reports: the check's own name, its outcome,
/// its message and its indentation level.
pub struct TestResultEntry {
    pub name: String,
    pub status: TestState,
    pub message: Option<String>,
    pub level: usize,
}

/// The view of a [`TestResultEntry`].
pub struct EntryView {
    pub name: Seq<char>,
    pub status: TestState,
    pub message: Option<Seq<char>>,
    pub level: nat,
}

impl View for TestResultEntry {
    type V = EntryView;

    open spec fn view(&self) -> EntryView {
        EntryView {
            name: self.name@,
            status: self.status,
            message: opt_view(self.message),
            level: self.level as nat,
        }
    }
}

/// The views of a sequence of entries.
pub open spec fn entries_view(es: Seq<TestResultEntry>) -> Seq<EntryView> {
    es.map_values(|e: TestResultEntry| e@)
}

/// The plain word for an outcome.
pub open spec fn state_word(s: TestState) -> Seq<char> {
    match s {
        TestState::Pass => "PASS"@,
        TestState::Skip => "SKIP"@,
        TestState::Fail => "FAIL"@,
    }
}

/// The outcome as the terminal shows it: PASS in green, SKIP in yellow, FAIL in red.
pub open spec fn state_display(s: TestState) -> Seq<char> {
    match s {
        TestState::Pass => painted(seq!['2'], "PASS"@),
        TestState::Skip => painted(seq!['3'], "SKIP"@),
        TestState::Fail => painted(seq!['1'], "FAIL"@),
    }
}

/// The lowercase word for an outcome, as the JSON report writes it.
pub open spec fn state_lower(s: TestState) -> Seq<char> {
    match s {
        TestState::Pass => "pass"@,
        TestState::Skip => "skip"@,
        TestState::Fail => "fail"@,
    }
}

impl TestState {
    /// The outcome as the terminal shows it.
    pub fn display(&self) -> (r: String)
        ensures
            r@ == state_display(*self),
    {
        match self {
            TestState::Pass => green("PASS"),
            TestState::Skip => yellow("SKIP"),
            TestState::Fail => red("FAIL"),
        }
    }

    /// The plain word for the outcome.
    pub fn word(&self) -> (r: &'static str)
        ensures
            r@ == state_word(*self),
    {
        match self {
            TestState::Pass => "PASS",
            TestState::Skip => "SKIP",
            TestState::Fail => "FAIL",
        }
    }

    /// The lowercase word for the outcome.
    pub fn lower(&self) -> (r: &'static str)
        ensures
            r@ == state_lower(*self),
    {
        match self {
            TestState::Pass => "pass",
            TestState::Skip => "skip",
            TestState::Fail => "fail",
        }
    }
}

/// A copy of an optional message.
pub fn clone_opt(m: &Option<String>) -> (r: Option<String>)
    ensures
        opt_view(r) == opt_view(*m),
{
    match m {
        Some(s) => Some(s.clone()),
        None => None,
    }
}

} // verus!
