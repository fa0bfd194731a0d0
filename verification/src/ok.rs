//! The `ok` command's decisions: which report to produce, whether the walk
//! prints as it goes, and how the command ends.
use vstd::prelude::*;
use crate::checks::{ES_MASK, SEV_MASK, SNP_MASK};
use crate::json::{json_report, render_json, JsonReport};
use crate::model::TestResultEntry;
use crate::platform::SnpStatus;
use crate::runner::Runner;
use crate::model::TestState;
use crate::report::{render_short, render_verbose, short_report, texts, verbose_report};
use crate::software::{print_software_versions, sw_line, SoftwareVersion};
use crate::text::owned;

verus! {

/// How the `ok` command reports.
#[derive(Clone, Copy, Debug, PartialEq, Eq, Structural)]
pub enum OutputMode {
    /// Each check as it runs, then the software.
    Default,
    /// Only failures, skips and counts.
    Short,
    /// Grouped by category, with descriptions and hints.
    Verbose,
    /// A JSON document.
    Json,
}

/// The options of the `ok` command.
#[derive(Clone, Copy, Debug)]
pub struct OkArgs {
    /// Show only failures with summary counts.
    pub short: bool,
    /// Show detailed test descriptions grouped by category.
    pub verbose: bool,
    /// Output results as JSON.
    pub json: bool,
}

/// The mode the options select: JSON over verbose over short over the default.
pub open spec fn mode_of(a: OkArgs) -> OutputMode {
    if a.json {
        OutputMode::Json
    } else if a.verbose {
        OutputMode::Verbose
    } else if a.short {
        OutputMode::Short
    } else {
        OutputMode::Default
    }
}

impl OkArgs {
    /// The mode the options select.
    pub fn output_mode(&self) -> (m: OutputMode)
        ensures
            m == mode_of(*self),
    {
        if self.json {
            OutputMode::Json
        } else if self.verbose {
            OutputMode::Verbose
        } else if self.short {
            OutputMode::Short
        } else {
            OutputMode::Default
        }
    }
}

/// Every SEV generation: the mask the `ok` command walks the checks with.
pub fn all_generations() -> (m: usize)
    ensures
        m == 7,
{
    let m = SEV_MASK | ES_MASK | SNP_MASK;
    assert(1usize | 2usize | 4usize == 7usize) by (bit_vector);
    m
}

/// The walk prints the checks as they run only in the default mode, and not
/// when quiet.
pub fn suppress_print(quiet: bool, mode: OutputMode) -> (r: bool)
    ensures
        r == (quiet || mode != OutputMode::Default),
{
    quiet || mode != OutputMode::Default
}

/// What the `ok` command prints once the checks have run.
pub enum Rendered {
    /// Nothing.
    Nothing,
    /// Lines of text, each printed on its own.
    Lines(Vec<String>),
    /// A JSON document.
    Json(JsonReport),
}

/// The report of a mode other than the default one.
pub open spec fn rendered_as(
    r: Rendered,
    mode: OutputMode,
    es: Seq<TestResultEntry>,
    vs: Seq<SoftwareVersion>,
    status: Option<SnpStatus>,
) -> bool {
    match mode {
        OutputMode::Short => r matches Rendered::Lines(l) && texts(l@) == short_report(es, vs),
        OutputMode::Verbose => r matches Rendered::Lines(l) && texts(l@) == verbose_report(es, vs),
        OutputMode::Json => r matches Rendered::Json(j) && json_report(j, es, vs, status),
        OutputMode::Default => r is Nothing,
    }
}

/// The report of a mode other than the default one; nothing for the default
/// mode, whose checks were printed as they ran.
pub fn render_output(
    mode: OutputMode,
    entries: &Vec<TestResultEntry>,
    sw_versions: &Vec<SoftwareVersion>,
    status: &Option<SnpStatus>,
) -> (r: Rendered)
    requires
        entries@.len() + sw_versions@.len() <= usize::MAX,
    ensures
        rendered_as(r, mode, entries@, sw_versions@, *status),
{
    match mode {
        OutputMode::Short => Rendered::Lines(render_short(entries, sw_versions)),
        OutputMode::Verbose => Rendered::Lines(render_verbose(entries, sw_versions)),
        OutputMode::Json => Rendered::Json(render_json(entries, sw_versions, status)),
        OutputMode::Default => Rendered::Nothing,
    }
}

/// What the command prints once the checks have run: the JSON report in the
/// JSON mode, quiet or not; otherwise nothing when quiet, the software lines
/// in the default mode, and the mode's report in the others.
pub fn final_output(
    quiet: bool,
    mode: OutputMode,
    entries: &Vec<TestResultEntry>,
    sw_versions: &Vec<SoftwareVersion>,
    status: &Option<SnpStatus>,
) -> (r: Rendered)
    requires
        entries@.len() + sw_versions@.len() <= usize::MAX,
    ensures
        quiet && mode != OutputMode::Json ==> r is Nothing,
        !quiet && mode == OutputMode::Default ==> (r matches Rendered::Lines(l) && l@.len()
            == sw_versions@.len() && forall|i: int|
            0 <= i < l@.len() ==> #[trigger] l@[i]@ == sw_line(sw_versions@[i]@)),
        (!quiet || mode == OutputMode::Json) && mode != OutputMode::Default ==> rendered_as(
            r,
            mode,
            entries@,
            sw_versions@,
            *status,
        ),
{
    if quiet && mode != OutputMode::Json {
        Rendered::Nothing
    } else if mode == OutputMode::Default {
        Rendered::Lines(print_software_versions(sw_versions))
    } else {
        render_output(mode, entries, sw_versions, status)
    }
}

/// The message of a run in which some check failed.
pub open spec fn failure_message() -> Seq<char> {
    "One or more tests in snphost ok reported a failure"@
}

/// How the command ends: success where every check passed, else the failure
/// message.
pub fn outcome(passed: bool) -> (r: Result<(), String>)
    ensures
        passed <==> r is Ok,
        r matches Err(m) ==> m@ == failure_message(),
{
    if passed {
        Ok(())
    } else {
        Err(owned("One or more tests in snphost ok reported a failure"))
    }
}

/// How the command ends once the walk is over: what it prints, as
/// `final_output` gives it, and its result, which is success exactly where no
/// check of the walk failed, else the failure message. The result depends on
/// the walk's records alone: not on `quiet`, the output mode, the software
/// found or the SNP status.
pub fn conclude(
    quiet: bool,
    mode: OutputMode,
    walk: &Runner,
    sw_versions: &Vec<SoftwareVersion>,
    status: &Option<SnpStatus>,
) -> (r: (Rendered, Result<(), String>))
    requires
        walk.wf(),
        walk.records().len() + sw_versions@.len() <= usize::MAX,
    ensures
        quiet && mode != OutputMode::Json ==> r.0 is Nothing,
        !quiet && mode == OutputMode::Default ==> (r.0 matches Rendered::Lines(l) && l@.len()
            == sw_versions@.len() && forall|i: int|
            0 <= i < l@.len() ==> #[trigger] l@[i]@ == sw_line(sw_versions@[i]@)),
        (!quiet || mode == OutputMode::Json) && mode != OutputMode::Default ==> rendered_as(
            r.0,
            mode,
            walk.records(),
            sw_versions@,
            *status,
        ),
        r.1 is Ok <==> forall|i: int|
            0 <= i < walk.records().len() ==> #[trigger] walk.records()[i].status
                != TestState::Fail,
        r.1 matches Err(m) ==> m@ == failure_message(),
{
    let out = final_output(quiet, mode, walk.entries(), sw_versions, status);
    let end = outcome(walk.passed());
    (out, end)
}

} // verus!
