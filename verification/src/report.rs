//! The short and the verbose text reports, as the lines they print.
use vstd::prelude::*;
use crate::colors::{blue, green, painted, red, yellow};
use crate::metadata::{
    category_title, effective_hint, hint_for, metadata_of, test_metadata, TestCategory,
};
use crate::model::{opt_view, state_display, TestResultEntry, TestState};
use crate::numfmt::{decimal, decimal_string};
use crate::software::{
    not_installed, sw_status_display, sw_status_text, version_or_not_found, version_str,
    SoftwareVersion, SwStatus,
};
use crate::text::{contains_seq, occurs_at, owned, str_find, trim, trimmed};

verus! {

// ---------------------------------------------------------------------------
// Sequences of lines
// ---------------------------------------------------------------------------

/// The texts of a sequence of strings.
pub open spec fn texts(v: Seq<String>) -> Seq<Seq<char>> {
    v.map_values(|s: String| s@)
}

/// The lines `f` gives for each element of `s`, one element after the other.
pub open spec fn gather<T>(s: Seq<T>, f: spec_fn(T) -> Seq<Seq<char>>) -> Seq<Seq<char>>
    decreases s.len(),
{
    if s.len() == 0 {
        Seq::empty()
    } else {
        gather(s.drop_last(), f) + f(s.last())
    }
}

/// How many elements of `s` satisfy `keep`.
pub open spec fn count_where<T>(s: Seq<T>, keep: spec_fn(T) -> bool) -> nat
    decreases s.len(),
{
    if s.len() == 0 {
        0
    } else {
        count_where(s.drop_last(), keep) + if keep(s.last()) {
            1nat
        } else {
            0nat
        }
    }
}

/// Extending a prefix of `s` by one element extends what `gather` gives by
/// what `f` gives for that element.
pub proof fn lemma_gather_step<T>(s: Seq<T>, i: int, f: spec_fn(T) -> Seq<Seq<char>>)
    requires
        0 <= i < s.len(),
    ensures
        gather(s.subrange(0, i + 1), f) == gather(s.subrange(0, i), f) + f(s[i]),
{
    assert(s.subrange(0, i + 1).drop_last() =~= s.subrange(0, i));
}

/// Extending a prefix of `s` by one element adds one to the count where it
/// is kept.
pub proof fn lemma_count_step<T>(s: Seq<T>, i: int, keep: spec_fn(T) -> bool)
    requires
        0 <= i < s.len(),
    ensures
        count_where(s.subrange(0, i + 1), keep) == count_where(s.subrange(0, i), keep) + if keep(
            s[i],
        ) {
            1nat
        } else {
            0nat
        },
{
    assert(s.subrange(0, i + 1).drop_last() =~= s.subrange(0, i));
}

/// A count never exceeds the length.
pub proof fn lemma_count_bound<T>(s: Seq<T>, keep: spec_fn(T) -> bool)
    ensures
        count_where(s, keep) <= s.len(),
    decreases s.len(),
{
    if s.len() > 0 {
        lemma_count_bound(s.drop_last(), keep);
    }
}

/// A sequence is its own whole subrange.
pub proof fn lemma_whole<T>(s: Seq<T>)
    ensures
        s.subrange(0, s.len() as int) == s,
{
    assert(s.subrange(0, s.len() as int) =~= s);
}

fn push_line(out: &mut Vec<String>, line: String)
    ensures
        texts(final(out)@) == texts(old(out)@).push(line@),
{
    out.push(line);
    assert(texts(final(out)@) =~= texts(old(out)@).push(line@));
}

/// Entries with the given outcome.
pub open spec fn has_status(s: TestState) -> spec_fn(TestResultEntry) -> bool {
    |e: TestResultEntry| e.status == s
}

/// Counts the entries with the given outcome.
pub fn count_status(entries: &Vec<TestResultEntry>, s: TestState) -> (n: usize)
    ensures
        n == count_where(entries@, has_status(s)),
{
    let mut n: usize = 0;
    let mut i: usize = 0;
    while i < entries.len()
        invariant
            i <= entries@.len(),
            n == count_where(entries@.subrange(0, i as int), has_status(s)),
        decreases entries@.len() - i,
    {
        proof {
            lemma_count_step(entries@, i as int, has_status(s));
            lemma_count_bound(entries@.subrange(0, i as int), has_status(s));
        }
        if entries[i].status == s {
            n = n + 1;
        }
        i = i + 1;
    }
    proof {
        lemma_whole(entries@);
    }
    n
}

/// Software checks with the given statuses.
pub open spec fn sw_in(a: SwStatus, b: SwStatus) -> spec_fn(SoftwareVersion) -> bool {
    |v: SoftwareVersion| v.status == a || v.status == b
}

/// Counts the software checks whose status is `a` or `b`.
pub fn count_sw(vs: &Vec<SoftwareVersion>, a: SwStatus, b: SwStatus) -> (n: usize)
    ensures
        n == count_where(vs@, sw_in(a, b)),
{
    let mut n: usize = 0;
    let mut i: usize = 0;
    while i < vs.len()
        invariant
            i <= vs@.len(),
            n == count_where(vs@.subrange(0, i as int), sw_in(a, b)),
        decreases vs@.len() - i,
    {
        proof {
            lemma_count_step(vs@, i as int, sw_in(a, b));
            lemma_count_bound(vs@.subrange(0, i as int), sw_in(a, b));
        }
        if vs[i].status == a || vs[i].status == b {
            n = n + 1;
        }
        i = i + 1;
    }
    proof {
        lemma_whole(vs@);
    }
    n
}

// ---------------------------------------------------------------------------
// The short report
// ---------------------------------------------------------------------------

/// The label of a check's metadata with a leading space, or nothing.
pub open spec fn label_suffix(label: Seq<char>) -> Seq<char> {
    if label.len() == 0 {
        Seq::empty()
    } else {
        " "@ + label
    }
}

/// A message with a leading `": "`, or nothing.
pub open spec fn message_suffix(m: Option<Seq<char>>) -> Seq<char> {
    match m {
        Some(m) => ": "@ + m,
        None => Seq::empty(),
    }
}

/// The short report's line for a failed check.
pub open spec fn short_failure_line(e: TestResultEntry) -> Seq<char> {
    let meta = metadata_of(e.name@);
    let hint_str = hint_for(meta, opt_view(e.message));
    let hint = if hint_str.len() == 0 {
        Seq::empty()
    } else {
        "\n    ^ "@ + painted(seq!['4'], "Hint:"@) + " "@ + hint_str
    };
    "  "@ + painted(seq!['1'], "FAIL"@) + " "@ + e.name@ + label_suffix(meta.label@)
        + message_suffix(opt_view(e.message)) + hint
}

/// The short report's lines for failed checks, in order.
pub open spec fn short_failures(e: TestResultEntry) -> Seq<Seq<char>> {
    if e.status == TestState::Fail {
        seq![short_failure_line(e)]
    } else {
        Seq::empty()
    }
}

/// `short_failures` as a function value.
pub open spec fn short_failures_each() -> spec_fn(TestResultEntry) -> Seq<Seq<char>> {
    |e: TestResultEntry| short_failures(e)
}

/// The short report's line for a software problem (too old or missing).
pub open spec fn short_sw_issue(v: SoftwareVersion) -> Seq<Seq<char>> {
    if v.status == SwStatus::TooOld || v.status == SwStatus::Missing {
        seq![
            "  "@ + painted(seq!['3'], "WARN"@) + " "@ + v.name@ + ": "@ + version_or_not_found(
                opt_view(v.version),
            ) + " ("@ + v.detail@ + ")"@,
        ]
    } else {
        Seq::empty()
    }
}

/// `short_sw_issue` as a function value.
pub open spec fn short_sw_issue_each() -> spec_fn(SoftwareVersion) -> Seq<Seq<char>> {
    |v: SoftwareVersion| short_sw_issue(v)
}

/// The short report's line for a skipped check.
pub open spec fn short_skip(e: TestResultEntry) -> Seq<Seq<char>> {
    if e.status == TestState::Skip {
        seq!["  ["@ + painted(seq!['3'], "SKIP"@) + "] "@ + e.name@]
    } else {
        Seq::empty()
    }
}

/// `short_skip` as a function value.
pub open spec fn short_skip_each() -> spec_fn(TestResultEntry) -> Seq<Seq<char>> {
    |e: TestResultEntry| short_skip(e)
}

/// The short report's line for optional software that is missing.
pub open spec fn short_sw_skip(v: SoftwareVersion) -> Seq<Seq<char>> {
    if v.status == SwStatus::OptionalMissing {
        seq!["  ["@ + painted(seq!['3'], "SKIP"@) + "] "@ + v.name@ + " (Software)"@]
    } else {
        Seq::empty()
    }
}

/// `short_sw_skip` as a function value.
pub open spec fn short_sw_skip_each() -> spec_fn(SoftwareVersion) -> Seq<Seq<char>> {
    |v: SoftwareVersion| short_sw_skip(v)
}

/// The counts of the short report: checks and software together.
pub open spec fn short_summary(es: Seq<TestResultEntry>, vs: Seq<SoftwareVersion>) -> Seq<char> {
    let pass = count_where(es, has_status(TestState::Pass)) + count_where(
        vs,
        sw_in(SwStatus::Supported, SwStatus::Supported),
    );
    let fail = count_where(es, has_status(TestState::Fail)) + count_where(
        vs,
        sw_in(SwStatus::TooOld, SwStatus::Missing),
    );
    let skip = count_where(es, has_status(TestState::Skip)) + count_where(
        vs,
        sw_in(SwStatus::OptionalMissing, SwStatus::OptionalMissing),
    );
    "\n"@ + decimal(es.len() + vs.len()) + " tests: "@ + decimal(pass) + " passed, "@ + decimal(
        fail,
    ) + " failed, "@ + decimal(skip) + " skipped"@
}

/// The short report: the failures with their hints, the software problems,
/// the skipped checks and software, the counts, and a closing line where
/// nothing failed.
pub open spec fn short_report(es: Seq<TestResultEntry>, vs: Seq<SoftwareVersion>) -> Seq<Seq<char>> {
    let failures = gather(es, short_failures_each());
    let issues = gather(vs, short_sw_issue_each());
    let skips = gather(es, short_skip_each());
    let sw_skips = gather(vs, short_sw_skip_each());
    let fail_count = count_where(es, has_status(TestState::Fail));
    let sw_fail = count_where(vs, sw_in(SwStatus::TooOld, SwStatus::Missing));
    (if fail_count > 0 {
        seq![painted(seq!['1'], "Failures:"@)] + failures
    } else {
        Seq::empty()
    }) + (if issues.len() > 0 {
        seq!["\n"@ + painted(seq!['3'], "Software issues:"@)] + issues
    } else {
        Seq::empty()
    }) + (if skips.len() > 0 || sw_skips.len() > 0 {
        seq!["\n"@ + painted(seq!['3'], "SKIPPED"@) + ":"@] + skips + sw_skips
    } else {
        Seq::empty()
    }) + seq![short_summary(es, vs)] + (if fail_count == 0 && sw_fail == 0 {
        seq![painted(seq!['2'], "All tests passed."@)]
    } else {
        Seq::empty()
    })
}

fn short_failure_text(e: &TestResultEntry) -> (r: String)
    ensures
        r@ == short_failure_line(*e),
{
    let meta = test_metadata(e.name.as_str());
    let mut line = owned("  ");
    line.append(red("FAIL").as_str());
    line.append(" ");
    line.append(e.name.as_str());
    if meta.label.unicode_len() != 0 {
        line.append(" ");
        line.append(meta.label);
    }
    match &e.message {
        Some(m) => {
            line.append(": ");
            line.append(m.as_str());
        },
        None => {},
    }
    let hint_str = effective_hint(&meta, &e.message);
    if hint_str.unicode_len() != 0 {
        line.append("\n    ^ ");
        line.append(blue("Hint:").as_str());
        line.append(" ");
        line.append(hint_str);
    }
    line
}

fn append_lines(out: &mut Vec<String>, more: &Vec<String>)
    ensures
        texts(final(out)@) == texts(old(out)@) + texts(more@),
{
    let ghost start = texts(out@);
    let mut k: usize = 0;
    while k < more.len()
        invariant
            k <= more@.len(),
            texts(out@) == start + texts(more@).subrange(0, k as int),
        decreases more@.len() - k,
    {
        push_line(out, more[k].clone());
        assert(texts(out@) =~= start + texts(more@).subrange(0, k + 1));
        k = k + 1;
    }
    assert(texts(more@).subrange(0, more@.len() as int) =~= texts(more@));
}

fn short_failure_lines(es: &Vec<TestResultEntry>) -> (out: Vec<String>)
    ensures
        texts(out@) == gather(es@, short_failures_each()),
{
        let mut out: Vec<String> = Vec::new();
    let mut i: usize = 0;
    while i < es.len()
        invariant
            i <= es@.len(),
            texts(out@) == gather(es@.subrange(0, i as int), short_failures_each()),
        decreases es@.len() - i,
    {
        proof {
            lemma_gather_step(es@, i as int, short_failures_each());
        }
        if es[i].status == TestState::Fail {
            let line = short_failure_text(&es[i]);
            assert(short_failures_each()(es@[i as int]) == seq![line@]);
            push_line(&mut out, line);
        } else {
            assert(short_failures_each()(es@[i as int]) =~= Seq::<Seq<char>>::empty());
        }
        assert(texts(out@) =~= gather(es@.subrange(0, i + 1), short_failures_each()));
        i = i + 1;
    }
    proof {
        lemma_whole(es@);
    }
    out
}

fn short_issue_lines(vs: &Vec<SoftwareVersion>) -> (out: Vec<String>)
    ensures
        texts(out@) == gather(vs@, short_sw_issue_each()),
{
        let mut out: Vec<String> = Vec::new();
    let mut i: usize = 0;
    while i < vs.len()
        invariant
            i <= vs@.len(),
            texts(out@) == gather(vs@.subrange(0, i as int), short_sw_issue_each()),
        decreases vs@.len() - i,
    {
        proof {
            lemma_gather_step(vs@, i as int, short_sw_issue_each());
        }
        let v = &vs[i];
        if v.status == SwStatus::TooOld || v.status == SwStatus::Missing {
            let mut line = owned("  ");
            line.append(yellow("WARN").as_str());
            line.append(" ");
            line.append(v.name.as_str());
            line.append(": ");
            line.append(version_str(&v.version));
            line.append(" (");
            line.append(v.detail.as_str());
            line.append(")");
            assert(short_sw_issue_each()(vs@[i as int]) == seq![line@]);
            push_line(&mut out, line);
        } else {
            assert(short_sw_issue_each()(vs@[i as int]) =~= Seq::<Seq<char>>::empty());
        }
        assert(texts(out@) =~= gather(vs@.subrange(0, i + 1), short_sw_issue_each()));
        i = i + 1;
    }
    proof {
        lemma_whole(vs@);
    }
    out
}

fn short_skip_lines(es: &Vec<TestResultEntry>) -> (out: Vec<String>)
    ensures
        texts(out@) == gather(es@, short_skip_each()),
{
        let mut out: Vec<String> = Vec::new();
    let mut i: usize = 0;
    while i < es.len()
        invariant
            i <= es@.len(),
            texts(out@) == gather(es@.subrange(0, i as int), short_skip_each()),
        decreases es@.len() - i,
    {
        proof {
            lemma_gather_step(es@, i as int, short_skip_each());
        }
        if es[i].status == TestState::Skip {
            let mut line = owned("  [");
            line.append(yellow("SKIP").as_str());
            line.append("] ");
            line.append(es[i].name.as_str());
            assert(short_skip_each()(es@[i as int]) == seq![line@]);
            push_line(&mut out, line);
        } else {
            assert(short_skip_each()(es@[i as int]) =~= Seq::<Seq<char>>::empty());
        }
        assert(texts(out@) =~= gather(es@.subrange(0, i + 1), short_skip_each()));
        i = i + 1;
    }
    proof {
        lemma_whole(es@);
    }
    out
}

fn short_sw_skip_lines(vs: &Vec<SoftwareVersion>) -> (out: Vec<String>)
    ensures
        texts(out@) == gather(vs@, short_sw_skip_each()),
{
        let mut out: Vec<String> = Vec::new();
    let mut i: usize = 0;
    while i < vs.len()
        invariant
            i <= vs@.len(),
            texts(out@) == gather(vs@.subrange(0, i as int), short_sw_skip_each()),
        decreases vs@.len() - i,
    {
        proof {
            lemma_gather_step(vs@, i as int, short_sw_skip_each());
        }
        if vs[i].status == SwStatus::OptionalMissing {
            let mut line = owned("  [");
            line.append(yellow("SKIP").as_str());
            line.append("] ");
            line.append(vs[i].name.as_str());
            line.append(" (Software)");
            assert(short_sw_skip_each()(vs@[i as int]) == seq![line@]);
            push_line(&mut out, line);
        } else {
            assert(short_sw_skip_each()(vs@[i as int]) =~= Seq::<Seq<char>>::empty());
        }
        assert(texts(out@) =~= gather(vs@.subrange(0, i + 1), short_sw_skip_each()));
        i = i + 1;
    }
    proof {
        lemma_whole(vs@);
    }
    out
}

fn short_summary_text(
    es: &Vec<TestResultEntry>,
    vs: &Vec<SoftwareVersion>,
    pass_count: usize,
    fail_count: usize,
    skip_count: usize,
    sw_fail: usize,
) -> (r: String)
    requires
        es@.len() + vs@.len() <= usize::MAX,
        pass_count == count_where(es@, has_status(TestState::Pass)),
        fail_count == count_where(es@, has_status(TestState::Fail)),
        skip_count == count_where(es@, has_status(TestState::Skip)),
        sw_fail == count_where(vs@, sw_in(SwStatus::TooOld, SwStatus::Missing)),
    ensures
        r@ == short_summary(es@, vs@),
{
    let sw_pass = count_sw(vs, SwStatus::Supported, SwStatus::Supported);
    let sw_skip = count_sw(vs, SwStatus::OptionalMissing, SwStatus::OptionalMissing);
    proof {
        lemma_count_bound(es@, has_status(TestState::Pass));
        lemma_count_bound(es@, has_status(TestState::Fail));
        lemma_count_bound(es@, has_status(TestState::Skip));
        lemma_count_bound(vs@, sw_in(SwStatus::Supported, SwStatus::Supported));
        lemma_count_bound(vs@, sw_in(SwStatus::TooOld, SwStatus::Missing));
        lemma_count_bound(vs@, sw_in(SwStatus::OptionalMissing, SwStatus::OptionalMissing));
    }
    let mut summary = owned("\n");
    summary.append(decimal_string((es.len() + vs.len()) as u64).as_str());
    summary.append(" tests: ");
    summary.append(decimal_string((pass_count + sw_pass) as u64).as_str());
    summary.append(" passed, ");
    summary.append(decimal_string((fail_count + sw_fail) as u64).as_str());
    summary.append(" failed, ");
    summary.append(decimal_string((skip_count + sw_skip) as u64).as_str());
    summary.append(" skipped");
    summary
}

/// The short report, as the lines it prints.
#[verifier::rlimit(40)]
pub fn render_short(entries: &Vec<TestResultEntry>, sw_versions: &Vec<SoftwareVersion>) -> (lines:
    Vec<String>)
    requires
        entries@.len() + sw_versions@.len() <= usize::MAX,
    ensures
        texts(lines@) == short_report(entries@, sw_versions@),
{
    let es = entries;
    let vs = sw_versions;
    let fail_count = count_status(es, TestState::Fail);
    let pass_count = count_status(es, TestState::Pass);
    let skip_count = count_status(es, TestState::Skip);
    let sw_fail = count_sw(vs, SwStatus::TooOld, SwStatus::Missing);
    let mut out: Vec<String> = Vec::new();
    if fail_count > 0 {
        push_line(&mut out, red("Failures:"));
        append_lines(&mut out, &short_failure_lines(es));
    }
    let issues = short_issue_lines(vs);
    if issues.len() > 0 {
        let mut header = owned("\n");
        header.append(yellow("Software issues:").as_str());
        push_line(&mut out, header);
        append_lines(&mut out, &issues);
    }
    let skips = short_skip_lines(es);
    let sw_skips = short_sw_skip_lines(vs);
    if skips.len() > 0 || sw_skips.len() > 0 {
        let mut header = owned("\n");
        header.append(yellow("SKIPPED").as_str());
        header.append(":");
        push_line(&mut out, header);
        append_lines(&mut out, &skips);
        append_lines(&mut out, &sw_skips);
    }
    push_line(&mut out, short_summary_text(es, vs, pass_count, fail_count, skip_count, sw_fail));
    if fail_count == 0 && sw_fail == 0 {
        push_line(&mut out, green("All tests passed."));
    }
    assert(texts(out@) =~= short_report(entries@, sw_versions@));
    out
}

// ---------------------------------------------------------------------------
// The verbose report
// ---------------------------------------------------------------------------

/// `m` with every line break followed by thirteen spaces, so that continuation
/// lines line up under the check's name.
pub open spec fn indent_newlines(m: Seq<char>) -> Seq<char>
    decreases m.len(),
{
    if m.len() == 0 {
        Seq::empty()
    } else {
        indent_newlines(m.drop_last()) + if m.last() == '\n' {
            "\n             "@
        } else {
            seq![m.last()]
        }
    }
}

/// `m` with every line break followed by thirteen spaces.
pub fn indent_message(m: &str) -> (r: String)
    ensures
        r@ == indent_newlines(m@),
{
    let n = m.unicode_len();
    let mut r = String::new();
    let mut i: usize = 0;
    while i < n
        invariant
            n == m@.len(),
            i <= n,
            r@ == indent_newlines(m@.subrange(0, i as int)),
        decreases n - i,
    {
        let c = m.get_char(i);
        proof {
            assert(m@.subrange(0, i + 1).drop_last() =~= m@.subrange(0, i as int));
        }
        if c == '\n' {
            r.append("\n             ");
        } else {
            crate::text::push_char(&mut r, c);
        }
        i = i + 1;
    }
    proof {
        lemma_whole(m@);
    }
    r
}

/// The verbose report's message part: the message with continuation lines
/// indented and then trimmed, after `": "`; nothing without a message.
pub open spec fn verbose_message(m: Option<Seq<char>>) -> Seq<char> {
    match m {
        Some(m) => ": "@ + trimmed(indent_newlines(m)),
        None => Seq::empty(),
    }
}

/// The verbose report's lines for one check: outcome, name and message; the
/// description where there is one; and for a failure the recommended fix.
pub open spec fn verbose_entry_lines(e: TestResultEntry) -> Seq<Seq<char>> {
    let meta = metadata_of(e.name@);
    let first = "  [ "@ + state_display(e.status) + " ] "@ + e.name@ + verbose_message(
        opt_view(e.message),
    );
    let desc = if meta.description@.len() != 0 {
        seq!["           "@ + meta.description@]
    } else {
        Seq::empty()
    };
    let hint_str = hint_for(meta, opt_view(e.message));
    let rec = if e.status == TestState::Fail && hint_str.len() != 0 {
        seq!["           "@ + painted(seq!['3'], "Recommended:"@) + " "@ + hint_str]
    } else {
        Seq::empty()
    };
    seq![first] + desc + rec
}

/// The verbose report's lines for the checks of one category, in order.
pub open spec fn category_lines(cat: TestCategory) -> spec_fn(TestResultEntry) -> Seq<Seq<char>> {
    |e: TestResultEntry|
        if metadata_of(e.name@).category == cat {
            verbose_entry_lines(e)
        } else {
            Seq::empty()
        }
}

/// The verbose report's block for one category: a heading and the lines of
/// its checks; nothing where it has no checks.
pub open spec fn category_block(es: Seq<TestResultEntry>, cat: TestCategory) -> Seq<Seq<char>> {
    let lines = gather(es, category_lines(cat));
    if lines.len() == 0 {
        Seq::empty()
    } else {
        seq!["\n=== "@ + category_title(cat) + " ==="@] + lines
    }
}

/// The categories, in the order the verbose report shows them.
pub open spec fn category_order() -> Seq<TestCategory> {
    seq![
        TestCategory::CpuSupport,
        TestCategory::CpuInfo,
        TestCategory::BiosConfigured,
        TestCategory::PlatformInitialized,
        TestCategory::KvmConfig,
        TestCategory::Compliance,
    ]
}

/// The position of the first occurrence of `p` in `s`.
pub open spec fn first_occurrence(s: Seq<char>, p: Seq<char>) -> Option<int> {
    if contains_seq(s, p) {
        Some(
            choose|i: int|
                occurs_at(s, p, i) && forall|j: int| 0 <= j < i ==> !occurs_at(s, p, j),
        )
    } else {
        None
    }
}

/// The minimum version named in a detail: what follows the first `>=`,
/// trimmed, as ` (min: ...)`; nothing where there is no `>=`.
pub open spec fn min_version_suffix(detail: Seq<char>) -> Seq<char> {
    match first_occurrence(detail, ">="@) {
        Some(p) => " (min: "@ + trimmed(detail.subrange(p + 2, detail.len() as int)) + ")"@,
        None => Seq::empty(),
    }
}

/// What follows the first `>=` in `detail`, trimmed.
pub open spec fn min_version(detail: Seq<char>) -> Option<Seq<char>> {
    match first_occurrence(detail, ">="@) {
        Some(p) => Some(trimmed(detail.subrange(p + 2, detail.len() as int))),
        None => None,
    }
}

/// What follows the first `>=` in `detail`, trimmed, if there is a `>=`.
pub fn min_version_of(detail: &str) -> (r: Option<String>)
    ensures
        opt_view(r) == min_version(detail@),
{
    let found = str_find(detail, ">=");
    proof {
        reveal_strlit(">=");
    }
    match found {
        Some(p) => {
            proof {
                let c = choose|i: int|
                    occurs_at(detail@, ">="@, i) && forall|j: int|
                        0 <= j < i ==> !occurs_at(detail@, ">="@, j);
                assert(occurs_at(detail@, ">="@, p as int));
                assert(c == p) by {
                    if c < p {
                    } else if c > p {
                    }
                }
            }
            let n = detail.unicode_len();
            let rest = detail.substring_char(p + 2, n);
            Some(owned(trim(rest)))
        },
        None => None,
    }
}

/// The verbose report's line for a software check.
pub open spec fn verbose_sw_line(v: SoftwareVersion) -> Seq<char> {
    let min_str = match min_version(v.detail@) {
        Some(m) => " (min: "@ + m + ")"@,
        None => Seq::empty(),
    };
    let detail = if not_installed(v.status) {
        "Not installed"@ + min_str
    } else {
        version_or_not_found(opt_view(v.version)) + min_str
    };
    "  [ "@ + sw_status_display(v.status) + " ] "@ + v.name@ + ": "@ + detail
}

/// `verbose_sw_line` as a function value giving one line.
pub open spec fn verbose_sw_each() -> spec_fn(SoftwareVersion) -> Seq<Seq<char>> {
    |v: SoftwareVersion| seq![verbose_sw_line(v)]
}

/// The numbered issue lines for the failed checks: number, name, and the hint
/// where there is one.
pub open spec fn issue_lines(es: Seq<TestResultEntry>) -> Seq<Seq<char>>
    decreases es.len(),
{
    if es.len() == 0 {
        Seq::empty()
    } else {
        let e = es.last();
        let before = es.drop_last();
        issue_lines(before) + if e.status == TestState::Fail {
            let hint_str = hint_for(metadata_of(e.name@), opt_view(e.message));
            seq![
                "  "@ + decimal(count_where(before, has_status(TestState::Fail)) + 1) + ". "@
                    + e.name@ + " [FAIL]"@,
            ] + if hint_str.len() != 0 {
                seq!["     "@ + painted(seq!['4'], "Hint:"@) + " "@ + hint_str]
            } else {
                Seq::empty()
            }
        } else {
            Seq::empty()
        }
    }
}

/// The issue line for software that is too old or missing.
pub open spec fn sw_issue_each() -> spec_fn(SoftwareVersion) -> Seq<Seq<char>> {
    |v: SoftwareVersion|
        if v.status == SwStatus::TooOld || v.status == SwStatus::Missing {
            seq![
                "  - "@ + v.name@ + " "@ + version_or_not_found(opt_view(v.version)) + " ("@
                    + v.detail@ + ")"@,
            ]
        } else {
            Seq::empty()
        }
}

/// The link to the troubleshooting reference.
pub open spec fn docs_line() -> Seq<char> {
    "For detailed troubleshooting, see: https://github.com/virtee/snphost/tree/main/docs/snphost-ok-reference.md"@
}

/// The verbose report: a block per category in a fixed order, the installed
/// components, and either the detected issues with their hints or a line
/// saying there are none.
pub open spec fn verbose_report(es: Seq<TestResultEntry>, vs: Seq<SoftwareVersion>) -> Seq<Seq<char>> {
    let cats = category_block(es, TestCategory::CpuSupport) + category_block(es, TestCategory::CpuInfo)
        + category_block(es, TestCategory::BiosConfigured) + category_block(
        es,
        TestCategory::PlatformInitialized,
    ) + category_block(es, TestCategory::KvmConfig) + category_block(es, TestCategory::Compliance);
    let components = seq!["\n=== Installed Components ==="@] + gather(vs, verbose_sw_each());
    let has_issues = count_where(es, has_status(TestState::Fail)) > 0 || count_where(
        vs,
        sw_in(SwStatus::TooOld, SwStatus::Missing),
    ) > 0;
    let tail = if has_issues {
        seq!["\n"@ + painted(seq!['1'], "=== DETECTED ISSUES ==="@)] + issue_lines(es) + gather(
            vs,
            sw_issue_each(),
        ) + seq![Seq::empty(), docs_line()]
    } else {
        seq!["\n"@ + painted(seq!['2'], "No issues detected."@)]
    };
    cats + components + tail
}

fn verbose_entry_text(e: &TestResultEntry, out: &mut Vec<String>)
    ensures
        texts(final(out)@) == texts(old(out)@) + verbose_entry_lines(*e),
{
    let meta = test_metadata(e.name.as_str());
    let mut first = owned("  [ ");
    first.append(e.status.display().as_str());
    first.append(" ] ");
    first.append(e.name.as_str());
    match &e.message {
        Some(m) => {
            let indented = indent_message(m.as_str());
            first.append(": ");
            first.append(trim(indented.as_str()));
        },
        None => {},
    }
    assert(first@ == "  [ "@ + state_display(e.status) + " ] "@ + e.name@ + verbose_message(
        opt_view(e.message),
    ));
    let ghost start = texts(out@);
    push_line(out, first);
    if meta.description.unicode_len() != 0 {
        let mut d = owned("           ");
        d.append(meta.description);
        push_line(out, d);
    }
    let hint_str = effective_hint(&meta, &e.message);
    if e.status == TestState::Fail && hint_str.unicode_len() != 0 {
        let mut h = owned("           ");
        h.append(yellow("Recommended:").as_str());
        h.append(" ");
        h.append(hint_str);
        push_line(out, h);
    }
    assert(texts(out@) =~= start + verbose_entry_lines(*e));
}

fn category_text(es: &Vec<TestResultEntry>, cat: TestCategory, out: &mut Vec<String>)
    ensures
        texts(final(out)@) == texts(old(out)@) + category_block(es@, cat),
{
    let mut lines: Vec<String> = Vec::new();
    let mut i: usize = 0;
    while i < es.len()
        invariant
            i <= es@.len(),
            texts(lines@) == gather(es@.subrange(0, i as int), category_lines(cat)),
        decreases es@.len() - i,
    {
        proof {
            lemma_gather_step(es@, i as int, category_lines(cat));
        }
        let meta = test_metadata(es[i].name.as_str());
        if meta.category == cat {
            verbose_entry_text(&es[i], &mut lines);
        }
        i = i + 1;
    }
    proof {
        lemma_whole(es@);
    }
    if lines.len() > 0 {
        let mut header = owned("\n=== ");
        header.append(cat.title());
        header.append(" ===");
        push_line(out, header);
        append_lines(out, &lines);
    }
}

fn sw_component_lines(vs: &Vec<SoftwareVersion>, out: &mut Vec<String>)
    ensures
        texts(final(out)@) == texts(old(out)@) + gather(vs@, verbose_sw_each()),
{
    let ghost start = texts(out@);
    let mut i: usize = 0;
    while i < vs.len()
        invariant
            i <= vs@.len(),
            texts(out@) == start + gather(vs@.subrange(0, i as int), verbose_sw_each()),
        decreases vs@.len() - i,
    {
        proof {
            lemma_gather_step(vs@, i as int, verbose_sw_each());
        }
        let v = &vs[i];
        let min_str = match min_version_of(v.detail.as_str()) {
            Some(m) => {
                let mut t = owned(" (min: ");
                t.append(m.as_str());
                t.append(")");
                t
            },
            None => String::new(),
        };
        let mut line = owned("  [ ");
        line.append(sw_status_text(v.status).as_str());
        line.append(" ] ");
        line.append(v.name.as_str());
        line.append(": ");
        if v.status == SwStatus::Missing || v.status == SwStatus::OptionalMissing {
            line.append("Not installed");
        } else {
            line.append(version_str(&v.version));
        }
        line.append(min_str.as_str());
        assert(line@ == verbose_sw_line(vs@[i as int]));
        push_line(out, line);
        assert(texts(out@) =~= start + gather(vs@.subrange(0, i + 1), verbose_sw_each()));
        i = i + 1;
    }
    proof {
        lemma_whole(vs@);
    }
}

fn issue_text(es: &Vec<TestResultEntry>, out: &mut Vec<String>)
    ensures
        texts(final(out)@) == texts(old(out)@) + issue_lines(es@),
{
    let ghost start = texts(out@);
    let mut i: usize = 0;
    let mut n: usize = 0;
    while i < es.len()
        invariant
            i <= es@.len(),
            n == count_where(es@.subrange(0, i as int), has_status(TestState::Fail)),
            texts(out@) == start + issue_lines(es@.subrange(0, i as int)),
        decreases es@.len() - i,
    {
        proof {
            lemma_count_step(es@, i as int, has_status(TestState::Fail));
            lemma_count_bound(es@.subrange(0, i as int), has_status(TestState::Fail));
            assert(es@.subrange(0, i + 1).drop_last() =~= es@.subrange(0, i as int));
        }
        let e = &es[i];
        if e.status == TestState::Fail {
            let meta = test_metadata(e.name.as_str());
            let hint_str = effective_hint(&meta, &e.message);
            let mut line = owned("  ");
            line.append(decimal_string((n + 1) as u64).as_str());
            line.append(". ");
            line.append(e.name.as_str());
            line.append(" [FAIL]");
            push_line(out, line);
            if hint_str.unicode_len() != 0 {
                let mut h = owned("     ");
                h.append(blue("Hint:").as_str());
                h.append(" ");
                h.append(hint_str);
                push_line(out, h);
            }
            n = n + 1;
        }
        assert(texts(out@) =~= start + issue_lines(es@.subrange(0, i + 1)));
        i = i + 1;
    }
    proof {
        lemma_whole(es@);
    }
}

fn sw_issue_text(vs: &Vec<SoftwareVersion>, out: &mut Vec<String>)
    ensures
        texts(final(out)@) == texts(old(out)@) + gather(vs@, sw_issue_each()),
{
    let ghost start = texts(out@);
    let mut i: usize = 0;
    while i < vs.len()
        invariant
            i <= vs@.len(),
            texts(out@) == start + gather(vs@.subrange(0, i as int), sw_issue_each()),
        decreases vs@.len() - i,
    {
        proof {
            lemma_gather_step(vs@, i as int, sw_issue_each());
        }
        let v = &vs[i];
        if v.status == SwStatus::TooOld || v.status == SwStatus::Missing {
            let mut line = owned("  - ");
            line.append(v.name.as_str());
            line.append(" ");
            line.append(version_str(&v.version));
            line.append(" (");
            line.append(v.detail.as_str());
            line.append(")");
            push_line(out, line);
        }
        assert(texts(out@) =~= start + gather(vs@.subrange(0, i + 1), sw_issue_each()));
        i = i + 1;
    }
    proof {
        lemma_whole(vs@);
    }
}

/// The verbose report, as the lines it prints.
#[verifier::rlimit(40)]
pub fn render_verbose(entries: &Vec<TestResultEntry>, sw_versions: &Vec<SoftwareVersion>) -> (lines:
    Vec<String>)
    ensures
        texts(lines@) == verbose_report(entries@, sw_versions@),
{
    let es = entries;
    let vs = sw_versions;
    let mut out: Vec<String> = Vec::new();
    category_text(es, TestCategory::CpuSupport, &mut out);
    category_text(es, TestCategory::CpuInfo, &mut out);
    category_text(es, TestCategory::BiosConfigured, &mut out);
    category_text(es, TestCategory::PlatformInitialized, &mut out);
    category_text(es, TestCategory::KvmConfig, &mut out);
    category_text(es, TestCategory::Compliance, &mut out);
    push_line(&mut out, owned("\n=== Installed Components ==="));
    sw_component_lines(vs, &mut out);
    let fails = count_status(es, TestState::Fail);
    let sw_fails = count_sw(vs, SwStatus::TooOld, SwStatus::Missing);
    if fails > 0 || sw_fails > 0 {
        let mut header = owned("\n");
        header.append(red("=== DETECTED ISSUES ===").as_str());
        push_line(&mut out, header);
        issue_text(es, &mut out);
        sw_issue_text(vs, &mut out);
        push_line(&mut out, String::new());
        push_line(
            &mut out,
            owned(
                "For detailed troubleshooting, see: https://github.com/virtee/snphost/tree/main/docs/snphost-ok-reference.md",
            ),
        );
    } else {
        let mut l = owned("\n");
        l.append(green("No issues detected.").as_str());
        push_line(&mut out, l);
    }
    assert(texts(out@) =~= verbose_report(entries@, sw_versions@));
    out
}

} // verus!
