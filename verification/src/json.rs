//! The JSON report, as a tree of plain values: each check's record becomes a
//! node, nested under the nearest earlier record of a lower level; then the
//! software, the counts and a link to the reference.
use vstd::prelude::*;
use crate::metadata::{category_key, category_to_snake, effective_hint, hint_for, metadata_of, test_metadata};
use crate::model::{opt_view, state_lower, TestResultEntry, TestState};
use crate::platform::{SnpStatus, Tcb};
use crate::report::{count_status, count_sw, count_where, has_status, lemma_count_bound, lemma_count_step, min_version, min_version_of, sw_in};
use crate::software::{SoftwareVersion, SwStatus};
use crate::text::{owned, starts_with, str_starts_with};

verus! {

// ---------------------------------------------------------------------------
// One record
// ---------------------------------------------------------------------------

/// The TCB part of the comparison check's node.
#[derive(Clone, Copy, Debug)]
pub struct TcbJson {
    pub versions_match: bool,
    pub platform: Tcb,
    pub reported: Tcb,
}

/// The fields of a check's node. Optional fields are left out of the JSON
/// where they are `None`.
pub struct EntryJson {
    pub name: String,
    pub status: &'static str,
    pub category: &'static str,
    pub label: Option<String>,
    pub message: Option<String>,
    pub tcb: Option<TcbJson>,
    pub description: Option<String>,
    pub fix_hint: Option<String>,
}

/// The view of [`EntryJson`].
pub struct EntryJsonView {
    pub name: Seq<char>,
    pub status: Seq<char>,
    pub category: Seq<char>,
    pub label: Option<Seq<char>>,
    pub message: Option<Seq<char>>,
    pub tcb: Option<TcbJson>,
    pub description: Option<Seq<char>>,
    pub fix_hint: Option<Seq<char>>,
}

impl View for EntryJson {
    type V = EntryJsonView;

    open spec fn view(&self) -> EntryJsonView {
        EntryJsonView {
            name: self.name@,
            status: self.status@,
            category: self.category@,
            label: opt_view(self.label),
            message: opt_view(self.message),
            tcb: self.tcb,
            description: opt_view(self.description),
            fix_hint: opt_view(self.fix_hint),
        }
    }
}

/// `s` without its leading `c` characters, as `str::trim_start_matches` gives it.
pub open spec fn strip_leading(s: Seq<char>, c: char) -> Seq<char>
    decreases s.len(),
{
    if s.len() > 0 && s[0] == c {
        strip_leading(s.drop_first(), c)
    } else {
        s
    }
}

/// `s` without its trailing `c` characters, as `str::trim_end_matches` gives it.
pub open spec fn strip_trailing(s: Seq<char>, c: char) -> Seq<char>
    decreases s.len(),
{
    if s.len() > 0 && s.last() == c {
        strip_trailing(s.drop_last(), c)
    } else {
        s
    }
}

/// A label without its parentheses.
pub open spec fn bare_label(label: Seq<char>) -> Seq<char> {
    strip_trailing(strip_leading(label, '('), ')')
}

proof fn lemma_strip_leading_skip(s: Seq<char>, c: char, i: int)
    requires
        0 <= i <= s.len(),
        forall|k: int| 0 <= k < i ==> s[k] == c,
    ensures
        strip_leading(s, c) == strip_leading(s.subrange(i, s.len() as int), c),
    decreases i,
{
    if i > 0 {
        lemma_strip_leading_skip(s.drop_first(), c, i - 1);
        assert(s.drop_first().subrange(i - 1, s.drop_first().len() as int) =~= s.subrange(
            i,
            s.len() as int,
        ));
    } else {
        assert(s.subrange(0, s.len() as int) =~= s);
    }
}

proof fn lemma_strip_trailing_skip(s: Seq<char>, c: char, j: int)
    requires
        0 <= j <= s.len(),
        forall|k: int| j <= k < s.len() ==> s[k] == c,
    ensures
        strip_trailing(s, c) == strip_trailing(s.subrange(0, j), c),
    decreases s.len() - j,
{
    if j < s.len() {
        lemma_strip_trailing_skip(s.drop_last(), c, j);
        assert(s.drop_last().subrange(0, j) =~= s.subrange(0, j));
    } else {
        assert(s.subrange(0, s.len() as int) =~= s);
    }
}

/// A label without its parentheses: leading `(` and trailing `)` removed.
pub fn strip_parens(label: &str) -> (r: String)
    ensures
        r@ == bare_label(label@),
{
    let n = label.unicode_len();
    let mut a: usize = 0;
    while a < n && label.get_char(a) == '('
        invariant
            n == label@.len(),
            a <= n,
            forall|k: int| 0 <= k < a ==> label@[k] == '(',
        decreases n - a,
    {
        a = a + 1;
    }
    proof {
        lemma_strip_leading_skip(label@, '(', a as int);
    }
    let ghost t = label@.subrange(a as int, n as int);
    assert(strip_leading(label@, '(') == t);
    let mut b: usize = n;
    while b > a && label.get_char(b - 1) == ')'
        invariant
            n == label@.len(),
            a <= b <= n,
            t == label@.subrange(a as int, n as int),
            forall|k: int| b <= k < n ==> label@[k] == ')',
        decreases b,
    {
        b = b - 1;
    }
    proof {
        lemma_strip_trailing_skip(t, ')', b - a);
        assert(t.subrange(0, b - a) =~= label@.subrange(a as int, b as int));
    }
    owned(label.substring_char(a, b))
}

/// The check compares TCB versions.
pub open spec fn is_tcb_check(name: Seq<char>) -> bool {
    starts_with(name, "Comparing TCB"@) || starts_with(name, "Compare TCB"@)
}

/// The node of a check's record. Every node has the name, the outcome in
/// lowercase and the category key; the label without parentheses where there
/// is one; the message, which for the TCB check is shortened to whether the
/// versions match, and where the SNP status could be had, the TCB versions
/// themselves; the description and the fix hint where they are not empty.
pub open spec fn entry_json(e: TestResultEntry, status: Option<SnpStatus>) -> EntryJsonView {
    let meta = metadata_of(e.name@);
    let is_tcb = is_tcb_check(e.name@);
    let hint = hint_for(meta, opt_view(e.message));
    EntryJsonView {
        name: e.name@,
        status: state_lower(e.status),
        category: category_key(meta.category),
        label: if meta.label@.len() != 0 {
            Some(bare_label(meta.label@))
        } else {
            None
        },
        message: if is_tcb {
            match e.message {
                Some(m) => Some(
                    if starts_with(m@, "TCB versions match"@) {
                        "TCB versions match"@
                    } else {
                        "TCB versions do NOT match"@
                    },
                ),
                None => None,
            }
        } else {
            opt_view(e.message)
        },
        tcb: if is_tcb {
            match status {
                Some(s) => Some(
                    TcbJson {
                        versions_match: s.platform_tcb == s.reported_tcb,
                        platform: s.platform_tcb,
                        reported: s.reported_tcb,
                    },
                ),
                None => None,
            }
        } else {
            None
        },
        description: if meta.description@.len() != 0 {
            Some(meta.description@)
        } else {
            None
        },
        fix_hint: if hint.len() != 0 {
            Some(hint)
        } else {
            None
        },
    }
}

/// The node of a check's record; `status` is the SNP platform status where it
/// could be had, which the TCB check's node shows.
pub fn entry_to_json(e: &TestResultEntry, status: &Option<SnpStatus>) -> (r: EntryJson)
    ensures
        r@ == entry_json(*e, *status),
{
    let meta = test_metadata(e.name.as_str());
    let is_tcb = str_starts_with(e.name.as_str(), "Comparing TCB") || str_starts_with(
        e.name.as_str(),
        "Compare TCB",
    );
    let label = if meta.label.unicode_len() != 0 {
        Some(strip_parens(meta.label))
    } else {
        None
    };
    let mut message: Option<String> = None;
    let mut tcb: Option<TcbJson> = None;
    if is_tcb {
        match &e.message {
            Some(m) => {
                if str_starts_with(m.as_str(), "TCB versions match") {
                    message = Some(owned("TCB versions match"));
                } else {
                    message = Some(owned("TCB versions do NOT match"));
                }
            },
            None => {},
        }
        match status {
            Some(s) => {
                tcb = Some(
                    TcbJson {
                        versions_match: s.platform_tcb == s.reported_tcb,
                        platform: s.platform_tcb,
                        reported: s.reported_tcb,
                    },
                );
            },
            None => {},
        }
    } else {
        match &e.message {
            Some(m) => {
                message = Some(m.clone());
            },
            None => {},
        }
    }
    let description = if meta.description.unicode_len() != 0 {
        Some(owned(meta.description))
    } else {
        None
    };
    let hint_str = effective_hint(&meta, &e.message);
    let fix_hint = if hint_str.unicode_len() != 0 {
        Some(owned(hint_str))
    } else {
        None
    };
    EntryJson {
        name: e.name.clone(),
        status: e.status.lower(),
        category: category_to_snake(&meta.category),
        label,
        message,
        tcb,
        description,
        fix_hint,
    }
}

// ---------------------------------------------------------------------------
// The tree
// ---------------------------------------------------------------------------

/// A node of the JSON tree: a check's record and the nodes nested under it
/// (an empty list where there are none).
pub struct TestJson {
    pub fields: EntryJson,
    pub sub_tests: Vec<TestJson>,
}

/// The first position from `k` on whose level is at most `lvl`, or the end.
pub open spec fn next_at_or_above(es: Seq<TestResultEntry>, k: int, lvl: usize) -> int
    decreases es.len() - k,
{
    if k >= es.len() {
        es.len() as int
    } else if k >= 0 && es[k].level <= lvl {
        k
    } else {
        next_at_or_above(es, k + 1, lvl)
    }
}

/// `next_at_or_above` lies between its start and the end.
pub proof fn lemma_next_bounds(es: Seq<TestResultEntry>, k: int, lvl: usize)
    requires
        0 <= k <= es.len(),
    ensures
        k <= next_at_or_above(es, k, lvl) <= es.len(),
        forall|j: int| k <= j < next_at_or_above(es, k, lvl) ==> es[j].level > lvl,
        next_at_or_above(es, k, lvl) < es.len() ==> es[next_at_or_above(es, k, lvl)].level <= lvl,
    decreases es.len() - k,
{
    if k < es.len() && es[k].level > lvl {
        lemma_next_bounds(es, k + 1, lvl);
    }
}

/// `ts` is the forest that the records `es` make: the first record is the
/// first root, the records after it up to the next one of its level or lower
/// are the forest under it, and the rest make the following roots.
pub open spec fn forest_of(ts: Seq<TestJson>, es: Seq<TestResultEntry>, status: Option<SnpStatus>) -> bool
    decreases es.len(),
{
    if es.len() == 0 {
        ts.len() == 0
    } else {
        let k = next_at_or_above(es, 1, es[0].level);
        proof {
            lemma_next_bounds(es, 1, es[0].level);
        }
        &&& ts.len() > 0
        &&& ts[0].fields@ == entry_json(es[0], status)
        &&& forest_of(ts[0].sub_tests@, es.subrange(1, k), status)
        &&& forest_of(ts.drop_first(), es.subrange(k, es.len() as int), status)
    }
}

/// Two forests side by side make the forest of the records side by side,
/// where no record of the first is of a lower level than the first record
/// of the second.
proof fn lemma_forest_concat(
    ts1: Seq<TestJson>,
    es1: Seq<TestResultEntry>,
    ts2: Seq<TestJson>,
    es2: Seq<TestResultEntry>,
    status: Option<SnpStatus>,
)
    requires
        forest_of(ts1, es1, status),
        forest_of(ts2, es2, status),
        es2.len() > 0 ==> forall|j: int| 0 <= j < es1.len() ==> es1[j].level >= es2[0].level,
    ensures
        forest_of(ts1 + ts2, es1 + es2, status),
    decreases es1.len(),
{
    if es1.len() == 0 {
        assert(ts1 + ts2 =~= ts2);
        assert(es1 + es2 =~= es2);
    } else {
        let es = es1 + es2;
        let lvl = es1[0].level;
        let k = next_at_or_above(es1, 1, lvl);
        lemma_next_bounds(es1, 1, lvl);
        lemma_next_bounds(es, 1, lvl);
        let k2 = next_at_or_above(es, 1, lvl);
        assert(k2 == k) by {
            if k2 < k {
                assert(es[k2] == es1[k2]);
            } else if k2 > k {
                if k < es1.len() {
                    assert(es[k] == es1[k]);
                } else {
                    assert(es[k] == es2[0]);
                }
            }
        }
        assert(es.subrange(1, k) =~= es1.subrange(1, k));
        let rest1 = es1.subrange(k, es1.len() as int);
        assert(es.subrange(k, es.len() as int) =~= rest1 + es2);
        assert((ts1 + ts2).drop_first() =~= ts1.drop_first() + ts2);
        lemma_forest_concat(ts1.drop_first(), rest1, ts2, es2, status);
        assert((ts1 + ts2)[0] == ts1[0]);
    }
}

/// Builds the forest of the records `es[lo..hi]`.
fn build_forest(es: &Vec<TestResultEntry>, lo: usize, hi: usize, status: &Option<SnpStatus>) -> (r: Vec<TestJson>)
    requires
        lo <= hi <= es@.len(),
    ensures
        forest_of(r@, es@.subrange(lo as int, hi as int), *status),
    decreases hi - lo,
{
    let mut out: Vec<TestJson> = Vec::new();
    let mut i = lo;
    while i < hi
        invariant
            lo <= i <= hi <= es@.len(),
            forest_of(out@, es@.subrange(lo as int, i as int), *status),
            i < hi ==> forall|j: int| lo <= j < i ==> es@[j].level >= es@[i as int].level,
        decreases hi - i,
    {
        let lvl = es[i].level;
        let mut k = i + 1;
        while k < hi && es[k].level > lvl
            invariant
                i < k <= hi <= es@.len(),
                lvl == es@[i as int].level,
                forall|j: int| i < j < k ==> es@[j].level > lvl,
            decreases hi - k,
        {
            k = k + 1;
        }
        let sub_tests = build_forest(es, i + 1, k, status);
        let node = TestJson { fields: entry_to_json(&es[i], status), sub_tests };
        let ghost prev = out@;
        out.push(node);
        proof {
            let seg = es@.subrange(i as int, k as int);
            let n1 = next_at_or_above(seg, 1, lvl);
            lemma_next_bounds(seg, 1, lvl);
            assert(n1 == k - i) by {
                if n1 < k - i {
                    assert(seg[n1] == es@[i + n1]);
                }
            }
            assert(seg.subrange(1, k - i) =~= es@.subrange(i + 1, k as int));
            assert(seg.subrange(k - i, seg.len() as int) =~= Seq::<TestResultEntry>::empty());
            assert(seq![node].drop_first() =~= Seq::<TestJson>::empty());
            assert(forest_of(Seq::<TestJson>::empty(), Seq::<TestResultEntry>::empty(), *status));
            assert(seg[0] == es@[i as int]);
            assert(seq![node][0] == node);
            assert(forest_of(seq![node], seg, *status));
            lemma_forest_concat(prev, es@.subrange(lo as int, i as int), seq![node], seg, *status);
            assert(prev + seq![node] =~= out@);
            assert(es@.subrange(lo as int, i as int) + seg =~= es@.subrange(lo as int, k as int));
            if k < hi {
                assert forall|j: int| lo <= j < k implies es@[j].level >= es@[k as int].level by {
                    if j < i {
                    }
                }
            }
        }
        i = k;
    }
    out
}

/// Builds the tree of the JSON report from the records, nesting each record
/// under the nearest earlier record of a lower level.
pub fn build_json_tree(entries: &Vec<TestResultEntry>, status: &Option<SnpStatus>) -> (r: Vec<TestJson>)
    ensures
        forest_of(r@, entries@, *status),
{
    let r = build_forest(entries, 0, entries.len(), status);
    assert(entries@.subrange(0, entries@.len() as int) =~= entries@);
    r
}

// ---------------------------------------------------------------------------
// Software, counts and the whole report
// ---------------------------------------------------------------------------

/// The JSON entry of a software check.
pub struct SoftwareJson {
    pub component: String,
    pub status: &'static str,
    pub installed_version: Option<String>,
    pub min_version: Option<String>,
}

/// The status word of a software check in the JSON report.
pub open spec fn sw_json_status(s: SwStatus) -> Seq<char> {
    match s {
        SwStatus::Supported => "supported"@,
        SwStatus::TooOld => "too_old"@,
        SwStatus::Missing => "not_installed"@,
        SwStatus::OptionalMissing => "not_installed"@,
    }
}

/// The JSON entry of a software check: the component, its status, its
/// version where known, and the minimum version named in its detail.
pub open spec fn sw_json(v: SoftwareVersion, j: SoftwareJson) -> bool {
    &&& j.component@ == v.name@
    &&& j.status@ == sw_json_status(v.status)
    &&& opt_view(j.installed_version) == opt_view(v.version)
    &&& opt_view(j.min_version) == min_version(v.detail@)
}

/// The JSON entry of a software check.
pub fn sw_to_json(v: &SoftwareVersion) -> (r: SoftwareJson)
    ensures
        sw_json(*v, r),
{
    let status = match v.status {
        SwStatus::Supported => "supported",
        SwStatus::TooOld => "too_old",
        SwStatus::Missing => "not_installed",
        SwStatus::OptionalMissing => "not_installed",
    };
    let installed_version = match &v.version {
        Some(s) => Some(s.clone()),
        None => None,
    };
    SoftwareJson {
        component: v.name.clone(),
        status,
        installed_version,
        min_version: min_version_of(v.detail.as_str()),
    }
}

/// The counts of the JSON report.
#[derive(Clone, Copy, Debug)]
pub struct Summary {
    pub passed: usize,
    pub failed: usize,
    pub skipped: usize,
    pub total: usize,
}

/// The JSON report.
pub struct JsonReport {
    pub tests: Vec<TestJson>,
    pub software: Vec<SoftwareJson>,
    pub summary: Summary,
    pub docs: &'static str,
}

/// Passed checks and supported software.
pub open spec fn passed_count(es: Seq<TestResultEntry>, vs: Seq<SoftwareVersion>) -> nat {
    count_where(es, has_status(TestState::Pass)) + count_where(
        vs,
        sw_in(SwStatus::Supported, SwStatus::Supported),
    )
}

/// Failed checks, and software too old or missing.
pub open spec fn failed_count(es: Seq<TestResultEntry>, vs: Seq<SoftwareVersion>) -> nat {
    count_where(es, has_status(TestState::Fail)) + count_where(
        vs,
        sw_in(SwStatus::TooOld, SwStatus::Missing),
    )
}

/// Skipped checks, and optional software that is missing.
pub open spec fn skipped_count(es: Seq<TestResultEntry>, vs: Seq<SoftwareVersion>) -> nat {
    count_where(es, has_status(TestState::Skip)) + count_where(
        vs,
        sw_in(SwStatus::OptionalMissing, SwStatus::OptionalMissing),
    )
}

/// The reference for troubleshooting.
pub open spec fn docs_url() -> Seq<char> {
    "https://github.com/virtee/snphost/tree/main/docs/snphost-ok-reference.md"@
}

/// The JSON report: the tree of the records, the software entries in order,
/// the counts, and the link to the reference.
pub open spec fn json_report(
    r: JsonReport,
    es: Seq<TestResultEntry>,
    vs: Seq<SoftwareVersion>,
    status: Option<SnpStatus>,
) -> bool {
    &&& forest_of(r.tests@, es, status)
    &&& r.software@.len() == vs.len()
    &&& forall|i: int| 0 <= i < vs.len() ==> sw_json(#[trigger] vs[i], r.software@[i])
    &&& r.summary.passed == passed_count(es, vs)
    &&& r.summary.failed == failed_count(es, vs)
    &&& r.summary.skipped == skipped_count(es, vs)
    &&& r.summary.total == r.summary.passed + r.summary.failed + r.summary.skipped
    &&& r.docs@ == docs_url()
}

/// The JSON report of the records and software checks; `status` is the SNP
/// platform status where it could be had.
pub fn render_json(
    entries: &Vec<TestResultEntry>,
    sw_versions: &Vec<SoftwareVersion>,
    status: &Option<SnpStatus>,
) -> (r: JsonReport)
    requires
        entries@.len() + sw_versions@.len() <= usize::MAX,
    ensures
        json_report(r, entries@, sw_versions@, *status),
{
    let es = entries;
    let vs = sw_versions;
    proof {
        lemma_counts_partition(es@);
        lemma_sw_counts_partition(vs@);
    }
    let pass_count = count_status(es, TestState::Pass) + count_sw(
        vs,
        SwStatus::Supported,
        SwStatus::Supported,
    );
    let fail_count = count_status(es, TestState::Fail) + count_sw(vs, SwStatus::TooOld, SwStatus::Missing);
    let skip_count = count_status(es, TestState::Skip) + count_sw(
        vs,
        SwStatus::OptionalMissing,
        SwStatus::OptionalMissing,
    );
    let tests = build_json_tree(es, status);
    let mut software: Vec<SoftwareJson> = Vec::new();
    let mut i: usize = 0;
    while i < vs.len()
        invariant
            i <= vs@.len(),
            software@.len() == i,
            forall|k: int| 0 <= k < i ==> sw_json(#[trigger] vs@[k], software@[k]),
        decreases vs@.len() - i,
    {
        software.push(sw_to_json(&vs[i]));
        i = i + 1;
    }
    JsonReport {
        tests,
        software,
        summary: Summary {
            passed: pass_count,
            failed: fail_count,
            skipped: skip_count,
            total: pass_count + fail_count + skip_count,
        },
        docs: "https://github.com/virtee/snphost/tree/main/docs/snphost-ok-reference.md",
    }
}

/// Every record is passed, failed or skipped, so the three counts add up to
/// the number of records.
pub proof fn lemma_counts_partition(es: Seq<TestResultEntry>)
    ensures
        count_where(es, has_status(TestState::Pass)) + count_where(es, has_status(TestState::Fail))
            + count_where(es, has_status(TestState::Skip)) == es.len(),
    decreases es.len(),
{
    if es.len() > 0 {
        lemma_counts_partition(es.drop_last());
    }
}

/// Every software check is supported, too old or missing, or optional and
/// missing, so the three counts add up to the number of checks.
pub proof fn lemma_sw_counts_partition(vs: Seq<SoftwareVersion>)
    ensures
        count_where(vs, sw_in(SwStatus::Supported, SwStatus::Supported)) + count_where(
            vs,
            sw_in(SwStatus::TooOld, SwStatus::Missing),
        ) + count_where(vs, sw_in(SwStatus::OptionalMissing, SwStatus::OptionalMissing))
            == vs.len(),
    decreases vs.len(),
{
    if vs.len() > 0 {
        lemma_sw_counts_partition(vs.drop_last());
    }
}

} // verus!
