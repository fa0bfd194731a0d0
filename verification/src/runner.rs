//! The walk over the tree of checks. A check runs only where the SEV
//! generations it needs are included and every check it is nested under
//! passed; every other check is recorded as skipped. The walk is a state
//! machine: it names what must be read next, and is handed back what was read.
use vstd::prelude::*;
use crate::checks::{answers, evaluate, judged, request_of, Observation, Probe, Test};
use crate::colors::{blue, painted};
use crate::metadata::{effective_hint, hint_for, metadata_of, test_metadata};
use crate::model::{
    clone_opt, opt_view, state_display, ResultView, TestResult, TestResultEntry, TestState,
};
use crate::text::{owned, spaces, spaces_of};

verus! {

// ---------------------------------------------------------------------------
// Lines of the default report
// ---------------------------------------------------------------------------

/// The line of a check that ran: outcome, indentation, name, label, message,
/// and for a failure with a hint, a second line with the hint.
pub open spec fn result_line(r: ResultView, level: nat) -> Seq<char> {
    let meta = metadata_of(r.name);
    let label = if meta.label@.len() == 0 {
        Seq::empty()
    } else {
        " "@ + meta.label@
    };
    let msg = match r.mesg {
        Some(m) => ": "@ + m,
        None => Seq::empty(),
    };
    let hint_str = hint_for(meta, r.mesg);
    let hint = if r.stat == TestState::Fail && hint_str.len() != 0 {
        "\n"@ + spaces_of(level + 10) + "  ^ "@ + painted(seq!['4'], "Hint:"@) + " "@ + hint_str
    } else {
        Seq::empty()
    };
    "[ "@ + state_display(r.stat) + " ] "@ + spaces_of(level) + "- "@ + r.name + label + msg + hint
}

/// The line of a check that was skipped.
pub open spec fn skip_line(name: Seq<char>, level: nat) -> Seq<char> {
    "[ "@ + state_display(TestState::Skip) + " ] "@ + spaces_of(level) + "- "@ + name
}

/// The line of a check that ran, as the default report shows it.
pub fn emit_result(res: &TestResult, level: usize) -> (r: String)
    ensures
        r@ == result_line(res@, level as nat),
{
    let meta = test_metadata(res.name.as_str());
    let mut out = owned("[ ");
    out.append(res.stat.display().as_str());
    out.append(" ] ");
    out.append(spaces(level).as_str());
    out.append("- ");
    out.append(res.name.as_str());
    if meta.label.unicode_len() != 0 {
        out.append(" ");
        out.append(meta.label);
    }
    match &res.mesg {
        Some(m) => {
            out.append(": ");
            out.append(m.as_str());
        },
        None => {},
    }
    let hint_str = effective_hint(&meta, &res.mesg);
    if res.stat == TestState::Fail && hint_str.unicode_len() != 0 {
        out.append("\n");
        out.append(spaces(level).as_str());
        out.append(spaces(10).as_str());
        out.append("  ^ ");
        out.append(blue("Hint:").as_str());
        out.append(" ");
        out.append(hint_str);
        proof {
            assert(spaces_of(level as nat) + spaces_of(10) =~= spaces_of(level as nat + 10));
        }
    }
    assert(out@ =~= result_line(res@, level as nat));
    out
}

/// The line of a check that was skipped.
pub fn emit_skip(name: &str, level: usize) -> (r: String)
    ensures
        r@ == skip_line(name@, level as nat),
{
    let mut out = owned("[ ");
    out.append(TestState::Skip.display().as_str());
    out.append(" ] ");
    out.append(spaces(level).as_str());
    out.append("- ");
    out.append(name);
    out
}

// ---------------------------------------------------------------------------
// Which checks run
// ---------------------------------------------------------------------------

/// A check needs a SEV generation that the mask leaves out.
pub open spec fn gen_excluded(t: Test, mask: usize) -> bool {
    t.gen_mask & mask != t.gen_mask
}

/// Check `j`, before position `n`, encloses a check at level `x` placed at
/// position `n`: it is shallower, and everything between is deeper than it.
pub open spec fn encloses(t: Seq<Test>, j: int, n: int, x: int) -> bool {
    &&& 0 <= j < n
    &&& t[j].level < x
    &&& forall|k: int| j < k < n ==> t[k].level > t[j].level
}

/// Check `j` is one that check `i` is nested under.
pub open spec fn is_ancestor(t: Seq<Test>, j: int, i: int) -> bool {
    encloses(t, j, i, t[i].level as int)
}

/// A check at level `x` placed at position `n` lies under a check that did not pass.
pub open spec fn blocked_at(t: Seq<Test>, es: Seq<TestResultEntry>, n: int, x: int) -> bool {
    exists|j: int| #[trigger] encloses(t, j, n, x) && es[j].status != TestState::Pass
}

/// Check `i` is skipped: its generation is left out, or a check it is nested
/// under did not pass.
pub open spec fn skipped(t: Seq<Test>, es: Seq<TestResultEntry>, mask: usize, i: int) -> bool {
    gen_excluded(t[i], mask) || blocked_at(t, es, i, t[i].level as int)
}

/// The record of a check that was skipped.
pub open spec fn is_skip_entry(e: TestResultEntry, t: Test) -> bool {
    e.name@ == t.name@ && e.level == t.level && e.status == TestState::Skip && e.message is None
}

/// The record of a check that ran and reported `r`.
pub open spec fn is_run_entry(e: TestResultEntry, t: Test, r: ResultView) -> bool {
    e.name@ == t.name@ && e.level == t.level && e.status == r.stat && opt_view(e.message)
        == r.mesg
}

proof fn lemma_blocked_step(t: Seq<Test>, es: Seq<TestResultEntry>, es2: Seq<TestResultEntry>, n: int, x: int)
    requires
        0 <= n < t.len(),
        n < es2.len(),
        forall|j: int| 0 <= j < n ==> es2[j] == es[j],
    ensures
        blocked_at(t, es2, n + 1, x) == (blocked_at(
            t,
            es,
            n,
            if x < t[n].level {
                x
            } else {
                t[n].level as int
            },
        ) || (t[n].level < x && es2[n].status != TestState::Pass)),
{
    let y = t[n].level as int;
    let m = if x < y {
        x
    } else {
        y
    };
    if blocked_at(t, es2, n + 1, x) {
        let j = choose|j: int| #[trigger] encloses(t, j, n + 1, x) && es2[j].status != TestState::Pass;
        if j < n {
            assert(t[n].level > t[j].level);
            assert(encloses(t, j, n, m));
        }
    }
    if blocked_at(t, es, n, m) {
        let j = choose|j: int| #[trigger] encloses(t, j, n, m) && es[j].status != TestState::Pass;
        assert(encloses(t, j, n + 1, x));
        assert(es2[j] == es[j]);
    }
    if t[n].level < x && es2[n].status != TestState::Pass {
        assert(encloses(t, n, n + 1, x));
    }
}

proof fn lemma_blocked_prefix(t: Seq<Test>, es: Seq<TestResultEntry>, es2: Seq<TestResultEntry>, n: int, x: int)
    requires
        0 <= n,
        forall|j: int| 0 <= j < n ==> es2[j] == es[j],
    ensures
        blocked_at(t, es2, n, x) == blocked_at(t, es, n, x),
{
    if blocked_at(t, es2, n, x) {
        let j = choose|j: int| #[trigger] encloses(t, j, n, x) && es2[j].status != TestState::Pass;
        assert(es2[j] == es[j]);
    }
    if blocked_at(t, es, n, x) {
        let j = choose|j: int| #[trigger] encloses(t, j, n, x) && es[j].status != TestState::Pass;
        assert(es2[j] == es[j]);
    }
}

/// A check that runs never reports a skip.
pub proof fn lemma_judged_never_skips(p: Probe, o: Observation)
    ensures
        judged(p, o).stat != TestState::Skip,
{
}

// ---------------------------------------------------------------------------
// The walk
// ---------------------------------------------------------------------------

/// The walk over a tree of checks.
pub struct Runner {
    tests: Vec<Test>,
    mask: usize,
    quiet: bool,
    next: usize,
    block_level: Option<usize>,
    pending: bool,
    passed: bool,
    entries: Vec<TestResultEntry>,
    lines: Vec<String>,
}

impl Runner {
    /// The checks walked over.
    pub closed spec fn tests(&self) -> Seq<Test> {
        self.tests@
    }

    /// The generations included.
    pub closed spec fn mask(&self) -> usize {
        self.mask
    }

    /// The report lines are not produced.
    pub closed spec fn is_quiet(&self) -> bool {
        self.quiet
    }

    /// How many checks have been dealt with.
    pub closed spec fn done_count(&self) -> nat {
        self.next as nat
    }

    /// A check is waiting for what must be read for it.
    pub closed spec fn is_pending(&self) -> bool {
        self.pending
    }

    /// The records so far, one for each check dealt with, in order.
    pub closed spec fn records(&self) -> Seq<TestResultEntry> {
        self.entries@
    }

    /// The report lines so far, one for each check dealt with, in order.
    pub closed spec fn report_lines(&self) -> Seq<String> {
        self.lines@
    }

    /// No check failed so far.
    pub closed spec fn all_passed(&self) -> bool {
        self.passed
    }

    /// The level below which the next check is blocked.
    closed spec fn block_holds(&self, x: int) -> bool {
        match self.block_level {
            Some(d) => x > d,
            None => false,
        }
    }

    /// The walk's invariant: one record per check dealt with, in order, with
    /// the check's name and level; a record is a skip exactly where the check
    /// is skipped, and otherwise passed or failed; `all_passed` holds exactly
    /// where no record is a failure; where the walk is not quiet there is one
    /// line per record, skip records with the skip line.
    pub open spec fn wf(&self) -> bool {
        let t = self.tests();
        let es = self.records();
        &&& self.done_count() <= t.len()
        &&& es.len() == self.done_count()
        &&& forall|i: int|
            0 <= i < es.len() ==> #[trigger] es[i].name@ == t[i].name@ && es[i].level == t[i].level
        &&& forall|i: int|
            0 <= i < es.len() ==> ((#[trigger] es[i].status == TestState::Skip) <==> skipped(
                t,
                es,
                self.mask(),
                i,
            ))
        &&& forall|i: int|
            0 <= i < es.len() && #[trigger] es[i].status == TestState::Skip ==> es[i].message is None
        &&& (self.all_passed() <==> forall|i: int|
            0 <= i < es.len() ==> #[trigger] es[i].status != TestState::Fail)
        &&& self.is_pending() ==> self.done_count() < t.len() && !skipped(
            t,
            es,
            self.mask(),
            self.done_count() as int,
        )
        &&& if self.is_quiet() {
            self.report_lines().len() == 0
        } else {
            &&& self.report_lines().len() == es.len()
            &&& forall|i: int|
                0 <= i < es.len() && #[trigger] es[i].status == TestState::Skip
                    ==> self.report_lines()[i]@ == skip_line(t[i].name@, t[i].level as nat)
        }
    }

    /// The walk's invariant together with what the walk keeps of the checks
    /// still to come.
    pub closed spec fn inner(&self) -> bool {
        &&& self.wf()
        &&& !self.pending ==> forall|x: int|
            blocked_at(self.tests@, self.entries@, self.next as int, x) == self.block_holds(x)
        &&& self.pending ==> self.block_level is None
        &&& self.pending ==> forall|x: int|
            x <= self.tests@[self.next as int].level ==> !blocked_at(
                self.tests@,
                self.entries@,
                self.next as int,
                x,
            )
    }

    /// A walk over `tests`, in which checks needing a generation outside
    /// `mask` are skipped, and which produces the report lines unless `quiet`.
    pub fn new(tests: Vec<Test>, mask: usize, quiet: bool) -> (r: Runner)
        ensures
            r.inner(),
            r.wf(),
            r.tests() == tests@,
            r.mask() == mask,
            r.is_quiet() == quiet,
            r.done_count() == 0,
            !r.is_pending(),
            r.all_passed(),
    {
        let r = Runner {
            tests,
            mask,
            quiet,
            next: 0,
            block_level: None,
            pending: false,
            passed: true,
            entries: Vec::new(),
            lines: Vec::new(),
        };
        assert forall|x: int| blocked_at(r.tests@, r.entries@, 0, x) == r.block_holds(x) by {
            if blocked_at(r.tests@, r.entries@, 0, x) {
                let j = choose|j: int|
                    #[trigger] encloses(r.tests@, j, 0, x) && r.entries@[j].status
                        != TestState::Pass;
            }
        }
        r
    }

    /// Deals with the checks that are skipped, up to the next one that runs.
    /// Returns what that check examines, or `None` where every check has been
    /// dealt with.
    pub fn advance(&mut self) -> (r: Option<Probe>)
        requires
            old(self).inner(),
            !old(self).is_pending(),
        ensures
            final(self).inner(),
            final(self).wf(),
            final(self).tests() == old(self).tests(),
            final(self).mask() == old(self).mask(),
            final(self).is_quiet() == old(self).is_quiet(),
            old(self).done_count() <= final(self).done_count(),
            final(self).records().subrange(0, old(self).done_count() as int) == old(self).records(),
            final(self).report_lines().subrange(0, old(self).report_lines().len() as int) == old(self).report_lines(),
            forall|i: int|
                old(self).done_count() <= i < final(self).done_count() ==> #[trigger] final(self).records()[i].status == TestState::Skip,
            final(self).all_passed() == old(self).all_passed(),
            match r {
                Some(p) => final(self).is_pending() && p == final(self).tests()[final(self).done_count() as int].probe,
                None => !final(self).is_pending() && final(self).done_count() == final(self).tests().len(),
            },
    {
        let n = self.tests.len();
        while self.next < n
            invariant
                n == self.tests@.len(),
                self.inner(),
                !self.pending,
                self.tests@ == old(self).tests@,
                self.mask == old(self).mask,
                self.quiet == old(self).quiet,
                old(self).next <= self.next,
                self.entries@.subrange(0, old(self).next as int) == old(self).entries@,
                old(self).lines@.len() <= self.lines@.len(),
                self.lines@.subrange(0, old(self).lines@.len() as int) == old(self).lines@,
                forall|i: int|
                    old(self).next <= i < self.next ==> #[trigger] self.entries@[i].status
                        == TestState::Skip,
                self.passed == old(self).passed,
            decreases n - self.next,
        {
            let i = self.next;
            let t = self.tests[i];
            let ghost es = self.entries@;
            let ghost ls = self.lines@;
            let ghost y = t.level as int;
            let ghost old_block = self.block_level;
            assert forall|x: int|
                blocked_at(self.tests@, es, i as int, x) == match old_block {
                    Some(d) => x > d,
                    None => false,
                } by {
                assert(blocked_at(self.tests@, self.entries@, self.next as int, x)
                    == self.block_holds(x));
            }
            let under_block = match self.block_level {
                Some(d) => t.level > d,
                None => false,
            };
            assert(blocked_at(self.tests@, self.entries@, self.next as int, y) == self.block_holds(
                y,
            ));
            assert(under_block == blocked_at(self.tests@, es, i as int, y));
            let excluded = (t.gen_mask & self.mask) != t.gen_mask;
            if !under_block && !excluded {
                self.block_level = None;
                self.pending = true;
                proof {
                    assert forall|x: int|
                        x <= self.tests@[self.next as int].level implies !blocked_at(
                        self.tests@,
                        self.entries@,
                        self.next as int,
                        x,
                    ) by {
                        if blocked_at(self.tests@, self.entries@, self.next as int, x) {
                            let j = choose|j: int|
                                #[trigger] encloses(self.tests@, j, i as int, x)
                                    && es[j].status != TestState::Pass;
                            assert(encloses(self.tests@, j, i as int, y));
                        }
                    }
                }
                return Some(t.probe);
            }
            let entry = TestResultEntry {
                name: owned(t.name),
                status: TestState::Skip,
                message: None,
                level: t.level,
            };
            self.entries.push(entry);
            if !self.quiet {
                self.lines.push(emit_skip(t.name, t.level));
            }
            if !under_block {
                self.block_level = Some(t.level);
            }
            self.next = i + 1;
            proof {
                let es2 = self.entries@;
                assert forall|x: int| #[trigger]
                    blocked_at(self.tests@, es2, i + 1, x) == self.block_holds(x) by {
                    lemma_blocked_step(self.tests@, es, es2, i as int, x);
                    let m = if x < y {
                        x
                    } else {
                        y
                    };
                    assert(blocked_at(self.tests@, es, i as int, m) == match old_block {
                        Some(d) => m > d,
                        None => false,
                    });
                }
                assert forall|k: int| 0 <= k < es2.len() implies #[trigger] es2[k].status
                    == TestState::Skip <==> skipped(self.tests@, es2, self.mask, k) by {
                    if k < i {
                        lemma_blocked_prefix(self.tests@, es, es2, k, self.tests@[k].level as int);
                        assert(es2[k] == es[k]);
                    } else {
                        lemma_blocked_prefix(self.tests@, es, es2, k, y);
                    }
                }
                assert forall|k: int| 0 <= k < es2.len() implies #[trigger] es2[k].name@
                    == self.tests@[k].name@ && es2[k].level == self.tests@[k].level by {
                    if k < i {
                        assert(es2[k] == es[k]);
                    }
                }
                assert forall|k: int|
                    0 <= k < es2.len() && #[trigger] es2[k].status == TestState::Skip
                        implies es2[k].message is None by {
                    if k < i {
                        assert(es2[k] == es[k]);
                    }
                }
                assert(self.passed <==> forall|k: int|
                    0 <= k < es2.len() ==> #[trigger] es2[k].status != TestState::Fail) by {
                    assert forall|k: int| 0 <= k < es2.len() - 1 implies es2[k] == es[k] by {}
                }
                if !self.quiet {
                    assert forall|k: int|
                        0 <= k < es2.len() && #[trigger] es2[k].status == TestState::Skip
                            implies self.lines@[k]@ == skip_line(
                            self.tests@[k].name@,
                            self.tests@[k].level as nat,
                        ) by {
                        if k < i {
                            assert(es2[k] == es[k]);
                        }
                    }
                }
                assert(es2.subrange(0, old(self).next as int) =~= es.subrange(
                    0,
                    old(self).next as int,
                ));
                assert(old(self).lines@.len() <= ls.len());
                assert(self.lines@.subrange(0, old(self).lines@.len() as int) =~= ls.subrange(
                    0,
                    old(self).lines@.len() as int,
                ));
            }
        }
        None
    }

    /// Records what was read for the pending check: judges it, and records
    /// the outcome and the line.
    pub fn record(&mut self, obs: &Observation)
        requires
            old(self).inner(),
            old(self).is_pending(),
            answers(
                request_of(old(self).tests()[old(self).done_count() as int].probe),
                *obs,
            ),
        ensures
            final(self).inner(),
            final(self).wf(),
            !final(self).is_pending(),
            final(self).tests() == old(self).tests(),
            final(self).mask() == old(self).mask(),
            final(self).is_quiet() == old(self).is_quiet(),
            final(self).done_count() == old(self).done_count() + 1,
            final(self).records().len() == old(self).records().len() + 1,
            final(self).records().drop_last() == old(self).records(),
            ({
                let t = old(self).tests()[old(self).done_count() as int];
                let r = judged(t.probe, *obs);
                &&& is_run_entry(final(self).records().last(), t, r)
                &&& !old(self).is_quiet() ==> final(self).report_lines() == old(self).report_lines().push(final(self).report_lines().last())
                    && final(self).report_lines().last()@ == result_line(r, t.level as nat)
                &&& final(self).all_passed() == (old(self).all_passed() && r.stat
                    != TestState::Fail)
            }),
    {
        let n = self.tests.len();
        let i = self.next;
        let t = self.tests[i];
        let ghost es = self.entries@;
        let ghost y = t.level as int;
        let ghost old_passed = self.passed;
        assert(old_passed <==> forall|k: int|
            0 <= k < es.len() ==> #[trigger] es[k].status != TestState::Fail);
        assert forall|x: int| x <= y implies !blocked_at(self.tests@, es, i as int, x) by {
            assert(x <= self.tests@[self.next as int].level ==> !blocked_at(
                self.tests@,
                self.entries@,
                self.next as int,
                x,
            ));
        }
        let res = evaluate(t.probe, obs);
        proof {
            lemma_judged_never_skips(t.probe, *obs);
        }
        if !self.quiet {
            self.lines.push(emit_result(&res, t.level));
        }
        let failed = res.stat == TestState::Fail;
        let entry = TestResultEntry {
            name: owned(t.name),
            status: res.stat,
            message: clone_opt(&res.mesg),
            level: t.level,
        };
        self.entries.push(entry);
        if failed {
            self.passed = false;
            self.block_level = Some(t.level);
        }
        self.next = i + 1;
        self.pending = false;
        proof {
            let es2 = self.entries@;
            assert(es2[i as int].status == res.stat);
            assert forall|x: int| #[trigger]
                blocked_at(self.tests@, es2, i + 1, x) == self.block_holds(x) by {
                lemma_blocked_step(self.tests@, es, es2, i as int, x);
                let m = if x < y {
                    x
                } else {
                    y
                };
                assert(!blocked_at(self.tests@, es, i as int, m));
            }
            assert forall|k: int| 0 <= k < es2.len() implies #[trigger] es2[k].status
                == TestState::Skip <==> skipped(self.tests@, es2, self.mask, k) by {
                if k < i {
                    lemma_blocked_prefix(self.tests@, es, es2, k, self.tests@[k].level as int);
                    assert(es2[k] == es[k]);
                } else {
                    lemma_blocked_prefix(self.tests@, es, es2, k, y);
                    assert(!blocked_at(self.tests@, es, i as int, y));
                }
            }
            assert forall|k: int| 0 <= k < es2.len() implies #[trigger] es2[k].name@
                == self.tests@[k].name@ && es2[k].level == self.tests@[k].level by {
                if k < i {
                    assert(es2[k] == es[k]);
                }
            }
            assert forall|k: int|
                0 <= k < es2.len() && #[trigger] es2[k].status == TestState::Skip
                    implies es2[k].message is None by {
                if k < i {
                    assert(es2[k] == es[k]);
                }
            }
            assert(self.passed <==> forall|k: int|
                0 <= k < es2.len() ==> #[trigger] es2[k].status != TestState::Fail) by {
                assert forall|k: int| 0 <= k < es2.len() - 1 implies es2[k] == es[k] by {}
                if self.passed {
                    assert forall|k: int| 0 <= k < es2.len() implies #[trigger] es2[k].status
                        != TestState::Fail by {
                        if k < i {
                            assert(es2[k] == es[k]);
                        }
                    }
                }
                if forall|k: int| 0 <= k < es2.len() ==> #[trigger] es2[k].status != TestState::Fail {
                    assert forall|k: int| 0 <= k < es.len() implies #[trigger] es[k].status
                        != TestState::Fail by {
                        assert(es2[k] == es[k]);
                    }
                }
            }
            if !self.quiet {
                assert forall|k: int|
                    0 <= k < es2.len() && #[trigger] es2[k].status == TestState::Skip
                        implies self.lines@[k]@ == skip_line(
                        self.tests@[k].name@,
                        self.tests@[k].level as nat,
                    ) by {
                    if k < i {
                        assert(es2[k] == es[k]);
                    }
                }
            }
            assert(es2.drop_last() =~= es);
            assert(self.wf());
            assert(forall|x: int|
                blocked_at(self.tests@, self.entries@, self.next as int, x) == self.block_holds(x));
        }
    }

    /// No check has failed so far.
    pub fn passed(&self) -> (r: bool)
        requires
            self.wf(),
        ensures
            r == self.all_passed(),
            r <==> forall|i: int|
                0 <= i < self.records().len() ==> #[trigger] self.records()[i].status
                    != TestState::Fail,
    {
        self.passed
    }

    /// The records so far.
    pub fn entries(&self) -> (r: &Vec<TestResultEntry>)
        ensures
            r@ == self.records(),
    {
        &self.entries
    }

    /// The report lines so far.
    pub fn lines(&self) -> (r: &Vec<String>)
        ensures
            r@ == self.report_lines(),
    {
        &self.lines
    }
}

} // verus!
