//! Properties of the library as a whole, stated over the specifications of
//! its functions and proved.
use vstd::prelude::*;
use crate::generate_adoc::{
    byte_len, command_doc, command_head, full_command, has_options, has_positionals, has_visible,
    is_option, nontrivial, padding, subs_doc, visible, CommandInfo,
};
use crate::checks::{answers, judged, request_of, test_tree, Observation, Probe};
use crate::json::{
    entry_json, failed_count, forest_of, json_report, lemma_counts_partition,
    lemma_next_bounds, lemma_sw_counts_partition, next_at_or_above, passed_count, skipped_count,
    EntryJsonView, JsonReport, TestJson,
};
use crate::metadata::{
    category_key, category_title, has_entry, lemma_entry_has_description, metadata_of, TestCategory,
};
use crate::model::{TestResultEntry, TestState};
use crate::platform::SnpStatus;
use crate::runner::{gen_excluded, is_ancestor, skipped, Runner};
use crate::software::{SoftwareVersion, SwStatus};
use crate::report::{
    count_where, docs_line, gather, has_status, short_report, short_summary, sw_in, sw_issue_each,
    verbose_report,
};
use crate::software::version_or_not_found;
use crate::model::opt_view;
use crate::colors::painted;
use crate::text::spaces_of;
use crate::probes::page_flush_spec;

verus! {

/// With every generation included, no check of the tree is left out for its
/// generation.
pub proof fn law_all_generations_run(i: int)
    requires
        0 <= i < test_tree().len(),
    ensures
        !gen_excluded(test_tree()[i], 7),
{
    assert(1usize & 7usize == 1usize) by (bit_vector);
    assert(2usize & 7usize == 2usize) by (bit_vector);
    assert(4usize & 7usize == 4usize) by (bit_vector);
}

/// Every check of the tree has metadata of its own, with a description: none
/// falls through to the informational entry with empty texts.
pub proof fn law_every_check_has_metadata(i: int)
    requires
        0 <= i < test_tree().len(),
    ensures
        has_entry(test_tree()[i].name@),
        metadata_of(test_tree()[i].name@).description@.len() > 0,
{
    reveal_strlit("Compare TCB values");
    reveal_strlit("Compare TCB");
    reveal_strlit("Read RMP tables");
    reveal_strlit("Read RMP");
    assert("Page flush MSR"@.subrange(0, "Page flush MSR"@.len() as int) =~= "Page flush MSR"@);
    assert("Compare TCB values"@.subrange(0, "Compare TCB"@.len() as int) =~= "Compare TCB"@);
    assert("Read RMP tables"@.subrange(0, "Read RMP"@.len() as int) =~= "Read RMP"@);
    lemma_entry_has_description(test_tree()[i].name@);
}

/// Every name a check reports, whatever was read for it, has metadata of its
/// own, with a description: this covers the names that vary at run time, such
/// as the page flush check's name with its state appended.
pub proof fn law_every_result_has_metadata(p: Probe, o: Observation)
    requires
        answers(request_of(p), o),
    ensures
        has_entry(judged(p, o).name),
        metadata_of(judged(p, o).name).description@.len() > 0,
{
    let name = judged(p, o).name;
    reveal_strlit("Page flush MSR: ");
    reveal_strlit("Page flush MSR");
    reveal_strlit("Reading RMP table");
    reveal_strlit("RMP table addresses");
    reveal_strlit("RMP table address");
    match o {
        Observation::Cpuid { eax, .. } => {
            if name == page_flush_spec(eax).name {
                assert(name.subrange(0, "Page flush MSR"@.len() as int) =~= "Page flush MSR"@);
            }
            assert(has_entry(name));
        },
        Observation::Brand(..) => { assert(has_entry(name)); },
        Observation::Msr(..) => { assert(has_entry(name)); },
        Observation::Rmp(..) => {
            assert("Reading RMP table"@.subrange(0, "Reading RMP table"@.len() as int)
                =~= "Reading RMP table"@);
            assert("RMP table addresses"@.subrange(0, "RMP table address"@.len() as int)
                =~= "RMP table address"@);
            assert(has_entry(name));
        },
        Observation::Sev(..) => { assert(has_entry(name)); },
        Observation::Snp(..) => {
            reveal_strlit("Comparing TCB values");
            reveal_strlit("Comparing TCB");
            assert("Comparing TCB values"@.subrange(0, "Comparing TCB"@.len() as int)
                =~= "Comparing TCB"@);
            assert(has_entry(name));
        },
        Observation::Open(..) => { assert(has_entry(name)); },
        Observation::Kvm(..) => {
            assert("KVM supported"@.subrange(0, "KVM supported"@.len() as int) =~= "KVM supported"@);
            assert(has_entry(name));
        },
        Observation::Param(..) => { assert(has_entry(name)); },
        Observation::Memlock(..) => { assert(has_entry(name)); },
    }
    lemma_entry_has_description(name);
}

/// A finished walk over the tree of checks with every generation included
/// leaves one record per check, in the tree's order, with the check's name
/// and level; a check is skipped exactly where a check it is nested under did
/// not pass; and the walk passed exactly where no check failed.
pub proof fn law_full_walk(r: Runner)
    requires
        r.wf(),
        r.tests() == test_tree(),
        r.mask() == 7,
        r.done_count() == r.tests().len(),
    ensures
        r.records().len() == test_tree().len(),
        forall|i: int|
            0 <= i < test_tree().len() ==> (#[trigger] r.records()[i]).name@ == test_tree()[i].name@
                && r.records()[i].level == test_tree()[i].level,
        forall|i: int|
            0 <= i < test_tree().len() ==> ((#[trigger] r.records()[i]).status == TestState::Skip
                <==> exists|j: int|
                is_ancestor(test_tree(), j, i) && r.records()[j].status != TestState::Pass),
        r.all_passed() <==> forall|i: int|
            0 <= i < r.records().len() ==> (#[trigger] r.records()[i]).status != TestState::Fail,
{
    assert forall|i: int| 0 <= i < test_tree().len() implies ((#[trigger] r.records()[i]).status
        == TestState::Skip <==> exists|j: int|
        is_ancestor(test_tree(), j, i) && r.records()[j].status != TestState::Pass) by {
        law_all_generations_run(i);
        let t = r.tests();
        let es = r.records();
        assert(es[i].status == TestState::Skip <==> skipped(t, es, r.mask(), i));
        let blocked = crate::runner::blocked_at(t, es, i, t[i].level as int);
        assert(skipped(t, es, r.mask(), i) == blocked);
        if blocked {
            let j = choose|j: int|
                #[trigger] crate::runner::encloses(t, j, i, t[i].level as int) && es[j].status
                    != TestState::Pass;
            assert(is_ancestor(test_tree(), j, i));
        }
        if exists|j: int| is_ancestor(test_tree(), j, i) && es[j].status != TestState::Pass {
            let j = choose|j: int| is_ancestor(test_tree(), j, i) && es[j].status != TestState::Pass;
            assert(crate::runner::encloses(t, j, i, t[i].level as int));
            assert(blocked);
        }
    }
}

/// The JSON report's counts add up: the total is the number of checks plus
/// the number of software components.
pub proof fn law_json_total(
    r: JsonReport,
    es: Seq<TestResultEntry>,
    vs: Seq<SoftwareVersion>,
    status: Option<SnpStatus>,
)
    requires
        json_report(r, es, vs, status),
    ensures
        r.summary.total == r.summary.passed + r.summary.failed + r.summary.skipped,
        r.summary.total == es.len() + vs.len(),
{
    law_counts_add_up(es, vs);
}

/// Every check and every software component is counted exactly once as
/// passed, failed or skipped.
pub proof fn law_counts_add_up(es: Seq<TestResultEntry>, vs: Seq<SoftwareVersion>)
    ensures
        passed_count(es, vs) + failed_count(es, vs) + skipped_count(es, vs) == es.len() + vs.len(),
{
    lemma_counts_partition(es);
    lemma_sw_counts_partition(vs);
}

/// The nodes of a forest in pre-order: each node, then the nodes under it,
/// then the following trees.
pub open spec fn preorder(ts: Seq<TestJson>) -> Seq<EntryJsonView>
    decreases ts,
{
    if ts.len() == 0 {
        Seq::empty()
    } else {
        proof {
            assert(decreases_to!(ts => ts[0]));
            assert(decreases_to!(ts[0] => ts[0].sub_tests));
            assert(decreases_to!(ts[0].sub_tests => ts[0].sub_tests@));
            assert(decreases_to!(ts => ts.drop_first()));
        }
        seq![ts[0].fields@] + preorder(ts[0].sub_tests@) + preorder(ts.drop_first())
    }
}

/// The JSON tree holds the records' nodes exactly once each, in the order of
/// the records.
pub proof fn law_json_tree_is_records(
    ts: Seq<TestJson>,
    es: Seq<TestResultEntry>,
    status: Option<SnpStatus>,
)
    requires
        forest_of(ts, es, status),
    ensures
        preorder(ts) == es.map_values(|e: TestResultEntry| entry_json(e, status)),
    decreases es.len(),
{
    let f = |e: TestResultEntry| entry_json(e, status);
    if es.len() == 0 {
        assert(es.map_values(f) =~= Seq::<EntryJsonView>::empty());
    } else {
        let k = next_at_or_above(es, 1, es[0].level);
        lemma_next_bounds(es, 1, es[0].level);
        law_json_tree_is_records(ts[0].sub_tests@, es.subrange(1, k), status);
        law_json_tree_is_records(ts.drop_first(), es.subrange(k, es.len() as int), status);
        assert(es.map_values(f) =~= seq![f(es[0])] + es.subrange(1, k).map_values(f) + es.subrange(
            k,
            es.len() as int,
        ).map_values(f));
    }
}

/// A text shorter than the target width, followed by its padding, is exactly
/// as wide as the target; a longer one is followed by two spaces.
pub proof fn law_spacing_pads_to_width(text: Seq<char>, target: nat)
    ensures
        byte_len(text) < target ==> byte_len(text) + padding(byte_len(text), target).len()
            == target,
        byte_len(text) < target ==> padding(byte_len(text), target) == spaces_of(
            (target - byte_len(text)) as nat,
        ),
        byte_len(text) >= target ==> padding(byte_len(text), target) == "  "@,
{
}

/// Distinct categories have distinct headings and distinct JSON keys.
pub proof fn law_category_names_distinct(a: TestCategory, b: TestCategory)
    requires
        a != b,
    ensures
        category_key(a) != category_key(b),
        category_title(a) != category_title(b),
{
    reveal_strlit("CPU Support");
    reveal_strlit("CPU Info");
    reveal_strlit("BIOS Configured");
    reveal_strlit("Platform Initialized");
    reveal_strlit("KVM Config");
    reveal_strlit("Compliance");
    reveal_strlit("cpu_support");
    reveal_strlit("cpu_info");
    reveal_strlit("bios_configured");
    reveal_strlit("platform_initialized");
    reveal_strlit("kvm_config");
    reveal_strlit("compliance");
    assert(category_key(a).len() != category_key(b).len() || category_key(a)[0] != category_key(
        b,
    )[0] || category_key(a)[4] != category_key(b)[4]);
    assert(category_title(a).len() != category_title(b).len() || category_title(a)[0]
        != category_title(b)[0] || category_title(a)[4] != category_title(b)[4]);
}


/// Each CPU support check reads its own bit of EAX of CPUID leaf 0x8000001F
/// and nothing else: SME bit 0, SEV bit 1, SEV-ES bit 3, SEV-SNP bit 4 and
/// VMPL bit 5. It passes where that bit is set and fails otherwise, whatever
/// the other bits and registers hold.
pub proof fn law_support_checks_read_their_bit(eax: u32, ebx: u32, ecx: u32, edx: u32)
    ensures
        ({
            let o = Observation::Cpuid { eax, ebx, ecx, edx };
            let verdict = |set: bool| if set { TestState::Pass } else { TestState::Fail };
            &&& judged(Probe::SmeSupport, o).stat == verdict(eax & 0x01 != 0)
            &&& judged(Probe::SevSupport, o).stat == verdict(eax & 0x02 != 0)
            &&& judged(Probe::EsSupport, o).stat == verdict(eax & 0x08 != 0)
            &&& judged(Probe::SnpSupport, o).stat == verdict(eax & 0x10 != 0)
            &&& judged(Probe::VmplSupport, o).stat == verdict(eax & 0x20 != 0)
            &&& judged(Probe::SmeSupport, o).name == "Secure Memory Encryption (SME)"@
            &&& judged(Probe::SevSupport, o).name == "Secure Encrypted Virtualization (SEV)"@
            &&& judged(Probe::EsSupport, o).name == "Encrypted State (SEV-ES)"@
            &&& judged(Probe::SnpSupport, o).name == "Secure Nested Paging (SEV-SNP)"@
            &&& judged(Probe::VmplSupport, o).name == "VM Permission Levels"@
        }),
{
    assert(((eax >> 0u32) & 1 == 1) == (eax & 0x01 != 0)) by (bit_vector);
    assert(((eax >> 1u32) & 1 == 1) == (eax & 0x02 != 0)) by (bit_vector);
    assert(((eax >> 3u32) & 1 == 1) == (eax & 0x08 != 0)) by (bit_vector);
    assert(((eax >> 4u32) & 1 == 1) == (eax & 0x10 != 0)) by (bit_vector);
    assert(((eax >> 5u32) & 1 == 1) == (eax & 0x20 != 0)) by (bit_vector);
}


/// A count is zero exactly where no element is kept.
proof fn lemma_count_zero<T>(s: Seq<T>, keep: spec_fn(T) -> bool)
    ensures
        count_where(s, keep) == 0 <==> forall|i: int| 0 <= i < s.len() ==> !keep(#[trigger] s[i]),
    decreases s.len(),
{
    if s.len() > 0 {
        lemma_count_zero(s.drop_last(), keep);
        if count_where(s, keep) == 0 {
            assert forall|i: int| 0 <= i < s.len() implies !keep(#[trigger] s[i]) by {
                if i < s.len() - 1 {
                    assert(s.drop_last()[i] == s[i]);
                }
            }
        }
        if forall|i: int| 0 <= i < s.len() ==> !keep(#[trigger] s[i]) {
            assert forall|i: int| 0 <= i < s.drop_last().len() implies !keep(
                #[trigger] s.drop_last()[i],
            ) by {
                assert(s.drop_last()[i] == s[i]);
            }
            assert(!keep(s[s.len() - 1]));
        }
    }
}

/// No check failed.
pub open spec fn no_check_failed(es: Seq<TestResultEntry>) -> bool {
    forall|i: int| 0 <= i < es.len() ==> (#[trigger] es[i]).status != TestState::Fail
}

/// No software component is too old or missing (an optional one may be).
pub open spec fn no_software_problem(vs: Seq<SoftwareVersion>) -> bool {
    forall|j: int|
        0 <= j < vs.len() ==> (#[trigger] vs[j]).status != SwStatus::TooOld && vs[j].status
            != SwStatus::Missing
}

/// The short report ends with the all-passed line exactly when no check
/// failed and no software component is too old or missing; otherwise it ends
/// with the summary counts.
pub proof fn law_short_report_all_passed(es: Seq<TestResultEntry>, vs: Seq<SoftwareVersion>)
    ensures
        short_report(es, vs).len() > 0,
        short_report(es, vs).last() == painted(seq!['2'], "All tests passed."@) <==> no_check_failed(es)
            && no_software_problem(vs),
        !(no_check_failed(es) && no_software_problem(vs)) ==> short_report(es, vs).last()
            == short_summary(es, vs),
{
    lemma_count_zero(es, has_status(TestState::Fail));
    lemma_count_zero(vs, sw_in(SwStatus::TooOld, SwStatus::Missing));
    reveal_strlit("\n");
    let sum = short_summary(es, vs);
    assert(sum[0] == '\n');
    assert(painted(seq!['2'], "All tests passed."@)[0] == '\u{1b}');
}

/// The verbose report ends with the line saying no issue was detected
/// exactly when no check failed and no software component is too old or
/// missing; otherwise it ends with the detected issues, closed by the pointer
/// to the troubleshooting guide.
pub proof fn law_verbose_report_issues(es: Seq<TestResultEntry>, vs: Seq<SoftwareVersion>)
    ensures
        verbose_report(es, vs).len() > 0,
        verbose_report(es, vs).last() == "\n"@ + painted(seq!['2'], "No issues detected."@)
            <==> no_check_failed(es) && no_software_problem(vs),
        !(no_check_failed(es) && no_software_problem(vs)) ==> verbose_report(es, vs).last()
            == docs_line(),
{
    lemma_count_zero(es, has_status(TestState::Fail));
    lemma_count_zero(vs, sw_in(SwStatus::TooOld, SwStatus::Missing));
    reveal_strlit("\n");
    let ok_line = "\n"@ + painted(seq!['2'], "No issues detected."@);
    assert(ok_line[0] == '\n');
    reveal_strlit(
        "For detailed troubleshooting, see: https://github.com/virtee/snphost/tree/main/docs/snphost-ok-reference.md",
    );
    assert(docs_line()[0] != '\n');
}


/// Every line that `f` gives for an element of `s` is among the lines that
/// `gather` collects.
proof fn lemma_gather_has<T>(s: Seq<T>, f: spec_fn(T) -> Seq<Seq<char>>, j: int, k: int)
    requires
        0 <= j < s.len(),
        0 <= k < f(s[j]).len(),
    ensures
        gather(s, f).contains(f(s[j])[k]),
    decreases s.len(),
{
    let g = gather(s.drop_last(), f);
    if j == s.len() - 1 {
        assert(gather(s, f)[g.len() + k] == f(s[j])[k]);
    } else {
        assert(s.drop_last()[j] == s[j]);
        lemma_gather_has(s.drop_last(), f, j, k);
        let w = choose|w: int| 0 <= w < g.len() && g[w] == f(s[j])[k];
        assert(gather(s, f)[w] == f(s[j])[k]);
    }
}

/// Where some check failed or some software component is too old or
/// missing, the verbose report lists every too-old or missing component with
/// its version (or "not found") and what it needs.
pub proof fn law_verbose_report_lists_software_issues(
    es: Seq<TestResultEntry>,
    vs: Seq<SoftwareVersion>,
    j: int,
)
    requires
        0 <= j < vs.len(),
        vs[j].status == SwStatus::TooOld || vs[j].status == SwStatus::Missing,
    ensures
        verbose_report(es, vs).contains(
            "  - "@ + vs[j].name@ + " "@ + version_or_not_found(opt_view(vs[j].version)) + " ("@
                + vs[j].detail@ + ")"@,
        ),
{
    lemma_count_zero(vs, sw_in(SwStatus::TooOld, SwStatus::Missing));
    assert(!no_software_problem(vs));
    lemma_gather_has(vs, sw_issue_each(), j, 0);
    let line = "  - "@ + vs[j].name@ + " "@ + version_or_not_found(opt_view(vs[j].version)) + " ("@
        + vs[j].detail@ + ")"@;
    let g = gather(vs, sw_issue_each());
    let w = choose|w: int| 0 <= w < g.len() && g[w] == line;
    let r = verbose_report(es, vs);
    let tail_start = r.len() - 2 - g.len();
    assert(r[tail_start + w] == line);
}


/// The JSON node of the TCB comparison check says whether the platform and
/// reported TCB versions match. For a record whose message is the one the
/// check gave on a platform status, the node's message is "TCB versions
/// match" exactly where the status could be had and its two TCB versions are
/// equal, and "TCB versions do NOT match" otherwise.
pub proof fn law_tcb_node_says_whether_versions_match(
    e: TestResultEntry,
    platform: Result<SnpStatus, String>,
    status: Option<SnpStatus>,
)
    requires
        e.name@ == "Compare TCB values"@ || e.name@ == "Comparing TCB values"@,
        opt_view(e.message) == judged(Probe::Tcb, Observation::Snp(platform)).mesg,
    ensures
        entry_json(e, status).message == Some(
            if platform matches Ok(s) && s.platform_tcb == s.reported_tcb {
                "TCB versions match"@
            } else {
                "TCB versions do NOT match"@
            },
        ),
{
    let m = "TCB versions match"@;
    reveal_strlit("TCB versions match");
    reveal_strlit("The TCB versions did NOT match");
    reveal_strlit("Failed to get SNP Platform status ");
    reveal_strlit("Compare TCB values");
    reveal_strlit("Comparing TCB values");
    reveal_strlit("Compare TCB");
    reveal_strlit("Comparing TCB");
    assert(e.name@.subrange(0, "Compare TCB"@.len() as int) =~= "Compare TCB"@ || e.name@.subrange(
        0,
        "Comparing TCB"@.len() as int,
    ) =~= "Comparing TCB"@);
    let msg = judged(Probe::Tcb, Observation::Snp(platform)).mesg->0;
    match platform {
        Ok(s) => {
            if s.platform_tcb == s.reported_tcb {
                assert(msg.subrange(0, m.len() as int) =~= m);
            } else {
                assert(msg[1] != m[1]);
            }
        },
        Err(_) => {
            assert(msg[0] != m[0]);
        },
    }
}


/// The subcommand blocks of a command whose subcommands are those of `cmd`
/// followed by `leaf` are those of `cmd`, then the block of `leaf` where it is
/// listed and has something of its own to document.
proof fn lemma_subs_doc_push(
    root: Seq<char>,
    cmd: CommandInfo,
    cmd2: CommandInfo,
    leaf: CommandInfo,
    path: Seq<Seq<char>>,
    i: int,
)
    requires
        cmd2.subcommands@ == cmd.subcommands@.push(leaf),
        0 <= i <= cmd.subcommands@.len(),
    ensures
        subs_doc(root, cmd2, path, i) == subs_doc(root, cmd, path, i) + (if visible(leaf)
            && nontrivial(leaf) {
            command_doc(root, leaf, path)
        } else {
            Seq::empty()
        }),
    decreases cmd.subcommands@.len() - i,
{
    let n = cmd.subcommands@.len() as int;
    if i == n {
        assert(subs_doc(root, cmd2, path, n + 1) == Seq::<char>::empty());
        assert(subs_doc(root, cmd, path, n) == Seq::<char>::empty());
        assert(subs_doc(root, cmd2, path, n) =~= subs_doc(root, cmd, path, i) + (if visible(leaf)
            && nontrivial(leaf) {
            command_doc(root, leaf, path)
        } else {
            Seq::empty()
        }));
    } else {
        lemma_subs_doc_push(root, cmd, cmd2, leaf, path, i + 1);
        assert(cmd2.subcommands@[i] == cmd.subcommands@[i]);
        let sc = cmd.subcommands@[i];
        let own = if visible(sc) && nontrivial(sc) {
            command_doc(root, sc, path)
        } else {
            Seq::empty()
        };
        let extra = if visible(leaf) && nontrivial(leaf) {
            command_doc(root, leaf, path)
        } else {
            Seq::empty()
        };
        assert(subs_doc(root, cmd2, path, i) == own + subs_doc(root, cmd2, path, i + 1));
        assert(own + (subs_doc(root, cmd, path, i + 1) + extra) =~= (own + subs_doc(
            root,
            cmd,
            path,
            i + 1,
        )) + extra);
    }
}

/// A subcommand with nothing of its own to document: no positional argument,
/// no option but help and version, and no listed subcommand.
pub open spec fn bare_leaf(c: CommandInfo) -> bool {
    &&& forall|j: int|
        0 <= j < c.args@.len() ==> !(#[trigger] c.args@[j]).positional && (c.args@[j].id@
            == "help"@ || c.args@[j].id@ == "version"@)
    &&& forall|k: int|
        0 <= k < c.subcommands@.len() ==> (#[trigger] c.subcommands@[k]).hidden
            || c.subcommands@[k].name@ == "help"@
}

/// Adding a subcommand `leaf` to a command changes its page as follows. The
/// command's own head (usage, summary table, arguments) is that of the
/// extended command; the blocks that follow it are those it had, then a block
/// of `leaf`'s own exactly where `leaf` is listed (not hidden, not `help`) and
/// is not a bare leaf: a bare leaf appears only in its parent's summary
/// table.
pub proof fn law_subcommand_blocks(
    root: Seq<char>,
    cmd: CommandInfo,
    cmd2: CommandInfo,
    leaf: CommandInfo,
    parent: Seq<Seq<char>>,
)
    requires
        cmd2.name@ == cmd.name@,
        cmd2.subcommands@ == cmd.subcommands@.push(leaf),
    ensures
        ({
            let path = parent.push(cmd.name@);
            let full = full_command(root, path);
            let rest = command_doc(root, cmd, parent).subrange(
                command_head(full, cmd).len() as int,
                command_doc(root, cmd, parent).len() as int,
            );
            &&& (bare_leaf(leaf) || leaf.hidden || leaf.name@ == "help"@) ==> command_doc(
                root,
                cmd2,
                parent,
            ) == command_head(full, cmd2) + rest
            &&& !(bare_leaf(leaf) || leaf.hidden || leaf.name@ == "help"@) ==> command_doc(
                root,
                cmd2,
                parent,
            ) == command_head(full, cmd2) + rest + command_doc(root, leaf, path)
        }),
{
    let path = parent.push(cmd.name@);
    let full = full_command(root, path);
    lemma_subs_doc_push(root, cmd, cmd2, leaf, path, 0);
    let head = command_head(full, cmd);
    assert(command_doc(root, cmd, parent) == head + subs_doc(root, cmd, path, 0));
    assert((head + subs_doc(root, cmd, path, 0)).subrange(
        head.len() as int,
        (head + subs_doc(root, cmd, path, 0)).len() as int,
    ) =~= subs_doc(root, cmd, path, 0));
    if bare_leaf(leaf) {
        assert(!has_positionals(leaf.args@));
        assert(!has_options(leaf.args@));
        assert(!has_visible(leaf.subcommands@));
    }
    if !(bare_leaf(leaf) || leaf.hidden || leaf.name@ == "help"@) {
        assert(visible(leaf));
        if !nontrivial(leaf) {
            assert forall|j: int| 0 <= j < leaf.args@.len() implies !(
            #[trigger] leaf.args@[j]).positional && (leaf.args@[j].id@ == "help"@
                || leaf.args@[j].id@ == "version"@) by {
                assert(!is_option(leaf.args@[j]));
            }
            assert forall|k: int| 0 <= k < leaf.subcommands@.len() implies (
            #[trigger] leaf.subcommands@[k]).hidden || leaf.subcommands@[k].name@ == "help"@ by {
                assert(!visible(leaf.subcommands@[k]));
            }
        }
    }
}

} // verus!
