use snphost::json::{build_json_tree, entry_to_json, render_json, sw_to_json, TestJson};
use snphost::metadata::{category_to_snake, effective_hint, test_metadata, TestCategory, MSR_HINT, SUDO_HINT};
use snphost::model::{TestResultEntry, TestState};
use snphost::ok::{final_output, render_output, OutputMode, Rendered};
use snphost::platform::{SnpStatus, Tcb};
use snphost::report::{indent_message, min_version_of, render_short, render_verbose};
use snphost::software::{SoftwareVersion, SwStatus};

fn c(code: u8, s: &str) -> String {
    format!("\x1b[38;5;{}m{}\x1b[0m", code, s)
}

fn entry(name: &str, status: TestState, message: Option<&str>, level: usize) -> TestResultEntry {
    TestResultEntry { name: name.to_string(), status, message: message.map(|m| m.to_string()), level }
}

fn sw(name: &str, version: Option<&str>, status: SwStatus, detail: &str) -> SoftwareVersion {
    SoftwareVersion {
        name: name.to_string(),
        version: version.map(|v| v.to_string()),
        status,
        detail: detail.to_string(),
    }
}

fn sample_entries() -> Vec<TestResultEntry> {
    vec![
        entry("AMD CPU", TestState::Pass, None, 0),
        entry("SME", TestState::Fail, Some("MSR read failed: No such device"), 2),
        entry("Number of VMPLs", TestState::Skip, None, 4),
        entry("KVM Support", TestState::Pass, Some("API version: 12"), 0),
    ]
}

fn sample_software() -> Vec<SoftwareVersion> {
    vec![
        sw("Linux kernel", Some("6.11.0"), SwStatus::Supported, "kernel >= 6.11"),
        sw("QEMU", None, SwStatus::Missing, "qemu-system-x86_64 not found"),
        sw("libvirt", None, SwStatus::OptionalMissing, "virsh not found (optional, >= 4.5)"),
    ]
}

#[test]
fn metadata_lookup() {
    let m = test_metadata("AMD CPU");
    assert_eq!(m.category, TestCategory::CpuSupport);
    assert_eq!(m.label, "(CPU)");
    let p = test_metadata("Page flush MSR: ENABLED");
    assert_eq!(p.category, TestCategory::CpuInfo);
    assert_eq!(p.fix_hint, "(informational)");
    let k = test_metadata("KVM supported");
    assert_eq!(k.category, TestCategory::KvmConfig);
    let s = test_metadata("SEV-SNP");
    assert_eq!(s.label, "(BIOS)");
    let memlock = test_metadata("memlock limit");
    assert_eq!(memlock.category, TestCategory::Compliance);
    assert_eq!(memlock.fix_hint, "Set memlock unlimited in /etc/security/limits.conf");
    let fw = test_metadata("SEV Firmware Version");
    assert_eq!(fw.category, TestCategory::BiosConfigured);
    assert_eq!(fw.fix_hint, "Run with sudo. Update BIOS for firmware >= 1.51");
    let u = test_metadata("no such check");
    assert_eq!(u.category, TestCategory::CpuInfo);
    assert_eq!((u.label, u.description, u.fix_hint), ("", "", ""));
    assert_eq!(category_to_snake(&TestCategory::PlatformInitialized), "platform_initialized");
    assert_eq!(TestCategory::KvmConfig.title(), "KVM Config");
}

#[test]
fn hint_overrides() {
    let m = test_metadata("SEV firmware version");
    assert_eq!(effective_hint(&m, &Some("MSR read failed: x".to_string())), MSR_HINT);
    assert_eq!(effective_hint(&m, &Some("Failed to read the desired MSR: x".to_string())), MSR_HINT);
    assert_eq!(effective_hint(&m, &Some("Permission denied".to_string())), SUDO_HINT);
    assert_eq!(effective_hint(&m, &Some("other".to_string())), m.fix_hint);
    assert_eq!(effective_hint(&m, &None), "Run with sudo. Update BIOS for firmware >= 1.51");
}

#[test]
fn short_report_lines() {
    let lines = render_short(&sample_entries(), &sample_software());
    let expected = vec![
        c(1, "Failures:"),
        format!(
            "  {} SME (BIOS): MSR read failed: No such device\n    ^ {} {}",
            c(1, "FAIL"),
            c(4, "Hint:"),
            MSR_HINT
        ),
        format!("\n{}", c(3, "Software issues:")),
        format!("  {} QEMU: not found (qemu-system-x86_64 not found)", c(3, "WARN")),
        format!("\n{}:", c(3, "SKIPPED")),
        format!("  [{}] Number of VMPLs", c(3, "SKIP")),
        format!("  [{}] libvirt (Software)", c(3, "SKIP")),
        "\n7 tests: 3 passed, 2 failed, 2 skipped".to_string(),
    ];
    assert_eq!(lines, expected);
}

#[test]
fn short_report_all_passed() {
    let es = vec![entry("AMD CPU", TestState::Pass, None, 0)];
    let vs = vec![sw("OVMF", None, SwStatus::Supported, "OVMF firmware present")];
    let lines = render_short(&es, &vs);
    assert_eq!(
        lines,
        vec!["\n2 tests: 2 passed, 0 failed, 0 skipped".to_string(), c(2, "All tests passed.")]
    );
}

#[test]
fn verbose_report_lines() {
    let es = vec![
        entry("AMD CPU", TestState::Pass, None, 0),
        entry("SME", TestState::Fail, Some("Disabled in MSR"), 2),
        entry("Comparing TCB values", TestState::Pass, Some("TCB versions match \n\n Platform"), 0),
    ];
    let vs = vec![
        sw("Linux kernel", Some("6.8.0"), SwStatus::TooOld, "Need kernel >= 6.11 for SEV-SNP host support"),
        sw("libvirt", None, SwStatus::OptionalMissing, "virsh not found (optional, >= 4.5)"),
    ];
    let lines = render_verbose(&es, &vs);
    let expected = vec![
        "\n=== CPU Support ===".to_string(),
        format!("  [ {} ] AMD CPU", c(2, "PASS")),
        "           Checks CPU vendor string via CPUID is \"AuthenticAMD\"".to_string(),
        "\n=== BIOS Configured ===".to_string(),
        format!("  [ {} ] SME: Disabled in MSR", c(1, "FAIL")),
        "           Reads MSR 0xC0010010 (SYSCFG) bit 23 to verify SME enabled at system level".to_string(),
        format!("           {} BIOS: CBS > CPU Common > SMEE. Run: sudo modprobe msr", c(3, "Recommended:")),
        "\n=== Compliance ===".to_string(),
        format!(
            "  [ {} ] Comparing TCB values: TCB versions match \n             \n              Platform",
            c(2, "PASS")
        ),
        "           Compares platform_tcb_version with reported_tcb_version from SNP_PLATFORM_STATUS".to_string(),
        "\n=== Installed Components ===".to_string(),
        format!("  [ {} ] Linux kernel: 6.8.0 (min: 6.11 for SEV-SNP host support)", c(1, "FAIL")),
        format!("  [ {} ] libvirt: Not installed (min: 4.5))", c(3, "SKIP")),
        format!("\n{}", c(1, "=== DETECTED ISSUES ===")),
        "  1. SME [FAIL]".to_string(),
        format!("     {} BIOS: CBS > CPU Common > SMEE. Run: sudo modprobe msr", c(4, "Hint:")),
        "  - Linux kernel 6.8.0 (Need kernel >= 6.11 for SEV-SNP host support)".to_string(),
        String::new(),
        "For detailed troubleshooting, see: https://github.com/virtee/snphost/tree/main/docs/snphost-ok-reference.md".to_string(),
    ];
    assert_eq!(lines, expected);
}

#[test]
fn verbose_report_without_issues() {
    let lines = render_verbose(&vec![], &vec![]);
    assert_eq!(
        lines,
        vec!["\n=== Installed Components ===".to_string(), format!("\n{}", c(2, "No issues detected."))]
    );
}

#[test]
fn message_indentation_and_min_version() {
    assert_eq!(indent_message("a\nb"), "a\n             b");
    assert_eq!(min_version_of("kernel >= 6.11"), Some("6.11".to_string()));
    assert_eq!(min_version_of("OVMF firmware present"), None);
}

fn names(ts: &Vec<TestJson>) -> Vec<String> {
    ts.iter().map(|t| t.fields.name.clone()).collect()
}

#[test]
fn json_tree_nests_by_level() {
    let es = vec![
        entry("AMD CPU", TestState::Pass, None, 0),
        entry("Secure Memory Encryption (SME)", TestState::Pass, None, 2),
        entry("SME", TestState::Pass, Some("Enabled in MSR"), 4),
        entry("Page flush MSR", TestState::Pass, Some("ENABLED"), 2),
        entry("KVM Support", TestState::Pass, None, 0),
    ];
    let tree = build_json_tree(&es, &None);
    assert_eq!(names(&tree), vec!["AMD CPU", "KVM Support"]);
    assert_eq!(names(&tree[0].sub_tests), vec!["Secure Memory Encryption (SME)", "Page flush MSR"]);
    assert_eq!(names(&tree[0].sub_tests[0].sub_tests), vec!["SME"]);
    assert!(tree[0].sub_tests[1].sub_tests.is_empty());
    assert!(tree[1].sub_tests.is_empty());
}

#[test]
fn json_entry_fields() {
    let e = entry("SME", TestState::Fail, Some("Disabled in MSR"), 2);
    let j = entry_to_json(&e, &None);
    assert_eq!(j.name, "SME");
    assert_eq!(j.status, "fail");
    assert_eq!(j.category, "bios_configured");
    assert_eq!(j.label.as_deref(), Some("BIOS"));
    assert_eq!(j.message.as_deref(), Some("Disabled in MSR"));
    assert!(j.tcb.is_none());
    assert_eq!(j.fix_hint.as_deref(), Some("BIOS: CBS > CPU Common > SMEE. Run: sudo modprobe msr"));

    let tcb = Tcb { fmc: None, bootloader: 9, tee: 0, snp: 23, microcode: 213 };
    let other = Tcb { microcode: 200, ..tcb };
    let status = SnpStatus { state: 1, rmp_init: true, alias_check_complete: true, platform_tcb: tcb, reported_tcb: other };
    let t = entry("Compare TCB values", TestState::Fail, Some("The TCB versions did NOT match \n\n ..."), 0);
    let j = entry_to_json(&t, &Some(status));
    assert_eq!(j.message.as_deref(), Some("TCB versions do NOT match"));
    assert_eq!(j.label.as_deref(), Some("Compliance"));
    let tj = j.tcb.unwrap();
    assert!(!tj.versions_match);
    assert_eq!(tj.platform.microcode, 213);
    assert_eq!(tj.reported.microcode, 200);
    let unknown = entry_to_json(&entry("Number of VMPLs", TestState::Skip, None, 8), &None);
    assert_eq!(unknown.status, "skip");
    assert_eq!(unknown.label, None);
    assert_eq!(unknown.fix_hint.as_deref(), Some("(informational)"));
}

#[test]
fn json_summary_counts() {
    let report = render_json(&sample_entries(), &sample_software(), &None);
    assert_eq!(report.summary.passed, 3);
    assert_eq!(report.summary.failed, 2);
    assert_eq!(report.summary.skipped, 2);
    assert_eq!(report.summary.total, 7);
    assert_eq!(report.docs, "https://github.com/virtee/snphost/tree/main/docs/snphost-ok-reference.md");
    assert_eq!(report.software.len(), 3);
    let k = sw_to_json(&sample_software()[0]);
    assert_eq!(k.status, "supported");
    assert_eq!(k.min_version.as_deref(), Some("6.11"));
    assert_eq!(k.installed_version.as_deref(), Some("6.11.0"));
    assert_eq!(report.software[1].status, "not_installed");
    assert_eq!(report.software[2].min_version.as_deref(), Some("4.5)"));
}

#[test]
fn output_by_mode() {
    let es = sample_entries();
    let vs = sample_software();
    assert!(matches!(final_output(true, OutputMode::Verbose, &es, &vs, &None), Rendered::Nothing));
    assert!(matches!(final_output(true, OutputMode::Default, &es, &vs, &None), Rendered::Nothing));
    match final_output(true, OutputMode::Json, &es, &vs, &None) {
        Rendered::Json(j) => assert_eq!(j.summary.total, 7),
        _ => panic!("the JSON report is printed even when quiet"),
    }
    match final_output(false, OutputMode::Default, &es, &vs, &None) {
        Rendered::Lines(l) => {
            assert_eq!(l.len(), 3);
            assert_eq!(l[0], format!("[ {} ] - Linux kernel: 6.11.0 (Software)", c(2, "PASS")));
            assert_eq!(l[1], format!("[ {} ] - QEMU: Not installed (Software)", c(3, "SKIP")));
        }
        _ => panic!("expected lines"),
    }
    assert!(matches!(render_output(OutputMode::Json, &es, &vs, &None), Rendered::Json(_)));
    assert!(matches!(render_output(OutputMode::Default, &es, &vs, &None), Rendered::Nothing));
}
