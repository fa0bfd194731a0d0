use snphost::checks::{collect_tests, evaluate, request_for, Observation, Probe, Request, SEV_MASK};
use snphost::metadata::test_metadata;
use snphost::model::TestState;
use snphost::ok::{all_generations, conclude, outcome, suppress_print, OkArgs, OutputMode, Rendered};
use snphost::platform::{PlatformState, SevStatus, SnpStatus, Tcb};
use snphost::probes::ParamRead;
use snphost::runner::Runner;

fn skip_line(name: &str, level: usize) -> String {
    format!("[ \x1b[38;5;3mSKIP\x1b[0m ] {}- {}", " ".repeat(level), name)
}

/// What a healthy SNP host reads, except for the probes listed as failing.
fn observe(p: Probe, failing: &[Probe]) -> Observation {
    let bad = failing.contains(&p);
    let tcb = Tcb { fmc: None, bootloader: 9, tee: 0, snp: 23, microcode: 213 };
    match request_for(p) {
        Request::Cpuid(0) => Observation::Cpuid {
            eax: 0,
            ebx: 0x6874_7541,
            ecx: if bad { 0 } else { 0x444d_4163 },
            edx: 0x6974_6e65,
        },
        Request::Cpuid(_) => Observation::Cpuid {
            eax: if bad { 0 } else { 0x3f },
            ebx: 0x4000_0000 | (4 << 12) | (1 << 6) | 51,
            ecx: 509,
            edx: 100,
        },
        Request::CpuidBrand => {
            let mut bytes = b"AMD EPYC 7763 64-Core Processor".to_vec();
            bytes.resize(48, 0);
            Observation::Brand(
                bytes.chunks(4).map(|c| u32::from_le_bytes([c[0], c[1], c[2], c[3]])).collect(),
            )
        }
        Request::Msr(_) => Observation::Msr(if bad { Ok(0) } else { Ok((1 << 23) | (1 << 24)) }),
        Request::RmpMsrs => Observation::Rmp(Ok(0x1000), Ok(0x2000)),
        Request::SevStatus => Observation::Sev(Ok(SevStatus {
            state: PlatformState::Initialized,
            major: 1,
            minor: 55,
            flags: 0x100,
        })),
        Request::SnpStatus => Observation::Snp(Ok(SnpStatus {
            state: if bad { 0 } else { 1 },
            rmp_init: true,
            alias_check_complete: true,
            platform_tcb: tcb,
            reported_tcb: tcb,
        })),
        Request::OpenSev { .. } => Observation::Open(Ok(())),
        Request::KvmApiVersion => Observation::Kvm(if bad { Ok(-1) } else { Ok(12) }),
        Request::KvmParam(_) => Observation::Param(ParamRead::Contents("Y\n".to_string())),
        Request::Memlock => Observation::Memlock(Some((8192, 8192))),
    }
}

fn walk(mask: usize, quiet: bool, failing: &[Probe]) -> Runner {
    let mut r = Runner::new(collect_tests(), mask, quiet);
    while let Some(p) = r.advance() {
        let obs = observe(p, failing);
        r.record(&obs);
    }
    r
}

#[test]
fn healthy_host_passes_everything() {
    let r = walk(all_generations(), false, &[]);
    assert!(r.passed());
    assert_eq!(r.entries().len(), 30);
    assert!(r.entries().iter().all(|e| e.status == TestState::Pass));
    assert_eq!(r.lines().len(), 30);
    assert_eq!(r.lines()[0], "[ \x1b[38;5;2mPASS\x1b[0m ] - AMD CPU (CPU)");
    assert_eq!(
        r.lines()[3],
        "[ \x1b[38;5;2mPASS\x1b[0m ]     - SME (BIOS): Enabled in MSR"
    );
    let names: Vec<&str> = r.entries().iter().map(|e| e.name.as_str()).collect();
    let tree: Vec<&str> = collect_tests().iter().map(|t| t.name).collect();
    assert_eq!(names, tree);
}

#[test]
fn failed_check_skips_what_is_nested_under_it() {
    let r = walk(all_generations(), false, &[Probe::SnpSupport]);
    assert!(!r.passed());
    let e = r.entries();
    assert_eq!(e[9].name, "Secure Nested Paging (SEV-SNP)");
    assert_eq!(e[9].status, TestState::Fail);
    for i in 10..17 {
        assert_eq!(e[i].status, TestState::Skip, "{}", e[i].name);
        assert_eq!(e[i].message, None);
        assert_eq!(r.lines()[i], skip_line(&e[i].name, e[i].level));
    }
    // The checks after the failed subtree run again.
    assert_eq!(e[17].name, "Physical address bit reduction");
    assert_eq!(e[17].status, TestState::Pass);
    assert_eq!(e.iter().filter(|x| x.status == TestState::Fail).count(), 1);
}

#[test]
fn failure_line_carries_hint() {
    let r = walk(all_generations(), false, &[Probe::SmeMsr]);
    assert_eq!(
        r.lines()[3],
        format!(
            "[ \x1b[38;5;1mFAIL\x1b[0m ]     - SME (BIOS): Disabled in MSR\n{}  ^ \x1b[38;5;4mHint:\x1b[0m BIOS: CBS > CPU Common > SMEE. Run: sudo modprobe msr",
            " ".repeat(14)
        )
    );
}

#[test]
fn failed_root_skips_its_whole_tree() {
    let r = walk(all_generations(), true, &[Probe::AmdCpu]);
    assert!(!r.passed());
    assert!(r.lines().is_empty());
    let e = r.entries();
    assert_eq!(e[0].status, TestState::Fail);
    assert!(e[1..24].iter().all(|x| x.status == TestState::Skip));
    assert_eq!(e[24].name, "KVM Support");
    assert_eq!(e[24].status, TestState::Pass);
}

#[test]
fn generation_mask_skips_newer_checks() {
    let r = walk(SEV_MASK, true, &[]);
    assert!(r.passed());
    let e = r.entries();
    assert_eq!(e[5].name, "SEV Firmware Version");
    assert_eq!(e[5].status, TestState::Skip);
    assert_eq!(e[6].status, TestState::Skip);
    assert_eq!(e[7].status, TestState::Skip);
    assert_eq!(e[9].status, TestState::Skip);
    assert_eq!(e[16].status, TestState::Skip);
    assert_eq!(e[17].status, TestState::Pass);
    assert_eq!(e[29].status, TestState::Skip);
}

#[test]
fn kvm_failure_fails_the_run() {
    let r = walk(all_generations(), true, &[Probe::Kvm]);
    assert!(!r.passed());
    let e = r.entries();
    assert_eq!(e[24].status, TestState::Fail);
    assert_eq!(e[24].message.as_deref(), Some("Error - accessing KVM device node failed"));
    assert!(e[25..28].iter().all(|x| x.status == TestState::Skip));
    assert_eq!(e[28].status, TestState::Pass);
    assert_eq!(outcome(r.passed()), Err("One or more tests in snphost ok reported a failure".to_string()));
    assert_eq!(outcome(true), Ok(()));
}

#[test]
fn exit_status_ignores_quiet_mode_and_software() {
    let failure = Err("One or more tests in snphost ok reported a failure".to_string());
    for quiet in [false, true] {
        for mode in [OutputMode::Default, OutputMode::Short, OutputMode::Verbose, OutputMode::Json] {
            let bad = walk(all_generations(), quiet, &[Probe::Kvm]);
            assert_eq!(conclude(quiet, mode, &bad, &vec![], &None).1, failure);
            let good = walk(all_generations(), quiet, &[]);
            assert_eq!(conclude(quiet, mode, &good, &vec![], &None).1, Ok(()));
        }
    }
    let good = walk(all_generations(), true, &[]);
    assert!(matches!(conclude(true, OutputMode::Short, &good, &vec![], &None).0, Rendered::Nothing));
}

#[test]
fn modes_and_printing() {
    let a = |short, verbose, json| OkArgs { short, verbose, json }.output_mode();
    assert_eq!(a(true, true, true), OutputMode::Json);
    assert_eq!(a(true, true, false), OutputMode::Verbose);
    assert_eq!(a(true, false, false), OutputMode::Short);
    assert_eq!(a(false, false, false), OutputMode::Default);
    assert!(!suppress_print(false, OutputMode::Default));
    assert!(suppress_print(true, OutputMode::Default));
    assert!(suppress_print(false, OutputMode::Short));
    assert_eq!(all_generations(), 7);
}

#[test]
fn every_reported_name_has_metadata() {
    for t in collect_tests() {
        for failing in [&[][..], &[t.probe][..]] {
            let r = evaluate(t.probe, &observe(t.probe, failing));
            assert!(!test_metadata(&r.name).description.is_empty(), "{}", r.name);
        }
        assert!(!test_metadata(t.name).description.is_empty(), "{}", t.name);
    }
    let rmp = evaluate(Probe::RmpAddress, &Observation::Rmp(Err("denied".to_string()), Ok(1)));
    assert_eq!(rmp.name, "Reading RMP table");
    assert!(!test_metadata(&rmp.name).description.is_empty());
}
