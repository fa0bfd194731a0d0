use snphost::checks::{
    collect_tests, evaluate, request_for, Observation, Probe, Request, ES_MASK, SEV_MASK, SNP_MASK,
};
use snphost::model::{TestResult, TestState};
use snphost::platform::{format_tcb, format_version, PlatformState, SevStatus, SnpStatus, Tcb};
use snphost::probes::{
    amd_cpu, cpuid_info, dev_sev_r, dev_sev_w, encryption_support, get_rmp_address,
    has_kvm_support, kvm_param_path, memlock_rlimit, microcode_support, page_flush, processor_verdict,
    sev_enabled_in_kvm, sev_ioctl, sme_test, snp_ioctl, snp_test, ParamRead, SevGeneration,
    SevStatusTests, SnpStatusTest,
};

fn green(s: &str) -> String {
    format!("\x1b[38;5;2m{}\x1b[0m", s)
}

fn yellow(s: &str) -> String {
    format!("\x1b[38;5;3m{}\x1b[0m", s)
}

fn regs_of(text: &[u8]) -> Vec<u32> {
    let mut bytes = text.to_vec();
    bytes.resize(48, 0);
    bytes
        .chunks(4)
        .map(|c| u32::from_le_bytes([c[0], c[1], c[2], c[3]]))
        .collect()
}

fn check(r: &TestResult, name: &str, stat: TestState, mesg: Option<&str>) {
    assert_eq!(r.name, name);
    assert_eq!(r.stat, stat);
    assert_eq!(r.mesg.as_deref(), mesg);
}

#[test]
fn vendor_authentic_amd_passes() {
    // "Auth" "enti" "cAMD" as CPUID leaf 0 returns them in EBX, EDX, ECX.
    let r = amd_cpu(0x6874_7541, 0x6974_6e65, 0x444d_4163);
    check(&r, "AMD CPU", TestState::Pass, None);
}

#[test]
fn vendor_other_fails() {
    // "Genu" "ineI" "ntel"
    let r = amd_cpu(0x756e_6547, 0x4965_6e69, 0x6c65_746e);
    check(&r, "AMD CPU", TestState::Fail, None);
}

#[test]
fn vendor_bytes_not_utf8_fail() {
    let r = amd_cpu(0xffff_ffff, 0, 0);
    check(&r, "AMD CPU", TestState::Fail, None);
}

#[test]
fn brand_with_epyc_passes() {
    let r = microcode_support(&regs_of(b"AMD EPYC 7763 64-Core Processor"));
    check(&r, "Microcode support", TestState::Pass, None);
    let lower = microcode_support(&regs_of(b"  amd epyc 9654  "));
    check(&lower, "Microcode support", TestState::Pass, None);
    let other = microcode_support(&regs_of(b"AMD Ryzen 9 7950X"));
    check(&other, "Microcode support", TestState::Fail, None);
}

#[test]
fn processor_verdict_wants_epyc() {
    check(&processor_verdict("AMD EPYC 7763"), "Microcode support", TestState::Pass, None);
    check(&processor_verdict("amd epyc 7763"), "Microcode support", TestState::Fail, None);
}

#[test]
fn support_bits_test_their_own_bit() {
    check(&encryption_support("SME", 0x1, 0), "SME", TestState::Pass, None);
    check(&encryption_support("SME", 0x2, 0), "SME", TestState::Fail, None);
    check(&encryption_support("SEV", 0x2, 1), "SEV", TestState::Pass, None);
    check(&encryption_support("SEV", 0x1, 1), "SEV", TestState::Fail, None);
    check(&encryption_support("ES", 0x8, 3), "ES", TestState::Pass, None);
    check(&encryption_support("ES", 0x7, 3), "ES", TestState::Fail, None);
    check(&encryption_support("SNP", 0x10, 4), "SNP", TestState::Pass, None);
    check(&encryption_support("VMPL", 0x1f, 5), "VMPL", TestState::Fail, None);
    check(&encryption_support("VMPL", 0x20, 5), "VMPL", TestState::Pass, None);
}

#[test]
fn informational_values_are_decimal() {
    check(&cpuid_info("C-bit location", 51), "C-bit location", TestState::Pass, Some("51"));
    check(&cpuid_info("x", 0), "x", TestState::Pass, Some("0"));
    check(&cpuid_info("x", 4294967295), "x", TestState::Pass, Some("4294967295"));
}

#[test]
fn page_flush_reports_state() {
    let on = page_flush(0b100);
    check(
        &on,
        &format!("Page flush MSR: {}", green("ENABLED")),
        TestState::Pass,
        Some("ENABLED"),
    );
    let off = page_flush(0b011);
    check(
        &off,
        &format!("Page flush MSR: {}", yellow("DISABLED")),
        TestState::Pass,
        Some("DISABLED"),
    );
}

#[test]
fn syscfg_bits() {
    check(&sme_test(&Ok(1 << 23)), "SME", TestState::Pass, Some("Enabled in MSR"));
    check(&sme_test(&Ok(1 << 24)), "SME", TestState::Fail, Some("Disabled in MSR"));
    check(&snp_test(&Ok(1 << 24)), "SNP", TestState::Pass, Some("Enabled in MSR"));
    check(
        &sme_test(&Err("No such device".to_string())),
        "SME",
        TestState::Fail,
        Some("MSR read failed: No such device"),
    );
}

#[test]
fn rmp_addresses() {
    check(
        &get_rmp_address(&Ok(0x18278900000), &Ok(0x183fc9fffff)),
        "RMP table addresses",
        TestState::Pass,
        Some("0x18278900000 - 0x183fc9fffff"),
    );
    check(
        &get_rmp_address(&Ok(0), &Ok(5)),
        "Reading RMP table",
        TestState::Fail,
        Some("RMP table was not read successfully"),
    );
    check(
        &get_rmp_address(&Err("denied".to_string()), &Err(String::new())),
        "Reading RMP table",
        TestState::Fail,
        Some("Failed to read the desired MSR: denied"),
    );
    check(
        &get_rmp_address(&Ok(1), &Err("gone".to_string())),
        "Reading RMP table",
        TestState::Fail,
        Some("Failed to read the desired MSR: gone"),
    );
}

fn tcb(fmc: Option<u8>, microcode: u8) -> Tcb {
    Tcb { fmc, bootloader: 9, tee: 0, snp: 23, microcode }
}

fn snp_status(platform: Tcb, reported: Tcb) -> SnpStatus {
    SnpStatus {
        state: 1,
        rmp_init: true,
        alias_check_complete: false,
        platform_tcb: platform,
        reported_tcb: reported,
    }
}

#[test]
fn tcb_rendering() {
    assert_eq!(
        format_tcb(&tcb(None, 213)),
        "TCB Version:\n  Microcode:   213\n  SNP:         23\n  TEE:         0\n  Boot Loader: 9\n  FMC:         None"
    );
    assert_eq!(
        format_tcb(&tcb(Some(1), 0)),
        "TCB Version:\n  Microcode:   0\n  SNP:         23\n  TEE:         0\n  Boot Loader: 9\n  FMC:         1"
    );
    assert_eq!(format_version(1, 55), "1.55");
}

#[test]
fn snp_status_checks() {
    let same = snp_status(tcb(None, 213), tcb(None, 213));
    let r = snp_ioctl(SnpStatusTest::Tcb, &Ok(same));
    let t = format_tcb(&tcb(None, 213));
    check(
        &r,
        "Comparing TCB values",
        TestState::Pass,
        Some(&format!(
            "TCB versions match \n\n Platform TCB version: {} \n Reported TCB version: {}",
            t, t
        )),
    );
    let differ = snp_status(tcb(None, 213), tcb(None, 200));
    let r = snp_ioctl(SnpStatusTest::Tcb, &Ok(differ));
    assert_eq!(r.stat, TestState::Fail);
    assert!(r.mesg.unwrap().starts_with("The TCB versions did NOT match \n\n Platform TCB version: "));
    check(&snp_ioctl(SnpStatusTest::Rmp, &Ok(same)), "RMP table initialized", TestState::Pass, None);
    check(&snp_ioctl(SnpStatusTest::AliasCheck, &Ok(same)), "Alias check", TestState::Fail, None);
    check(&snp_ioctl(SnpStatusTest::Snp, &Ok(same)), "SNP initialized", TestState::Pass, None);
    check(
        &snp_ioctl(SnpStatusTest::Snp, &Err("Permission denied (os error 13)".to_string())),
        "SNP initialized",
        TestState::Fail,
        Some("Failed to get SNP Platform status Permission denied (os error 13)"),
    );
}

fn sev(state: PlatformState, major: u8, minor: u8, flags: u32) -> SevStatus {
    SevStatus { state, major, minor, flags }
}

#[test]
fn sev_status_checks() {
    check(
        &sev_ioctl(SevStatusTests::Sev, &Ok(sev(PlatformState::Working, 1, 55, 0))),
        "SEV initialized",
        TestState::Pass,
        Some("Initialized, currently running a guest"),
    );
    check(
        &sev_ioctl(SevStatusTests::Sev, &Ok(sev(PlatformState::Initialized, 1, 55, 0))),
        "SEV initialized",
        TestState::Pass,
        Some("Initialized, no guests running"),
    );
    check(
        &sev_ioctl(SevStatusTests::Sev, &Ok(sev(PlatformState::Uninitialized, 1, 55, 0))),
        "SEV initialized",
        TestState::Fail,
        Some("Uninitialized"),
    );
    check(
        &sev_ioctl(SevStatusTests::Firmware, &Ok(sev(PlatformState::Working, 1, 55, 0))),
        "SEV firmware version",
        TestState::Pass,
        Some("1.55"),
    );
    check(
        &sev_ioctl(SevStatusTests::Firmware, &Ok(sev(PlatformState::Working, 1, 50, 0))),
        "SEV firmware version",
        TestState::Fail,
        Some("SEV firmware version needs to be at least 1.51, \n                            current firmware version: 1.50"),
    );
    check(
        &sev_ioctl(SevStatusTests::Firmware, &Ok(sev(PlatformState::Working, 2, 0, 0))),
        "SEV firmware version",
        TestState::Pass,
        Some("2.0"),
    );
    check(
        &sev_ioctl(SevStatusTests::Firmware, &Ok(sev(PlatformState::Working, 0, 60, 0))),
        "SEV firmware version",
        TestState::Fail,
        Some("SEV firmware version needs to be at least 1.51, \n                            current firmware version: 0.60"),
    );
    check(
        &sev_ioctl(SevStatusTests::Firmware, &Ok(sev(PlatformState::Working, 0, 0, 0))),
        "SEV firmware version",
        TestState::Fail,
        Some("Invalid Firmware version: 0.0"),
    );
    check(
        &sev_ioctl(SevStatusTests::SevEs, &Ok(sev(PlatformState::Working, 1, 55, 0x100))),
        "SEV-ES initialized",
        TestState::Pass,
        None,
    );
    check(
        &sev_ioctl(SevStatusTests::SevEs, &Ok(sev(PlatformState::Working, 1, 55, 0x0ff))),
        "SEV-ES initialized",
        TestState::Fail,
        None,
    );
    check(
        &sev_ioctl(SevStatusTests::SevEs, &Err("x".to_string())),
        "SEV-ES initialized",
        TestState::Fail,
        Some("Failed to get SEV Platform Status x"),
    );
}

#[test]
fn device_and_kvm_checks() {
    check(&dev_sev_r(&Ok(())), "/dev/sev readable", TestState::Pass, None);
    check(
        &dev_sev_w(&Err("Permission denied (os error 13)".to_string())),
        "/dev/sev writable",
        TestState::Fail,
        Some("Not writable: Permission denied (os error 13)"),
    );
    check(&has_kvm_support(&Ok(12)), "KVM supported", TestState::Pass, Some("API version: 12"));
    check(
        &has_kvm_support(&Ok(-1)),
        "KVM supported",
        TestState::Fail,
        Some("Error - accessing KVM device node failed"),
    );
    check(
        &has_kvm_support(&Err("No such file or directory (os error 2)".to_string())),
        "KVM supported",
        TestState::Fail,
        Some("Error reading /dev/kvm: (No such file or directory (os error 2))"),
    );
}

#[test]
fn kvm_module_parameters() {
    assert_eq!(kvm_param_path(SevGeneration::Es), "/sys/module/kvm_amd/parameters/sev_es");
    check(
        &sev_enabled_in_kvm(SevGeneration::Sev, &ParamRead::Contents("Y\n".to_string())),
        "SEV enabled in KVM",
        TestState::Pass,
        None,
    );
    check(
        &sev_enabled_in_kvm(SevGeneration::Snp, &ParamRead::Contents(" 1 ".to_string())),
        "SEV-SNP enabled in KVM",
        TestState::Pass,
        None,
    );
    check(
        &sev_enabled_in_kvm(SevGeneration::Es, &ParamRead::Contents("N\n".to_string())),
        "SEV-ES enabled in KVM",
        TestState::Fail,
        Some("Error - contents read from /sys/module/kvm_amd/parameters/sev_es: N"),
    );
    check(
        &sev_enabled_in_kvm(SevGeneration::Sev, &ParamRead::Missing),
        "SEV enabled in KVM",
        TestState::Fail,
        Some("Error - /sys/module/kvm_amd/parameters/sev does not exist"),
    );
    check(
        &sev_enabled_in_kvm(SevGeneration::Sev, &ParamRead::Unreadable("busy".to_string())),
        "SEV enabled in KVM",
        TestState::Fail,
        Some("Error - (unable to read /sys/module/kvm_amd/parameters/sev): busy"),
    );
}

#[test]
fn memlock_limits() {
    check(
        &memlock_rlimit(Some((65536, 18446744073709551615))),
        "Memlock resource limit",
        TestState::Pass,
        Some("Soft: 65536 | Hard: 18446744073709551615"),
    );
    check(
        &memlock_rlimit(None),
        "Memlock resource limit",
        TestState::Fail,
        Some("Unable to retrieve memlock resource limits"),
    );
}

#[test]
fn tree_of_checks() {
    let tests = collect_tests();
    assert_eq!(tests.len(), 30);
    assert_eq!(tests[0].name, "AMD CPU");
    assert_eq!(tests[0].level, 0);
    assert_eq!(tests[5].name, "SEV Firmware Version");
    assert_eq!(tests[5].gen_mask, SNP_MASK);
    assert_eq!(tests[6].gen_mask, ES_MASK);
    assert_eq!(tests[11].name, "Number of VMPLs");
    assert_eq!(tests[11].level, 8);
    assert_eq!(tests[29].name, "Compare TCB values");
    assert_eq!(tests[28].gen_mask, SEV_MASK);
    assert_eq!(request_for(Probe::SmeMsr), Request::Msr(0xC001_0010));
    assert_eq!(request_for(Probe::PageFlush), Request::Cpuid(0x8000_001f));
    assert_eq!(request_for(Probe::DevSevWrite), Request::OpenSev { write: true });
}

#[test]
fn evaluate_picks_fields() {
    let regs = Observation::Cpuid { eax: 0x3b, ebx: 0x4000_0000 | (4 << 12) | (5 << 6) | 51, ecx: 509, edx: 100 };
    check(&evaluate(Probe::VmplCount, &regs), "Number of VMPLs", TestState::Pass, Some("4"));
    check(
        &evaluate(Probe::PaBitReduction, &regs),
        "Physical address bit reduction",
        TestState::Pass,
        Some("5"),
    );
    check(&evaluate(Probe::CBit, &regs), "C-bit location", TestState::Pass, Some("51"));
    check(
        &evaluate(Probe::GuestCount, &regs),
        "Number of encrypted guests supported simultaneously",
        TestState::Pass,
        Some("509"),
    );
    check(
        &evaluate(Probe::MinAsid, &regs),
        "Minimum ASID value for SEV-enabled, SEV-ES disabled guest",
        TestState::Pass,
        Some("100"),
    );
    check(
        &evaluate(Probe::SmeSupport, &regs),
        "Secure Memory Encryption (SME)",
        TestState::Pass,
        None,
    );
    check(
        &evaluate(Probe::KvmEs, &Observation::Param(ParamRead::Contents("1".to_string()))),
        "SEV-ES enabled in KVM",
        TestState::Pass,
        None,
    );
}
