use snphost::platform::{PlatformState, SevStatus};
use snphost::software::{
    check_kernel_version, check_libvirt_version, check_ovmf_version, check_qemu_version,
    check_sev_firmware_version, collect_software_versions, print_software_versions,
    SoftwareReadings, SoftwareVersion, SwStatus,
};
use snphost::version::{first_digit_word, parse_version_ge};

fn check(v: &SoftwareVersion, name: &str, version: Option<&str>, status: SwStatus, detail: &str) {
    assert_eq!(v.name, name);
    assert_eq!(v.version.as_deref(), version);
    assert_eq!(v.status, status);
    assert_eq!(v.detail, detail);
}

#[test]
fn version_comparison() {
    assert!(parse_version_ge("6.11.0-rc1", 6, 11));
    assert!(parse_version_ge("6.12", 6, 11));
    assert!(parse_version_ge("7.0", 6, 11));
    assert!(!parse_version_ge("6.8.0-49-generic", 6, 11));
    assert!(!parse_version_ge("6", 6, 0));
    assert!(!parse_version_ge("", 0, 0));
    assert!(parse_version_ge("+6.0", 6, 0));
    assert!(parse_version_ge("6.x", 6, 0));
    assert!(!parse_version_ge("6.x", 6, 1));
    assert!(parse_version_ge("x.5", 0, 5));
    assert!(!parse_version_ge("4294967296.0", 1, 0));
    assert!(parse_version_ge("4294967295.0", 1, 0));
    assert!(!parse_version_ge("-6.0", 6, 0));
}

#[test]
fn digit_words() {
    assert_eq!(
        first_digit_word("QEMU emulator version 8.2.2 (Debian 1:8.2.2+ds-0ubuntu1)\nCopyright"),
        Some("8.2.2".to_string())
    );
    assert_eq!(first_digit_word("no numbers here"), None);
    assert_eq!(first_digit_word("  \t9.1\n"), Some("9.1".to_string()));
}

#[test]
fn kernel_check() {
    check(
        &check_kernel_version(&Some("6.11.0-1-amd\n".to_string())),
        "Linux kernel",
        Some("6.11.0-1-amd"),
        SwStatus::Supported,
        "kernel >= 6.11",
    );
    check(
        &check_kernel_version(&Some("5.15.0\n".to_string())),
        "Linux kernel",
        Some("5.15.0"),
        SwStatus::TooOld,
        "Need kernel >= 6.11 for SEV-SNP host support",
    );
    check(
        &check_kernel_version(&None),
        "Linux kernel",
        None,
        SwStatus::Missing,
        "Cannot read /proc/sys/kernel/osrelease",
    );
}

#[test]
fn qemu_and_libvirt_checks() {
    check(
        &check_qemu_version(&Some("QEMU emulator version 8.2.2\n".to_string())),
        "QEMU",
        Some("8.2.2"),
        SwStatus::Supported,
        "qemu >= 6.0",
    );
    check(
        &check_qemu_version(&Some("garbage".to_string())),
        "QEMU",
        Some("unknown"),
        SwStatus::TooOld,
        "Need QEMU >= 6.0 for SEV-SNP support",
    );
    check(&check_qemu_version(&None), "QEMU", None, SwStatus::Missing, "qemu-system-x86_64 not found");
    check(
        &check_libvirt_version(&Some("10.0.0\n".to_string())),
        "libvirt",
        Some("10.0.0"),
        SwStatus::Supported,
        "libvirt >= 4.5",
    );
    check(
        &check_libvirt_version(&Some("4.4.0".to_string())),
        "libvirt",
        Some("4.4.0"),
        SwStatus::TooOld,
        "Need libvirt >= 4.5 for SEV support",
    );
    check(
        &check_libvirt_version(&None),
        "libvirt",
        None,
        SwStatus::OptionalMissing,
        "virsh not found (optional, >= 4.5)",
    );
}

#[test]
fn ovmf_and_firmware_checks() {
    check(&check_ovmf_version(false, &None, &None), "OVMF", None, SwStatus::Missing, "OVMF firmware not found");
    check(
        &check_ovmf_version(true, &Some(" 2024.02-2 ".to_string()), &Some("x".to_string())),
        "OVMF",
        Some("2024.02-2"),
        SwStatus::Supported,
        "OVMF firmware present",
    );
    check(
        &check_ovmf_version(true, &None, &Some("20240524\n".to_string())),
        "OVMF",
        Some("20240524"),
        SwStatus::Supported,
        "OVMF firmware present",
    );
    let st = SevStatus { state: PlatformState::Initialized, major: 1, minor: 55, flags: 0 };
    check(&check_sev_firmware_version(&Some(st)), "SEV firmware", Some("1.55"), SwStatus::Supported, "firmware >= 1.51");
    let old = SevStatus { minor: 49, ..st };
    check(
        &check_sev_firmware_version(&Some(old)),
        "SEV firmware",
        Some("1.49"),
        SwStatus::TooOld,
        "Need firmware >= 1.51 for SNP",
    );
    let newer = SevStatus { major: 2, minor: 0, ..st };
    check(&check_sev_firmware_version(&Some(newer)), "SEV firmware", Some("2.0"), SwStatus::Supported, "firmware >= 1.51");
    let low_major = SevStatus { major: 0, minor: 60, ..st };
    check(
        &check_sev_firmware_version(&Some(low_major)),
        "SEV firmware",
        Some("0.60"),
        SwStatus::TooOld,
        "Need firmware >= 1.51 for SNP",
    );
    check(
        &check_sev_firmware_version(&None),
        "SEV firmware",
        None,
        SwStatus::Missing,
        "Cannot query SEV platform status (need sudo?)",
    );
}

#[test]
fn software_lines() {
    let readings = SoftwareReadings {
        kernel_release: Some("6.11.0\n".to_string()),
        qemu_output: None,
        virsh_output: Some("3.0.0".to_string()),
        ovmf_found: true,
        ovmf_dpkg: None,
        ovmf_rpm: None,
        sev_status: None,
    };
    let vs = collect_software_versions(&readings);
    assert_eq!(vs.len(), 5);
    let lines = print_software_versions(&vs);
    assert_eq!(
        lines,
        vec![
            "[ \x1b[38;5;2mPASS\x1b[0m ] - Linux kernel: 6.11.0 (Software)".to_string(),
            "[ \x1b[38;5;3mSKIP\x1b[0m ] - QEMU: Not installed (Software)".to_string(),
            "[ \x1b[38;5;1mFAIL\x1b[0m ] - libvirt: 3.0.0 (Software)".to_string(),
            "[ \x1b[38;5;2mPASS\x1b[0m ] - OVMF: not found (Software)".to_string(),
            "[ \x1b[38;5;3mSKIP\x1b[0m ] - SEV firmware: Not installed (Software)".to_string(),
        ]
    );
}
