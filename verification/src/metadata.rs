//! What each check is about: its category, a short label, a description of
//! what it reads, and a hint for fixing a failure.
use vstd::prelude::*;
use crate::model::opt_view;
use crate::text::{contains_seq, starts_with, str_contains, str_eq, str_starts_with};

verus! {

/// Category under which a check is grouped in the verbose and JSON reports.
#[derive(Clone, Copy, Debug, PartialEq, Eq, Structural)]
pub enum TestCategory {
    CpuSupport,
    CpuInfo,
    BiosConfigured,
    PlatformInitialized,
    KvmConfig,
    Compliance,
}

/// The heading under which a category is shown.
pub open spec fn category_title(c: TestCategory) -> Seq<char> {
    match c {
        TestCategory::CpuSupport => "CPU Support"@,
        TestCategory::CpuInfo => "CPU Info"@,
        TestCategory::BiosConfigured => "BIOS Configured"@,
        TestCategory::PlatformInitialized => "Platform Initialized"@,
        TestCategory::KvmConfig => "KVM Config"@,
        TestCategory::Compliance => "Compliance"@,
    }
}

/// The snake-case key of a category in the JSON report.
pub open spec fn category_key(c: TestCategory) -> Seq<char> {
    match c {
        TestCategory::CpuSupport => "cpu_support"@,
        TestCategory::CpuInfo => "cpu_info"@,
        TestCategory::BiosConfigured => "bios_configured"@,
        TestCategory::PlatformInitialized => "platform_initialized"@,
        TestCategory::KvmConfig => "kvm_config"@,
        TestCategory::Compliance => "compliance"@,
    }
}

impl TestCategory {
    /// The heading under which the category is shown.
    pub fn title(&self) -> (r: &'static str)
        ensures
            r@ == category_title(*self),
    {
        match self {
            TestCategory::CpuSupport => "CPU Support",
            TestCategory::CpuInfo => "CPU Info",
            TestCategory::BiosConfigured => "BIOS Configured",
            TestCategory::PlatformInitialized => "Platform Initialized",
            TestCategory::KvmConfig => "KVM Config",
            TestCategory::Compliance => "Compliance",
        }
    }
}

/// The snake-case key of a category in the JSON report.
pub fn category_to_snake(cat: &TestCategory) -> (r: &'static str)
    ensures
        r@ == category_key(*cat),
{
    match cat {
        TestCategory::CpuSupport => "cpu_support",
        TestCategory::CpuInfo => "cpu_info",
        TestCategory::BiosConfigured => "bios_configured",
        TestCategory::PlatformInitialized => "platform_initialized",
        TestCategory::KvmConfig => "kvm_config",
        TestCategory::Compliance => "compliance",
    }
}

/// Metadata of a check, looked up by the check's name.
#[derive(Clone, Copy)]
pub struct TestMetadata {
    pub category: TestCategory,
    pub label: &'static str,
    pub description: &'static str,
    pub fix_hint: &'static str,
}

/// Hint given when a check failed because the MSR device could not be read.
pub const MSR_HINT: &'static str = "Load MSR kernel module: sudo modprobe msr";

/// Hint given when a check failed for want of privileges.
pub const SUDO_HINT: &'static str = "Run with sudo: sudo snphost ok";

/// The metadata of the check called `name`: exact names first, in the order
/// of the table, with prefix matches for names that vary at run time; a name
/// that matches nothing is informational, with empty texts.
pub open spec fn metadata_of(name: Seq<char>) -> TestMetadata {
    if name == "AMD CPU"@ {
        TestMetadata {
            category: TestCategory::CpuSupport,
            label: "(CPU)",
            description: "Checks CPU vendor string via CPUID is \"AuthenticAMD\"",
            fix_hint: "Requires AMD processor",
        }
    } else if name == "Microcode support"@ {
        TestMetadata {
            category: TestCategory::CpuSupport,
            label: "(CPU)",
            description: "Verifies processor brand string contains \"EPYC\" (server-class CPU required)",
            fix_hint: "Need EPYC server-class CPU",
        }
    } else if name == "Secure Memory Encryption (SME)"@ {
        TestMetadata {
            category: TestCategory::CpuSupport,
            label: "(CPU)",
            description: "Checks CPUID 0x8000001F EAX bit 0 for SME hardware support",
            fix_hint: "Need EPYC Naples+",
        }
    } else if name == "SME"@ {
        TestMetadata {
            category: TestCategory::BiosConfigured,
            label: "(BIOS)",
            description: "Reads MSR 0xC0010010 (SYSCFG) bit 23 to verify SME enabled at system level",
            fix_hint: "BIOS: CBS > CPU Common > SMEE. Run: sudo modprobe msr",
        }
    } else if name == "Secure Encrypted Virtualization (SEV)"@ {
        TestMetadata {
            category: TestCategory::CpuSupport,
            label: "(CPU)",
            description: "Checks CPUID 0x8000001F EAX bit 1 for SEV hardware support",
            fix_hint: "Need EPYC with SEV",
        }
    } else if name == "SEV firmware version"@ || name == "SEV Firmware Version"@ {
        TestMetadata {
            category: TestCategory::BiosConfigured,
            label: "",
            description: "Queries /dev/sev PLATFORM_STATUS for firmware version (requires >= 1.51 for SNP)",
            fix_hint: "Run with sudo. Update BIOS for firmware >= 1.51",
        }
    } else if name == "Encrypted State (SEV-ES)"@ {
        TestMetadata {
            category: TestCategory::CpuSupport,
            label: "(CPU)",
            description: "Checks CPUID 0x8000001F EAX bit 3 for SEV-ES hardware support",
            fix_hint: "Need EPYC Rome+",
        }
    } else if name == "SEV-ES initialized"@ {
        TestMetadata {
            category: TestCategory::PlatformInitialized,
            label: "(FW Ready)",
            description: "Queries SEV platform status flags bit 8 for SEV-ES initialization",
            fix_hint: "Run with sudo. modprobe kvm_amd sev-es=1",
        }
    } else if name == "SEV initialized"@ {
        TestMetadata {
            category: TestCategory::PlatformInitialized,
            label: "(FW Ready)",
            description: "Queries SEV platform status state field (must be Initialized or Working)",
            fix_hint: "Run with sudo. modprobe kvm_amd sev=1",
        }
    } else if name == "Secure Nested Paging (SEV-SNP)"@ {
        TestMetadata {
            category: TestCategory::CpuSupport,
            label: "(CPU)",
            description: "Checks CPUID 0x8000001F EAX bit 4 for SEV-SNP hardware support",
            fix_hint: "Need EPYC Milan+",
        }
    } else if name == "VM Permission Levels"@ {
        TestMetadata {
            category: TestCategory::CpuSupport,
            label: "(CPU)",
            description: "Checks CPUID 0x8000001F EAX bit 5 for VMPL hardware support",
            fix_hint: "Check BIOS update",
        }
    } else if name == "Number of VMPLs"@ {
        TestMetadata {
            category: TestCategory::CpuInfo,
            label: "",
            description: "Reads CPUID 0x8000001F EBX bits 15:12 for VMPL count (expected: 4)",
            fix_hint: "(informational)",
        }
    } else if name == "SNP"@ || name == "SEV-SNP"@ {
        TestMetadata {
            category: TestCategory::BiosConfigured,
            label: "(BIOS)",
            description: "Reads MSR 0xC0010010 (SYSCFG) bit 24 to verify SNP enabled at system level",
            fix_hint: "BIOS: CBS > CPU Common > SNP Memory Coverage. Run: sudo modprobe msr",
        }
    } else if name == "SNP initialized"@ {
        TestMetadata {
            category: TestCategory::PlatformInitialized,
            label: "(FW Ready)",
            description: "Queries SNP_PLATFORM_STATUS state field = 1 (INIT state)",
            fix_hint: "Run with sudo. Need kernel 6.11+. modprobe kvm_amd sev_snp=1",
        }
    } else if name == "RMP table initialized"@ {
        TestMetadata {
            category: TestCategory::PlatformInitialized,
            label: "(FW Ready)",
            description: "Queries SNP platform status IS_RMP_INIT bit",
            fix_hint: "Run with sudo. Need CONFIG_KVM_AMD_SEV=y. Reboot if firmware updated",
        }
    } else if name == "Alias check"@ {
        TestMetadata {
            category: TestCategory::Compliance,
            label: "(Compliance)",
            description: "Queries SNP platform status ALIAS_CHECK_COMPLETE bit (CVE-2024-21944 mitigation)",
            fix_hint: "Update firmware/BIOS per AMD-SB-3015. Reboot required",
        }
    } else if name == "Physical address bit reduction"@ {
        TestMetadata {
            category: TestCategory::CpuInfo,
            label: "",
            description: "Reads CPUID 0x8000001F EBX bits 11:6 for PA bit reduction value",
            fix_hint: "(informational)",
        }
    } else if name == "C-bit location"@ {
        TestMetadata {
            category: TestCategory::CpuInfo,
            label: "",
            description: "Reads CPUID 0x8000001F EBX bits 5:0 for encryption bit position in page tables",
            fix_hint: "(informational)",
        }
    } else if name == "Number of encrypted guests supported simultaneously"@ {
        TestMetadata {
            category: TestCategory::CpuInfo,
            label: "",
            description: "Reads CPUID 0x8000001F ECX for maximum encrypted guest count",
            fix_hint: "(informational)",
        }
    } else if name == "Minimum ASID value for SEV-enabled, SEV-ES disabled guest"@ {
        TestMetadata {
            category: TestCategory::CpuInfo,
            label: "",
            description: "Reads CPUID 0x8000001F EDX for minimum SEV-only ASID value",
            fix_hint: "(informational)",
        }
    } else if name == "/dev/sev readable"@ {
        TestMetadata {
            category: TestCategory::PlatformInitialized,
            label: "",
            description: "Attempts to open /dev/sev device for reading",
            fix_hint: "Run with sudo. modprobe ccp. Must be baremetal",
        }
    } else if name == "/dev/sev writable"@ {
        TestMetadata {
            category: TestCategory::PlatformInitialized,
            label: "",
            description: "Attempts to open /dev/sev device for writing",
            fix_hint: "Run with sudo. Must be baremetal",
        }
    } else if name == "Memlock resource limit"@ || name == "memlock limit"@ {
        TestMetadata {
            category: TestCategory::Compliance,
            label: "(Compliance)",
            description: "Reads RLIMIT_MEMLOCK soft and hard limits via getrlimit syscall",
            fix_hint: "Set memlock unlimited in /etc/security/limits.conf",
        }
    } else if starts_with(name, "Page flush MSR"@) {
        TestMetadata {
            category: TestCategory::CpuInfo,
            label: "",
            description: "Checks CPUID 0x8000001F EAX bit 2 for page flush MSR optimization support",
            fix_hint: "(informational)",
        }
    } else if starts_with(name, "KVM supported"@) || name == "KVM Support"@ {
        TestMetadata {
            category: TestCategory::KvmConfig,
            label: "(KVM)",
            description: "Opens /dev/kvm and queries KVM API version via ioctl",
            fix_hint: "Run with sudo. modprobe kvm kvm_amd. Enable SVM in BIOS",
        }
    } else if name == "SEV enabled in KVM"@ {
        TestMetadata {
            category: TestCategory::KvmConfig,
            label: "(KVM)",
            description: "Reads /sys/module/kvm_amd/parameters/sev for \"1\" or \"Y\"",
            fix_hint: "options kvm_amd sev=1 in /etc/modprobe.d/kvm.conf",
        }
    } else if name == "SEV-ES enabled in KVM"@ {
        TestMetadata {
            category: TestCategory::KvmConfig,
            label: "(KVM)",
            description: "Reads /sys/module/kvm_amd/parameters/sev_es for \"1\" or \"Y\"",
            fix_hint: "options kvm_amd sev-es=1 in /etc/modprobe.d/kvm.conf",
        }
    } else if name == "SEV-SNP enabled in KVM"@ {
        TestMetadata {
            category: TestCategory::KvmConfig,
            label: "(KVM)",
            description: "Reads /sys/module/kvm_amd/parameters/sev_snp for \"1\" or \"Y\"",
            fix_hint: "options kvm_amd sev-snp=1 in /etc/modprobe.d/kvm.conf. Need kernel 6.11+",
        }
    } else if starts_with(name, "Comparing TCB"@) || starts_with(name, "Compare TCB"@) {
        TestMetadata {
            category: TestCategory::Compliance,
            label: "(Compliance)",
            description: "Compares platform_tcb_version with reported_tcb_version from SNP_PLATFORM_STATUS",
            fix_hint: "Run: sudo snphost commit or sudo snphost config set-reported-tcb",
        }
    } else if starts_with(name, "Reading RMP table"@) || starts_with(name, "RMP table address"@) || starts_with(name, "Read RMP"@) {
        TestMetadata {
            category: TestCategory::BiosConfigured,
            label: "(BIOS)",
            description: "Reads MSRs 0xC0010132 and 0xC0010133 for RMP base/end addresses",
            fix_hint: "Enable SNP Memory Coverage in BIOS. Run: sudo modprobe msr",
        }
    } else {
        TestMetadata {
            category: TestCategory::CpuInfo,
            label: "",
            description: "",
            fix_hint: "",
        }
    }
}

/// The check called `name` has an entry of its own in the metadata table:
/// one of the conditions of `metadata_of` holds, so it does not fall through
/// to the informational entry with empty texts.
pub open spec fn has_entry(name: Seq<char>) -> bool {
    ||| name == "AMD CPU"@
    ||| name == "Microcode support"@
    ||| name == "Secure Memory Encryption (SME)"@
    ||| name == "SME"@
    ||| name == "Secure Encrypted Virtualization (SEV)"@
    ||| name == "SEV firmware version"@ || name == "SEV Firmware Version"@
    ||| name == "Encrypted State (SEV-ES)"@
    ||| name == "SEV-ES initialized"@
    ||| name == "SEV initialized"@
    ||| name == "Secure Nested Paging (SEV-SNP)"@
    ||| name == "VM Permission Levels"@
    ||| name == "Number of VMPLs"@
    ||| name == "SNP"@ || name == "SEV-SNP"@
    ||| name == "SNP initialized"@
    ||| name == "RMP table initialized"@
    ||| name == "Alias check"@
    ||| name == "Physical address bit reduction"@
    ||| name == "C-bit location"@
    ||| name == "Number of encrypted guests supported simultaneously"@
    ||| name == "Minimum ASID value for SEV-enabled, SEV-ES disabled guest"@
    ||| name == "/dev/sev readable"@
    ||| name == "/dev/sev writable"@
    ||| name == "Memlock resource limit"@ || name == "memlock limit"@
    ||| starts_with(name, "Page flush MSR"@)
    ||| starts_with(name, "KVM supported"@) || name == "KVM Support"@
    ||| name == "SEV enabled in KVM"@
    ||| name == "SEV-ES enabled in KVM"@
    ||| name == "SEV-SNP enabled in KVM"@
    ||| starts_with(name, "Comparing TCB"@) || starts_with(name, "Compare TCB"@)
    ||| starts_with(name, "Reading RMP table"@) || starts_with(name, "RMP table address"@) || starts_with(name, "Read RMP"@)
}

/// A check with an entry of its own has a description.
pub proof fn lemma_entry_has_description(name: Seq<char>)
    requires
        has_entry(name),
    ensures
        metadata_of(name).description@.len() > 0,
{
    reveal_strlit("Checks CPU vendor string via CPUID is \"AuthenticAMD\"");
    reveal_strlit("Verifies processor brand string contains \"EPYC\" (server-class CPU required)");
    reveal_strlit("Checks CPUID 0x8000001F EAX bit 0 for SME hardware support");
    reveal_strlit("Reads MSR 0xC0010010 (SYSCFG) bit 23 to verify SME enabled at system level");
    reveal_strlit("Checks CPUID 0x8000001F EAX bit 1 for SEV hardware support");
    reveal_strlit("Queries /dev/sev PLATFORM_STATUS for firmware version (requires >= 1.51 for SNP)");
    reveal_strlit("Checks CPUID 0x8000001F EAX bit 3 for SEV-ES hardware support");
    reveal_strlit("Queries SEV platform status flags bit 8 for SEV-ES initialization");
    reveal_strlit("Queries SEV platform status state field (must be Initialized or Working)");
    reveal_strlit("Checks CPUID 0x8000001F EAX bit 4 for SEV-SNP hardware support");
    reveal_strlit("Checks CPUID 0x8000001F EAX bit 5 for VMPL hardware support");
    reveal_strlit("Reads CPUID 0x8000001F EBX bits 15:12 for VMPL count (expected: 4)");
    reveal_strlit("Reads MSR 0xC0010010 (SYSCFG) bit 24 to verify SNP enabled at system level");
    reveal_strlit("Queries SNP_PLATFORM_STATUS state field = 1 (INIT state)");
    reveal_strlit("Queries SNP platform status IS_RMP_INIT bit");
    reveal_strlit("Queries SNP platform status ALIAS_CHECK_COMPLETE bit (CVE-2024-21944 mitigation)");
    reveal_strlit("Reads CPUID 0x8000001F EBX bits 11:6 for PA bit reduction value");
    reveal_strlit("Reads CPUID 0x8000001F EBX bits 5:0 for encryption bit position in page tables");
    reveal_strlit("Reads CPUID 0x8000001F ECX for maximum encrypted guest count");
    reveal_strlit("Reads CPUID 0x8000001F EDX for minimum SEV-only ASID value");
    reveal_strlit("Attempts to open /dev/sev device for reading");
    reveal_strlit("Attempts to open /dev/sev device for writing");
    reveal_strlit("Reads RLIMIT_MEMLOCK soft and hard limits via getrlimit syscall");
    reveal_strlit("Checks CPUID 0x8000001F EAX bit 2 for page flush MSR optimization support");
    reveal_strlit("Opens /dev/kvm and queries KVM API version via ioctl");
    reveal_strlit("Reads /sys/module/kvm_amd/parameters/sev for \"1\" or \"Y\"");
    reveal_strlit("Reads /sys/module/kvm_amd/parameters/sev_es for \"1\" or \"Y\"");
    reveal_strlit("Reads /sys/module/kvm_amd/parameters/sev_snp for \"1\" or \"Y\"");
    reveal_strlit("Compares platform_tcb_version with reported_tcb_version from SNP_PLATFORM_STATUS");
    reveal_strlit("Reads MSRs 0xC0010132 and 0xC0010133 for RMP base/end addresses");
}

/// Looks up the metadata of the check called `name`.
pub fn test_metadata(name: &str) -> (m: TestMetadata)
    ensures
        m == metadata_of(name@),
{
    if str_eq(name, "AMD CPU") {
        TestMetadata {
            category: TestCategory::CpuSupport,
            label: "(CPU)",
            description: "Checks CPU vendor string via CPUID is \"AuthenticAMD\"",
            fix_hint: "Requires AMD processor",
        }
    } else if str_eq(name, "Microcode support") {
        TestMetadata {
            category: TestCategory::CpuSupport,
            label: "(CPU)",
            description: "Verifies processor brand string contains \"EPYC\" (server-class CPU required)",
            fix_hint: "Need EPYC server-class CPU",
        }
    } else if str_eq(name, "Secure Memory Encryption (SME)") {
        TestMetadata {
            category: TestCategory::CpuSupport,
            label: "(CPU)",
            description: "Checks CPUID 0x8000001F EAX bit 0 for SME hardware support",
            fix_hint: "Need EPYC Naples+",
        }
    } else if str_eq(name, "SME") {
        TestMetadata {
            category: TestCategory::BiosConfigured,
            label: "(BIOS)",
            description: "Reads MSR 0xC0010010 (SYSCFG) bit 23 to verify SME enabled at system level",
            fix_hint: "BIOS: CBS > CPU Common > SMEE. Run: sudo modprobe msr",
        }
    } else if str_eq(name, "Secure Encrypted Virtualization (SEV)") {
        TestMetadata {
            category: TestCategory::CpuSupport,
            label: "(CPU)",
            description: "Checks CPUID 0x8000001F EAX bit 1 for SEV hardware support",
            fix_hint: "Need EPYC with SEV",
        }
    } else if str_eq(name, "SEV firmware version") || str_eq(name, "SEV Firmware Version") {
        TestMetadata {
            category: TestCategory::BiosConfigured,
            label: "",
            description: "Queries /dev/sev PLATFORM_STATUS for firmware version (requires >= 1.51 for SNP)",
            fix_hint: "Run with sudo. Update BIOS for firmware >= 1.51",
        }
    } else if str_eq(name, "Encrypted State (SEV-ES)") {
        TestMetadata {
            category: TestCategory::CpuSupport,
            label: "(CPU)",
            description: "Checks CPUID 0x8000001F EAX bit 3 for SEV-ES hardware support",
            fix_hint: "Need EPYC Rome+",
        }
    } else if str_eq(name, "SEV-ES initialized") {
        TestMetadata {
            category: TestCategory::PlatformInitialized,
            label: "(FW Ready)",
            description: "Queries SEV platform status flags bit 8 for SEV-ES initialization",
            fix_hint: "Run with sudo. modprobe kvm_amd sev-es=1",
        }
    } else if str_eq(name, "SEV initialized") {
        TestMetadata {
            category: TestCategory::PlatformInitialized,
            label: "(FW Ready)",
            description: "Queries SEV platform status state field (must be Initialized or Working)",
            fix_hint: "Run with sudo. modprobe kvm_amd sev=1",
        }
    } else if str_eq(name, "Secure Nested Paging (SEV-SNP)") {
        TestMetadata {
            category: TestCategory::CpuSupport,
            label: "(CPU)",
            description: "Checks CPUID 0x8000001F EAX bit 4 for SEV-SNP hardware support",
            fix_hint: "Need EPYC Milan+",
        }
    } else if str_eq(name, "VM Permission Levels") {
        TestMetadata {
            category: TestCategory::CpuSupport,
            label: "(CPU)",
            description: "Checks CPUID 0x8000001F EAX bit 5 for VMPL hardware support",
            fix_hint: "Check BIOS update",
        }
    } else if str_eq(name, "Number of VMPLs") {
        TestMetadata {
            category: TestCategory::CpuInfo,
            label: "",
            description: "Reads CPUID 0x8000001F EBX bits 15:12 for VMPL count (expected: 4)",
            fix_hint: "(informational)",
        }
    } else if str_eq(name, "SNP") || str_eq(name, "SEV-SNP") {
        TestMetadata {
            category: TestCategory::BiosConfigured,
            label: "(BIOS)",
            description: "Reads MSR 0xC0010010 (SYSCFG) bit 24 to verify SNP enabled at system level",
            fix_hint: "BIOS: CBS > CPU Common > SNP Memory Coverage. Run: sudo modprobe msr",
        }
    } else if str_eq(name, "SNP initialized") {
        TestMetadata {
            category: TestCategory::PlatformInitialized,
            label: "(FW Ready)",
            description: "Queries SNP_PLATFORM_STATUS state field = 1 (INIT state)",
            fix_hint: "Run with sudo. Need kernel 6.11+. modprobe kvm_amd sev_snp=1",
        }
    } else if str_eq(name, "RMP table initialized") {
        TestMetadata {
            category: TestCategory::PlatformInitialized,
            label: "(FW Ready)",
            description: "Queries SNP platform status IS_RMP_INIT bit",
            fix_hint: "Run with sudo. Need CONFIG_KVM_AMD_SEV=y. Reboot if firmware updated",
        }
    } else if str_eq(name, "Alias check") {
        TestMetadata {
            category: TestCategory::Compliance,
            label: "(Compliance)",
            description: "Queries SNP platform status ALIAS_CHECK_COMPLETE bit (CVE-2024-21944 mitigation)",
            fix_hint: "Update firmware/BIOS per AMD-SB-3015. Reboot required",
        }
    } else if str_eq(name, "Physical address bit reduction") {
        TestMetadata {
            category: TestCategory::CpuInfo,
            label: "",
            description: "Reads CPUID 0x8000001F EBX bits 11:6 for PA bit reduction value",
            fix_hint: "(informational)",
        }
    } else if str_eq(name, "C-bit location") {
        TestMetadata {
            category: TestCategory::CpuInfo,
            label: "",
            description: "Reads CPUID 0x8000001F EBX bits 5:0 for encryption bit position in page tables",
            fix_hint: "(informational)",
        }
    } else if str_eq(name, "Number of encrypted guests supported simultaneously") {
        TestMetadata {
            category: TestCategory::CpuInfo,
            label: "",
            description: "Reads CPUID 0x8000001F ECX for maximum encrypted guest count",
            fix_hint: "(informational)",
        }
    } else if str_eq(name, "Minimum ASID value for SEV-enabled, SEV-ES disabled guest") {
        TestMetadata {
            category: TestCategory::CpuInfo,
            label: "",
            description: "Reads CPUID 0x8000001F EDX for minimum SEV-only ASID value",
            fix_hint: "(informational)",
        }
    } else if str_eq(name, "/dev/sev readable") {
        TestMetadata {
            category: TestCategory::PlatformInitialized,
            label: "",
            description: "Attempts to open /dev/sev device for reading",
            fix_hint: "Run with sudo. modprobe ccp. Must be baremetal",
        }
    } else if str_eq(name, "/dev/sev writable") {
        TestMetadata {
            category: TestCategory::PlatformInitialized,
            label: "",
            description: "Attempts to open /dev/sev device for writing",
            fix_hint: "Run with sudo. Must be baremetal",
        }
    } else if str_eq(name, "Memlock resource limit") || str_eq(name, "memlock limit") {
        TestMetadata {
            category: TestCategory::Compliance,
            label: "(Compliance)",
            description: "Reads RLIMIT_MEMLOCK soft and hard limits via getrlimit syscall",
            fix_hint: "Set memlock unlimited in /etc/security/limits.conf",
        }
    } else if str_starts_with(name, "Page flush MSR") {
        TestMetadata {
            category: TestCategory::CpuInfo,
            label: "",
            description: "Checks CPUID 0x8000001F EAX bit 2 for page flush MSR optimization support",
            fix_hint: "(informational)",
        }
    } else if str_starts_with(name, "KVM supported") || str_eq(name, "KVM Support") {
        TestMetadata {
            category: TestCategory::KvmConfig,
            label: "(KVM)",
            description: "Opens /dev/kvm and queries KVM API version via ioctl",
            fix_hint: "Run with sudo. modprobe kvm kvm_amd. Enable SVM in BIOS",
        }
    } else if str_eq(name, "SEV enabled in KVM") {
        TestMetadata {
            category: TestCategory::KvmConfig,
            label: "(KVM)",
            description: "Reads /sys/module/kvm_amd/parameters/sev for \"1\" or \"Y\"",
            fix_hint: "options kvm_amd sev=1 in /etc/modprobe.d/kvm.conf",
        }
    } else if str_eq(name, "SEV-ES enabled in KVM") {
        TestMetadata {
            category: TestCategory::KvmConfig,
            label: "(KVM)",
            description: "Reads /sys/module/kvm_amd/parameters/sev_es for \"1\" or \"Y\"",
            fix_hint: "options kvm_amd sev-es=1 in /etc/modprobe.d/kvm.conf",
        }
    } else if str_eq(name, "SEV-SNP enabled in KVM") {
        TestMetadata {
            category: TestCategory::KvmConfig,
            label: "(KVM)",
            description: "Reads /sys/module/kvm_amd/parameters/sev_snp for \"1\" or \"Y\"",
            fix_hint: "options kvm_amd sev-snp=1 in /etc/modprobe.d/kvm.conf. Need kernel 6.11+",
        }
    } else if str_starts_with(name, "Comparing TCB") || str_starts_with(name, "Compare TCB") {
        TestMetadata {
            category: TestCategory::Compliance,
            label: "(Compliance)",
            description: "Compares platform_tcb_version with reported_tcb_version from SNP_PLATFORM_STATUS",
            fix_hint: "Run: sudo snphost commit or sudo snphost config set-reported-tcb",
        }
    } else if str_starts_with(name, "Reading RMP table") || str_starts_with(name, "RMP table address") || str_starts_with(name, "Read RMP") {
        TestMetadata {
            category: TestCategory::BiosConfigured,
            label: "(BIOS)",
            description: "Reads MSRs 0xC0010132 and 0xC0010133 for RMP base/end addresses",
            fix_hint: "Enable SNP Memory Coverage in BIOS. Run: sudo modprobe msr",
        }
    } else {
        TestMetadata {
            category: TestCategory::CpuInfo,
            label: "",
            description: "",
            fix_hint: "",
        }
    }
}

/// A message that shows the MSR device could not be read.
pub open spec fn is_msr_failure(m: Seq<char>) -> bool {
    contains_seq(m, "MSR read failed"@) || contains_seq(m, "Failed to read the desired MSR"@)
}

/// A message that shows the SEV device could not be opened for want of privileges.
pub open spec fn is_access_failure(m: Seq<char>) -> bool {
    contains_seq(m, "unable to open /dev/sev"@) || contains_seq(m, "Permission denied"@)
}

/// The hint shown for a failed check: the MSR hint where the message shows an
/// MSR read failure, else the privilege hint where it shows an access failure,
/// else the hint of the check's metadata.
pub open spec fn hint_for(meta: TestMetadata, message: Option<Seq<char>>) -> Seq<char> {
    match message {
        Some(m) => if is_msr_failure(m) {
            MSR_HINT@
        } else if is_access_failure(m) {
            SUDO_HINT@
        } else {
            meta.fix_hint@
        },
        None => meta.fix_hint@,
    }
}

/// The fix hint for a failed check, overriding the metadata's hint where the
/// message shows an access or module problem rather than a configuration one.
pub fn effective_hint(meta: &TestMetadata, message: &Option<String>) -> (r: &'static str)
    ensures
        r@ == hint_for(*meta, opt_view(*message)),
{
    match message {
        Some(m) => {
            if str_contains(m.as_str(), "MSR read failed") || str_contains(
                m.as_str(),
                "Failed to read the desired MSR",
            ) {
                return MSR_HINT;
            }
            if str_contains(m.as_str(), "unable to open /dev/sev") || str_contains(
                m.as_str(),
                "Permission denied",
            ) {
                return SUDO_HINT;
            }
            meta.fix_hint
        },
        None => meta.fix_hint,
    }
}

} // verus!
