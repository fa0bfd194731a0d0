//! How each check judges what was read from the machine: CPUID registers,
//! model-specific registers, the firmware's platform status, device nodes,
//! KVM module parameters and resource limits.
use vstd::prelude::*;
use vstd::utf8::{decode_utf8, valid_utf8};
use crate::colors::{green, painted, yellow};
use crate::model::{opt_view, ResultView, TestResult, TestState};
use crate::numfmt::{decimal, decimal_string, hex, hex_string};
use crate::platform::{
    firmware_meets_minimum, format_tcb, format_version, meets_firmware_minimum, tcb_text, version_text, PlatformState, SevStatus, SnpStatus,
};
use crate::text::{contains_seq, owned, str_contains, str_eq, to_uppercase, trim, trimmed, uppercase};

verus! {

/// The result view with the given parts.
pub open spec fn rv(name: Seq<char>, stat: TestState, mesg: Option<Seq<char>>) -> ResultView {
    ResultView { name, stat, mesg }
}

/// Pass where `ok` holds, else fail.
pub open spec fn pass_if(ok: bool) -> TestState {
    if ok {
        TestState::Pass
    } else {
        TestState::Fail
    }
}

fn mk(name: &str, stat: TestState, mesg: Option<String>) -> (r: TestResult)
    ensures
        r@ == rv(name@, stat, opt_view(mesg)),
{
    TestResult { name: owned(name), stat, mesg }
}

fn joined(a: &str, b: &str) -> (r: String)
    ensures
        r@ == a@ + b@,
{
    let mut r = owned(a);
    r.append(b);
    r
}

// ---------------------------------------------------------------------------
// Bytes and text of CPUID registers
// ---------------------------------------------------------------------------

/// The four bytes of a register in memory order (little-endian).
pub open spec fn le_bytes(x: u32) -> Seq<u8> {
    seq![(x & 0xff) as u8, ((x >> 8) & 0xff) as u8, ((x >> 16) & 0xff) as u8, ((x >> 24) & 0xff) as u8]
}

/// The bytes of a sequence of registers laid out one after the other.
pub open spec fn regs_bytes(regs: Seq<u32>) -> Seq<u8>
    decreases regs.len(),
{
    if regs.len() == 0 {
        Seq::empty()
    } else {
        regs_bytes(regs.drop_last()) + le_bytes(regs.last())
    }
}

/// Bytes read as UTF-8 text, or the placeholder `ERROR_FOUND` where they are not UTF-8.
pub open spec fn text_or_error(b: Seq<u8>) -> Seq<char> {
    if valid_utf8(b) {
        decode_utf8(b)
    } else {
        "ERROR_FOUND"@
    }
}

/// Decodes bytes as UTF-8, through `String::from_utf8`: `None` where the
/// bytes are not UTF-8, else the decoded text.
#[verifier::external_body]
fn utf8_text(bytes: Vec<u8>) -> (r: Option<String>)
    ensures
        r is Some <==> valid_utf8(bytes@),
        r matches Some(s) ==> s@ == decode_utf8(bytes@),
{
    String::from_utf8(bytes).ok()
}

fn push_le_bytes(v: &mut Vec<u8>, x: u32)
    ensures
        final(v)@ == old(v)@ + le_bytes(x),
{
    v.push((x & 0xff) as u8);
    v.push(((x >> 8) & 0xff) as u8);
    v.push(((x >> 16) & 0xff) as u8);
    v.push(((x >> 24) & 0xff) as u8);
    assert(final(v)@ =~= old(v)@ + le_bytes(x));
}

/// The bytes of the registers laid out one after the other.
pub fn registers_to_bytes(regs: &Vec<u32>) -> (r: Vec<u8>)
    ensures
        r@ == regs_bytes(regs@),
{
    let mut r: Vec<u8> = Vec::new();
    let mut i: usize = 0;
    while i < regs.len()
        invariant
            i <= regs@.len(),
            r@ == regs_bytes(regs@.subrange(0, i as int)),
        decreases regs@.len() - i,
    {
        proof {
            assert(regs@.subrange(0, i + 1).drop_last() =~= regs@.subrange(0, i as int));
        }
        push_le_bytes(&mut r, regs[i]);
        i = i + 1;
    }
    assert(regs@.subrange(0, regs@.len() as int) =~= regs@);
    r
}

fn bytes_text(bytes: Vec<u8>) -> (r: String)
    ensures
        r@ == text_or_error(bytes@),
{
    let ghost b = bytes@;
    match utf8_text(bytes) {
        Some(s) => s,
        None => owned("ERROR_FOUND"),
    }
}

// ---------------------------------------------------------------------------
// CPU checks
// ---------------------------------------------------------------------------

/// The vendor check: the vendor string of CPUID leaf 0 (EBX, EDX, ECX in this
/// order) read as text must be `AuthenticAMD`.
pub open spec fn amd_cpu_spec(ebx: u32, edx: u32, ecx: u32) -> ResultView {
    let vendor = text_or_error(regs_bytes(seq![ebx, edx, ecx]));
    rv("AMD CPU"@, pass_if(vendor == "AuthenticAMD"@), None)
}

/// Judges the CPU vendor from the registers of CPUID leaf 0.
pub fn amd_cpu(ebx: u32, edx: u32, ecx: u32) -> (r: TestResult)
    ensures
        r@ == amd_cpu_spec(ebx, edx, ecx),
{
    let regs = vec![ebx, edx, ecx];
    let name = bytes_text(registers_to_bytes(&regs));
    let stat = if str_eq(name.as_str(), "AuthenticAMD") {
        TestState::Pass
    } else {
        TestState::Fail
    };
    mk("AMD CPU", stat, None)
}

/// The processor check: the brand string (CPUID leaves 0x80000002 to
/// 0x80000004, registers EAX, EBX, ECX, EDX of each) read as text, trimmed
/// and in uppercase, must contain `EPYC`.
pub open spec fn microcode_spec(brand: Seq<u32>) -> ResultView {
    let name = trimmed(text_or_error(regs_bytes(brand)));
    rv("Microcode support"@, pass_if(contains_seq(uppercase(name), "EPYC"@)), None)
}

/// Judges the processor family from the brand string already in uppercase:
/// passes exactly where it contains `EPYC`.
pub fn processor_verdict(upper: &str) -> (r: TestResult)
    ensures
        r@ == rv("Microcode support"@, pass_if(contains_seq(upper@, "EPYC"@)), None),
{
    let stat = if str_contains(upper, "EPYC") {
        TestState::Pass
    } else {
        TestState::Fail
    };
    mk("Microcode support", stat, None)
}

/// Judges the processor family from the brand-string registers.
pub fn microcode_support(brand: &Vec<u32>) -> (r: TestResult)
    ensures
        r@ == microcode_spec(brand@),
{
    let text = bytes_text(registers_to_bytes(brand));
    let upper = to_uppercase(trim(text.as_str()));
    processor_verdict(upper.as_str())
}

/// A support check on EAX of CPUID leaf 0x8000001F: passes exactly where
/// bit `bit` of EAX is set.
pub open spec fn support_spec(name: Seq<char>, eax: u32, bit: u32) -> ResultView {
    rv(name, pass_if((eax >> bit) & 1 == 1), None)
}

/// Judges a support bit: passes where bit `bit` of `eax` is set.
pub fn encryption_support(name: &str, eax: u32, bit: u32) -> (r: TestResult)
    requires
        bit < 32,
    ensures
        r@ == support_spec(name@, eax, bit),
{
    let stat = if (eax >> bit) & 1 == 1 {
        TestState::Pass
    } else {
        TestState::Fail
    };
    mk(name, stat, None)
}

/// An informational check that always passes and shows a value.
pub open spec fn info_spec(name: Seq<char>, value: u32) -> ResultView {
    rv(name, TestState::Pass, Some(decimal(value as nat)))
}

/// Reports a value read from CPUID.
pub fn cpuid_info(name: &str, value: u32) -> (r: TestResult)
    ensures
        r@ == info_spec(name@, value),
{
    mk(name, TestState::Pass, Some(decimal_string(value as u64)))
}

/// The page-flush check: always passes, and names the state of bit 2 of EAX.
pub open spec fn page_flush_spec(eax: u32) -> ResultView {
    let enabled = eax & 4 != 0;
    let flag = if enabled {
        painted(seq!['2'], "ENABLED"@)
    } else {
        painted(seq!['3'], "DISABLED"@)
    };
    rv(
        "Page flush MSR: "@ + flag,
        TestState::Pass,
        Some(
            if enabled {
                "ENABLED"@
            } else {
                "DISABLED"@
            },
        ),
    )
}

/// Reports whether the page flush MSR is enabled.
pub fn page_flush(eax: u32) -> (r: TestResult)
    ensures
        r@ == page_flush_spec(eax),
{
    let enabled = (eax & (1 << 2)) != 0;
    assert((1u32 << 2u32) == 4) by (bit_vector);
    let flag = if enabled {
        green("ENABLED")
    } else {
        yellow("DISABLED")
    };
    let name = joined("Page flush MSR: ", flag.as_str());
    let mesg = if enabled {
        owned("ENABLED")
    } else {
        owned("DISABLED")
    };
    mk(name.as_str(), TestState::Pass, Some(mesg))
}

// ---------------------------------------------------------------------------
// Model-specific registers
// ---------------------------------------------------------------------------

/// An enable bit of the SYSCFG MSR: fails with the read error where the MSR
/// could not be read, else passes where the bit is set.
pub open spec fn msr_bit_spec(name: Seq<char>, msr: Result<u64, String>, bit: u64) -> ResultView {
    match msr {
        Err(e) => rv(name, TestState::Fail, Some("MSR read failed: "@ + e@)),
        Ok(raw) => if (raw >> bit) & 1 == 1 {
            rv(name, TestState::Pass, Some("Enabled in MSR"@))
        } else {
            rv(name, TestState::Fail, Some("Disabled in MSR"@))
        },
    }
}

fn msr_enable_bit(name: &str, msr: &Result<u64, String>, bit: u64) -> (r: TestResult)
    requires
        bit < 64,
    ensures
        r@ == msr_bit_spec(name@, *msr, bit),
{
    match msr {
        Err(e) => mk(name, TestState::Fail, Some(joined("MSR read failed: ", e.as_str()))),
        Ok(raw) => {
            let b = (*raw >> bit) & 1;
            if b == 1 {
                mk(name, TestState::Pass, Some(owned("Enabled in MSR")))
            } else {
                mk(name, TestState::Fail, Some(owned("Disabled in MSR")))
            }
        },
    }
}

/// Judges memory encryption from the SYSCFG MSR (0xC0010010): bit 23.
pub fn sme_test(msr: &Result<u64, String>) -> (r: TestResult)
    ensures
        r@ == msr_bit_spec("SME"@, *msr, 23),
{
    msr_enable_bit("SME", msr, 23)
}

/// Judges secure nested paging from the SYSCFG MSR (0xC0010010): bit 24.
pub fn snp_test(msr: &Result<u64, String>) -> (r: TestResult)
    ensures
        r@ == msr_bit_spec("SNP"@, *msr, 24),
{
    msr_enable_bit("SNP", msr, 24)
}

/// The RMP check on the base (0xC0010132) and end (0xC0010133) MSRs: fails
/// with the first read error, fails where either address is zero, else passes
/// and shows both addresses in hexadecimal.
pub open spec fn rmp_spec(base: Result<u64, String>, end: Result<u64, String>) -> ResultView {
    match base {
        Err(e) => rv(
            "Reading RMP table"@,
            TestState::Fail,
            Some("Failed to read the desired MSR: "@ + e@),
        ),
        Ok(b) => match end {
            Err(e) => rv(
                "Reading RMP table"@,
                TestState::Fail,
                Some("Failed to read the desired MSR: "@ + e@),
            ),
            Ok(x) => if b == 0 || x == 0 {
                rv(
                    "Reading RMP table"@,
                    TestState::Fail,
                    Some("RMP table was not read successfully"@),
                )
            } else {
                rv(
                    "RMP table addresses"@,
                    TestState::Pass,
                    Some("0x"@ + hex(b as nat) + " - 0x"@ + hex(x as nat)),
                )
            },
        },
    }
}

/// Judges the RMP table's location. The end address matters only where the
/// base address was read.
pub fn get_rmp_address(base: &Result<u64, String>, end: &Result<u64, String>) -> (r: TestResult)
    ensures
        r@ == rmp_spec(*base, *end),
{
    let b = match base {
        Err(e) => {
            return mk(
                "Reading RMP table",
                TestState::Fail,
                Some(joined("Failed to read the desired MSR: ", e.as_str())),
            );
        },
        Ok(b) => *b,
    };
    let x = match end {
        Err(e) => {
            return mk(
                "Reading RMP table",
                TestState::Fail,
                Some(joined("Failed to read the desired MSR: ", e.as_str())),
            );
        },
        Ok(x) => *x,
    };
    if b == 0 || x == 0 {
        mk("Reading RMP table", TestState::Fail, Some(owned("RMP table was not read successfully")))
    } else {
        let mut m = owned("0x");
        m.append(hex_string(b).as_str());
        m.append(" - 0x");
        m.append(hex_string(x).as_str());
        mk("RMP table addresses", TestState::Pass, Some(m))
    }
}

// ---------------------------------------------------------------------------
// Firmware platform status
// ---------------------------------------------------------------------------

/// The checks made on the SNP platform status.
#[derive(Clone, Copy, Debug, PartialEq, Eq, Structural)]
pub enum SnpStatusTest {
    Tcb,
    Rmp,
    AliasCheck,
    Snp,
}

/// The checks made on the SEV platform status.
#[derive(Clone, Copy, Debug, PartialEq, Eq, Structural)]
pub enum SevStatusTests {
    Sev,
    Firmware,
    SevEs,
}

/// The name an SNP status check reports under.
pub open spec fn snp_test_name(t: SnpStatusTest) -> Seq<char> {
    match t {
        SnpStatusTest::Tcb => "Comparing TCB values"@,
        SnpStatusTest::Rmp => "RMP table initialized"@,
        SnpStatusTest::AliasCheck => "Alias check"@,
        SnpStatusTest::Snp => "SNP initialized"@,
    }
}

/// The name a SEV status check reports under.
pub open spec fn sev_test_name(t: SevStatusTests) -> Seq<char> {
    match t {
        SevStatusTests::Sev => "SEV initialized"@,
        SevStatusTests::Firmware => "SEV firmware version"@,
        SevStatusTests::SevEs => "SEV-ES initialized"@,
    }
}

impl SnpStatusTest {
    /// The name the check reports under.
    pub fn name(&self) -> (r: &'static str)
        ensures
            r@ == snp_test_name(*self),
    {
        match self {
            SnpStatusTest::Tcb => "Comparing TCB values",
            SnpStatusTest::Rmp => "RMP table initialized",
            SnpStatusTest::AliasCheck => "Alias check",
            SnpStatusTest::Snp => "SNP initialized",
        }
    }
}

impl SevStatusTests {
    /// The name the check reports under.
    pub fn name(&self) -> (r: &'static str)
        ensures
            r@ == sev_test_name(*self),
    {
        match self {
            SevStatusTests::Sev => "SEV initialized",
            SevStatusTests::Firmware => "SEV firmware version",
            SevStatusTests::SevEs => "SEV-ES initialized",
        }
    }
}

/// A check on the SNP platform status: fails with the error where the status
/// could not be had; else the TCB check compares the installed and reported
/// TCB versions and shows both, the RMP and alias checks test their bits, and
/// the SNP check wants state 1 (initialised).
pub open spec fn snp_ioctl_spec(test: SnpStatusTest, status: Result<SnpStatus, String>) -> ResultView {
    let name = snp_test_name(test);
    match status {
        Err(e) => rv(name, TestState::Fail, Some("Failed to get SNP Platform status "@ + e@)),
        Ok(s) => match test {
            SnpStatusTest::Tcb => {
                let versions = " \n\n Platform TCB version: "@ + tcb_text(s.platform_tcb)
                    + " \n Reported TCB version: "@ + tcb_text(s.reported_tcb);
                if s.platform_tcb == s.reported_tcb {
                    rv(name, TestState::Pass, Some("TCB versions match"@ + versions))
                } else {
                    rv(name, TestState::Fail, Some("The TCB versions did NOT match"@ + versions))
                }
            },
            SnpStatusTest::Rmp => rv(name, pass_if(s.rmp_init), None),
            SnpStatusTest::AliasCheck => if s.alias_check_complete {
                rv(
                    name,
                    TestState::Pass,
                    Some("Completed since last system update, no aliasing addresses"@),
                )
            } else {
                rv(name, TestState::Fail, None)
            },
            SnpStatusTest::Snp => rv(name, pass_if(s.state == 1), None),
        },
    }
}

/// Judges one aspect of the SNP platform status.
pub fn snp_ioctl(test: SnpStatusTest, status: &Result<SnpStatus, String>) -> (r: TestResult)
    ensures
        r@ == snp_ioctl_spec(test, *status),
{
    let name = test.name();
    let s = match status {
        Err(e) => {
            return mk(
                name,
                TestState::Fail,
                Some(joined("Failed to get SNP Platform status ", e.as_str())),
            );
        },
        Ok(s) => s,
    };
    match test {
        SnpStatusTest::Tcb => {
            let mut versions = owned(" \n\n Platform TCB version: ");
            versions.append(format_tcb(&s.platform_tcb).as_str());
            versions.append(" \n Reported TCB version: ");
            versions.append(format_tcb(&s.reported_tcb).as_str());
            if s.platform_tcb == s.reported_tcb {
                mk(name, TestState::Pass, Some(joined("TCB versions match", versions.as_str())))
            } else {
                mk(
                    name,
                    TestState::Fail,
                    Some(joined("The TCB versions did NOT match", versions.as_str())),
                )
            }
        },
        SnpStatusTest::Rmp => {
            if s.rmp_init {
                mk(name, TestState::Pass, None)
            } else {
                mk(name, TestState::Fail, None)
            }
        },
        SnpStatusTest::AliasCheck => {
            if s.alias_check_complete {
                mk(
                    name,
                    TestState::Pass,
                    Some(owned("Completed since last system update, no aliasing addresses")),
                )
            } else {
                mk(name, TestState::Fail, None)
            }
        },
        SnpStatusTest::Snp => {
            if s.state == 1 {
                mk(name, TestState::Pass, None)
            } else {
                mk(name, TestState::Fail, None)
            }
        },
    }
}

/// The message shown where the firmware is older than 1.51.
pub open spec fn old_firmware_text() -> Seq<char> {
    "SEV firmware version needs to be at least 1.51, \n                            current firmware version: "@
}

/// A check on the SEV platform status: fails with the error where the status
/// could not be had; else the SEV check wants the platform initialised or
/// working, the firmware check wants a version other than 0.0 that is at
/// least 1.51, and the SEV-ES check tests bit 8 of the flags.
pub open spec fn sev_ioctl_spec(test: SevStatusTests, status: Result<SevStatus, String>) -> ResultView {
    let name = sev_test_name(test);
    match status {
        Err(e) => rv(name, TestState::Fail, Some("Failed to get SEV Platform Status "@ + e@)),
        Ok(s) => match test {
            SevStatusTests::Sev => match s.state {
                PlatformState::Working => rv(
                    name,
                    TestState::Pass,
                    Some("Initialized, currently running a guest"@),
                ),
                PlatformState::Initialized => rv(
                    name,
                    TestState::Pass,
                    Some("Initialized, no guests running"@),
                ),
                PlatformState::Uninitialized => rv(
                    name,
                    TestState::Fail,
                    Some("Uninitialized"@),
                ),
            },
            SevStatusTests::Firmware => {
                let v = version_text(s.major, s.minor);
                if s.major == 0 && s.minor == 0 {
                    rv(name, TestState::Fail, Some("Invalid Firmware version: "@ + v))
                } else if !meets_firmware_minimum(s.major, s.minor) {
                    rv(name, TestState::Fail, Some(old_firmware_text() + v))
                } else {
                    rv(name, TestState::Pass, Some(v))
                }
            },
            SevStatusTests::SevEs => rv(name, pass_if((s.flags >> 8) & 1 == 1), None),
        },
    }
}

/// Judges one aspect of the SEV platform status.
pub fn sev_ioctl(test: SevStatusTests, status: &Result<SevStatus, String>) -> (r: TestResult)
    ensures
        r@ == sev_ioctl_spec(test, *status),
{
    let name = test.name();
    let s = match status {
        Err(e) => {
            return mk(
                name,
                TestState::Fail,
                Some(joined("Failed to get SEV Platform Status ", e.as_str())),
            );
        },
        Ok(s) => s,
    };
    match test {
        SevStatusTests::Sev => match s.state {
            PlatformState::Working => mk(
                name,
                TestState::Pass,
                Some(owned("Initialized, currently running a guest")),
            ),
            PlatformState::Initialized => mk(
                name,
                TestState::Pass,
                Some(owned("Initialized, no guests running")),
            ),
            PlatformState::Uninitialized => mk(name, TestState::Fail, Some(owned("Uninitialized"))),
        },
        SevStatusTests::Firmware => {
            let v = format_version(s.major, s.minor);
            if s.major == 0 && s.minor == 0 {
                mk(name, TestState::Fail, Some(joined("Invalid Firmware version: ", v.as_str())))
            } else if !firmware_meets_minimum(s.major, s.minor) {
                mk(
                    name,
                    TestState::Fail,
                    Some(
                        joined(
                            "SEV firmware version needs to be at least 1.51, \n                            current firmware version: ",
                            v.as_str(),
                        ),
                    ),
                )
            } else {
                mk(name, TestState::Pass, Some(v))
            }
        },
        SevStatusTests::SevEs => {
            if (s.flags >> 8) & 1 == 1 {
                mk(name, TestState::Pass, None)
            } else {
                mk(name, TestState::Fail, None)
            }
        },
    }
}

// ---------------------------------------------------------------------------
// Device nodes, KVM and resource limits
// ---------------------------------------------------------------------------

/// Opening `/dev/sev` for reading: passes where it opened, else fails with the error.
pub open spec fn dev_sev_r_spec(open: Result<(), String>) -> ResultView {
    match open {
        Ok(_) => rv("/dev/sev readable"@, TestState::Pass, None),
        Err(e) => rv("/dev/sev readable"@, TestState::Fail, Some("Not readable: "@ + e@)),
    }
}

/// Opening `/dev/sev` for writing: passes where it opened, else fails with the error.
pub open spec fn dev_sev_w_spec(open: Result<(), String>) -> ResultView {
    match open {
        Ok(_) => rv("/dev/sev writable"@, TestState::Pass, None),
        Err(e) => rv("/dev/sev writable"@, TestState::Fail, Some("Not writable: "@ + e@)),
    }
}

/// Judges whether `/dev/sev` could be opened for reading.
pub fn dev_sev_r(open: &Result<(), String>) -> (r: TestResult)
    ensures
        r@ == dev_sev_r_spec(*open),
{
    match open {
        Ok(_) => mk("/dev/sev readable", TestState::Pass, None),
        Err(e) => mk("/dev/sev readable", TestState::Fail, Some(joined("Not readable: ", e.as_str()))),
    }
}

/// Judges whether `/dev/sev` could be opened for writing.
pub fn dev_sev_w(open: &Result<(), String>) -> (r: TestResult)
    ensures
        r@ == dev_sev_w_spec(*open),
{
    match open {
        Ok(_) => mk("/dev/sev writable", TestState::Pass, None),
        Err(e) => mk("/dev/sev writable", TestState::Fail, Some(joined("Not writable: ", e.as_str()))),
    }
}

/// The KVM check on the answer of `KVM_GET_API_VERSION` on `/dev/kvm`: fails
/// where the device could not be opened or the answer is negative, else passes
/// and shows the API version.
pub open spec fn kvm_spec(api: Result<i32, String>) -> ResultView {
    match api {
        Ok(v) => if v < 0 {
            rv(
                "KVM supported"@,
                TestState::Fail,
                Some("Error - accessing KVM device node failed"@),
            )
        } else {
            rv("KVM supported"@, TestState::Pass, Some("API version: "@ + decimal(v as nat)))
        },
        Err(e) => rv(
            "KVM supported"@,
            TestState::Fail,
            Some("Error reading /dev/kvm: ("@ + e@ + ")"@),
        ),
    }
}

/// Judges KVM support from the API version query.
pub fn has_kvm_support(api: &Result<i32, String>) -> (r: TestResult)
    ensures
        r@ == kvm_spec(*api),
{
    match api {
        Ok(v) => {
            if *v < 0 {
                mk(
                    "KVM supported",
                    TestState::Fail,
                    Some(owned("Error - accessing KVM device node failed")),
                )
            } else {
                mk(
                    "KVM supported",
                    TestState::Pass,
                    Some(joined("API version: ", decimal_string(*v as u64).as_str())),
                )
            }
        },
        Err(e) => {
            let mut m = owned("Error reading /dev/kvm: (");
            m.append(e.as_str());
            m.append(")");
            mk("KVM supported", TestState::Fail, Some(m))
        },
    }
}

/// The SEV generations whose enablement in KVM is checked.
#[derive(Clone, Copy, Debug, PartialEq, Eq, Structural)]
pub enum SevGeneration {
    Sev,
    Es,
    Snp,
}

/// The `kvm_amd` module parameter that enables a generation.
pub open spec fn kvm_param_path_of(gen: SevGeneration) -> Seq<char> {
    match gen {
        SevGeneration::Sev => "/sys/module/kvm_amd/parameters/sev"@,
        SevGeneration::Es => "/sys/module/kvm_amd/parameters/sev_es"@,
        SevGeneration::Snp => "/sys/module/kvm_amd/parameters/sev_snp"@,
    }
}

/// The name the KVM enablement check of a generation reports under.
pub open spec fn kvm_check_name(gen: SevGeneration) -> Seq<char> {
    match gen {
        SevGeneration::Sev => "SEV enabled in KVM"@,
        SevGeneration::Es => "SEV-ES enabled in KVM"@,
        SevGeneration::Snp => "SEV-SNP enabled in KVM"@,
    }
}

/// The path of the `kvm_amd` module parameter that enables a generation.
pub fn kvm_param_path(gen: SevGeneration) -> (r: &'static str)
    ensures
        r@ == kvm_param_path_of(gen),
{
    match gen {
        SevGeneration::Sev => "/sys/module/kvm_amd/parameters/sev",
        SevGeneration::Es => "/sys/module/kvm_amd/parameters/sev_es",
        SevGeneration::Snp => "/sys/module/kvm_amd/parameters/sev_snp",
    }
}

fn kvm_name(gen: SevGeneration) -> (r: &'static str)
    ensures
        r@ == kvm_check_name(gen),
{
    match gen {
        SevGeneration::Sev => "SEV enabled in KVM",
        SevGeneration::Es => "SEV-ES enabled in KVM",
        SevGeneration::Snp => "SEV-SNP enabled in KVM",
    }
}

/// What reading a module parameter file gave.
pub enum ParamRead {
    /// The file does not exist.
    Missing,
    /// The file exists but could not be read; the error.
    Unreadable(String),
    /// The contents of the file.
    Contents(String),
}

/// The KVM enablement check: passes where the parameter, trimmed, is `1` or
/// `Y`; else fails and says why.
pub open spec fn kvm_param_spec(gen: SevGeneration, read: ParamRead) -> ResultView {
    let path = kvm_param_path_of(gen);
    let name = kvm_check_name(gen);
    match read {
        ParamRead::Missing => rv(
            name,
            TestState::Fail,
            Some("Error - "@ + path + " does not exist"@),
        ),
        ParamRead::Unreadable(e) => rv(
            name,
            TestState::Fail,
            Some("Error - (unable to read "@ + path + "): "@ + e@),
        ),
        ParamRead::Contents(c) => {
            let t = trimmed(c@);
            if t == "1"@ || t == "Y"@ {
                rv(name, TestState::Pass, None)
            } else {
                rv(
                    name,
                    TestState::Fail,
                    Some("Error - contents read from "@ + path + ": "@ + t),
                )
            }
        },
    }
}

/// Judges whether a SEV generation is enabled in KVM.
pub fn sev_enabled_in_kvm(gen: SevGeneration, read: &ParamRead) -> (r: TestResult)
    ensures
        r@ == kvm_param_spec(gen, *read),
{
    let path = kvm_param_path(gen);
    let name = kvm_name(gen);
    match read {
        ParamRead::Missing => {
            let mut m = owned("Error - ");
            m.append(path);
            m.append(" does not exist");
            mk(name, TestState::Fail, Some(m))
        },
        ParamRead::Unreadable(e) => {
            let mut m = owned("Error - (unable to read ");
            m.append(path);
            m.append("): ");
            m.append(e.as_str());
            mk(name, TestState::Fail, Some(m))
        },
        ParamRead::Contents(c) => {
            let t = trim(c.as_str());
            if str_eq(t, "1") || str_eq(t, "Y") {
                mk(name, TestState::Pass, None)
            } else {
                let mut m = owned("Error - contents read from ");
                m.append(path);
                m.append(": ");
                m.append(t);
                mk(name, TestState::Fail, Some(m))
            }
        },
    }
}

/// The memlock check: passes and shows the soft and hard limits where they
/// could be had, else fails.
pub open spec fn memlock_spec(limits: Option<(u64, u64)>) -> ResultView {
    match limits {
        Some((soft, hard)) => rv(
            "Memlock resource limit"@,
            TestState::Pass,
            Some("Soft: "@ + decimal(soft as nat) + " | Hard: "@ + decimal(hard as nat)),
        ),
        None => rv(
            "Memlock resource limit"@,
            TestState::Fail,
            Some("Unable to retrieve memlock resource limits"@),
        ),
    }
}

/// Judges the locked-memory resource limit.
pub fn memlock_rlimit(limits: Option<(u64, u64)>) -> (r: TestResult)
    ensures
        r@ == memlock_spec(limits),
{
    match limits {
        Some((soft, hard)) => {
            let mut m = owned("Soft: ");
            m.append(decimal_string(soft).as_str());
            m.append(" | Hard: ");
            m.append(decimal_string(hard).as_str());
            mk("Memlock resource limit", TestState::Pass, Some(m))
        },
        None => mk(
            "Memlock resource limit",
            TestState::Fail,
            Some(owned("Unable to retrieve memlock resource limits")),
        ),
    }
}

} // verus!
