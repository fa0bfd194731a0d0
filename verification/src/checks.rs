//! The tree of checks, in pre-order with indentation levels, and for each check
//! what must be read from the machine and how that reading is judged.
use vstd::prelude::*;
use crate::model::{ResultView, TestResult};
use crate::platform::{SevStatus, SnpStatus};
use crate::probes::{
    amd_cpu, amd_cpu_spec, cpuid_info, dev_sev_r, dev_sev_r_spec, dev_sev_w, dev_sev_w_spec,
    encryption_support, get_rmp_address, has_kvm_support, info_spec, kvm_param_spec, kvm_spec,
    memlock_rlimit, memlock_spec, microcode_spec, microcode_support, msr_bit_spec, page_flush,
    page_flush_spec, rmp_spec, sev_enabled_in_kvm, sev_ioctl, sev_ioctl_spec, sme_test,
    snp_ioctl, snp_ioctl_spec, snp_test, support_spec, ParamRead, SevGeneration, SevStatusTests,
    SnpStatusTest,
};

verus! {

/// Checks that apply to every SEV generation.
pub const SEV_MASK: usize = 1;

/// Checks that need SEV-ES.
pub const ES_MASK: usize = 2;

/// Checks that need SEV-SNP.
pub const SNP_MASK: usize = 4;

/// Indentation added for each level of nesting.
pub const INDENT: usize = 2;

/// What a check examines.
#[derive(Clone, Copy, Debug, PartialEq, Eq, Structural)]
pub enum Probe {
    AmdCpu,
    Microcode,
    SmeSupport,
    SmeMsr,
    SevSupport,
    SevFirmware,
    EsSupport,
    EsInit,
    SevInit,
    SnpSupport,
    VmplSupport,
    VmplCount,
    SnpMsr,
    SnpInit,
    RmpAddress,
    RmpInit,
    AliasCheck,
    PaBitReduction,
    CBit,
    GuestCount,
    MinAsid,
    DevSevRead,
    DevSevWrite,
    PageFlush,
    Kvm,
    KvmSev,
    KvmEs,
    KvmSnp,
    Memlock,
    Tcb,
}

/// One check of the tree: its name, the SEV generations it needs (a mask of
/// `SEV_MASK`, `ES_MASK`, `SNP_MASK`), its indentation level, and what it examines.
/// The checks nested under a check follow it, at a deeper level.
#[derive(Clone, Copy, Debug)]
pub struct Test {
    pub name: &'static str,
    pub gen_mask: usize,
    pub level: usize,
    pub probe: Probe,
}

/// The tree of checks in pre-order.
pub open spec fn test_tree() -> Seq<Test> {
    seq![
        Test { name: "AMD CPU", gen_mask: 1, level: 0, probe: Probe::AmdCpu },
        Test { name: "Microcode support", gen_mask: 1, level: 2, probe: Probe::Microcode },
        Test { name: "Secure Memory Encryption (SME)", gen_mask: 1, level: 2, probe: Probe::SmeSupport },
        Test { name: "SME", gen_mask: 1, level: 4, probe: Probe::SmeMsr },
        Test { name: "Secure Encrypted Virtualization (SEV)", gen_mask: 1, level: 2, probe: Probe::SevSupport },
        Test { name: "SEV Firmware Version", gen_mask: 4, level: 4, probe: Probe::SevFirmware },
        Test { name: "Encrypted State (SEV-ES)", gen_mask: 2, level: 4, probe: Probe::EsSupport },
        Test { name: "SEV-ES initialized", gen_mask: 2, level: 6, probe: Probe::EsInit },
        Test { name: "SEV initialized", gen_mask: 4, level: 4, probe: Probe::SevInit },
        Test { name: "Secure Nested Paging (SEV-SNP)", gen_mask: 4, level: 4, probe: Probe::SnpSupport },
        Test { name: "VM Permission Levels", gen_mask: 4, level: 6, probe: Probe::VmplSupport },
        Test { name: "Number of VMPLs", gen_mask: 4, level: 8, probe: Probe::VmplCount },
        Test { name: "SEV-SNP", gen_mask: 4, level: 6, probe: Probe::SnpMsr },
        Test { name: "SNP initialized", gen_mask: 4, level: 6, probe: Probe::SnpInit },
        Test { name: "Read RMP tables", gen_mask: 4, level: 8, probe: Probe::RmpAddress },
        Test { name: "RMP table initialized", gen_mask: 4, level: 8, probe: Probe::RmpInit },
        Test { name: "Alias check", gen_mask: 4, level: 8, probe: Probe::AliasCheck },
        Test { name: "Physical address bit reduction", gen_mask: 1, level: 4, probe: Probe::PaBitReduction },
        Test { name: "C-bit location", gen_mask: 1, level: 4, probe: Probe::CBit },
        Test {
            name: "Number of encrypted guests supported simultaneously",
            gen_mask: 1,
            level: 4,
            probe: Probe::GuestCount,
        },
        Test {
            name: "Minimum ASID value for SEV-enabled, SEV-ES disabled guest",
            gen_mask: 1,
            level: 4,
            probe: Probe::MinAsid,
        },
        Test { name: "/dev/sev readable", gen_mask: 1, level: 4, probe: Probe::DevSevRead },
        Test { name: "/dev/sev writable", gen_mask: 1, level: 4, probe: Probe::DevSevWrite },
        Test { name: "Page flush MSR", gen_mask: 1, level: 2, probe: Probe::PageFlush },
        Test { name: "KVM Support", gen_mask: 1, level: 0, probe: Probe::Kvm },
        Test { name: "SEV enabled in KVM", gen_mask: 1, level: 2, probe: Probe::KvmSev },
        Test { name: "SEV-ES enabled in KVM", gen_mask: 2, level: 2, probe: Probe::KvmEs },
        Test { name: "SEV-SNP enabled in KVM", gen_mask: 4, level: 2, probe: Probe::KvmSnp },
        Test { name: "memlock limit", gen_mask: 1, level: 0, probe: Probe::Memlock },
        Test { name: "Compare TCB values", gen_mask: 4, level: 0, probe: Probe::Tcb },
    ]
}

/// The tree of checks, in pre-order: a check is followed by the checks nested
/// under it, which have a deeper level.
pub fn collect_tests() -> (r: Vec<Test>)
    ensures
        r@ == test_tree(),
{
    let r = vec![
        Test { name: "AMD CPU", gen_mask: SEV_MASK, level: 0, probe: Probe::AmdCpu },
        Test { name: "Microcode support", gen_mask: SEV_MASK, level: 2, probe: Probe::Microcode },
        Test {
            name: "Secure Memory Encryption (SME)",
            gen_mask: SEV_MASK,
            level: 2,
            probe: Probe::SmeSupport,
        },
        Test { name: "SME", gen_mask: SEV_MASK, level: 4, probe: Probe::SmeMsr },
        Test {
            name: "Secure Encrypted Virtualization (SEV)",
            gen_mask: SEV_MASK,
            level: 2,
            probe: Probe::SevSupport,
        },
        Test { name: "SEV Firmware Version", gen_mask: SNP_MASK, level: 4, probe: Probe::SevFirmware },
        Test { name: "Encrypted State (SEV-ES)", gen_mask: ES_MASK, level: 4, probe: Probe::EsSupport },
        Test { name: "SEV-ES initialized", gen_mask: ES_MASK, level: 6, probe: Probe::EsInit },
        Test { name: "SEV initialized", gen_mask: SNP_MASK, level: 4, probe: Probe::SevInit },
        Test {
            name: "Secure Nested Paging (SEV-SNP)",
            gen_mask: SNP_MASK,
            level: 4,
            probe: Probe::SnpSupport,
        },
        Test { name: "VM Permission Levels", gen_mask: SNP_MASK, level: 6, probe: Probe::VmplSupport },
        Test { name: "Number of VMPLs", gen_mask: SNP_MASK, level: 8, probe: Probe::VmplCount },
        Test { name: "SEV-SNP", gen_mask: SNP_MASK, level: 6, probe: Probe::SnpMsr },
        Test { name: "SNP initialized", gen_mask: SNP_MASK, level: 6, probe: Probe::SnpInit },
        Test { name: "Read RMP tables", gen_mask: SNP_MASK, level: 8, probe: Probe::RmpAddress },
        Test { name: "RMP table initialized", gen_mask: SNP_MASK, level: 8, probe: Probe::RmpInit },
        Test { name: "Alias check", gen_mask: SNP_MASK, level: 8, probe: Probe::AliasCheck },
        Test {
            name: "Physical address bit reduction",
            gen_mask: SEV_MASK,
            level: 4,
            probe: Probe::PaBitReduction,
        },
        Test { name: "C-bit location", gen_mask: SEV_MASK, level: 4, probe: Probe::CBit },
        Test {
            name: "Number of encrypted guests supported simultaneously",
            gen_mask: SEV_MASK,
            level: 4,
            probe: Probe::GuestCount,
        },
        Test {
            name: "Minimum ASID value for SEV-enabled, SEV-ES disabled guest",
            gen_mask: SEV_MASK,
            level: 4,
            probe: Probe::MinAsid,
        },
        Test { name: "/dev/sev readable", gen_mask: SEV_MASK, level: 4, probe: Probe::DevSevRead },
        Test { name: "/dev/sev writable", gen_mask: SEV_MASK, level: 4, probe: Probe::DevSevWrite },
        Test { name: "Page flush MSR", gen_mask: SEV_MASK, level: 2, probe: Probe::PageFlush },
        Test { name: "KVM Support", gen_mask: SEV_MASK, level: 0, probe: Probe::Kvm },
        Test { name: "SEV enabled in KVM", gen_mask: SEV_MASK, level: 2, probe: Probe::KvmSev },
        Test { name: "SEV-ES enabled in KVM", gen_mask: ES_MASK, level: 2, probe: Probe::KvmEs },
        Test { name: "SEV-SNP enabled in KVM", gen_mask: SNP_MASK, level: 2, probe: Probe::KvmSnp },
        Test { name: "memlock limit", gen_mask: SEV_MASK, level: 0, probe: Probe::Memlock },
        Test { name: "Compare TCB values", gen_mask: SNP_MASK, level: 0, probe: Probe::Tcb },
    ];
    assert(r@ =~= test_tree());
    r
}

/// What must be read from the machine for a check.
#[derive(Clone, Copy, Debug, PartialEq, Eq, Structural)]
pub enum Request {
    /// The four registers of a CPUID leaf.
    Cpuid(u32),
    /// The brand-string registers: EAX, EBX, ECX, EDX of CPUID leaves
    /// 0x80000002, 0x80000003 and 0x80000004, in this order.
    CpuidBrand,
    /// A model-specific register on CPU 0.
    Msr(u32),
    /// The RMP base MSR (0xC0010132), then the RMP end MSR (0xC0010133).
    RmpMsrs,
    /// The SEV platform status.
    SevStatus,
    /// The SNP platform status.
    SnpStatus,
    /// Opening `/dev/sev`, for writing or for reading.
    OpenSev { write: bool },
    /// The KVM API version, from `/dev/kvm`.
    KvmApiVersion,
    /// A `kvm_amd` module parameter (see `kvm_param_path`).
    KvmParam(SevGeneration),
    /// The locked-memory resource limits.
    Memlock,
}

/// What was read from the machine for a check; errors are given by their text.
pub enum Observation {
    Cpuid { eax: u32, ebx: u32, ecx: u32, edx: u32 },
    Brand(Vec<u32>),
    Msr(Result<u64, String>),
    /// The base, then the end address; the end is read only where the base was.
    Rmp(Result<u64, String>, Result<u64, String>),
    Sev(Result<SevStatus, String>),
    Snp(Result<SnpStatus, String>),
    Open(Result<(), String>),
    Kvm(Result<i32, String>),
    Param(ParamRead),
    Memlock(Option<(u64, u64)>),
}

/// CPUID leaf 0x8000001F, which describes the memory encryption features.
pub const SEV_LEAF: u32 = 0x8000_001f;

/// The SYSCFG model-specific register.
pub const SYSCFG_MSR: u32 = 0xC001_0010;

/// What must be read for a check.
pub open spec fn request_of(p: Probe) -> Request {
    match p {
        Probe::AmdCpu => Request::Cpuid(0),
        Probe::Microcode => Request::CpuidBrand,
        Probe::SmeMsr | Probe::SnpMsr => Request::Msr(0xC001_0010),
        Probe::SevFirmware | Probe::EsInit | Probe::SevInit => Request::SevStatus,
        Probe::SnpInit | Probe::RmpInit | Probe::AliasCheck | Probe::Tcb => Request::SnpStatus,
        Probe::RmpAddress => Request::RmpMsrs,
        Probe::DevSevRead => Request::OpenSev { write: false },
        Probe::DevSevWrite => Request::OpenSev { write: true },
        Probe::Kvm => Request::KvmApiVersion,
        Probe::KvmSev => Request::KvmParam(SevGeneration::Sev),
        Probe::KvmEs => Request::KvmParam(SevGeneration::Es),
        Probe::KvmSnp => Request::KvmParam(SevGeneration::Snp),
        Probe::Memlock => Request::Memlock,
        _ => Request::Cpuid(0x8000_001f),
    }
}

/// What must be read for a check.
pub fn request_for(p: Probe) -> (r: Request)
    ensures
        r == request_of(p),
{
    match p {
        Probe::AmdCpu => Request::Cpuid(0),
        Probe::Microcode => Request::CpuidBrand,
        Probe::SmeMsr | Probe::SnpMsr => Request::Msr(SYSCFG_MSR),
        Probe::SevFirmware | Probe::EsInit | Probe::SevInit => Request::SevStatus,
        Probe::SnpInit | Probe::RmpInit | Probe::AliasCheck | Probe::Tcb => Request::SnpStatus,
        Probe::RmpAddress => Request::RmpMsrs,
        Probe::DevSevRead => Request::OpenSev { write: false },
        Probe::DevSevWrite => Request::OpenSev { write: true },
        Probe::Kvm => Request::KvmApiVersion,
        Probe::KvmSev => Request::KvmParam(SevGeneration::Sev),
        Probe::KvmEs => Request::KvmParam(SevGeneration::Es),
        Probe::KvmSnp => Request::KvmParam(SevGeneration::Snp),
        Probe::Memlock => Request::Memlock,
        _ => Request::Cpuid(SEV_LEAF),
    }
}

/// The observation is of the kind that the request asks for.
pub open spec fn answers(q: Request, o: Observation) -> bool {
    match q {
        Request::Cpuid(_) => o is Cpuid,
        Request::CpuidBrand => o is Brand,
        Request::Msr(_) => o is Msr,
        Request::RmpMsrs => o is Rmp,
        Request::SevStatus => o is Sev,
        Request::SnpStatus => o is Snp,
        Request::OpenSev { .. } => o is Open,
        Request::KvmApiVersion => o is Kvm,
        Request::KvmParam(_) => o is Param,
        Request::Memlock => o is Memlock,
    }
}

/// The observation is of the kind that the request asks for.
pub fn observation_answers(q: Request, o: &Observation) -> (r: bool)
    ensures
        r == answers(q, *o),
{
    match q {
        Request::Cpuid(_) => matches!(o, Observation::Cpuid { .. }),
        Request::CpuidBrand => matches!(o, Observation::Brand(_)),
        Request::Msr(_) => matches!(o, Observation::Msr(_)),
        Request::RmpMsrs => matches!(o, Observation::Rmp(_, _)),
        Request::SevStatus => matches!(o, Observation::Sev(_)),
        Request::SnpStatus => matches!(o, Observation::Snp(_)),
        Request::OpenSev { .. } => matches!(o, Observation::Open(_)),
        Request::KvmApiVersion => matches!(o, Observation::Kvm(_)),
        Request::KvmParam(_) => matches!(o, Observation::Param(_)),
        Request::Memlock => matches!(o, Observation::Memlock(_)),
    }
}

/// How a check judges what was read for it.
pub open spec fn judged(p: Probe, o: Observation) -> ResultView
    recommends
        answers(request_of(p), o),
{
    match o {
        Observation::Cpuid { eax, ebx, ecx, edx } => match p {
            Probe::AmdCpu => amd_cpu_spec(ebx, edx, ecx),
            Probe::SmeSupport => support_spec("Secure Memory Encryption (SME)"@, eax, 0),
            Probe::SevSupport => support_spec("Secure Encrypted Virtualization (SEV)"@, eax, 1),
            Probe::EsSupport => support_spec("Encrypted State (SEV-ES)"@, eax, 3),
            Probe::SnpSupport => support_spec("Secure Nested Paging (SEV-SNP)"@, eax, 4),
            Probe::VmplSupport => support_spec("VM Permission Levels"@, eax, 5),
            Probe::VmplCount => info_spec("Number of VMPLs"@, (ebx & 0xf000) >> 12),
            Probe::PaBitReduction => info_spec(
                "Physical address bit reduction"@,
                (ebx & 0xfc0) >> 6,
            ),
            Probe::CBit => info_spec("C-bit location"@, ebx & 0x3f),
            Probe::GuestCount => info_spec(
                "Number of encrypted guests supported simultaneously"@,
                ecx,
            ),
            Probe::MinAsid => info_spec(
                "Minimum ASID value for SEV-enabled, SEV-ES disabled guest"@,
                edx,
            ),
            _ => page_flush_spec(eax),
        },
        Observation::Brand(regs) => microcode_spec(regs@),
        Observation::Msr(m) => if p == Probe::SmeMsr {
            msr_bit_spec("SME"@, m, 23)
        } else {
            msr_bit_spec("SNP"@, m, 24)
        },
        Observation::Rmp(base, end) => rmp_spec(base, end),
        Observation::Sev(s) => match p {
            Probe::SevFirmware => sev_ioctl_spec(SevStatusTests::Firmware, s),
            Probe::EsInit => sev_ioctl_spec(SevStatusTests::SevEs, s),
            _ => sev_ioctl_spec(SevStatusTests::Sev, s),
        },
        Observation::Snp(s) => match p {
            Probe::Tcb => snp_ioctl_spec(SnpStatusTest::Tcb, s),
            Probe::RmpInit => snp_ioctl_spec(SnpStatusTest::Rmp, s),
            Probe::AliasCheck => snp_ioctl_spec(SnpStatusTest::AliasCheck, s),
            _ => snp_ioctl_spec(SnpStatusTest::Snp, s),
        },
        Observation::Open(r) => if p == Probe::DevSevWrite {
            dev_sev_w_spec(r)
        } else {
            dev_sev_r_spec(r)
        },
        Observation::Kvm(a) => kvm_spec(a),
        Observation::Param(read) => match p {
            Probe::KvmEs => kvm_param_spec(SevGeneration::Es, read),
            Probe::KvmSnp => kvm_param_spec(SevGeneration::Snp, read),
            _ => kvm_param_spec(SevGeneration::Sev, read),
        },
        Observation::Memlock(l) => memlock_spec(l),
    }
}

/// Judges what was read for a check.
pub fn evaluate(p: Probe, o: &Observation) -> (r: TestResult)
    requires
        answers(request_of(p), *o),
    ensures
        r@ == judged(p, *o),
{
    match o {
        Observation::Cpuid { eax, ebx, ecx, edx } => match p {
            Probe::AmdCpu => amd_cpu(*ebx, *edx, *ecx),
            Probe::SmeSupport => encryption_support("Secure Memory Encryption (SME)", *eax, 0),
            Probe::SevSupport => encryption_support("Secure Encrypted Virtualization (SEV)", *eax, 1),
            Probe::EsSupport => encryption_support("Encrypted State (SEV-ES)", *eax, 3),
            Probe::SnpSupport => encryption_support("Secure Nested Paging (SEV-SNP)", *eax, 4),
            Probe::VmplSupport => encryption_support("VM Permission Levels", *eax, 5),
            Probe::VmplCount => cpuid_info("Number of VMPLs", (*ebx & 0xf000) >> 12),
            Probe::PaBitReduction => cpuid_info(
                "Physical address bit reduction",
                (*ebx & 0b1111_1100_0000) >> 6,
            ),
            Probe::CBit => cpuid_info("C-bit location", *ebx & 0b11_1111),
            Probe::GuestCount => cpuid_info(
                "Number of encrypted guests supported simultaneously",
                *ecx,
            ),
            Probe::MinAsid => cpuid_info(
                "Minimum ASID value for SEV-enabled, SEV-ES disabled guest",
                *edx,
            ),
            _ => page_flush(*eax),
        },
        Observation::Brand(regs) => microcode_support(regs),
        Observation::Msr(m) => if p == Probe::SmeMsr {
            sme_test(m)
        } else {
            snp_test(m)
        },
        Observation::Rmp(base, end) => get_rmp_address(base, end),
        Observation::Sev(s) => match p {
            Probe::SevFirmware => sev_ioctl(SevStatusTests::Firmware, s),
            Probe::EsInit => sev_ioctl(SevStatusTests::SevEs, s),
            _ => sev_ioctl(SevStatusTests::Sev, s),
        },
        Observation::Snp(s) => match p {
            Probe::Tcb => snp_ioctl(SnpStatusTest::Tcb, s),
            Probe::RmpInit => snp_ioctl(SnpStatusTest::Rmp, s),
            Probe::AliasCheck => snp_ioctl(SnpStatusTest::AliasCheck, s),
            _ => snp_ioctl(SnpStatusTest::Snp, s),
        },
        Observation::Open(r) => if p == Probe::DevSevWrite {
            dev_sev_w(r)
        } else {
            dev_sev_r(r)
        },
        Observation::Kvm(a) => has_kvm_support(a),
        Observation::Param(read) => match p {
            Probe::KvmEs => sev_enabled_in_kvm(SevGeneration::Es, read),
            Probe::KvmSnp => sev_enabled_in_kvm(SevGeneration::Snp, read),
            _ => sev_enabled_in_kvm(SevGeneration::Sev, read),
        },
        Observation::Memlock(l) => memlock_rlimit(*l),
    }
}

} // verus!
