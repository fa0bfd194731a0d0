//! The software the host needs: the kernel, QEMU, libvirt, OVMF and the SEV
//! firmware, judged from what was read of their versions.
use vstd::prelude::*;
use crate::colors::{green, painted, red, yellow};
use crate::model::opt_view;
use crate::platform::{firmware_meets_minimum, format_version, meets_firmware_minimum, version_text, SevStatus};
use crate::text::{owned, trim, trimmed};
use crate::version::{digit_word_from, first_digit_word, parse_version_ge, version_ge};

verus! {

/// How a piece of software stands.
#[derive(Clone, Copy, Debug, PartialEq, Eq, Structural)]
pub enum SwStatus {
    /// Installed and recent enough.
    Supported,
    /// Installed but older than needed.
    TooOld,
    /// Needed but not found.
    Missing,
    /// Not found, and not needed.
    OptionalMissing,
}

/// The result of a software version check.
pub struct SoftwareVersion {
    pub name: String,
    pub version: Option<String>,
    pub status: SwStatus,
    pub detail: String,
}

/// The view of a [`SoftwareVersion`].
pub struct SwView {
    pub name: Seq<char>,
    pub version: Option<Seq<char>>,
    pub status: SwStatus,
    pub detail: Seq<char>,
}

impl View for SoftwareVersion {
    type V = SwView;

    open spec fn view(&self) -> SwView {
        SwView {
            name: self.name@,
            version: opt_view(self.version),
            status: self.status,
            detail: self.detail@,
        }
    }
}

/// The views of a sequence of software versions.
pub open spec fn sw_views(vs: Seq<SoftwareVersion>) -> Seq<SwView> {
    vs.map_values(|v: SoftwareVersion| v@)
}

/// The software view with the given parts.
pub open spec fn swv(
    name: Seq<char>,
    version: Option<Seq<char>>,
    status: SwStatus,
    detail: Seq<char>,
) -> SwView {
    SwView { name, version, status, detail }
}

fn mk(name: &str, version: Option<String>, status: SwStatus, detail: &str) -> (r: SoftwareVersion)
    ensures
        r@ == swv(name@, opt_view(version), status, detail@),
{
    SoftwareVersion { name: owned(name), version, status, detail: owned(detail) }
}

/// The kernel check on the contents of `/proc/sys/kernel/osrelease`: the
/// trimmed release must be at least 6.11.
pub open spec fn kernel_spec(read: Option<Seq<char>>) -> SwView {
    match read {
        Some(c) => {
            let ver = trimmed(c);
            if version_ge(ver, 6, 11) {
                swv("Linux kernel"@, Some(ver), SwStatus::Supported, "kernel >= 6.11"@)
            } else {
                swv(
                    "Linux kernel"@,
                    Some(ver),
                    SwStatus::TooOld,
                    "Need kernel >= 6.11 for SEV-SNP host support"@,
                )
            }
        },
        None => swv(
            "Linux kernel"@,
            None,
            SwStatus::Missing,
            "Cannot read /proc/sys/kernel/osrelease"@,
        ),
    }
}

/// Judges the kernel release, read from `/proc/sys/kernel/osrelease` (`None`
/// where it could not be read).
pub fn check_kernel_version(read: &Option<String>) -> (r: SoftwareVersion)
    ensures
        r@ == kernel_spec(opt_view(*read)),
{
    match read {
        Some(c) => {
            let ver = trim(c.as_str());
            if parse_version_ge(ver, 6, 11) {
                mk("Linux kernel", Some(owned(ver)), SwStatus::Supported, "kernel >= 6.11")
            } else {
                mk(
                    "Linux kernel",
                    Some(owned(ver)),
                    SwStatus::TooOld,
                    "Need kernel >= 6.11 for SEV-SNP host support",
                )
            }
        },
        None => mk("Linux kernel", None, SwStatus::Missing, "Cannot read /proc/sys/kernel/osrelease"),
    }
}

/// The QEMU check on the output of `qemu-system-x86_64 --version`: the first
/// word that starts with a digit (`unknown` where there is none) must be a
/// version of at least 6.0.
pub open spec fn qemu_spec(out: Option<Seq<char>>) -> SwView {
    match out {
        Some(o) => {
            let ver = match digit_word_from(o, 0) {
                Some(w) => w,
                None => "unknown"@,
            };
            if version_ge(ver, 6, 0) {
                swv("QEMU"@, Some(ver), SwStatus::Supported, "qemu >= 6.0"@)
            } else {
                swv("QEMU"@, Some(ver), SwStatus::TooOld, "Need QEMU >= 6.0 for SEV-SNP support"@)
            }
        },
        None => swv("QEMU"@, None, SwStatus::Missing, "qemu-system-x86_64 not found"@),
    }
}

/// Judges QEMU from the text of what `qemu-system-x86_64 --version` wrote
/// (`None` where it could not be run).
pub fn check_qemu_version(out: &Option<String>) -> (r: SoftwareVersion)
    ensures
        r@ == qemu_spec(opt_view(*out)),
{
    match out {
        Some(o) => {
            let ver = match first_digit_word(o.as_str()) {
                Some(w) => w,
                None => owned("unknown"),
            };
            if parse_version_ge(ver.as_str(), 6, 0) {
                mk("QEMU", Some(ver), SwStatus::Supported, "qemu >= 6.0")
            } else {
                mk("QEMU", Some(ver), SwStatus::TooOld, "Need QEMU >= 6.0 for SEV-SNP support")
            }
        },
        None => mk("QEMU", None, SwStatus::Missing, "qemu-system-x86_64 not found"),
    }
}

/// The libvirt check on the output of `virsh --version`: the trimmed text
/// must be a version of at least 4.5; libvirt is optional.
pub open spec fn libvirt_spec(out: Option<Seq<char>>) -> SwView {
    match out {
        Some(o) => {
            let ver = trimmed(o);
            if version_ge(ver, 4, 5) {
                swv("libvirt"@, Some(ver), SwStatus::Supported, "libvirt >= 4.5"@)
            } else {
                swv("libvirt"@, Some(ver), SwStatus::TooOld, "Need libvirt >= 4.5 for SEV support"@)
            }
        },
        None => swv(
            "libvirt"@,
            None,
            SwStatus::OptionalMissing,
            "virsh not found (optional, >= 4.5)"@,
        ),
    }
}

/// Judges libvirt from the text of what `virsh --version` wrote (`None` where
/// it could not be run).
pub fn check_libvirt_version(out: &Option<String>) -> (r: SoftwareVersion)
    ensures
        r@ == libvirt_spec(opt_view(*out)),
{
    match out {
        Some(o) => {
            let ver = trim(o.as_str());
            if parse_version_ge(ver, 4, 5) {
                mk("libvirt", Some(owned(ver)), SwStatus::Supported, "libvirt >= 4.5")
            } else {
                mk(
                    "libvirt",
                    Some(owned(ver)),
                    SwStatus::TooOld,
                    "Need libvirt >= 4.5 for SEV support",
                )
            }
        },
        None => mk("libvirt", None, SwStatus::OptionalMissing, "virsh not found (optional, >= 4.5)"),
    }
}

/// Where the OVMF firmware images are installed: Ubuntu and Debian, RHEL and
/// Fedora (edk2), and SUSE.
pub open spec fn ovmf_locations() -> Seq<&'static str> {
    seq![
        "/usr/share/ovmf/OVMF.amdsev.fd",
        "/usr/share/OVMF/OVMF_CODE_4M.fd",
        "/usr/share/edk2/ovmf/OVMF_CODE.fd",
        "/usr/share/edk2/x64/OVMF_CODE.fd",
        "/usr/share/qemu/ovmf-x86_64-smm-ms-code.bin",
    ]
}

/// The paths at which an OVMF firmware image is looked for.
pub fn ovmf_paths() -> (r: Vec<&'static str>)
    ensures
        r@ == ovmf_locations(),
{
    let r = vec![
        "/usr/share/ovmf/OVMF.amdsev.fd",
        "/usr/share/OVMF/OVMF_CODE_4M.fd",
        "/usr/share/edk2/ovmf/OVMF_CODE.fd",
        "/usr/share/edk2/x64/OVMF_CODE.fd",
        "/usr/share/qemu/ovmf-x86_64-smm-ms-code.bin",
    ];
    assert(r@ =~= ovmf_locations());
    r
}

/// The OVMF check: missing where no firmware image was found; else present,
/// with the package version from dpkg, or failing that from rpm (trimmed).
pub open spec fn ovmf_spec(found: bool, dpkg: Option<Seq<char>>, rpm: Option<Seq<char>>) -> SwView {
    if !found {
        swv("OVMF"@, None, SwStatus::Missing, "OVMF firmware not found"@)
    } else {
        let ver = match dpkg {
            Some(d) => Some(trimmed(d)),
            None => match rpm {
                Some(r) => Some(trimmed(r)),
                None => None,
            },
        };
        swv("OVMF"@, ver, SwStatus::Supported, "OVMF firmware present"@)
    }
}

/// Judges OVMF from whether a firmware image was found and what the package
/// managers reported (`None` where a query did not succeed; rpm is asked only
/// where dpkg did not answer).
pub fn check_ovmf_version(found: bool, dpkg: &Option<String>, rpm: &Option<String>) -> (r: SoftwareVersion)
    ensures
        r@ == ovmf_spec(found, opt_view(*dpkg), opt_view(*rpm)),
{
    if !found {
        return mk("OVMF", None, SwStatus::Missing, "OVMF firmware not found");
    }
    let ver = match dpkg {
        Some(d) => Some(owned(trim(d.as_str()))),
        None => match rpm {
            Some(r) => Some(owned(trim(r.as_str()))),
            None => None,
        },
    };
    mk("OVMF", ver, SwStatus::Supported, "OVMF firmware present")
}

/// The firmware check on the SEV platform status: the version must be at
/// least 1.51.
pub open spec fn sev_firmware_spec(status: Option<SevStatus>) -> SwView {
    match status {
        Some(s) => {
            let ver = version_text(s.major, s.minor);
            if meets_firmware_minimum(s.major, s.minor) {
                swv("SEV firmware"@, Some(ver), SwStatus::Supported, "firmware >= 1.51"@)
            } else {
                swv("SEV firmware"@, Some(ver), SwStatus::TooOld, "Need firmware >= 1.51 for SNP"@)
            }
        },
        None => swv(
            "SEV firmware"@,
            None,
            SwStatus::Missing,
            "Cannot query SEV platform status (need sudo?)"@,
        ),
    }
}

/// Judges the SEV firmware from the platform status (`None` where it could
/// not be had).
pub fn check_sev_firmware_version(status: &Option<SevStatus>) -> (r: SoftwareVersion)
    ensures
        r@ == sev_firmware_spec(*status),
{
    match status {
        Some(s) => {
            let ver = format_version(s.major, s.minor);
            if firmware_meets_minimum(s.major, s.minor) {
                mk("SEV firmware", Some(ver), SwStatus::Supported, "firmware >= 1.51")
            } else {
                mk("SEV firmware", Some(ver), SwStatus::TooOld, "Need firmware >= 1.51 for SNP")
            }
        },
        None => mk(
            "SEV firmware",
            None,
            SwStatus::Missing,
            "Cannot query SEV platform status (need sudo?)",
        ),
    }
}

/// What was read of the installed software.
pub struct SoftwareReadings {
    /// The contents of `/proc/sys/kernel/osrelease`.
    pub kernel_release: Option<String>,
    /// What `qemu-system-x86_64 --version` wrote.
    pub qemu_output: Option<String>,
    /// What `virsh --version` wrote.
    pub virsh_output: Option<String>,
    /// Whether an OVMF firmware image was found.
    pub ovmf_found: bool,
    /// The OVMF package version dpkg reported.
    pub ovmf_dpkg: Option<String>,
    /// The OVMF package version rpm reported.
    pub ovmf_rpm: Option<String>,
    /// The SEV platform status.
    pub sev_status: Option<SevStatus>,
}

/// Judges all the software.
pub fn collect_software_versions(r: &SoftwareReadings) -> (vs: Vec<SoftwareVersion>)
    ensures
        vs@.len() == 5,
        vs@[0]@ == kernel_spec(opt_view(r.kernel_release)),
        vs@[1]@ == qemu_spec(opt_view(r.qemu_output)),
        vs@[2]@ == libvirt_spec(opt_view(r.virsh_output)),
        vs@[3]@ == ovmf_spec(r.ovmf_found, opt_view(r.ovmf_dpkg), opt_view(r.ovmf_rpm)),
        vs@[4]@ == sev_firmware_spec(r.sev_status),
{
    let vs = vec![
        check_kernel_version(&r.kernel_release),
        check_qemu_version(&r.qemu_output),
        check_libvirt_version(&r.virsh_output),
        check_ovmf_version(r.ovmf_found, &r.ovmf_dpkg, &r.ovmf_rpm),
        check_sev_firmware_version(&r.sev_status),
    ];
    vs
}

/// The coloured status word of a software check: PASS where it is fine,
/// FAIL where it is too old, SKIP otherwise.
pub open spec fn sw_status_display(s: SwStatus) -> Seq<char> {
    match s {
        SwStatus::Supported => painted(seq!['2'], "PASS"@),
        SwStatus::TooOld => painted(seq!['1'], "FAIL"@),
        _ => painted(seq!['3'], "SKIP"@),
    }
}

/// The coloured status word of a software check.
pub fn sw_status_text(s: SwStatus) -> (r: String)
    ensures
        r@ == sw_status_display(s),
{
    match s {
        SwStatus::Supported => green("PASS"),
        SwStatus::TooOld => red("FAIL"),
        _ => yellow("SKIP"),
    }
}

/// The version, or `not found`.
pub open spec fn version_or_not_found(v: Option<Seq<char>>) -> Seq<char> {
    match v {
        Some(s) => s,
        None => "not found"@,
    }
}

/// The version, or `not found`.
pub fn version_str(v: &Option<String>) -> (r: &str)
    ensures
        r@ == version_or_not_found(opt_view(*v)),
{
    match v {
        Some(s) => s.as_str(),
        None => "not found",
    }
}

/// Software that is not installed.
pub open spec fn not_installed(s: SwStatus) -> bool {
    s == SwStatus::Missing || s == SwStatus::OptionalMissing
}

/// The default report's line for a software check.
pub open spec fn sw_line(v: SwView) -> Seq<char> {
    let detail = if not_installed(v.status) {
        "Not installed"@
    } else {
        version_or_not_found(v.version)
    };
    "[ "@ + sw_status_display(v.status) + " ] - "@ + v.name + ": "@ + detail + " (Software)"@
}

/// The default report's lines for the software checks, one per check.
pub fn print_software_versions(versions: &Vec<SoftwareVersion>) -> (lines: Vec<String>)
    ensures
        lines@.len() == versions@.len(),
        forall|i: int| 0 <= i < versions@.len() ==> #[trigger] lines@[i]@ == sw_line(versions@[i]@),
{
    let mut lines: Vec<String> = Vec::new();
    let mut i: usize = 0;
    while i < versions.len()
        invariant
            i <= versions@.len(),
            lines@.len() == i,
            forall|k: int| 0 <= k < i ==> #[trigger] lines@[k]@ == sw_line(versions@[k]@),
        decreases versions@.len() - i,
    {
        let v = &versions[i];
        let mut line = owned("[ ");
        line.append(sw_status_text(v.status).as_str());
        line.append(" ] - ");
        line.append(v.name.as_str());
        line.append(": ");
        if v.status == SwStatus::Missing || v.status == SwStatus::OptionalMissing {
            line.append("Not installed");
        } else {
            line.append(version_str(&v.version));
        }
        line.append(" (Software)");
        lines.push(line);
        i = i + 1;
    }
    lines
}

} // verus!
