//! What the SEV firmware reports about the platform, held as plain values, and
//! the text in which versions are shown.
use vstd::prelude::*;
use crate::numfmt::{decimal, decimal_string};

verus! {

/// The state of the SEV platform.
#[derive(Clone, Copy, Debug, PartialEq, Eq, Structural)]
pub enum PlatformState {
    Uninitialized,
    Initialized,
    Working,
}

/// The answer to the SEV `PLATFORM_STATUS` command: the platform state, the
/// firmware API version, and the status flags.
#[derive(Clone, Copy, Debug)]
pub struct SevStatus {
    pub state: PlatformState,
    pub major: u8,
    pub minor: u8,
    pub flags: u32,
}

/// A trusted computing base version: the security version numbers of the
/// firmware components.
#[derive(Clone, Copy, Debug, PartialEq, Eq, Structural)]
pub struct Tcb {
    pub fmc: Option<u8>,
    pub bootloader: u8,
    pub tee: u8,
    pub snp: u8,
    pub microcode: u8,
}

/// The answer to the `SNP_PLATFORM_STATUS` command: the platform state, the
/// RMP-initialised and alias-check-complete bits, and the installed and the
/// reported TCB versions.
#[derive(Clone, Copy, Debug)]
pub struct SnpStatus {
    pub state: u8,
    pub rmp_init: bool,
    pub alias_check_complete: bool,
    pub platform_tcb: Tcb,
    pub reported_tcb: Tcb,
}

/// Whether firmware `major.minor` is at least 1.51, the oldest firmware that
/// SEV-SNP needs: versions compare by major number, then by minor number.
pub open spec fn meets_firmware_minimum(major: u8, minor: u8) -> bool {
    major > 1 || (major == 1 && minor >= 51)
}

/// Tells whether firmware `major.minor` is at least 1.51.
pub fn firmware_meets_minimum(major: u8, minor: u8) -> (r: bool)
    ensures
        r == meets_firmware_minimum(major, minor),
{
    major > 1 || (major == 1 && minor >= 51)
}

/// A firmware version as `major.minor`.
pub open spec fn version_text(major: u8, minor: u8) -> Seq<char> {
    decimal(major as nat) + "."@ + decimal(minor as nat)
}

/// The multi-line rendering of a TCB version.
pub open spec fn tcb_text(t: Tcb) -> Seq<char> {
    "TCB Version:\n  Microcode:   "@ + decimal(t.microcode as nat) + "\n  SNP:         "@ + decimal(
        t.snp as nat,
    ) + "\n  TEE:         "@ + decimal(t.tee as nat) + "\n  Boot Loader: "@ + decimal(
        t.bootloader as nat,
    ) + "\n  FMC:         "@ + match t.fmc {
        Some(f) => decimal(f as nat),
        None => "None"@,
    }
}

/// A firmware version as `major.minor`.
pub fn format_version(major: u8, minor: u8) -> (r: String)
    ensures
        r@ == version_text(major, minor),
{
    let mut r = decimal_string(major as u64);
    r.append(".");
    r.append(decimal_string(minor as u64).as_str());
    r
}

/// The multi-line rendering of a TCB version: one line of heading, then one
/// line for each component, the FMC shown as `None` where it is absent.
pub fn format_tcb(t: &Tcb) -> (r: String)
    ensures
        r@ == tcb_text(*t),
{
    let mut r = String::new();
    r.append("TCB Version:\n  Microcode:   ");
    r.append(decimal_string(t.microcode as u64).as_str());
    r.append("\n  SNP:         ");
    r.append(decimal_string(t.snp as u64).as_str());
    r.append("\n  TEE:         ");
    r.append(decimal_string(t.tee as u64).as_str());
    r.append("\n  Boot Loader: ");
    r.append(decimal_string(t.bootloader as u64).as_str());
    r.append("\n  FMC:         ");
    match t.fmc {
        Some(f) => r.append(decimal_string(f as u64).as_str()),
        None => r.append("None"),
    }
    r
}

} // verus!
