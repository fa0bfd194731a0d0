# snphost

A verified core for checking whether a host is ready to run AMD SEV, SEV-ES
and SEV-SNP guests, and for writing the command reference as AsciiDoc.

- `src/` holds the logic, written in Verus: how each probe's raw reading is
  judged (`probes`), the tree of checks and the walk over it that skips what
  sits under a failed check or outside the chosen generations (`checks`,
  `runner`), the software version rules (`version`, `software`), the short,
  verbose and JSON reports (`report`, `json`, `ok`), and the AsciiDoc page
  (`generate_adoc`). `laws` states the properties that span several of these.
- `app/` reads the machine (CPUID, MSRs, `/dev/sev`, KVM, module parameters,
  installed software), hands the readings to the library, prints what it
  returns and converts to and from `clap` and `serde_json`.
- `tests/` runs the library on concrete readings.
