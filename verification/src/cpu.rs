//! The CPU identification report: family, model and stepping, and the
//! fixed table of feature flags.
//!
//! The flag labels, their order, and the `Yes`/`No` tokens are the
//! observable contract of the diagnostic output, so each line is
//! pinned exactly. One legacy line, `- Self Snoop`, deliberately
//! carries no value: the tool's established output has this gap, and
//! readers compare against that output, so it is kept as it is.

use vstd::prelude::*;

use crate::dec::{dec_rep, u128_to_dec};
use crate::yes_no;

verus! {

/// The processor identification bits the report reads: family, model
/// and stepping, and one boolean per labeled capability bit.
pub struct FeatureInfo {
    pub family: u8,
    pub model: u8,
    pub stepping: u8,
    pub sse3: bool,
    pub pclmulqdq: bool,
    pub monitor_mwait: bool,
    pub cpl: bool,
    pub vmx: bool,
    pub smx: bool,
    pub eist: bool,
    pub tm2: bool,
    pub ssse3: bool,
    pub cnxtid: bool,
    pub fma: bool,
    pub cmpxchg16b: bool,
    pub pdcm: bool,
    pub pcid: bool,
    pub dca: bool,
    pub sse41: bool,
    pub sse42: bool,
    pub x2apic: bool,
    pub movbe: bool,
    pub popcnt: bool,
    pub tsc_deadline: bool,
    pub aesni: bool,
    pub xsave: bool,
    pub oxsave: bool,
    pub avx: bool,
    pub f16c: bool,
    pub rdrand: bool,
    pub hypervisor: bool,
    pub fpu: bool,
    pub vme: bool,
    pub de: bool,
    pub pse: bool,
    pub tsc: bool,
    pub msr: bool,
    pub pae: bool,
    pub mce: bool,
    pub cmpxchg8b: bool,
    pub apic: bool,
    pub sysenter_sysexit: bool,
    pub mtrr: bool,
    pub pge: bool,
    pub mca: bool,
    pub cmov: bool,
    pub pat: bool,
    pub pse36: bool,
    pub psn: bool,
    pub clflush: bool,
    pub ds: bool,
    pub acpi: bool,
    pub mmx: bool,
    pub fxsave_fxstor: bool,
    pub sse: bool,
    pub sse2: bool,
    pub htt: bool,
    pub tm: bool,
    pub pbe: bool,
}

/// The three extended feature bits the report reads.
pub struct ExtendedFeatures {
    pub avx2: bool,
    pub avx512f: bool,
    pub sha: bool,
}

/// The per-line views of a sequence of rendered lines.
pub open spec fn views_of(v: Seq<String>) -> Seq<Seq<char>> {
    Seq::new(v.len(), |i: int| v[i]@)
}

/// One feature flag line: `- <label>: Yes` or `- <label>: No`.
pub open spec fn flag_line_of(label: Seq<char>, v: bool) -> Seq<char> {
    "- "@ + label + ": "@ + (if v {
        "Yes"@
    } else {
        "No"@
    })
}

fn flag_line(label: &str, v: bool) -> (r: String)
    ensures
        r@ == flag_line_of(label@, v),
{
    let mut s = String::from_str("- ");
    s.append(label);
    s.append(": ");
    s.append(yes_no(v));
    s
}

/// The label of the modern feature flag at position `i`.
pub open spec fn modern_label(i: int) -> Seq<char> {
    if i == 0 {
        "SSE3"@
    } else if i == 1 {
        "PCLMULQDQ"@
    } else if i == 2 {
        "MONITOR/MWAIT"@
    } else if i == 3 {
        "CPL Qualified Debug Store"@
    } else if i == 4 {
        "Virtual Machine Extensions (VMX)"@
    } else if i == 5 {
        "Safer Mode Extensions (SMX)"@
    } else if i == 6 {
        "Enhanced Intel SpeedStep"@
    } else if i == 7 {
        "Thermal Monitor 2"@
    } else if i == 8 {
        "SSSE3"@
    } else if i == 9 {
        "L1 Context ID"@
    } else if i == 10 {
        "FMA"@
    } else if i == 11 {
        "CMPXCHG16B"@
    } else if i == 12 {
        "PDCM"@
    } else if i == 13 {
        "PCID"@
    } else if i == 14 {
        "DCA"@
    } else if i == 15 {
        "SSE4.1"@
    } else if i == 16 {
        "SSE4.2"@
    } else if i == 17 {
        "x2APIC"@
    } else if i == 18 {
        "MOVBE"@
    } else if i == 19 {
        "POPCNT"@
    } else if i == 20 {
        "TSC Deadline"@
    } else if i == 21 {
        "AES-NI"@
    } else if i == 22 {
        "XSAVE/XRSTOR"@
    } else if i == 23 {
        "OSXSAVE Enabled"@
    } else if i == 24 {
        "AVX"@
    } else if i == 25 {
        "F16C"@
    } else if i == 26 {
        "RDRAND"@
    } else if i == 27 {
        "Hypervisor"@
    } else {
        Seq::empty()
    }
}

/// The value of the modern feature flag at position `i`.
pub open spec fn modern_flag(fi: FeatureInfo, i: int) -> bool {
    if i == 0 {
        fi.sse3
    } else if i == 1 {
        fi.pclmulqdq
    } else if i == 2 {
        fi.monitor_mwait
    } else if i == 3 {
        fi.cpl
    } else if i == 4 {
        fi.vmx
    } else if i == 5 {
        fi.smx
    } else if i == 6 {
        fi.eist
    } else if i == 7 {
        fi.tm2
    } else if i == 8 {
        fi.ssse3
    } else if i == 9 {
        fi.cnxtid
    } else if i == 10 {
        fi.fma
    } else if i == 11 {
        fi.cmpxchg16b
    } else if i == 12 {
        fi.pdcm
    } else if i == 13 {
        fi.pcid
    } else if i == 14 {
        fi.dca
    } else if i == 15 {
        fi.sse41
    } else if i == 16 {
        fi.sse42
    } else if i == 17 {
        fi.x2apic
    } else if i == 18 {
        fi.movbe
    } else if i == 19 {
        fi.popcnt
    } else if i == 20 {
        fi.tsc_deadline
    } else if i == 21 {
        fi.aesni
    } else if i == 22 {
        fi.xsave
    } else if i == 23 {
        fi.oxsave
    } else if i == 24 {
        fi.avx
    } else if i == 25 {
        fi.f16c
    } else if i == 26 {
        fi.rdrand
    } else if i == 27 {
        fi.hypervisor
    } else {
        false
    }
}

/// The modern feature flag lines, in their fixed order.
pub open spec fn modern_lines_of(fi: FeatureInfo) -> Seq<Seq<char>> {
    Seq::new(28, |i: int| flag_line_of(modern_label(i), modern_flag(fi, i)))
}

fn modern_entry(fi: &FeatureInfo, i: usize) -> (r: (&'static str, bool))
    requires
        i < 28,
    ensures
        r.0@ == modern_label(i as int),
        r.1 == modern_flag(*fi, i as int),
{
    match i {
        0 => ("SSE3", fi.sse3),
        1 => ("PCLMULQDQ", fi.pclmulqdq),
        2 => ("MONITOR/MWAIT", fi.monitor_mwait),
        3 => ("CPL Qualified Debug Store", fi.cpl),
        4 => ("Virtual Machine Extensions (VMX)", fi.vmx),
        5 => ("Safer Mode Extensions (SMX)", fi.smx),
        6 => ("Enhanced Intel SpeedStep", fi.eist),
        7 => ("Thermal Monitor 2", fi.tm2),
        8 => ("SSSE3", fi.ssse3),
        9 => ("L1 Context ID", fi.cnxtid),
        10 => ("FMA", fi.fma),
        11 => ("CMPXCHG16B", fi.cmpxchg16b),
        12 => ("PDCM", fi.pdcm),
        13 => ("PCID", fi.pcid),
        14 => ("DCA", fi.dca),
        15 => ("SSE4.1", fi.sse41),
        16 => ("SSE4.2", fi.sse42),
        17 => ("x2APIC", fi.x2apic),
        18 => ("MOVBE", fi.movbe),
        19 => ("POPCNT", fi.popcnt),
        20 => ("TSC Deadline", fi.tsc_deadline),
        21 => ("AES-NI", fi.aesni),
        22 => ("XSAVE/XRSTOR", fi.xsave),
        23 => ("OSXSAVE Enabled", fi.oxsave),
        24 => ("AVX", fi.avx),
        25 => ("F16C", fi.f16c),
        26 => ("RDRAND", fi.rdrand),
        27 => ("Hypervisor", fi.hypervisor),
        _ => ("", false),
    }
}

fn modern_flag_lines(fi: &FeatureInfo) -> (r: Vec<String>)
    ensures
        views_of(r@) == modern_lines_of(*fi),
{
    let mut out: Vec<String> = Vec::new();
    let mut i: usize = 0;
    while i < 28
        invariant
            i <= 28,
            out@.len() == i,
            forall|j: int| 0 <= j < i ==> #[trigger] out@[j]@ == modern_lines_of(*fi)[j],
        decreases 28 - i,
    {
        let entry = modern_entry(fi, i);
        out.push(flag_line(entry.0, entry.1));
        i += 1;
    }
    proof {
        assert(views_of(out@) =~= modern_lines_of(*fi));
    }
    out
}

/// The label of the legacy feature flag at position `i`, counting the
/// valueless `Self Snoop` position out.
pub open spec fn legacy_label(i: int) -> Seq<char> {
    if i == 0 {
        "FPU"@
    } else if i == 1 {
        "VME"@
    } else if i == 2 {
        "DE"@
    } else if i == 3 {
        "PSE"@
    } else if i == 4 {
        "TSC"@
    } else if i == 5 {
        "MSR"@
    } else if i == 6 {
        "PAE"@
    } else if i == 7 {
        "MCE"@
    } else if i == 8 {
        "CMPXCHG8B"@
    } else if i == 9 {
        "APIC"@
    } else if i == 10 {
        "SYSENTER/SYSEXIT"@
    } else if i == 11 {
        "MTRR"@
    } else if i == 12 {
        "PGE"@
    } else if i == 13 {
        "MCA"@
    } else if i == 14 {
        "CMOV"@
    } else if i == 15 {
        "PAT"@
    } else if i == 16 {
        "PSE36"@
    } else if i == 17 {
        "PSN"@
    } else if i == 18 {
        "CLFLUSH"@
    } else if i == 19 {
        "Debug Store (DS)"@
    } else if i == 20 {
        "ACPI"@
    } else if i == 21 {
        "MMX"@
    } else if i == 22 {
        "FXSAVE/FXRSTOR"@
    } else if i == 23 {
        "SSE"@
    } else if i == 24 {
        "SSE2"@
    } else if i == 25 {
        "Hyper-Threading (HTT)"@
    } else if i == 26 {
        "Thermal Monitor"@
    } else if i == 27 {
        "Pending Break Enable (PBE)"@
    } else {
        Seq::empty()
    }
}

/// The value of the legacy feature flag at position `i`.
pub open spec fn legacy_flag(fi: FeatureInfo, i: int) -> bool {
    if i == 0 {
        fi.fpu
    } else if i == 1 {
        fi.vme
    } else if i == 2 {
        fi.de
    } else if i == 3 {
        fi.pse
    } else if i == 4 {
        fi.tsc
    } else if i == 5 {
        fi.msr
    } else if i == 6 {
        fi.pae
    } else if i == 7 {
        fi.mce
    } else if i == 8 {
        fi.cmpxchg8b
    } else if i == 9 {
        fi.apic
    } else if i == 10 {
        fi.sysenter_sysexit
    } else if i == 11 {
        fi.mtrr
    } else if i == 12 {
        fi.pge
    } else if i == 13 {
        fi.mca
    } else if i == 14 {
        fi.cmov
    } else if i == 15 {
        fi.pat
    } else if i == 16 {
        fi.pse36
    } else if i == 17 {
        fi.psn
    } else if i == 18 {
        fi.clflush
    } else if i == 19 {
        fi.ds
    } else if i == 20 {
        fi.acpi
    } else if i == 21 {
        fi.mmx
    } else if i == 22 {
        fi.fxsave_fxstor
    } else if i == 23 {
        fi.sse
    } else if i == 24 {
        fi.sse2
    } else if i == 25 {
        fi.htt
    } else if i == 26 {
        fi.tm
    } else if i == 27 {
        fi.pbe
    } else {
        false
    }
}

/// The legacy (EDX-era) feature flag lines, in their fixed order,
/// with the valueless `- Self Snoop` line at position 25.
pub open spec fn legacy_lines_of(fi: FeatureInfo) -> Seq<Seq<char>> {
    Seq::new(29, |i: int|
        if i == 25 {
            "- Self Snoop"@
        } else if i < 25 {
            flag_line_of(legacy_label(i), legacy_flag(fi, i))
        } else {
            flag_line_of(legacy_label(i - 1), legacy_flag(fi, i - 1))
        })
}

fn legacy_entry(fi: &FeatureInfo, i: usize) -> (r: (&'static str, bool))
    requires
        i < 28,
    ensures
        r.0@ == legacy_label(i as int),
        r.1 == legacy_flag(*fi, i as int),
{
    match i {
        0 => ("FPU", fi.fpu),
        1 => ("VME", fi.vme),
        2 => ("DE", fi.de),
        3 => ("PSE", fi.pse),
        4 => ("TSC", fi.tsc),
        5 => ("MSR", fi.msr),
        6 => ("PAE", fi.pae),
        7 => ("MCE", fi.mce),
        8 => ("CMPXCHG8B", fi.cmpxchg8b),
        9 => ("APIC", fi.apic),
        10 => ("SYSENTER/SYSEXIT", fi.sysenter_sysexit),
        11 => ("MTRR", fi.mtrr),
        12 => ("PGE", fi.pge),
        13 => ("MCA", fi.mca),
        14 => ("CMOV", fi.cmov),
        15 => ("PAT", fi.pat),
        16 => ("PSE36", fi.pse36),
        17 => ("PSN", fi.psn),
        18 => ("CLFLUSH", fi.clflush),
        19 => ("Debug Store (DS)", fi.ds),
        20 => ("ACPI", fi.acpi),
        21 => ("MMX", fi.mmx),
        22 => ("FXSAVE/FXRSTOR", fi.fxsave_fxstor),
        23 => ("SSE", fi.sse),
        24 => ("SSE2", fi.sse2),
        25 => ("Hyper-Threading (HTT)", fi.htt),
        26 => ("Thermal Monitor", fi.tm),
        27 => ("Pending Break Enable (PBE)", fi.pbe),
        _ => ("", false),
    }
}

fn legacy_flag_lines(fi: &FeatureInfo) -> (r: Vec<String>)
    ensures
        views_of(r@) == legacy_lines_of(*fi),
{
    let mut out: Vec<String> = Vec::new();
    let mut i: usize = 0;
    while i < 29
        invariant
            i <= 29,
            out@.len() == i,
            forall|j: int| 0 <= j < i ==> #[trigger] out@[j]@ == legacy_lines_of(*fi)[j],
        decreases 29 - i,
    {
        if i == 25 {
            out.push(String::from_str("- Self Snoop"));
        } else if i < 25 {
            let entry = legacy_entry(fi, i);
            out.push(flag_line(entry.0, entry.1));
        } else {
            let entry = legacy_entry(fi, i - 1);
            out.push(flag_line(entry.0, entry.1));
        }
        i += 1;
    }
    proof {
        assert(views_of(out@) =~= legacy_lines_of(*fi));
    }
    out
}

/// The family/model/stepping line.
pub open spec fn family_line_of(fi: FeatureInfo) -> Seq<char> {
    "Family: "@ + dec_rep(fi.family as nat) + ", Model: "@ + dec_rep(fi.model as nat)
        + ", Stepping: "@ + dec_rep(fi.stepping as nat)
}

fn family_line(fi: &FeatureInfo) -> (r: String)
    ensures
        r@ == family_line_of(*fi),
{
    let mut s = String::from_str("Family: ");
    let fam = u128_to_dec(fi.family as u128);
    s.append(fam.as_str());
    s.append(", Model: ");
    let model = u128_to_dec(fi.model as u128);
    s.append(model.as_str());
    s.append(", Stepping: ");
    let stepping = u128_to_dec(fi.stepping as u128);
    s.append(stepping.as_str());
    s
}

} // verus!

verus! {

/// The vendor section: the vendor line when vendor information is
/// present, nothing otherwise.
pub fn vendor_lines(vendor: &Option<String>) -> (r: Vec<String>)
    ensures
        match vendor {
            None => r@.len() == 0,
            Some(v) => r@.len() == 1 && r@[0]@ == "CPU Vendor: "@ + v@,
        },
{
    let mut out: Vec<String> = Vec::new();
    match vendor {
        None => {},
        Some(v) => {
            let mut s = String::from_str("CPU Vendor: ");
            s.append(v.as_str());
            out.push(s);
        },
    }
    out
}

/// The whole feature block for present feature information: the
/// family line, the modern group under its header, then the legacy
/// group under its header after a blank line.
pub open spec fn feature_lines_of(fi_opt: Option<FeatureInfo>) -> Seq<Seq<char>> {
    match fi_opt {
        None => seq!["No feature information available"@],
        Some(fi) => seq![family_line_of(fi), "--- CPU Feature Flags ---"@]
            + modern_lines_of(fi)
            + seq![Seq::<char>::empty(), "--- Legacy Feature Flags (EDX) ---"@]
            + legacy_lines_of(fi),
    }
}

/// The feature section: the full flag block when feature information
/// is present, a single informational line otherwise.
pub fn feature_lines(fi_opt: &Option<FeatureInfo>) -> (r: Vec<String>)
    ensures
        views_of(r@) == feature_lines_of(*fi_opt),
{
    let mut out: Vec<String> = Vec::new();
    match fi_opt {
        None => {
            out.push(String::from_str("No feature information available"));
            proof {
                assert(views_of(out@) =~= feature_lines_of(*fi_opt));
            }
        },
        Some(fi) => {
            out.push(family_line(fi));
            out.push(String::from_str("--- CPU Feature Flags ---"));
            let mut modern = modern_flag_lines(fi);
            out.append(&mut modern);
            out.push(String::new());
            out.push(String::from_str("--- Legacy Feature Flags (EDX) ---"));
            let mut legacy = legacy_flag_lines(fi);
            out.append(&mut legacy);
            proof {
                assert(views_of(out@) =~= feature_lines_of(*fi_opt));
            }
        },
    }
    out
}

/// The extended-feature section: three more flag lines when extended
/// feature information is present, nothing otherwise.
pub fn extended_lines(ef_opt: &Option<ExtendedFeatures>) -> (r: Vec<String>)
    ensures
        match ef_opt {
            None => r@.len() == 0,
            Some(ef) => r@.len() == 3 && r@[0]@ == flag_line_of("AVX2"@, ef.avx2)
                && r@[1]@ == flag_line_of("AVX-512F"@, ef.avx512f)
                && r@[2]@ == flag_line_of("SHA"@, ef.sha),
        },
{
    let mut out: Vec<String> = Vec::new();
    match ef_opt {
        None => {},
        Some(ef) => {
            out.push(flag_line("AVX2", ef.avx2));
            out.push(flag_line("AVX-512F", ef.avx512f));
            out.push(flag_line("SHA", ef.sha));
        },
    }
    out
}

} // verus!
