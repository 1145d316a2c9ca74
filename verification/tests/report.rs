use hwdiag::cache::CacheLevel;
use hwdiag::cache::cache_line;
use hwdiag::cache::cache_lines;
use hwdiag::cache::cache_size_bytes;
use hwdiag::cpu::ExtendedFeatures;
use hwdiag::cpu::FeatureInfo;
use hwdiag::cpu::extended_lines;
use hwdiag::cpu::feature_lines;
use hwdiag::cpu::vendor_lines;
use hwdiag::dec::i32_to_dec;
use hwdiag::dec::u128_to_dec;
use hwdiag::dec::u32_to_dec;
use hwdiag::textfmt::DisplayRow;
use hwdiag::textfmt::format_row;
use hwdiag::textfmt::left_justify;
use hwdiag::textfmt::right_justify;
use hwdiag::textfmt::sensor_header_lines;
use hwdiag::textfmt::sensor_table_lines;
use hwdiag::variant::NumOut;
use hwdiag::variant::TextOut;
use hwdiag::variant::Variant;
use hwdiag::variant::coerce_numeric;
use hwdiag::variant::coerce_text;
use hwdiag::variant::get_field;
use hwdiag::yes_no;

fn all_false_features() -> FeatureInfo {
    FeatureInfo {
        family: 6,
        model: 158,
        stepping: 10,
        sse3: false,
        pclmulqdq: false,
        monitor_mwait: false,
        cpl: false,
        vmx: false,
        smx: false,
        eist: false,
        tm2: false,
        ssse3: false,
        cnxtid: false,
        fma: false,
        cmpxchg16b: false,
        pdcm: false,
        pcid: false,
        dca: false,
        sse41: false,
        sse42: false,
        x2apic: false,
        movbe: false,
        popcnt: false,
        tsc_deadline: false,
        aesni: false,
        xsave: false,
        oxsave: false,
        avx: false,
        f16c: false,
        rdrand: false,
        hypervisor: false,
        fpu: false,
        vme: false,
        de: false,
        pse: false,
        tsc: false,
        msr: false,
        pae: false,
        mce: false,
        cmpxchg8b: false,
        apic: false,
        sysenter_sysexit: false,
        mtrr: false,
        pge: false,
        mca: false,
        cmov: false,
        pat: false,
        pse36: false,
        psn: false,
        clflush: false,
        ds: false,
        acpi: false,
        mmx: false,
        fxsave_fxstor: false,
        sse: false,
        sse2: false,
        htt: false,
        tm: false,
        pbe: false,
    }
}

const MODERN_LABELS: [&str; 28] = [
    "SSE3",
    "PCLMULQDQ",
    "MONITOR/MWAIT",
    "CPL Qualified Debug Store",
    "Virtual Machine Extensions (VMX)",
    "Safer Mode Extensions (SMX)",
    "Enhanced Intel SpeedStep",
    "Thermal Monitor 2",
    "SSSE3",
    "L1 Context ID",
    "FMA",
    "CMPXCHG16B",
    "PDCM",
    "PCID",
    "DCA",
    "SSE4.1",
    "SSE4.2",
    "x2APIC",
    "MOVBE",
    "POPCNT",
    "TSC Deadline",
    "AES-NI",
    "XSAVE/XRSTOR",
    "OSXSAVE Enabled",
    "AVX",
    "F16C",
    "RDRAND",
    "Hypervisor",
];

const LEGACY_LABELS_BEFORE_GAP: [&str; 25] = [
    "FPU",
    "VME",
    "DE",
    "PSE",
    "TSC",
    "MSR",
    "PAE",
    "MCE",
    "CMPXCHG8B",
    "APIC",
    "SYSENTER/SYSEXIT",
    "MTRR",
    "PGE",
    "MCA",
    "CMOV",
    "PAT",
    "PSE36",
    "PSN",
    "CLFLUSH",
    "Debug Store (DS)",
    "ACPI",
    "MMX",
    "FXSAVE/FXRSTOR",
    "SSE",
    "SSE2",
];

const LEGACY_LABELS_AFTER_GAP: [&str; 3] = [
    "Hyper-Threading (HTT)",
    "Thermal Monitor",
    "Pending Break Enable (PBE)",
];

#[test]
fn yes_no_tokens() {
    assert_eq!(yes_no(true), "Yes");
    assert_eq!(yes_no(false), "No");
}

#[test]
fn text_coercion_all_kinds() {
    let got = coerce_text(Some(&Variant::Str(String::from("hello"))));
    assert_eq!(got, TextOut::Done(String::from("hello")));
    let got = coerce_text(Some(&Variant::Bool(true)));
    assert_eq!(got, TextOut::Done(String::from("true")));
    let got = coerce_text(Some(&Variant::Bool(false)));
    assert_eq!(got, TextOut::Done(String::from("false")));
    let got = coerce_text(Some(&Variant::I4(-42)));
    assert_eq!(got, TextOut::Done(String::from("-42")));
    let got = coerce_text(Some(&Variant::UI4(7)));
    assert_eq!(got, TextOut::Done(String::from("7")));
    let got = coerce_text(Some(&Variant::R4Bits(45.123f32.to_bits())));
    assert_eq!(got, TextOut::FormatF32(45.123f32.to_bits()));
    let got = coerce_text(Some(&Variant::R8Bits(1.5f64.to_bits())));
    assert_eq!(got, TextOut::FormatF64(1.5f64.to_bits()));
    let got = coerce_text(Some(&Variant::Other(String::from("I8(3)"))));
    assert_eq!(got, TextOut::Done(String::from("I8(3)")));
}

#[test]
fn text_coercion_null_and_absent_are_empty() {
    assert_eq!(coerce_text(None), TextOut::Done(String::new()));
    assert_eq!(
        coerce_text(Some(&Variant::Null)),
        TextOut::Done(String::new())
    );
}

#[test]
fn numeric_coercion_all_kinds() {
    let bits = 45.123f32.to_bits();
    assert_eq!(
        coerce_numeric(Some(&Variant::R4Bits(bits))),
        NumOut::F32Bits(bits)
    );
    let bits64 = 45.123f64.to_bits();
    assert_eq!(
        coerce_numeric(Some(&Variant::R8Bits(bits64))),
        NumOut::NarrowF64(bits64)
    );
    assert_eq!(coerce_numeric(Some(&Variant::I4(-3))), NumOut::WidenI32(-3));
    assert_eq!(coerce_numeric(Some(&Variant::UI4(9))), NumOut::WidenU32(9));
    assert_eq!(
        coerce_numeric(Some(&Variant::Str(String::from("12.5")))),
        NumOut::ParseOrZero(String::from("12.5"))
    );
}

#[test]
fn numeric_coercion_defaults_to_exact_zero() {
    assert_eq!(coerce_numeric(None), NumOut::F32Bits(0));
    assert_eq!(coerce_numeric(Some(&Variant::Null)), NumOut::F32Bits(0));
    assert_eq!(
        coerce_numeric(Some(&Variant::Bool(true))),
        NumOut::F32Bits(0)
    );
    assert_eq!(
        coerce_numeric(Some(&Variant::Other(String::from("Array")))),
        NumOut::F32Bits(0)
    );
    assert_eq!(f32::from_bits(0), 0.0f32);
}

#[test]
fn string_to_float_parses_and_defaults() {
    // The parse itself is the caller's step; the library pins which
    // string is parsed and that failure defaults to 0.0.
    match coerce_numeric(Some(&Variant::Str(String::from("12.5")))) {
        NumOut::ParseOrZero(s) => {
            assert_eq!(s.parse::<f32>().unwrap_or(0.0), 12.5f32);
        }
        other => panic!("unexpected coercion {:?}", other),
    }
    match coerce_numeric(Some(&Variant::Str(String::from("not-a-number")))) {
        NumOut::ParseOrZero(s) => {
            assert_eq!(s.parse::<f32>().unwrap_or(0.0), 0.0f32);
        }
        other => panic!("unexpected coercion {:?}", other),
    }
}

#[test]
fn field_lookup_finds_first_match() {
    let row = vec![
        (String::from("Name"), Variant::Str(String::from("CPU Core"))),
        (String::from("Value"), Variant::I4(1)),
        (String::from("Value"), Variant::I4(2)),
    ];
    match get_field(&row, "Value") {
        Some(Variant::I4(v)) => assert_eq!(*v, 1),
        other => panic!("unexpected field {:?}", other),
    }
    assert!(get_field(&row, "Min").is_none());
    assert!(get_field(&vec![], "Name").is_none());
}

#[test]
fn decimal_rendering() {
    assert_eq!(u128_to_dec(0), "0");
    assert_eq!(u128_to_dec(10), "10");
    assert_eq!(u128_to_dec(340282366920938463463374607431768211455), "340282366920938463463374607431768211455");
    assert_eq!(u32_to_dec(4294967295), "4294967295");
    assert_eq!(i32_to_dec(0), "0");
    assert_eq!(i32_to_dec(-1), "-1");
    assert_eq!(i32_to_dec(i32::MIN), "-2147483648");
    assert_eq!(i32_to_dec(i32::MAX), "2147483647");
}

#[test]
fn justification() {
    assert_eq!(left_justify("abc", 5), "abc  ");
    assert_eq!(left_justify("abcdef", 3), "abcdef");
    assert_eq!(left_justify("", 2), "  ");
    assert_eq!(right_justify("abc", 5), "  abc");
    assert_eq!(right_justify("abcdef", 3), "abcdef");
    assert_eq!(right_justify("", 2), "  ");
}

#[test]
fn row_formatting_matches_reference_layout() {
    let cur = format!("{:.2}", 45.123f32);
    assert_eq!(cur, "45.12");
    let min = format!("{:.2}", 20.0f32);
    let max = format!("{:.2}", 90.0f32);
    let line = format_row(
        "CPU Package",
        "Temperature",
        &cur,
        &min,
        &max,
        "/intelcpu/0/temperature/0",
    );
    let expected = format!(
        "{:<27} | {:<12} | Cur: {:>10.2} | Min: {:>10.2} | Max: {:>10.2} | {}",
        "CPU Package", "Temperature", 45.123f32, 20.0f32, 90.0f32, "/intelcpu/0/temperature/0",
    );
    assert_eq!(line, expected);
    assert!(line.contains("Cur:      45.12"));
}

#[test]
fn empty_sensor_result_prints_one_diagnostic_line() {
    let lines = sensor_table_lines(&vec![]);
    assert_eq!(lines.len(), 1);
    assert_eq!(
        lines[0],
        "(no sensors found — run LibreHardwareMonitor as Administrator)"
    );
}

#[test]
fn sensor_table_one_line_per_row() {
    let rows = vec![
        DisplayRow {
            name: String::from("CPU Package"),
            sensor_type: String::from("Temperature"),
            cur_text: String::from("45.12"),
            min_text: String::from("20.00"),
            max_text: String::from("90.00"),
            id: String::from("/intelcpu/0/temperature/0"),
        },
        DisplayRow {
            name: String::from("Fan #1"),
            sensor_type: String::from("Fan"),
            cur_text: String::from("900.00"),
            min_text: String::from("0.00"),
            max_text: String::from("1800.00"),
            id: String::from("/lpc/it8688e/fan/0"),
        },
    ];
    let lines = sensor_table_lines(&rows);
    assert_eq!(lines.len(), 2);
    assert_eq!(
        lines[0],
        "CPU Package                 | Temperature  | Cur:      45.12 | Min:      20.00 | Max:      90.00 | /intelcpu/0/temperature/0"
    );
    assert_eq!(
        lines[1],
        "Fan #1                      | Fan          | Cur:     900.00 | Min:       0.00 | Max:    1800.00 | /lpc/it8688e/fan/0"
    );
}

#[test]
fn sensor_headers() {
    let lines = sensor_header_lines();
    assert_eq!(lines.len(), 2);
    assert_eq!(lines[0], "");
    assert_eq!(lines[1], "--- Sensors (via LibreHardwareMonitor) ---");
}

#[test]
fn cache_size_product() {
    let level = CacheLevel {
        level: 1,
        associativity: 8,
        partitions: 1,
        line_size: 64,
        sets: 64,
    };
    assert_eq!(cache_size_bytes(&level), 32768);
    assert_eq!(cache_line(&level), "L1-Cache size: 32768 bytes");
}

#[test]
fn cache_section_lines() {
    let levels = vec![
        CacheLevel {
            level: 1,
            associativity: 8,
            partitions: 1,
            line_size: 64,
            sets: 64,
        },
        CacheLevel {
            level: 2,
            associativity: 4,
            partitions: 1,
            line_size: 64,
            sets: 1024,
        },
    ];
    let lines = cache_lines(&Some(levels));
    assert_eq!(lines.len(), 2);
    assert_eq!(lines[0], "L1-Cache size: 32768 bytes");
    assert_eq!(lines[1], "L2-Cache size: 262144 bytes");
    let missing = cache_lines(&None);
    assert_eq!(missing.len(), 1);
    assert_eq!(missing[0], "No cache parameter information available");
}

#[test]
fn vendor_section() {
    let lines = vendor_lines(&Some(String::from("GenuineIntel")));
    assert_eq!(lines.len(), 1);
    assert_eq!(lines[0], "CPU Vendor: GenuineIntel");
    assert!(vendor_lines(&None).is_empty());
}

#[test]
fn extended_section() {
    let lines = extended_lines(&Some(ExtendedFeatures {
        avx2: true,
        avx512f: false,
        sha: true,
    }));
    assert_eq!(lines.len(), 3);
    assert_eq!(lines[0], "- AVX2: Yes");
    assert_eq!(lines[1], "- AVX-512F: No");
    assert_eq!(lines[2], "- SHA: Yes");
    assert!(extended_lines(&None).is_empty());
}

#[test]
fn feature_section_absent() {
    let lines = feature_lines(&None);
    assert_eq!(lines.len(), 1);
    assert_eq!(lines[0], "No feature information available");
}

#[test]
fn all_false_features_print_no_on_every_labeled_line() {
    let fi = all_false_features();
    let lines = feature_lines(&Some(fi));

    let mut expected: Vec<String> = Vec::new();
    expected.push(String::from("Family: 6, Model: 158, Stepping: 10"));
    expected.push(String::from("--- CPU Feature Flags ---"));
    for label in MODERN_LABELS {
        expected.push(format!("- {}: No", label));
    }
    expected.push(String::new());
    expected.push(String::from("--- Legacy Feature Flags (EDX) ---"));
    for label in LEGACY_LABELS_BEFORE_GAP {
        expected.push(format!("- {}: No", label));
    }
    expected.push(String::from("- Self Snoop"));
    for label in LEGACY_LABELS_AFTER_GAP {
        expected.push(format!("- {}: No", label));
    }

    assert_eq!(lines.len(), expected.len());
    for (got, want) in lines.iter().zip(expected.iter()) {
        assert_eq!(got, want);
    }
}

#[test]
fn true_flags_print_yes() {
    let mut fi = all_false_features();
    fi.sse3 = true;
    fi.htt = true;
    let lines = feature_lines(&Some(fi));
    assert_eq!(lines[2], "- SSE3: Yes");
    let snoop_pos = lines.iter().position(|l| l == "- Self Snoop").unwrap();
    assert_eq!(lines[snoop_pos + 1], "- Hyper-Threading (HTT): Yes");
}
