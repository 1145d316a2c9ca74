//! Fixed-width text alignment and the sensor table, verified against
//! sequence-level specifications of the padded columns.

use vstd::prelude::*;

verus! {

/// A run of `n` space characters.
pub open spec fn spaces(n: nat) -> Seq<char> {
    Seq::new(n, |i: int| ' ')
}

/// `s` left-justified in a field of `w` characters: padded on the
/// right with spaces, never truncated.
pub open spec fn left_justified(s: Seq<char>, w: nat) -> Seq<char> {
    if s.len() >= w {
        s
    } else {
        s + spaces((w - s.len()) as nat)
    }
}

/// `s` right-justified in a field of `w` characters: padded on the
/// left with spaces, never truncated.
pub open spec fn right_justified(s: Seq<char>, w: nat) -> Seq<char> {
    if s.len() >= w {
        s
    } else {
        spaces((w - s.len()) as nat) + s
    }
}

/// Left-justifies `s` in a field of `width` characters.
pub fn left_justify(s: &str, width: usize) -> (r: String)
    ensures
        r@ == left_justified(s@, width as nat),
{
    let n = s.unicode_len();
    let mut r = String::from_str(s);
    let mut i = n;
    proof {
        assert(s@ + spaces(0) =~= s@);
    }
    while i < width
        invariant
            n == s@.len(),
            n <= i,
            n >= width ==> i == n,
            n < width ==> i <= width,
            r@ == s@ + spaces((i - n) as nat),
        decreases width - i,
    {
        r.append(" ");
        proof {
            reveal_strlit(" ");
            assert(" "@ =~= seq![' ']);
            assert((s@ + spaces((i - n) as nat)) + " "@ =~= s@ + spaces((i + 1 - n) as nat));
        }
        i += 1;
    }
    proof {
        if n >= width {
            assert(s@ + spaces(0) =~= s@);
        }
    }
    r
}

/// Right-justifies `s` in a field of `width` characters.
pub fn right_justify(s: &str, width: usize) -> (r: String)
    ensures
        r@ == right_justified(s@, width as nat),
{
    let n = s.unicode_len();
    let mut r = String::new();
    let mut i = n;
    proof {
        assert(r@ =~= spaces(0));
    }
    while i < width
        invariant
            n == s@.len(),
            n <= i,
            n >= width ==> i == n,
            n < width ==> i <= width,
            r@ == spaces((i - n) as nat),
        decreases width - i,
    {
        r.append(" ");
        proof {
            reveal_strlit(" ");
            assert(" "@ =~= seq![' ']);
            assert(spaces((i - n) as nat) + " "@ =~= spaces((i + 1 - n) as nat));
        }
        i += 1;
    }
    r.append(s);
    proof {
        if n >= width {
            assert(spaces(0) + s@ =~= s@);
        }
    }
    r
}

/// One rendered sensor table line: name in 27 characters, sensor type
/// in 12, the three readings right-justified in 10 each, and the raw
/// identifier appended unformatted.
pub open spec fn row_line_of(
    name: Seq<char>,
    sensor_type: Seq<char>,
    cur: Seq<char>,
    low: Seq<char>,
    high: Seq<char>,
    id: Seq<char>,
) -> Seq<char> {
    left_justified(name, 27) + " | "@ + left_justified(sensor_type, 12) + " | Cur: "@
        + right_justified(cur, 10) + " | Min: "@ + right_justified(low, 10) + " | Max: "@
        + right_justified(high, 10) + " | "@ + id
}

/// Renders one sensor table line from its six display fields.
pub fn format_row(
    name: &str,
    sensor_type: &str,
    cur: &str,
    low: &str,
    high: &str,
    id: &str,
) -> (r: String)
    ensures
        r@ == row_line_of(name@, sensor_type@, cur@, low@, high@, id@),
{
    let mut r = left_justify(name, 27);
    r.append(" | ");
    let t = left_justify(sensor_type, 12);
    r.append(t.as_str());
    r.append(" | Cur: ");
    let c = right_justify(cur, 10);
    r.append(c.as_str());
    r.append(" | Min: ");
    let lo = right_justify(low, 10);
    r.append(lo.as_str());
    r.append(" | Max: ");
    let hi = right_justify(high, 10);
    r.append(hi.as_str());
    r.append(" | ");
    r.append(id);
    r
}

/// One sensor row, fully coerced to display strings.
pub struct DisplayRow {
    pub name: String,
    pub sensor_type: String,
    pub cur_text: String,
    pub min_text: String,
    pub max_text: String,
    pub id: String,
}

/// The rendered line for one coerced sensor row.
pub open spec fn display_row_line_of(row: DisplayRow) -> Seq<char> {
    row_line_of(row.name@, row.sensor_type@, row.cur_text@, row.min_text@, row.max_text@, row.id@)
}

/// The sensor table: one line per row; an empty result set yields
/// exactly one diagnostic line and nothing else.
pub fn sensor_table_lines(rows: &Vec<DisplayRow>) -> (r: Vec<String>)
    ensures
        rows@.len() == 0 ==> r@.len() == 1 && r@[0]@ == "(no sensors found — run LibreHardwareMonitor as Administrator)"@,
        rows@.len() > 0 ==> r@.len() == rows@.len() && (forall|i: int|
            0 <= i < rows@.len() ==> #[trigger] r@[i]@ == display_row_line_of(rows@[i])),
{
    let mut out: Vec<String> = Vec::new();
    if rows.len() == 0 {
        out.push(
            String::from_str("(no sensors found — run LibreHardwareMonitor as Administrator)"),
        );
        return out;
    }
    let mut i: usize = 0;
    while i < rows.len()
        invariant
            i <= rows@.len(),
            out@.len() == i,
            forall|j: int| 0 <= j < i ==> #[trigger] out@[j]@ == display_row_line_of(rows@[j]),
        decreases rows@.len() - i,
    {
        let row = &rows[i];
        let line = format_row(
            row.name.as_str(),
            row.sensor_type.as_str(),
            row.cur_text.as_str(),
            row.min_text.as_str(),
            row.max_text.as_str(),
            row.id.as_str(),
        );
        out.push(line);
        i += 1;
    }
    out
}

/// The two lines that introduce the sensor table.
pub fn sensor_header_lines() -> (r: Vec<String>)
    ensures
        r@.len() == 2,
        r@[0]@ == Seq::<char>::empty(),
        r@[1]@ == "--- Sensors (via LibreHardwareMonitor) ---"@,
{
    let mut out: Vec<String> = Vec::new();
    out.push(String::new());
    out.push(String::from_str("--- Sensors (via LibreHardwareMonitor) ---"));
    out
}

} // verus!
