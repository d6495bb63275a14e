//! The unified reporting model: one record per device, rendered
//! either as plain lines or as a JSON array of objects.

use vstd::prelude::*;

use crate::bluetooth::BTBatteryLevel;
use crate::dygma::DygmaBatteryInfo;
use crate::status::spec_status_name;
use crate::text::{spec_decimal, u8_to_string};

verus! {

/// The transport-agnostic output record for one device.  Its fields
/// are always renderable strings — never empty placeholders — even
/// when the underlying reading silently defaulted.
pub struct Report {
    pub battery_level: String,
    pub battery_status: String,
    pub name: String,
}

/// How a BLE reading appears as a report: the level as its decimal
/// string, the status under its display name.
pub open spec fn spec_report_matches_ble(r: Report, b: BTBatteryLevel) -> bool {
    &&& r.name@ == b.name@
    &&& r.battery_level@ == spec_decimal(b.level as int)
    &&& r.battery_status@ == spec_status_name(b.status)
}

/// How a two-sided reading appears as a report: the levels joined as
/// `"left/right"`, the status taken from the left half.
pub open spec fn spec_report_matches_serial(r: Report, d: DygmaBatteryInfo) -> bool {
    &&& r.name@ == d.name@
    &&& r.battery_level@ == spec_decimal(d.left_level as int) + "/"@ + spec_decimal(
        d.right_level as int,
    )
    &&& r.battery_status@ == spec_status_name(d.left_status)
}

/// One line of the plain-text rendering; the status is intentionally
/// omitted here, unlike in the JSON form.
pub open spec fn spec_report_line(r: Report) -> Seq<char> {
    r.name@ + ": "@ + r.battery_level@ + "\n"@
}

impl Report {
    /// The report for one BLE reading.
    pub fn from_ble(value: &BTBatteryLevel) -> (r: Report)
        ensures
            spec_report_matches_ble(r, *value),
    {
        Report {
            battery_level: u8_to_string(value.level),
            battery_status: value.status.to_string(),
            name: value.name.clone(),
        }
    }

    /// The report for one two-sided reading.
    pub fn from_serial(value: &DygmaBatteryInfo) -> (r: Report)
        ensures
            spec_report_matches_serial(r, *value),
    {
        let mut level = u8_to_string(value.left_level);
        level.append("/");
        let right = u8_to_string(value.right_level);
        level.append(right.as_str());
        Report {
            battery_level: level,
            battery_status: value.left_status.to_string(),
            name: value.name.clone(),
        }
    }

    /// This report's plain-text line.
    pub fn to_string(&self) -> (r: String)
        ensures
            r@ == spec_report_line(*self),
    {
        let mut out = self.name.clone();
        out.append(": ");
        out.append(self.battery_level.as_str());
        out.append("\n");
        out
    }
}

/// Builds the run's report list: every BLE reading first, then every
/// two-sided reading, each in its pipeline's order.
pub fn build_reports(ble: &Vec<BTBatteryLevel>, serial: &Vec<DygmaBatteryInfo>) -> (r: Vec<Report>)
    ensures
        r@.len() == ble@.len() + serial@.len(),
        forall|i: int|
            0 <= i < ble@.len() ==> spec_report_matches_ble(r@[i], #[trigger] ble@[i]),
        forall|j: int|
            0 <= j < serial@.len() ==> spec_report_matches_serial(
                r@[ble@.len() + j],
                #[trigger] serial@[j],
            ),
{
    let mut out: Vec<Report> = Vec::new();
    let mut i: usize = 0;
    while i < ble.len()
        invariant
            i <= ble@.len(),
            out@.len() == i,
            forall|k: int| 0 <= k < i ==> spec_report_matches_ble(out@[k], #[trigger] ble@[k]),
        decreases ble@.len() - i,
    {
        out.push(Report::from_ble(&ble[i]));
        i += 1;
    }
    let mut j: usize = 0;
    while j < serial.len()
        invariant
            j <= serial@.len(),
            out@.len() == ble@.len() + j,
            forall|k: int| 0 <= k < ble@.len() ==> spec_report_matches_ble(out@[k], #[trigger] ble@[k]),
            forall|k: int|
                0 <= k < j ==> spec_report_matches_serial(
                    out@[ble@.len() + k],
                    #[trigger] serial@[k],
                ),
        decreases serial@.len() - j,
    {
        out.push(Report::from_serial(&serial[j]));
        j += 1;
    }
    out
}

pub open spec fn spec_hex_digit(d: int) -> char {
    if d == 0 {
        '0'
    } else if d == 1 {
        '1'
    } else if d == 2 {
        '2'
    } else if d == 3 {
        '3'
    } else if d == 4 {
        '4'
    } else if d == 5 {
        '5'
    } else if d == 6 {
        '6'
    } else if d == 7 {
        '7'
    } else if d == 8 {
        '8'
    } else if d == 9 {
        '9'
    } else if d == 10 {
        'a'
    } else if d == 11 {
        'b'
    } else if d == 12 {
        'c'
    } else if d == 13 {
        'd'
    } else if d == 14 {
        'e'
    } else {
        'f'
    }
}

/// Characters that cannot stand bare inside a JSON string literal.
pub open spec fn spec_needs_escape(c: char) -> bool {
    c == '"' || c == '\\' || (c as int) < 32
}

/// How one character appears inside a JSON string literal: quote and
/// backslash get a backslash escape, control characters their short
/// escape or a `\u00..` sequence, everything else stands bare.
pub open spec fn spec_escape_char(c: char) -> Seq<char> {
    if c == '"' {
        "\\\""@
    } else if c == '\\' {
        "\\\\"@
    } else if c as int == 8 {
        "\\b"@
    } else if c as int == 9 {
        "\\t"@
    } else if c as int == 10 {
        "\\n"@
    } else if c as int == 12 {
        "\\f"@
    } else if c as int == 13 {
        "\\r"@
    } else if (c as int) < 32 {
        "\\u00"@ + seq![spec_hex_digit(c as int / 16), spec_hex_digit(c as int % 16)]
    } else {
        seq![c]
    }
}

pub open spec fn spec_json_escape(s: Seq<char>) -> Seq<char>
    decreases s.len(),
{
    if s.len() == 0 {
        Seq::empty()
    } else {
        spec_json_escape(s.drop_last()) + spec_escape_char(s.last())
    }
}

/// A JSON string literal holding `s`.
pub open spec fn spec_json_string(s: Seq<char>) -> Seq<char> {
    "\""@ + spec_json_escape(s) + "\""@
}

/// One report as a JSON object, fields in declaration order.
pub open spec fn spec_json_report(r: Report) -> Seq<char> {
    "{\"battery_level\":"@ + spec_json_string(r.battery_level@) + ",\"battery_status\":"@
        + spec_json_string(r.battery_status@) + ",\"name\":"@ + spec_json_string(r.name@) + "}"@
}

pub open spec fn spec_json_items(rs: Seq<Report>) -> Seq<char>
    decreases rs.len(),
{
    if rs.len() == 0 {
        Seq::empty()
    } else if rs.len() == 1 {
        spec_json_report(rs[0])
    } else {
        spec_json_items(rs.drop_last()) + ","@ + spec_json_report(rs.last())
    }
}

/// The JSON rendering: an array of one object per report; the empty
/// list renders as `[]`.
pub open spec fn spec_render_json(rs: Seq<Report>) -> Seq<char> {
    "["@ + spec_json_items(rs) + "]"@
}

/// The plain-text rendering: one line per report; the empty list
/// renders as the empty string.
pub open spec fn spec_render_plain(rs: Seq<Report>) -> Seq<char>
    decreases rs.len(),
{
    if rs.len() == 0 {
        Seq::empty()
    } else {
        spec_render_plain(rs.drop_last()) + spec_report_line(rs.last())
    }
}

/// What `render_reports` produces for a report list.
pub open spec fn spec_render(rs: Seq<Report>, as_json: bool) -> Seq<char> {
    if as_json {
        spec_render_json(rs)
    } else {
        spec_render_plain(rs)
    }
}

fn needs_escape(c: char) -> (r: bool)
    ensures
        r == spec_needs_escape(c),
{
    c == '"' || c == '\\' || (c as u32) < 32
}

fn hex_digit_str(d: u8) -> (r: &'static str)
    requires
        d < 16,
    ensures
        r@ =~= seq![spec_hex_digit(d as int)],
{
    proof {
        reveal_strlit("0");
        reveal_strlit("1");
        reveal_strlit("2");
        reveal_strlit("3");
        reveal_strlit("4");
        reveal_strlit("5");
        reveal_strlit("6");
        reveal_strlit("7");
        reveal_strlit("8");
        reveal_strlit("9");
        reveal_strlit("a");
        reveal_strlit("b");
        reveal_strlit("c");
        reveal_strlit("d");
        reveal_strlit("e");
        reveal_strlit("f");
    }
    match d {
        0 => "0",
        1 => "1",
        2 => "2",
        3 => "3",
        4 => "4",
        5 => "5",
        6 => "6",
        7 => "7",
        8 => "8",
        9 => "9",
        10 => "a",
        11 => "b",
        12 => "c",
        13 => "d",
        14 => "e",
        _ => "f",
    }
}

proof fn lemma_escape_plain_run(s: Seq<char>, a: int, b: int)
    requires
        0 <= a <= b <= s.len(),
        forall|k: int| a <= k < b ==> !spec_needs_escape(#[trigger] s[k]),
    ensures
        spec_json_escape(s.subrange(0, b)) =~= spec_json_escape(s.subrange(0, a)) + s.subrange(
            a,
            b,
        ),
    decreases b - a,
{
    if a == b {
        assert(s.subrange(a, b) =~= Seq::<char>::empty());
    } else {
        lemma_escape_plain_run(s, a, b - 1);
        let cur = s.subrange(0, b);
        assert(cur.drop_last() =~= s.subrange(0, b - 1));
        assert(cur.last() == s[b - 1]);
        assert(!spec_needs_escape(s[b - 1]));
        assert(spec_escape_char(s[b - 1]) =~= seq![s[b - 1]]);
        assert(s.subrange(a, b) =~= s.subrange(a, b - 1) + seq![s[b - 1]]);
    }
}

fn json_escape_append(out: &mut String, s: &str)
    ensures
        final(out)@ == old(out)@ + spec_json_escape(s@),
{
    let n = s.unicode_len();
    let mut i: usize = 0;
    let mut run_start: usize = 0;
    while i < n
        invariant
            run_start <= i <= n,
            n == s@.len(),
            forall|k: int| run_start <= k < i ==> !spec_needs_escape(#[trigger] s@[k]),
            out@ == old(out)@ + spec_json_escape(s@.subrange(0, run_start as int)),
        decreases n - i,
    {
        let c = s.get_char(i);
        if needs_escape(c) {
            proof {
                lemma_escape_plain_run(s@, run_start as int, i as int);
            }
            out.append(s.substring_char(run_start, i));
            assert(out@ =~= old(out)@ + spec_json_escape(s@.subrange(0, i as int)));
            let u = c as u32;
            if c == '"' {
                out.append("\\\"");
            } else if c == '\\' {
                out.append("\\\\");
            } else if u == 8 {
                out.append("\\b");
            } else if u == 9 {
                out.append("\\t");
            } else if u == 10 {
                out.append("\\n");
            } else if u == 12 {
                out.append("\\f");
            } else if u == 13 {
                out.append("\\r");
            } else {
                out.append("\\u00");
                out.append(hex_digit_str((u / 16) as u8));
                out.append(hex_digit_str((u % 16) as u8));
            }
            proof {
                let cur = s@.subrange(0, i as int + 1);
                assert(cur.drop_last() =~= s@.subrange(0, i as int));
                assert(cur.last() == s@[i as int]);
                assert(out@ =~= old(out)@ + spec_json_escape(s@.subrange(0, i as int + 1)));
            }
            run_start = i + 1;
        }
        i += 1;
    }
    proof {
        lemma_escape_plain_run(s@, run_start as int, n as int);
    }
    out.append(s.substring_char(run_start, n));
    proof {
        assert(s@.subrange(0, n as int) =~= s@);
        assert(out@ =~= old(out)@ + spec_json_escape(s@));
    }
}

fn json_string_append(out: &mut String, s: &str)
    ensures
        final(out)@ == old(out)@ + spec_json_string(s@),
{
    out.append("\"");
    json_escape_append(out, s);
    out.append("\"");
    assert(out@ =~= old(out)@ + spec_json_string(s@));
}

fn json_report_append(out: &mut String, r: &Report)
    ensures
        final(out)@ == old(out)@ + spec_json_report(*r),
{
    out.append("{\"battery_level\":");
    json_string_append(out, r.battery_level.as_str());
    out.append(",\"battery_status\":");
    json_string_append(out, r.battery_status.as_str());
    out.append(",\"name\":");
    json_string_append(out, r.name.as_str());
    out.append("}");
    assert(out@ =~= old(out)@ + spec_json_report(*r));
}

/// Renders the whole run's output as one buffer: a JSON array when
/// requested, otherwise one plain line per report.
pub fn render_reports(reports: &Vec<Report>, as_json: bool) -> (r: String)
    ensures
        r@ == spec_render(reports@, as_json),
{
    if as_json {
        let mut out = "[".to_owned();
        let mut i: usize = 0;
        while i < reports.len()
            invariant
                i <= reports@.len(),
                out@ == "["@ + spec_json_items(reports@.subrange(0, i as int)),
            decreases reports@.len() - i,
        {
            if i > 0 {
                out.append(",");
            }
            json_report_append(&mut out, &reports[i]);
            proof {
                let cur = reports@.subrange(0, i as int + 1);
                assert(cur.drop_last() =~= reports@.subrange(0, i as int));
                assert(cur.last() == reports@[i as int]);
                if i == 0 {
                    assert(cur.len() == 1 && cur[0] == reports@[0]);
                }
                assert(out@ =~= "["@ + spec_json_items(cur));
            }
            i += 1;
        }
        out.append("]");
        proof {
            assert(reports@.subrange(0, reports@.len() as int) =~= reports@);
        }
        out
    } else {
        let mut out = String::new();
        let mut i: usize = 0;
        while i < reports.len()
            invariant
                i <= reports@.len(),
                out@ == spec_render_plain(reports@.subrange(0, i as int)),
            decreases reports@.len() - i,
        {
            let line = reports[i].to_string();
            out.append(line.as_str());
            proof {
                let cur = reports@.subrange(0, i as int + 1);
                assert(cur.drop_last() =~= reports@.subrange(0, i as int));
                assert(cur.last() == reports@[i as int]);
                assert(out@ =~= spec_render_plain(cur));
            }
            i += 1;
        }
        proof {
            assert(reports@.subrange(0, reports@.len() as int) =~= reports@);
        }
        out
    }
}

} // verus!
