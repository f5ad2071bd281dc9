//! The flat speaker table of an analysis, and the paths an export writes.
use vstd::prelude::*;
use vstd::string::*;

use crate::layout::{analysis_csv_path, analysis_json_path, joined};
use crate::models::ExportPaths;

verus! {

/// The decimal digit `d`.
pub open spec fn digit_char(d: nat) -> char {
    seq!['0', '1', '2', '3', '4', '5', '6', '7', '8', '9'][d as int]
}

/// The decimal form of `n`, without leading zeros.
pub open spec fn decimal(n: nat) -> Seq<char>
    decreases n,
{
    if n < 10 {
        seq![digit_char(n)]
    } else {
        decimal(n / 10) + seq![digit_char(n % 10)]
    }
}

fn digit_text(d: u64) -> (r: &'static str)
    requires
        d < 10,
    ensures
        r@ == seq![digit_char(d as nat)],
{
    proof {
        reveal_strlit("0");
        reveal_strlit("1");
        reveal_strlit("2");
        reveal_strlit("3");
        reveal_strlit("4");
        reveal_strlit("5");
        reveal_strlit("6");
        reveal_strlit("7");
        reveal_strlit("8");
        reveal_strlit("9");
    }
    let r = if d == 0 {
        "0"
    } else if d == 1 {
        "1"
    } else if d == 2 {
        "2"
    } else if d == 3 {
        "3"
    } else if d == 4 {
        "4"
    } else if d == 5 {
        "5"
    } else if d == 6 {
        "6"
    } else if d == 7 {
        "7"
    } else if d == 8 {
        "8"
    } else {
        "9"
    };
    assert(r@ =~= seq![digit_char(d as nat)]);
    r
}

/// Writes `n` in decimal.
pub fn decimal_text(n: u64) -> (r: String)
    ensures
        r@ == decimal(n as nat),
    decreases n,
{
    if n < 10 {
        String::from_str(digit_text(n))
    } else {
        let mut s = decimal_text(n / 10);
        s.append(digit_text(n % 10));
        s
    }
}

/// One speaker's totals, its figures already written to four decimal places.
#[derive(Clone, Debug)]
pub struct SpeakerRow {
    pub speaker_id: String,
    pub total_sec: String,
    pub percentage: String,
    pub segment_count: u64,
}

/// The header line of the speaker table.
pub open spec fn table_header() -> Seq<char> {
    "speakerId,totalSec,percentage,segmentCount\n"@
}

/// One data line of the speaker table.
pub open spec fn row_line(row: SpeakerRow) -> Seq<char> {
    row.speaker_id@ + ","@ + row.total_sec@ + ","@ + row.percentage@ + ","@ + decimal(
        row.segment_count as nat,
    ) + "\n"@
}

/// The data lines of `rows`, in order.
pub open spec fn row_lines(rows: Seq<SpeakerRow>) -> Seq<char>
    decreases rows.len(),
{
    if rows.len() == 0 {
        Seq::empty()
    } else {
        row_lines(rows.drop_last()) + row_line(rows.last())
    }
}

/// The whole speaker table: the header, then one line per speaker in order.
pub open spec fn speaker_table(rows: Seq<SpeakerRow>) -> Seq<char> {
    table_header() + row_lines(rows)
}

/// Writes one data line of the speaker table.
pub fn render_row(row: &SpeakerRow) -> (r: String)
    ensures
        r@ == row_line(*row),
{
    let mut s = row.speaker_id.clone();
    s.append(",");
    s.append(row.total_sec.as_str());
    s.append(",");
    s.append(row.percentage.as_str());
    s.append(",");
    let count = decimal_text(row.segment_count);
    s.append(count.as_str());
    s.append("\n");
    s
}

/// Renders the speaker table: a fixed header, then one line per speaker in
/// the order given.
pub fn render_speaker_table(rows: &Vec<SpeakerRow>) -> (r: String)
    ensures
        r@ == speaker_table(rows@),
{
    let mut s = String::from_str("speakerId,totalSec,percentage,segmentCount\n");
    let mut i: usize = 0;
    while i < rows.len()
        invariant
            i <= rows@.len(),
            s@ == table_header() + row_lines(rows@.subrange(0, i as int)),
        decreases rows@.len() - i,
    {
        let line = render_row(&rows[i]);
        s.append(line.as_str());
        proof {
            let next = rows@.subrange(0, i + 1);
            assert(next.drop_last() =~= rows@.subrange(0, i as int));
            assert(next.last() == rows@[i as int]);
            assert(s@ =~= table_header() + row_lines(next));
        }
        i = i + 1;
    }
    proof {
        assert(rows@.subrange(0, rows@.len() as int) =~= rows@);
    }
    s
}

/// The paths an export of the session in `session_dir` reports: the table it
/// writes and the analysis record it was made from.
pub fn export_paths(session_dir: &str) -> (r: ExportPaths)
    ensures
        r.csv_path@ == joined(session_dir@, "analysis.csv"@),
        r.json_path@ == joined(session_dir@, "analysis.json"@),
{
    ExportPaths {
        csv_path: analysis_csv_path(session_dir),
        json_path: analysis_json_path(session_dir),
    }
}

/// The diagnostic of a failed analysis: the collaborator's exit status and
/// both of its captured output streams.
pub open spec fn analyzer_failure_text(status: Seq<char>, stdout: Seq<char>, stderr: Seq<char>) -> Seq<
    char,
> {
    "analyzer failed with status "@ + status + "\nstdout:\n"@ + stdout + "\nstderr:\n"@ + stderr
}

/// Writes the diagnostic of a failed analysis.
pub fn analyzer_failure_message(status: &str, stdout: &str, stderr: &str) -> (r: String)
    ensures
        r@ == analyzer_failure_text(status@, stdout@, stderr@),
{
    let mut s = String::from_str("analyzer failed with status ");
    s.append(status);
    s.append("\nstdout:\n");
    s.append(stdout);
    s.append("\nstderr:\n");
    s.append(stderr);
    s
}

} // verus!
