use session_recorder::export::{
    analyzer_failure_message, decimal_text, export_paths, render_row, render_speaker_table,
    SpeakerRow,
};

fn row(id: &str, total: f64, pct: f64, count: u64) -> SpeakerRow {
    SpeakerRow {
        speaker_id: id.to_string(),
        total_sec: format!("{:.4}", total),
        percentage: format!("{:.4}", pct),
        segment_count: count,
    }
}

#[test]
fn export_table_has_one_row_per_speaker_in_order() {
    let rows = vec![row("A", 10.0, 50.0, 3), row("B", 10.0, 50.0, 2)];
    let csv = render_speaker_table(&rows);
    assert_eq!(
        csv,
        "speakerId,totalSec,percentage,segmentCount\nA,10.0000,50.0000,3\nB,10.0000,50.0000,2\n"
    );
    assert_eq!(csv.lines().count(), 3);
}

#[test]
fn export_table_without_speakers_is_the_header() {
    assert_eq!(render_speaker_table(&Vec::new()), "speakerId,totalSec,percentage,segmentCount\n");
}

#[test]
fn row_writes_count_in_decimal() {
    assert_eq!(render_row(&row("spk_0", 1.23456, 12.5, 1234)), "spk_0,1.2346,12.5000,1234\n");
}

#[test]
fn decimal_text_examples() {
    assert_eq!(decimal_text(0), "0");
    assert_eq!(decimal_text(7), "7");
    assert_eq!(decimal_text(10), "10");
    assert_eq!(decimal_text(907), "907");
    assert_eq!(decimal_text(u64::MAX), u64::MAX.to_string());
}

#[test]
fn export_paths_sit_in_the_session_directory() {
    let p = export_paths("/data/sessions/abc");
    assert_eq!(p.csv_path, "/data/sessions/abc/analysis.csv");
    assert_eq!(p.json_path, "/data/sessions/abc/analysis.json");
}

#[test]
fn analyzer_failure_carries_both_streams() {
    assert_eq!(
        analyzer_failure_message("exit status: 2", "out text", "err text"),
        "analyzer failed with status exit status: 2\nstdout:\nout text\nstderr:\nerr text"
    );
}
