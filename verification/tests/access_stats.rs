use junowen::args::{Args, ArgsError, Cli, Command, OutputFormat, PostProcess, DEFAULT_QUERY};
use junowen::output::{columns, push_csv_value, render_csv, render_table, QueryOutput, Row};
use junowen::room_activity::{parse_cloudwatch_timestamp, summarize_room_activity, ActivityError};

fn row(fields: &[(&str, &str)]) -> Row {
    Row::from_fields(fields.iter().map(|(k, v)| (k.to_string(), v.to_string())).collect()).unwrap()
}

#[test]
fn csv_value_is_quoted_only_when_needed() {
    let mut out = String::new();
    push_csv_value(&mut out, "plain");
    assert_eq!(out, "plain");
    let mut out = String::new();
    push_csv_value(&mut out, "a,b");
    assert_eq!(out, "\"a,b\"");
    let mut out = String::new();
    push_csv_value(&mut out, "say \"hi\"");
    assert_eq!(out, "\"say \"\"hi\"\"\"");
    let mut out = String::new();
    push_csv_value(&mut out, "line\nbreak");
    assert_eq!(out, "\"line\nbreak\"");
}

#[test]
fn columns_put_preferred_names_first_then_the_rest_sorted() {
    let rows = vec![
        row(&[("zeta", "1"), ("day", "2024-01-01"), ("alpha", "x")]),
        row(&[("events", "3"), ("beta", "y")]),
    ];
    assert_eq!(columns(&rows), vec!["day", "events", "alpha", "beta", "zeta"]);
}

#[test]
fn csv_renders_header_and_rows_with_missing_values_empty() {
    let rows = vec![row(&[("day", "2024-01-01"), ("events", "3")]), row(&[("day", "2024-01-02")])];
    assert_eq!(render_csv(&rows), "day,events\n2024-01-01,3\n2024-01-02,\n");
}

#[test]
fn table_pads_columns_to_the_widest_value() {
    let output = QueryOutput {
        query_id: "q".to_string(),
        status: "Complete".to_string(),
        rows: vec![row(&[("day", "2024-01-01"), ("events", "12345678")])],
    };
    assert_eq!(
        render_table(&output),
        "day         events  \n----------  --------\n2024-01-01  12345678\n"
    );
}

#[test]
fn empty_table_reports_status_and_query() {
    let output = QueryOutput { query_id: "abc".to_string(), status: "Complete".to_string(), rows: vec![] };
    assert_eq!(render_table(&output), "status: Complete\nquery_id: abc\nrows: 0\n");
}

#[test]
fn row_with_a_repeated_key_is_refused() {
    let fields = vec![("a".to_string(), "1".to_string()), ("a".to_string(), "2".to_string())];
    assert!(Row::from_fields(fields).is_none());
}

#[test]
fn cloudwatch_timestamps_read_in_both_forms() {
    assert_eq!(parse_cloudwatch_timestamp("2024-01-01 00:00:00.000"), Some(1704067200));
    assert_eq!(parse_cloudwatch_timestamp("2024-01-01T09:00:00+09:00"), Some(1704067200));
    assert_eq!(parse_cloudwatch_timestamp("yesterday"), None);
}

#[test]
fn room_activity_is_summarised_per_japanese_day() {
    let output = QueryOutput {
        query_id: "q".to_string(),
        status: "Complete".to_string(),
        rows: vec![
            row(&[
                ("@timestamp", "2024-01-01 14:59:59.000"),
                ("cw_room_type", "Shared"),
                ("cw_action", "Answered"),
                ("cw_ip_hash", "h1"),
            ]),
            row(&[
                ("@timestamp", "2024-01-01 15:00:00.000"),
                ("cw_room_type", "Reserved"),
                ("cw_action", "Join"),
                ("cw_ip_hash", "h1"),
            ]),
            row(&[
                ("@timestamp", "2024-01-01 16:00:00.000"),
                ("cw_room_type", "Shared"),
                ("cw_action", "Created"),
                ("cw_ip_hash", "h2"),
            ]),
            row(&[("@timestamp", "2024-01-01 17:00:00.000"), ("cw_ip_hash", "")]),
        ],
    };
    let summary = summarize_room_activity(output).ok().unwrap();
    assert_eq!(summary.query_id, "q");
    assert_eq!(summary.status, "Complete");
    assert_eq!(summary.rows.len(), 2);
    let first = &summary.rows[0];
    assert_eq!(first.get_or_empty("day"), "2024-01-01");
    assert_eq!(first.get_or_empty("unique_ip_hashes"), "1");
    assert_eq!(first.get_or_empty("shared_matches"), "1");
    assert_eq!(first.get_or_empty("reserved_matches"), "0");
    let second = &summary.rows[1];
    assert_eq!(second.get_or_empty("day"), "2024-01-02");
    assert_eq!(second.get_or_empty("unique_ip_hashes"), "2");
    assert_eq!(second.get_or_empty("shared_matches"), "0");
    assert_eq!(second.get_or_empty("reserved_matches"), "1");
}

#[test]
fn room_activity_needs_timestamps() {
    let output = QueryOutput { query_id: "q".to_string(), status: "s".to_string(), rows: vec![row(&[("x", "1")])] };
    assert!(matches!(summarize_room_activity(output), Err(ActivityError::MissingTimestamp)));
    let output = QueryOutput {
        query_id: "q".to_string(),
        status: "s".to_string(),
        rows: vec![row(&[("@timestamp", "not a time")])],
    };
    match summarize_room_activity(output) {
        Err(ActivityError::InvalidTimestamp(t)) => assert_eq!(t, "not a time"),
        _ => panic!("expected an invalid timestamp"),
    }
}

fn cli(command: Command) -> Cli {
    Cli {
        command,
        profile: "p".to_string(),
        region: None,
        function_name: "f".to_string(),
        out: None,
        format: OutputFormat::Csv,
        poll_interval_ms: 1000,
        timeout_secs: 60,
    }
}

#[test]
fn query_arguments_keep_the_common_options_and_default_the_query() {
    let args = Args::try_from(cli(Command::Query {
        start: "2024-01-01T00:00:00Z".to_string(),
        end: "2024-01-02T00:00:00Z".to_string(),
        query: None,
    }))
    .ok()
    .unwrap();
    assert_eq!(args.query, DEFAULT_QUERY);
    assert_eq!(args.start_time, 1704067200);
    assert_eq!(args.end_time, 1704153600);
    assert_eq!(args.post_process, PostProcess::Unchanged);
    assert_eq!(args.common.profile, "p");
    assert_eq!(args.common.poll_interval_ms, 1000);
    assert_eq!(args.common.timeout_secs, 60);
    assert_eq!(args.common.format, OutputFormat::Csv);
}

#[test]
fn argument_errors() {
    let r = Args::try_from(cli(Command::RoomActivity { start: "bad".to_string(), end: "2024-01-02T00:00:00Z".to_string() }));
    assert!(matches!(r, Err(ArgsError::InvalidStart)));
    let r = Args::try_from(cli(Command::RoomActivity { start: "2024-01-02T00:00:00Z".to_string(), end: "bad".to_string() }));
    assert!(matches!(r, Err(ArgsError::InvalidEnd)));
    let r = Args::try_from(cli(Command::RoomActivity {
        start: "2024-01-02T00:00:00Z".to_string(),
        end: "2024-01-02T00:00:00Z".to_string(),
    }));
    assert!(matches!(r, Err(ArgsError::EndNotAfterStart)));
}

#[test]
fn iam_check_defaults_to_the_five_minutes_before_its_end() {
    let args = Args::try_from(cli(Command::IamCheck { start: None, end: Some("2024-01-01T00:05:00Z".to_string()) }))
        .ok()
        .unwrap();
    assert_eq!(args.end_time, 1704067500);
    assert_eq!(args.start_time, 1704067200);
    let args = Args::try_from(cli(Command::IamCheck { start: None, end: None })).ok().unwrap();
    assert_eq!(args.end_time - args.start_time, 300);
}

#[test]
fn room_activity_dates_even_the_last_representable_day() {
    let output = QueryOutput {
        query_id: "q".to_string(),
        status: "s".to_string(),
        rows: vec![row(&[("@timestamp", "9999-12-31T23:00:00Z"), ("cw_ip_hash", "h")])],
    };
    let summary = summarize_room_activity(output).ok().unwrap();
    assert_eq!(summary.rows[0].get_or_empty("day"), "+10000-01-01");
}

fn read_csv_field(t: &str) -> String {
    let chars: Vec<char> = t.chars().collect();
    if chars.len() >= 2 && chars[0] == '"' && chars[chars.len() - 1] == '"' {
        let inner = &chars[1..chars.len() - 1];
        let mut out = String::new();
        let mut i = 0;
        while i < inner.len() {
            out.push(inner[i]);
            i += if inner[i] == '"' && i + 1 < inner.len() && inner[i + 1] == '"' { 2 } else { 1 };
        }
        out
    } else {
        t.to_string()
    }
}

#[test]
fn csv_values_read_back() {
    for v in ["plain", "a,b", "say \"hi\"", "\"\"", "line\nbreak", "", "\""] {
        let mut out = String::new();
        push_csv_value(&mut out, v);
        assert_eq!(read_csv_field(&out), v);
    }
}
