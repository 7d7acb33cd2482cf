use topk_cli::commands::import::{
    all_done_line, all_loaded, check_filter, confirm_prompt, estimate_line, human, reader_count,
    report_line, report_lines, resume_hint, run_header, LoadOutcome,
};

#[test]
fn durations_read_as_seconds_minutes_and_hours() {
    assert_eq!(human(0), "0s");
    assert_eq!(human(5), "5s");
    assert_eq!(human(65), "1m05s");
    assert_eq!(human(600), "10m00s");
    assert_eq!(human(3723), "1h02m03s");
    assert_eq!(human(360000), "100h00m00s");
}

#[test]
fn report_lines_count_rows_and_failures() {
    let ok = LoadOutcome { rows: 10, failed: 0, elapsed_secs: 5 };
    let bad = LoadOutcome { rows: 7, failed: 2, elapsed_secs: 65 };
    assert_eq!(report_line("a", &ok), "a: 10 rows written in 5s");
    assert_eq!(report_line("b", &bad), "b: 7 rows written, 2 failed in 1m05s");
    let all = vec![("a".to_string(), ok), ("b".to_string(), bad)];
    assert_eq!(
        report_lines(&all),
        vec![
            "a: 10 rows written in 5s",
            "b: 7 rows written, 2 failed in 1m05s",
            "# indexing continues after this; a count settles once it catches up",
        ]
    );
    assert!(!all_loaded(&all));
    assert!(all_loaded(&vec![("a".to_string(), LoadOutcome { rows: 1, failed: 0, elapsed_secs: 1 })]));
    assert!(all_loaded(&vec![]));
}

#[test]
fn confirmation_names_collections_and_region() {
    assert_eq!(confirm_prompt(1, "us-east-1"), "Import 1 collection into us-east-1?");
    assert_eq!(confirm_prompt(3, "eu"), "Import 3 collections into eu?");
    assert_eq!(confirm_prompt(0, "eu"), "Import 0 collections into eu?");
}

#[test]
fn readers_are_bounded_and_at_least_one() {
    assert_eq!(reader_count(3, 100), 3);
    assert_eq!(reader_count(20, 100), 8);
    assert_eq!(reader_count(20, 2), 2);
    assert_eq!(reader_count(0, 5), 1);
    assert_eq!(reader_count(5, 0), 1);
}

#[test]
fn run_header_mentions_resumed_collections() {
    assert_eq!(run_header("r1", 0), "# run r1");
    assert_eq!(run_header("r1", 2), "# run r1, resuming: 2 collection(s) done");
    assert_eq!(all_done_line("r1", 4), "run r1: all 4 collection(s) already imported");
}

#[test]
fn resume_hint_repeats_the_source() {
    assert_eq!(resume_hint(None, "r1"), "nothing else was imported; to continue: topk import --resume r1");
    assert_eq!(
        resume_hint(Some("s3://b/x"), "r1"),
        "nothing else was imported; to continue: topk import 's3://b/x' --resume r1"
    );
}

#[test]
fn filter_needs_a_single_collection() {
    assert_eq!(check_filter(false, 5), Ok(()));
    assert_eq!(check_filter(true, 1), Ok(()));
    assert_eq!(
        check_filter(true, 3),
        Err("--filter applies to a single object, but 3 objects matched — set `filter` per collection in a spec".to_string())
    );
}

#[test]
fn estimate_line_gives_files_columns_and_size() {
    assert_eq!(
        estimate_line("books", 2, 3, 10, 2_500_000),
        "# books: 2 file(s), reading 3 of 10 column(s), about 2.5 MB"
    );
}

use topk_cli::commands::import::{apply_overrides, check_ids, checkpoints, keep_pending, needs_confirmation, CollectionPlan};

fn plan(name: &str, id: Option<&str>, limit: Option<u64>) -> CollectionPlan {
    CollectionPlan { name: name.to_string(), id: id.map(str::to_string), limit, filter: None, partition: None }
}

#[test]
fn undetected_id_columns_are_refused() {
    let ok = vec![plan("a", Some("pk"), None), plan("b", None, None)];
    assert_eq!(check_ids(&ok, "<id>", "_id"), Ok(()));
    let bad = vec![plan("a", Some("pk"), None), plan("b", Some("<id>"), None), plan("c", Some("<id>"), None)];
    assert_eq!(
        check_ids(&bad, "<id>", "_id"),
        Err("b: couldn't detect an id column — pass `--id <column>`, or set `id` in a spec (it becomes each document's `_id`)".to_string())
    );
}

#[test]
fn zero_limit_collections_are_not_created() {
    let plans = vec![plan("a", None, Some(0)), plan("b", None, Some(5)), plan("c", None, None)];
    let pending = vec!["a".to_string(), "b".to_string(), "c".to_string(), "d".to_string()];
    assert_eq!(keep_pending(pending, &plans), vec!["b", "c", "d"]);
}

#[test]
fn confirmation_and_checkpoints() {
    assert!(needs_confirmation(false, false));
    assert!(!needs_confirmation(true, false));
    assert!(!needs_confirmation(false, true));
    assert!(checkpoints(None));
    assert!(!checkpoints(Some(10)));
}

#[test]
fn command_line_options_apply_to_every_collection() {
    let mut plans = vec![plan("a", Some("pk"), Some(3)), plan("b", None, None)];
    plans[1].partition = Some("p0".to_string());
    apply_overrides(&mut plans, &Some("x > 1".to_string()), None, &None);
    assert_eq!(plans[0].filter.as_deref(), Some("x > 1"));
    assert_eq!(plans[1].filter.as_deref(), Some("x > 1"));
    assert_eq!(plans[0].limit, Some(3));
    assert_eq!(plans[1].partition.as_deref(), Some("p0"));
    apply_overrides(&mut plans, &None, Some(10), &Some("p1".to_string()));
    assert_eq!((plans[0].limit, plans[1].limit), (Some(10), Some(10)));
    assert_eq!(plans[1].partition.as_deref(), Some("p1"));
    assert_eq!(plans[0].filter.as_deref(), Some("x > 1"));
    assert_eq!(plans[0].id.as_deref(), Some("pk"));
}
