use topk_cli::bench::args::{data_source, DataSource};
use topk_cli::bench::data::{bench_document, parse_bench_01, Bench01Columns, Document, Value};
use topk_cli::bench::providers::expect_at_most_one;
use topk_cli::bench::query::{
    at_most_one, document_number, max_id, parse_u32, parse_u64, recall_counts, result_numbers,
    with_service_id, PqQuery,
};
use topk_cli::bench::settings::{dataset_local_path, S3Settings, TopkRsSettings};

fn text(doc: &Document, key: &str) -> Option<String> {
    match doc.get(key) {
        Some(Value::Text(t)) => Some(t.clone()),
        _ => None,
    }
}

fn doc_with_id(id: &str) -> Document {
    Document::new(vec![("id".to_string(), Value::Text(id.to_string()))])
}

#[test]
fn later_fields_win_when_names_repeat() {
    let d = Document::new(vec![
        ("a".to_string(), Value::U32(1)),
        ("b".to_string(), Value::Text("x".to_string())),
        ("a".to_string(), Value::U32(2)),
    ]);
    assert!(matches!(d.get("a"), Some(Value::U32(2))));
    assert_eq!(text(&d, "b"), Some("x".to_string()));
    assert_eq!(d.fields().len(), 2);
}

#[test]
fn insert_replaces_and_remove_takes_out() {
    let mut d = Document::empty();
    d.insert("k".to_string(), Value::U32(1));
    d.insert("k".to_string(), Value::U32(9));
    assert!(matches!(d.get("k"), Some(Value::U32(9))));
    assert!(matches!(d.remove("k"), Some(Value::U32(9))));
    assert!(d.get("k").is_none());
    assert!(d.remove("k").is_none());
}

#[test]
fn bench_rows_become_documents() {
    let d = bench_document("7".to_string(), "t".to_string(), vec![1, 2], -1, "kw".to_string());
    assert_eq!(text(&d, "id"), Some("7".to_string()));
    assert!(matches!(d.get("int_filter"), Some(Value::U32(4294967295))));
    assert!(matches!(d.get("dense_embedding"), Some(Value::F32Bits(v)) if v == &vec![1, 2]));
    assert_eq!(d.fields().len(), 5);
}

#[test]
fn batches_become_documents_in_order() {
    let cols = Bench01Columns {
        id: vec!["1".to_string(), "2".to_string()],
        text: vec!["a".to_string(), "b".to_string()],
        dense: vec![Some(vec![3]), None],
        int_filter: vec![10, 20],
        keyword_filter: vec!["x".to_string(), "y".to_string()],
    };
    let docs = parse_bench_01(cols);
    assert_eq!(docs.len(), 2);
    assert_eq!(text(&docs[0], "id"), Some("1".to_string()));
    assert_eq!(text(&docs[1], "keyword_filter"), Some("y".to_string()));
    assert!(matches!(docs[1].get("dense_embedding"), Some(Value::F32Bits(v)) if v.is_empty()));
    assert!(matches!(docs[0].get("int_filter"), Some(Value::U32(10))));
}

#[test]
fn numbers_parse_as_std_does() {
    for s in ["0", "42", "+7", "007", "18446744073709551615", "", "+", "-1", "1a", " 1", "18446744073709551616", "++1"] {
        assert_eq!(parse_u64(s), s.parse::<u64>().ok(), "{s:?}");
        assert_eq!(parse_u32(s), s.parse::<u32>().ok(), "{s:?}");
    }
    assert_eq!(parse_u32("4294967296"), None);
    assert_eq!(parse_u32("4294967295"), Some(u32::MAX));
}

#[test]
fn returned_documents_are_known_by_id() {
    let with_service_id_field = Document::new(vec![
        ("_id".to_string(), Value::Text("12".to_string())),
        ("id".to_string(), Value::Text("99".to_string())),
    ]);
    assert_eq!(document_number(&with_service_id_field), Some(12));
    assert_eq!(document_number(&doc_with_id("5")), Some(5));
    assert_eq!(document_number(&Document::empty()), None);
    assert_eq!(result_numbers(&vec![doc_with_id("3"), doc_with_id("1")]), vec![3, 1]);
}

#[test]
fn max_id_is_the_largest_written_id() {
    assert_eq!(max_id(&vec![doc_with_id("9"), doc_with_id("120"), doc_with_id("+15")]), "120");
    assert_eq!(max_id(&vec![doc_with_id("0")]), "0");
}

#[test]
fn id_moves_to_service_id() {
    let d = with_service_id(doc_with_id("4"));
    assert_eq!(text(&d, "_id"), Some("4".to_string()));
    assert!(d.get("id").is_none());
    let e = with_service_id(Document::empty());
    assert!(e.get("_id").is_none());
}

#[test]
fn lookups_find_at_most_one_document() {
    assert!(matches!(at_most_one(vec![], "1"), Ok(None)));
    assert!(matches!(at_most_one(vec![doc_with_id("1")], "1"), Ok(Some(_))));
    assert_eq!(
        at_most_one(vec![doc_with_id("1"), doc_with_id("1")], "1").err(),
        Some("multiple documents found for id: 1".to_string())
    );
    assert_eq!(
        expect_at_most_one(vec![doc_with_id("1"), doc_with_id("1"), doc_with_id("2")]).err(),
        Some("expected 1 document, got 3".to_string())
    );
    assert!(matches!(expect_at_most_one(vec![]), Ok(None)));
}

fn query() -> PqQuery {
    PqQuery {
        text: "q".to_string(),
        recall_dense_100: vec![
            (5, vec![("10000".to_string(), vec![1, 2])]),
            (10000, vec![("a".to_string(), vec![3]), ("10000".to_string(), vec![4, -1, 0, 5])]),
        ],
    }
}

#[test]
fn recall_reads_the_recorded_neighbours() {
    let q = query();
    assert_eq!(q.recall(10, None, None), vec![4, 5]);
    assert_eq!(q.recall(10, Some(5), None), vec![1, 2]);
    assert_eq!(q.recall(10, None, Some("a")), vec![3]);
}

#[test]
fn recall_counts_distinct_hits_among_the_first_top_k() {
    assert_eq!(recall_counts(&vec![1, 2, 9], &vec![1, 2, 3, 4], 3), (2, 3));
    assert_eq!(recall_counts(&vec![1, 1, 1], &vec![1, 1, 2], 10), (1, 2));
    assert_eq!(recall_counts(&vec![], &vec![], 10), (0, 0));
    assert_eq!(recall_counts(&vec![4], &vec![1, 2, 3, 4], 3), (0, 3));
}

#[test]
fn settings_defaults_and_urls() {
    let s = TopkRsSettings {
        topk_api_key: "k".to_string(),
        topk_region: "r".to_string(),
        topk_host: None,
        topk_https: None,
    };
    assert_eq!(s.host(), "topk.io");
    assert!(s.https());
    let t = TopkRsSettings { topk_host: Some("dev.local".to_string()), topk_https: Some(false), ..s };
    assert_eq!(t.host(), "dev.local");
    assert!(!t.https());
    let s3 = S3Settings {
        aws_access_key_id: "a".to_string(),
        aws_secret_access_key: "b".to_string(),
        aws_region: "eu-west-1".to_string(),
    };
    assert_eq!(s3.endpoint_url(), "https://s3.eu-west-1.amazonaws.com");
    assert_eq!(dataset_local_path("bench/01.parquet"), "/tmp/topk-bench/bench/01.parquet");
}

#[test]
fn data_comes_from_the_bucket_or_a_file() {
    assert!(matches!(data_source(Some("d".to_string()), Some("f".to_string())), Ok(DataSource::Bucket(k)) if k == "d"));
    assert!(matches!(data_source(None, Some("f".to_string())), Ok(DataSource::File(p)) if p == "f"));
    assert_eq!(
        data_source(None, None).err(),
        Some("Either dataset or input file must be provided".to_string())
    );
}

#[test]
fn written_numbers_read_back() {
    for n in [0u64, 9, 10, 4096, u64::MAX] {
        assert_eq!(parse_u64(&n.to_string()), Some(n));
    }
    let ids = vec![doc_with_id("17"), doc_with_id("3")];
    assert_eq!(parse_u64(&max_id(&ids)), Some(17));
}

use topk_cli::bench::runs::{freshness_step, retry_step, FreshnessStep, RetryStep};

#[test]
fn failed_requests_are_sent_again_after_the_jitter() {
    assert_eq!(retry_step(true, 50), RetryStep::Proceed);
    assert_eq!(retry_step(false, 37), RetryStep::RetryAfter(37));
}

#[test]
fn freshness_checks_poll_until_found() {
    assert_eq!(freshness_step(true, true), FreshnessStep::RecordZero);
    assert_eq!(freshness_step(true, false), FreshnessStep::StartClock);
    assert_eq!(freshness_step(false, false), FreshnessStep::PollAfter(100));
    assert_eq!(freshness_step(false, true), FreshnessStep::RecordElapsed);
}
