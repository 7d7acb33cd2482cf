use topk_cli::commands::dataset::{
    delete_dataset_prompt, CreateDatasetResult, Dataset, DeleteDatasetResult, GetDatasetResult,
    ListDatasetsResult,
};
use topk_cli::commands::delete::{delete_prompt, DeleteResult};

fn dataset(name: &str, region: &str) -> Dataset {
    Dataset {
        name: name.to_string(),
        region: region.to_string(),
        created_at: "2026-01-01T00:00:00Z".to_string(),
    }
}

#[test]
fn created_dataset_is_named() {
    let r = CreateDatasetResult { dataset: dataset("books", "us-east-1") };
    assert_eq!(r.render(), "Dataset 'books' created.");
}

#[test]
fn deletion_result_reads_as_done_or_skipped() {
    assert_eq!(DeleteDatasetResult { deleted: true }.render(), "Dataset deleted.");
    assert_eq!(DeleteDatasetResult { deleted: false }.render(), "Deletion skipped.");
}

#[test]
fn dataset_details_are_three_lines() {
    let r = GetDatasetResult { dataset: dataset("books", "us-east-1") };
    assert_eq!(
        r.render_with_created("Jan 1, 2026 00:00"),
        "Name:    books\nRegion:  us-east-1\nCreated: Jan 1, 2026 00:00"
    );
    assert!(r.render().starts_with("Name:    books\nRegion:  us-east-1\nCreated: "));
}

#[test]
fn empty_dataset_list_says_so() {
    assert_eq!(
        ListDatasetsResult { datasets: vec![] }.empty_text(),
        Some("No datasets found.".to_string())
    );
    assert_eq!(ListDatasetsResult { datasets: vec![dataset("a", "r")] }.empty_text(), None);
}

#[test]
fn dataset_rows_hold_name_region_and_creation() {
    let list = ListDatasetsResult { datasets: vec![dataset("a", "r1"), dataset("b", "r2")] };
    let rows = list.rows_with_created(&vec!["t1".to_string(), "t2".to_string()]);
    assert_eq!(rows, vec![vec!["a", "r1", "t1"], vec!["b", "r2", "t2"]]);
    let local = list.rows();
    assert_eq!(local.len(), 2);
    assert_eq!(local[1][0], "b");
    assert_eq!(local[1][1], "r2");
}

#[test]
fn delete_prompts_name_what_is_deleted() {
    assert_eq!(delete_dataset_prompt("books"), "Delete dataset 'books'? [y/N] ");
    assert_eq!(delete_prompt("doc-9"), "Delete document 'doc-9'? ");
}

#[test]
fn document_deletion_reports_its_handle() {
    assert_eq!(
        DeleteResult { handle: Some("h-1".to_string()) }.render(),
        "Deleting document... (handle: h-1)"
    );
    assert_eq!(DeleteResult { handle: None }.render(), "Delete skipped.");
}
