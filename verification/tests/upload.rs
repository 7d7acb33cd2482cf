use topk_cli::commands::upload::{effective_concurrency, upload_prompt};
use topk_cli::commands::upload::plan::{build, build_from, PlanOutcome};
use topk_cli::commands::upload::progress::{error_line, progress_message, summary};
use topk_cli::commands::upload::result::UploadError;
use topk_cli::commands::upload::uploading::{split_uploads, FileUpload};
use topk_cli::commands::upload::{doc_id_from_path, finished_upload, make_upload_plan, wait_step, WaitStep};
use topk_cli::files::{MimeType, UploadFile};
use topk_cli::paths::{display_path, join_path};
use topk_cli::digest::{sha256_hex, to_hex};

fn file(path: &str, id: &str, size: u64) -> UploadFile {
    UploadFile { path: path.to_string(), doc_id: id.to_string(), size, mime_type: MimeType::ApplicationPdf }
}

#[test]
fn multiple_patterns_are_merged_and_deduplicated() {
    let plan = make_upload_plan(vec![
        vec![file("/a.pdf", "1", 1), file("/b.pdf", "2", 2)],
        vec![file("/a2.pdf", "1", 3), file("/c.pdf", "3", 4)],
    ]);
    let ids: Vec<&str> = plan.iter().map(|f| f.doc_id.as_str()).collect();
    assert_eq!(ids, vec!["1", "2", "3"]);
    assert_eq!(plan[0].path, "/a.pdf");
}

#[test]
fn no_files_on_directory_without_recursive_includes_hint() {
    match build("/work", "docs", false, vec![], true) {
        PlanOutcome::NoFiles { message } => assert_eq!(
            message,
            "No files found for upload in /work/docs; Pass -r or --recursive to match files in sub-directories recursively."
        ),
        _ => panic!("expected no files"),
    }
    match build("/work", "/abs/*.pdf", true, vec![], false) {
        PlanOutcome::NoFiles { message } => assert_eq!(message, "No files found for upload in /abs/*.pdf."),
        _ => panic!("expected no files"),
    }
}

#[test]
fn plans_total_the_sizes() {
    match build("/w", "*.pdf", false, vec![file("/w/a.pdf", "1", 10), file("/w/b.pdf", "2", 32)], false) {
        PlanOutcome::Files { files, totals } => {
            assert_eq!(files.len(), 2);
            assert_eq!((totals.count, totals.size), (2, 42));
        }
        _ => panic!("expected files"),
    }
}

#[test]
fn progress_texts() {
    assert_eq!(summary(3, 2, 1), "2/3 files uploaded (1 failed)");
    assert_eq!(summary(1, 1, 0), "1/1 file uploaded");
    assert_eq!(progress_message(5, 2, 10), "3/10 uploaded, 2 failed");
    assert_eq!(progress_message(1, 3, 10), "0/10 uploaded, 3 failed");
    let e = UploadError { doc_id: "d".to_string(), path: None, error: "boom".to_string() };
    assert_eq!(error_line(&e), "  d: boom");
}

#[test]
fn doc_ids_are_the_hex_sha256_of_the_path() {
    assert_eq!(doc_id_from_path("abc"), "ba7816bf8f01cfea414140de5dae2223b00361a396177a9cb410ff61f20015ad");
    assert_eq!(sha256_hex(""), "e3b0c44298fc1c149afbf4c8996fb92427ae41e4649b934ca495991b7852b855");
    assert_eq!(to_hex(&[0, 15, 255]), "000fff");
}

fn attempt(id: &str, result: Result<&str, &str>) -> FileUpload {
    FileUpload {
        doc_id: id.to_string(),
        path: format!("/{id}.pdf"),
        result: result.map(str::to_string).map_err(str::to_string),
    }
}

#[test]
fn attempts_split_into_handles_and_errors() {
    let out = split_uploads(vec![attempt("a", Ok("h1")), attempt("b", Err("bad")), attempt("c", Ok("h2"))]);
    assert_eq!(out.handles, vec!["h1".to_string(), "h2".to_string()]);
    assert_eq!(out.errors.len(), 1);
    assert_eq!(out.errors[0].path.as_deref(), Some("/b.pdf"));
    let r = finished_upload(3, vec![attempt("a", Ok("h1")), attempt("b", Err("bad"))], Some(true));
    assert_eq!((r.total, r.uploaded, r.errors.len()), (3, 1, 1));
    assert_eq!(r.render(), "Uploaded and processed 1 file.");
}

#[test]
fn waiting_is_asked_only_of_people() {
    assert!(matches!(wait_step(true, false, 0), WaitStep::Wait));
    assert!(matches!(wait_step(false, true, 2), WaitStep::Ask(q) if q == "Wait for processing of 2 uploaded files? "));
    assert!(matches!(wait_step(false, true, 0), WaitStep::Skip));
    assert!(matches!(wait_step(false, false, 3), WaitStep::Skip));
}

#[test]
fn paths_join_and_display() {
    assert_eq!(join_path("/a", "b"), "/a/b");
    assert_eq!(join_path("/a/", "b"), "/a/b");
    assert_eq!(join_path("/a", "/b"), "/b");
    assert_eq!(join_path("", "b"), "b");
    assert_eq!(display_path("/home/u/x/y.txt", Some("/home/u")), "x/y.txt");
    assert_eq!(display_path("y.txt", None), "y.txt");
    assert_eq!(display_path("/other/y.txt", Some("/home/u")), "/other/y.txt");
    assert_eq!(display_path("/home//u/./x", Some("/home/u")), "x");
}

#[test]
fn upload_confirmation_gives_count_size_and_dataset() {
    assert_eq!(upload_prompt(1, 500, "docs"), "Upload 1 file (500 B) to 'docs' dataset? ");
    assert_eq!(upload_prompt(3, 1_500_000, "docs"), "Upload 3 files (1.5 MB) to 'docs' dataset? ");
    assert_eq!(effective_concurrency(0), 1);
    assert_eq!(effective_concurrency(32), 32);
}

#[test]
fn progress_counts_each_finished_upload() {
    use_counts();
}

fn use_counts() {
    let mut c = topk_cli::commands::upload::progress::UploadCounts::new(3);
    assert_eq!(c.record(true), "1/3 uploaded");
    assert_eq!(c.record(false), "1/3 uploaded, 1 failed");
    assert_eq!((c.completed, c.failed), (2, 1));
    assert_eq!(
        topk_cli::commands::upload::progress::processed_message(2, 5),
        "2/5 processed — press Enter to skip"
    );
}

#[test]
fn resolution_errors_pass_through_the_plan() {
    let failed: Result<Vec<UploadFile>, String> = Err("bad glob".to_string());
    assert!(matches!(build_from("/w", "[", false, failed, false), Err(e) if e == "bad glob"));
    let empty: Result<Vec<UploadFile>, String> = Ok(vec![]);
    assert!(matches!(
        build_from("/w", "docs", false, empty, true),
        Ok(PlanOutcome::NoFiles { message }) if message.starts_with("No files found for upload in ")
    ));
    let one: Result<Vec<UploadFile>, String> = Ok(vec![file("/w/a.md", "1", 7)]);
    assert!(matches!(
        build_from("/w", "/w/a.md", false, one, false),
        Ok(PlanOutcome::Files { totals, .. }) if totals.count == 1 && totals.size == 7
    ));
}
