use topk_cli::commands::upload::result::{Totals, UploadError, UploadOutcome, UploadResult};
use topk_cli::files::{MimeType, UploadFile};

fn totals() -> Totals {
    Totals {
        count: 2,
        size: 1024,
    }
}

#[test]
fn render_no_files() {
    let r = UploadResult(UploadOutcome::NoFiles {
        message: "nothing here".to_string(),
    });
    assert_eq!(r.render(), "nothing here".to_string());
}

#[test]
fn render_skipped() {
    let r = UploadResult(UploadOutcome::Skipped { totals: totals() });
    assert_eq!(r.render(), "Upload skipped.".to_string());
}

#[test]
fn render_dry_run_lists_doc_ids() {
    let r = UploadResult(UploadOutcome::DryRun {
        totals: totals(),
        files: vec![UploadFile {
            path: "docs/spec.pdf".to_string(),
            doc_id: "doc-123".to_string(),
            size: 42,
            mime_type: MimeType::ApplicationPdf,
        }],
    });
    let rendered: String = r.render();
    assert!(rendered.contains("Dry run: upload 2 files (1.0 KB):"));
    assert!(rendered.contains("doc-123"));
}

#[test]
fn render_uploaded_processed() {
    let r = UploadResult(UploadOutcome::Uploaded {
        totals: totals(),
        uploaded: 1,
        errors: vec![],
        processed: Some(true),
    });
    assert_eq!(r.render(), "Uploaded and processed 1 file.".to_string());
}

#[test]
fn render_uploaded_processing_skipped() {
    let r = UploadResult(UploadOutcome::Uploaded {
        totals: totals(),
        uploaded: 2,
        errors: vec![],
        processed: Some(false),
    });
    assert_eq!(
        r.render(),
        "Uploaded 2 files; processing skipped.".to_string()
    );
}

#[test]
fn render_uploaded_without_wait_is_silent() {
    let r = UploadResult(UploadOutcome::Uploaded {
        totals: totals(),
        uploaded: 3,
        errors: vec![UploadError {
            doc_id: "d".to_string(),
            path: None,
            error: "boom".to_string(),
        }],
        processed: None,
    });
    assert_eq!(r.render(), String::new());
}

#[test]
fn render_dry_run_exact_text_with_small_size() {
    let r = UploadResult(UploadOutcome::DryRun {
        totals: Totals { count: 1, size: 42 },
        files: vec![UploadFile {
            path: "a.md".to_string(),
            doc_id: "abc".to_string(),
            size: 42,
            mime_type: MimeType::TextMarkdown,
        }],
    });
    assert_eq!(r.render(), "Dry run: upload 1 file (42 B):\n  abc\n");
}

#[test]
fn render_uploaded_counts_large_numbers() {
    let r = UploadResult(UploadOutcome::Uploaded {
        totals: Totals { count: 1234, size: 5 },
        uploaded: 1234,
        errors: vec![],
        processed: Some(true),
    });
    assert_eq!(r.render(), "Uploaded and processed 1234 files.");
}
