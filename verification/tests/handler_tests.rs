use rag_pipeline::batch_handler::{
    aggregate, batch_handler, report_document, summarize, BatchRequest,
};
use rag_pipeline::benchmark::{metrics_of, BenchmarkTracker};
use rag_pipeline::handler::{aggregate_uploads, report_upload, report_uploads, request_handler};
use rag_pipeline::pipeline::{
    ExtractionResult, Extractor, PipelineBenchmarks, PipelineResult,
};
use rag_pipeline::uploader::UploadedFile;
use std::collections::HashMap;

struct Stub;

impl Extractor for Stub {
    fn extract(&self, file_path: &str) -> Result<ExtractionResult, String> {
        if file_path.contains("bad") {
            return Err("unreadable file".to_string());
        }
        Ok(ExtractionResult { text: "x".repeat(2000), metadata: HashMap::new() })
    }
}

fn done(name: &str, chunks: usize, parse_us: u128, chunk_us: u128) -> Result<PipelineResult, String> {
    Ok(PipelineResult {
        filename: name.to_string(),
        chunks: vec!["c".to_string(); chunks],
        metadata: HashMap::new(),
        benchmarks: PipelineBenchmarks { parse_us, chunk_us, total_us: parse_us + chunk_us },
    })
}

fn names(items: &[&str]) -> Vec<String> {
    items.iter().map(|n| n.to_string()).collect()
}

fn stored(name: &str, size: usize) -> UploadedFile {
    UploadedFile { file_path: format!("./uploads/{}", name), file_name: name.to_string(), size }
}

#[test]
fn report_of_a_success() {
    let entry = report_document(&names(&["in/a.pdf"]), 0, &done("a.pdf", 3, 1500, 250));
    assert_eq!(entry.filename, "a.pdf");
    assert!(entry.success);
    assert_eq!(entry.chunks_count, Some(3));
    assert_eq!(entry.error, None);
    assert_eq!(entry.parse_us, Some(1500));
    assert_eq!(entry.chunk_us, Some(250));
}

#[test]
fn report_of_a_failure() {
    let paths = names(&["in/a.pdf", "in/deep/b.pdf"]);
    let entry = report_document(&paths, 1, &Err("extraction failed: boom".to_string()));
    assert_eq!(entry.filename, "b.pdf");
    assert!(!entry.success);
    assert_eq!(entry.chunks_count, None);
    assert_eq!(entry.error, Some("extraction failed: boom".to_string()));
    assert_eq!(entry.parse_us, None);
    assert_eq!(entry.chunk_us, None);
}

#[test]
fn report_of_a_failure_without_a_final_component() {
    let entry = report_document(&names(&["docs/.."]), 0, &Err("boom".to_string()));
    assert_eq!(entry.filename, "docs/..");
}

#[test]
fn report_of_a_failure_without_a_path() {
    let entry = report_document(&names(&["a.pdf"]), 3, &Err("boom".to_string()));
    assert_eq!(entry.filename, "unknown");
    assert!(!entry.success);
    assert_eq!(entry.error, Some("boom".to_string()));
}

#[test]
fn summarize_counts_successes_and_failures() {
    let outcomes = vec![done("a", 1, 1, 1), Err("e".to_string()), done("c", 2, 1, 1), Err("f".to_string())];
    let paths = names(&["in/a", "in/b", "in/c", "in/d"]);
    let (entries, successful, failed) = summarize(&paths, &outcomes);
    assert_eq!(entries.len(), 4);
    assert_eq!(successful, 2);
    assert_eq!(failed, 2);
    assert_eq!(entries[0].filename, "a");
    assert_eq!(entries[1].filename, "b");
    assert_eq!(entries[3].filename, "d");
    assert_eq!(entries[2].filename, "c");
    assert_eq!(entries[3].error, Some("f".to_string()));
}

#[test]
fn summarize_of_nothing() {
    let (entries, successful, failed) = summarize(&[], &[]);
    assert!(entries.is_empty());
    assert_eq!((successful, failed), (0, 0));
}

#[test]
fn batch_of_three_with_one_failure() {
    for parallel in [false, true] {
        let request = BatchRequest {
            file_paths: vec!["in/a.pdf".to_string(), "in/bad.pdf".to_string(), "in/c.pdf".to_string()],
            parallel,
        };
        let response = batch_handler(&request, &Stub);
        assert!(response.success);
        assert_eq!(response.results.len(), 3);
        assert_eq!(response.results[0].filename, "a.pdf");
        assert!(response.results[0].success);
        assert_eq!(response.results[0].chunks_count, Some(3));
        assert!(!response.results[1].success);
        assert_eq!(response.results[1].filename, "bad.pdf");
        assert_eq!(response.results[1].chunks_count, None);
        assert_eq!(
            response.results[1].error,
            Some("extraction failed: unreadable file".to_string())
        );
        assert_eq!(response.results[2].filename, "c.pdf");
        assert_eq!(response.summary.total_documents, 3);
        assert_eq!(response.summary.successful, 2);
        assert_eq!(response.summary.failed, 1);
        assert_eq!(response.summary.parallel, parallel);
        assert!(response.summary.rayon_threads >= 1);
    }
}

#[test]
fn empty_batch_reports_nothing() {
    let request = BatchRequest { file_paths: Vec::new(), parallel: false };
    let response = batch_handler(&request, &Stub);
    assert!(response.success);
    assert!(response.results.is_empty());
    assert_eq!(response.summary.total_documents, 0);
    assert_eq!(response.summary.successful, 0);
    assert_eq!(response.summary.failed, 0);
}

#[test]
fn upload_report_of_a_success() {
    let files = vec![stored("a.pdf", 10), stored("b.pdf", 20)];
    let entry = report_upload(&files, 1, &done("b.pdf", 4, 1500, 250));
    assert_eq!(entry.filename, "b.pdf");
    assert!(entry.success);
    assert_eq!(entry.size, 20);
    assert_eq!(entry.chunks_count, Some(4));
    assert_eq!(entry.total_us, Some(1750));
}

#[test]
fn upload_report_total_stops_at_the_largest_number() {
    let files = vec![stored("a.pdf", 10)];
    let entry = report_upload(&files, 0, &done("a.pdf", 1, u128::MAX - 1, 0));
    assert_eq!(entry.total_us, Some(u128::MAX - 1));
    let outcome = Ok(PipelineResult {
        filename: "a.pdf".to_string(),
        chunks: Vec::new(),
        metadata: HashMap::new(),
        benchmarks: PipelineBenchmarks { parse_us: u128::MAX, chunk_us: 5, total_us: 0 },
    });
    assert_eq!(report_upload(&files, 0, &outcome).total_us, Some(u128::MAX));
}

#[test]
fn upload_report_of_a_failure() {
    let files = vec![stored("a.pdf", 10)];
    let entry = report_upload(&files, 0, &Err("boom".to_string()));
    assert_eq!(entry.filename, "a.pdf");
    assert!(!entry.success);
    assert_eq!(entry.size, 10);
    assert_eq!(entry.error, Some("boom".to_string()));
    assert_eq!(entry.total_us, None);
}

#[test]
fn upload_report_of_a_failure_without_a_file() {
    let files = vec![stored("a.pdf", 10)];
    let entry = report_upload(&files, 5, &Err("boom".to_string()));
    assert_eq!(entry.filename, "unknown");
    assert_eq!(entry.size, 0);
}

#[test]
fn upload_reports_count_successes() {
    let files = vec![stored("a.pdf", 1), stored("b.pdf", 2), stored("c.pdf", 3)];
    let outcomes = vec![done("a.pdf", 1, 1, 1), Err("e".to_string()), done("c.pdf", 1, 1, 1)];
    let (entries, successful) = report_uploads(&files, &outcomes);
    assert_eq!(entries.len(), 3);
    assert_eq!(successful, 2);
    assert_eq!(entries[1].filename, "b.pdf");
    assert_eq!(entries[2].size, 3);
}

#[test]
fn upload_request_with_one_file() {
    let files = vec![stored("a.pdf", 2000)];
    let mut tracker = BenchmarkTracker::new();
    let response = request_handler(&mut tracker, &files, 900, &Stub);
    assert!(response.success);
    assert_eq!(response.results.len(), 1);
    assert_eq!(response.results[0].filename, "a.pdf");
    assert_eq!(response.results[0].size, 2000);
    assert_eq!(response.results[0].chunks_count, Some(3));
    assert_eq!(response.summary.total_files, 1);
    assert_eq!(response.summary.successful, 1);
    assert_eq!(response.summary.failed, 0);
    assert_eq!(response.summary.upload_us, 900);
}

#[test]
fn upload_request_with_a_failing_file() {
    let files = vec![stored("a.pdf", 1), stored("bad.pdf", 2), stored("c.pdf", 3)];
    let mut tracker = BenchmarkTracker::new();
    let before = tracker.elapsed_micros();
    let response = request_handler(&mut tracker, &files, 0, &Stub);
    assert!(response.summary.total_us >= before);
    assert!(tracker.elapsed_micros() >= response.summary.total_us);
    assert_eq!(response.results.len(), 3);
    assert!(response.results[0].success);
    assert!(!response.results[1].success);
    assert_eq!(response.results[1].filename, "bad.pdf");
    assert_eq!(response.results[1].size, 2);
    assert!(response.results[2].success);
    assert_eq!(response.summary.successful, 2);
    assert_eq!(response.summary.failed, 1);
    assert!(response.resources.rayon_threads >= 1);
}

#[test]
fn aggregate_merges_counts_times_and_resources() {
    let outcomes = vec![done("a", 2, 10, 20), Err("e".to_string()), done("c", 5, 30, 40)];
    let resources = metrics_of(100, 4_194_404, 8_000_000, 8, 7);
    let paths = names(&["x/a", "x/b", "x/c"]);
    let response = aggregate(&paths, &outcomes, true, 123_456, &resources);
    assert!(response.success);
    assert_eq!(response.results.len(), 3);
    assert_eq!(response.results[1].filename, "b");
    assert_eq!(response.results[2].chunks_count, Some(5));
    assert_eq!(response.summary.total_documents, 3);
    assert_eq!(response.summary.successful, 2);
    assert_eq!(response.summary.failed, 1);
    assert_eq!(response.summary.total_us, 123_456);
    assert!(response.summary.parallel);
    assert_eq!(response.summary.memory_used, 4_194_304);
    assert_eq!(response.summary.cpu_count, 8);
    assert_eq!(response.summary.rayon_threads, 7);
}

#[test]
fn aggregate_of_an_empty_batch() {
    let resources = metrics_of(0, 0, 0, 1, 1);
    let response = aggregate(&[], &[], false, 0, &resources);
    assert!(response.success);
    assert!(response.results.is_empty());
    assert_eq!(response.summary.total_documents, 0);
    assert_eq!(response.summary.successful, 0);
    assert_eq!(response.summary.failed, 0);
    assert!(!response.summary.parallel);
}

#[test]
fn aggregate_uploads_merges_counts_times_and_resources() {
    let files = vec![stored("a.pdf", 1), stored("b.pdf", 2)];
    let outcomes = vec![Err("e".to_string()), done("b.pdf", 3, 7, 8)];
    let response = aggregate_uploads(&files, &outcomes, 50, 500, metrics_of(10, 30, 100, 2, 1));
    assert!(response.success);
    assert_eq!(response.results.len(), 2);
    assert_eq!(response.results[0].filename, "a.pdf");
    assert_eq!(response.results[1].total_us, Some(15));
    assert_eq!(response.summary.total_files, 2);
    assert_eq!(response.summary.successful, 1);
    assert_eq!(response.summary.failed, 1);
    assert_eq!(response.summary.total_us, 500);
    assert_eq!(response.summary.upload_us, 50);
    assert_eq!(response.resources.memory_used, 20);
    assert_eq!(response.resources.total_memory, 100);
}
