//! Uploads: the documents of one upload request processed, each reported
//! with the file it came from, and the summary of the request.

use crate::benchmark::{BenchmarkTracker, ResourceMetrics};
use crate::pipeline::{
    default_config,
    processed,
    processed_all,
    Extractor,
    PipelineConfig,
    PipelineResult,
    RagPipeline,
};
use crate::uploader::UploadedFile;
use vstd::prelude::*;
use vstd::string::*;

verus! {

/// How one uploaded document fared. Times are in microseconds.
pub struct DocumentResult {
    pub filename: String,
    pub success: bool,
    pub size: usize,
    pub chunks_count: Option<usize>,
    pub error: Option<String>,
    pub parse_us: Option<u128>,
    pub chunk_us: Option<u128>,
    pub total_us: Option<u128>,
}

/// The counts and times of an upload request, in microseconds: `total_us`
/// for the whole request, `upload_us` for storing the files.
pub struct UploadSummary {
    pub total_files: usize,
    pub successful: usize,
    pub failed: usize,
    pub total_us: u128,
    pub upload_us: u128,
}

/// What an upload request came to: one entry per stored file, in the order
/// of the files, the summary, and the resources the request used.
pub struct UploadResponse {
    pub success: bool,
    pub results: Vec<DocumentResult>,
    pub summary: UploadSummary,
    pub resources: ResourceMetrics,
}

/// The name that a failed document without a file is listed under.
pub open spec fn unknown_name() -> Seq<char> {
    "unknown"@
}

/// The time both stages took together; it stops at the largest number.
pub open spec fn stage_total(parse_us: u128, chunk_us: u128) -> u128 {
    if parse_us + chunk_us > u128::MAX {
        u128::MAX
    } else {
        (parse_us + chunk_us) as u128
    }
}

/// `entry` reports `outcome` for the stored file `file`: a success under
/// the document's name, with the file's size, the chunk count and the
/// stage times; a failure under the file's name, with its size and the
/// message. A failure that no file stands for is listed as unknown, with
/// size zero.
pub open spec fn reports_upload(
    file: Option<UploadedFile>,
    outcome: Result<PipelineResult, String>,
    entry: DocumentResult,
) -> bool {
    match outcome {
        Ok(doc) => {
            &&& file is Some
            &&& entry.filename@ == doc.filename@
            &&& entry.success
            &&& entry.size == file->Some_0.size
            &&& entry.chunks_count == Some(doc.chunks.len())
            &&& entry.error is None
            &&& entry.parse_us == Some(doc.benchmarks.parse_us)
            &&& entry.chunk_us == Some(doc.benchmarks.chunk_us)
            &&& entry.total_us == Some(
                stage_total(doc.benchmarks.parse_us, doc.benchmarks.chunk_us),
            )
        },
        Err(message) => {
            &&& entry.filename@ == match file {
                Some(f) => f.file_name@,
                None => unknown_name(),
            }
            &&& !entry.success
            &&& entry.size == match file {
                Some(f) => f.size,
                None => 0,
            }
            &&& entry.chunks_count is None
            &&& entry.error is Some
            &&& entry.error->Some_0@ == message@
            &&& entry.parse_us is None
            &&& entry.chunk_us is None
            &&& entry.total_us is None
        },
    }
}

/// The file at index `i`, if there is one.
pub open spec fn file_at(files: Seq<UploadedFile>, i: int) -> Option<UploadedFile> {
    if 0 <= i < files.len() {
        Some(files[i])
    } else {
        None
    }
}

/// The number of entries that report a success.
pub open spec fn successful_entries(entries: Seq<DocumentResult>) -> nat
    decreases entries.len(),
{
    if entries.len() == 0 {
        0
    } else {
        successful_entries(entries.drop_last()) + if entries.last().success {
            1nat
        } else {
            0nat
        }
    }
}

/// `entry` reports, for the stored file `file`, what the pipeline owes for
/// the document at the file's path.
pub open spec fn upload_reported(config: PipelineConfig, file: UploadedFile, entry: DocumentResult) -> bool {
    exists|outcome: Result<PipelineResult, String>|
        processed(config, file.file_path@, outcome) && reports_upload(Some(file), outcome, entry)
}

/// `entries` holds, at each index, the report for the file at that index.
pub open spec fn uploads_reported(
    config: PipelineConfig,
    files: Seq<UploadedFile>,
    entries: Seq<DocumentResult>,
) -> bool {
    &&& entries.len() == files.len()
    &&& forall|i: int|
        0 <= i < files.len() ==> upload_reported(config, files[i], #[trigger] entries[i])
}

/// No more entries report a success than there are entries.
pub proof fn lemma_successful_entries_bounded(entries: Seq<DocumentResult>)
    ensures
        successful_entries(entries) <= entries.len(),
    decreases entries.len(),
{
    if entries.len() > 0 {
        lemma_successful_entries_bounded(entries.drop_last());
    }
}

/// The report of the document at index `i` of an upload.
pub fn report_upload(files: &[UploadedFile], i: usize, outcome: &Result<PipelineResult, String>) -> (entry:
    DocumentResult)
    requires
        *outcome is Ok ==> i < files.len(),
    ensures
        reports_upload(file_at(files@, i as int), *outcome, entry),
{
    match outcome {
        Ok(doc) => DocumentResult {
            filename: doc.filename.clone(),
            success: true,
            size: files[i].size,
            chunks_count: Some(doc.chunks.len()),
            error: None,
            parse_us: Some(doc.benchmarks.parse_us),
            chunk_us: Some(doc.benchmarks.chunk_us),
            total_us: Some(doc.benchmarks.parse_us.saturating_add(doc.benchmarks.chunk_us)),
        },
        Err(message) => {
            let (filename, size) = if i < files.len() {
                (files[i].file_name.clone(), files[i].size)
            } else {
                ("unknown".to_owned(), 0)
            };
            DocumentResult {
                filename,
                success: false,
                size,
                chunks_count: None,
                error: Some(message.clone()),
                parse_us: None,
                chunk_us: None,
                total_us: None,
            }
        },
    }
}

/// Reports every document of an upload, in order, and counts the
/// successes.
pub fn report_uploads(files: &[UploadedFile], outcomes: &[Result<PipelineResult, String>]) -> (report:
    (Vec<DocumentResult>, usize))
    requires
        forall|i: int| 0 <= i < outcomes.len() && outcomes[i] is Ok ==> i < files.len(),
    ensures
        report.0.len() == outcomes.len(),
        forall|i: int|
            0 <= i < outcomes.len() ==> reports_upload(
                file_at(files@, i),
                outcomes[i],
                #[trigger] report.0[i],
            ),
        report.1 == successful_entries(report.0@),
        report.1 <= outcomes.len(),
{
    let mut entries: Vec<DocumentResult> = Vec::new();
    let mut successful: usize = 0;
    let mut i: usize = 0;
    while i < outcomes.len()
        invariant
            i <= outcomes.len(),
            entries.len() == i,
            forall|j: int| 0 <= j < outcomes.len() && outcomes[j] is Ok ==> j < files.len(),
            forall|j: int|
                0 <= j < i ==> reports_upload(file_at(files@, j), outcomes[j], #[trigger] entries[j]),
            successful == successful_entries(entries@),
            successful <= i,
        decreases outcomes.len() - i,
    {
        let entry = report_upload(files, i, &outcomes[i]);
        let ghost before = entries@;
        proof {
            assert(before.push(entry).drop_last() =~= before);
        }
        if entry.success {
            successful = successful + 1;
        }
        entries.push(entry);
        i = i + 1;
    }
    (entries, successful)
}

/// The paths that the files were stored under, in order.
fn stored_paths(files: &[UploadedFile]) -> (paths: Vec<String>)
    ensures
        paths.len() == files.len(),
        forall|i: int| 0 <= i < files.len() ==> (#[trigger] paths[i])@ == files[i].file_path@,
{
    let mut paths: Vec<String> = Vec::new();
    let mut i: usize = 0;
    while i < files.len()
        invariant
            i <= files.len(),
            paths.len() == i,
            forall|j: int| 0 <= j < i ==> (#[trigger] paths[j])@ == files[j].file_path@,
        decreases files.len() - i,
    {
        paths.push(files[i].file_path.clone());
        i = i + 1;
    }
    paths
}

/// Merges a finished upload request into its response: the report of
/// every file, in order, the counts, the times and the resources.
pub fn aggregate_uploads(
    files: &[UploadedFile],
    outcomes: &[Result<PipelineResult, String>],
    upload_us: u128,
    total_us: u128,
    resources: ResourceMetrics,
) -> (response: UploadResponse)
    requires
        forall|i: int| 0 <= i < outcomes.len() && outcomes[i] is Ok ==> i < files.len(),
    ensures
        response.success,
        response.results.len() == outcomes.len(),
        forall|i: int|
            0 <= i < outcomes.len() ==> reports_upload(
                file_at(files@, i),
                outcomes[i],
                #[trigger] response.results[i],
            ),
        response.summary.total_files == files.len(),
        response.summary.successful == successful_entries(response.results@),
        response.summary.failed == outcomes.len() - successful_entries(response.results@),
        response.summary.total_us == total_us,
        response.summary.upload_us == upload_us,
        response.resources == resources,
{
    let (results, successful) = report_uploads(files, outcomes);
    let failed = results.len() - successful;
    UploadResponse {
        success: true,
        results,
        summary: UploadSummary {
            total_files: files.len(),
            successful,
            failed,
            total_us,
            upload_us,
        },
        resources,
    }
}

/// Processes the stored files of one upload request with the default
/// pipeline, on the worker pool where there is more than one, and
/// summarizes the request. `tracker` is the one that was started when the
/// request came in, before its files were stored: the total time and the
/// resources are read from it, so both cover the upload, and its baseline
/// and start stay as they were. `upload_us` is the time that storing the
/// files took. Every file is reported once, in the order of the files,
/// whether its document succeeded or failed.
pub fn request_handler<E: Extractor + Sync>(
    tracker: &mut BenchmarkTracker,
    uploaded_files: &[UploadedFile],
    upload_us: u128,
    extractor: &E,
) -> (response: UploadResponse)
    requires
        uploaded_files.len() > 0,
    ensures
        response.success,
        uploads_reported(default_config(), uploaded_files@, response.results@),
        response.summary.total_files == uploaded_files.len(),
        response.summary.successful == successful_entries(response.results@),
        response.summary.successful + response.summary.failed == uploaded_files.len(),
        response.summary.upload_us == upload_us,
        response.resources.cpu_count == old(tracker).cpu_count(),
        response.resources.rayon_threads == old(tracker).rayon_threads(),
        final(tracker).start_time() == old(tracker).start_time(),
        final(tracker).initial_memory() == old(tracker).initial_memory(),
        final(tracker).cpu_count() == old(tracker).cpu_count(),
        final(tracker).rayon_threads() == old(tracker).rayon_threads(),
{
    let pipeline = RagPipeline::with_defaults();
    let file_paths = stored_paths(uploaded_files);
    let outcomes = if file_paths.len() > 1 {
        pipeline.process_documents_parallel(extractor, file_paths.as_slice())
    } else {
        let mut single: Vec<Result<PipelineResult, String>> = Vec::new();
        single.push(pipeline.process_document(extractor, file_paths[0].as_str()));
        single
    };
    assert(processed_all(default_config(), file_paths@, outcomes@));
    let resources = tracker.get_resources();
    let total_us = tracker.elapsed_micros();
    let response = aggregate_uploads(
        uploaded_files,
        outcomes.as_slice(),
        upload_us,
        total_us,
        resources,
    );
    proof {
        lemma_successful_entries_bounded(response.results@);
        assert forall|i: int| 0 <= i < uploaded_files.len() implies upload_reported(
            default_config(),
            uploaded_files[i],
            #[trigger] response.results@[i],
        ) by {
            assert(file_paths[i]@ == uploaded_files[i].file_path@);
            assert(file_at(uploaded_files@, i) == Some(uploaded_files[i]));
            assert(processed(default_config(), uploaded_files[i].file_path@, outcomes@[i])
                && reports_upload(Some(uploaded_files[i]), outcomes@[i], response.results@[i]));
        }
    }
    response
}

} // verus!
