//! Batches: a list of documents processed under one call, and its summary.

use crate::benchmark::{BenchmarkTracker, ResourceMetrics};
use crate::paths::{display_name, display_name_of};
use crate::pipeline::{default_config, processed, Extractor, PipelineConfig, PipelineResult, RagPipeline};
use vstd::prelude::*;
use vstd::string::*;

verus! {

/// A batch to process: the documents' paths, and whether to process them on
/// the worker pool.
pub struct BatchRequest {
    pub file_paths: Vec<String>,
    pub parallel: bool,
}

/// What a batch came to: one entry per document, in the order of the
/// request, and the summary.
pub struct BatchResponse {
    pub success: bool,
    pub results: Vec<DocumentResult>,
    pub summary: BatchSummary,
}

/// How one document of a batch fared. Times are in microseconds.
pub struct DocumentResult {
    pub filename: String,
    pub success: bool,
    pub chunks_count: Option<usize>,
    pub error: Option<String>,
    pub parse_us: Option<u128>,
    pub chunk_us: Option<u128>,
}

/// The counts and resources of a whole batch. `total_us` is the wall-clock
/// time of the batch in microseconds, `memory_used` is in bytes.
pub struct BatchSummary {
    pub total_documents: usize,
    pub successful: usize,
    pub failed: usize,
    pub total_us: u128,
    pub parallel: bool,
    pub memory_used: u64,
    pub cpu_count: usize,
    pub rayon_threads: usize,
}

/// The name that a failed document is listed under where there is no path
/// to take its name from.
pub open spec fn unknown_name() -> Seq<char> {
    "unknown"@
}

/// The path at index `i`, if there is one.
pub open spec fn path_at(file_paths: Seq<String>, i: int) -> Option<Seq<char>> {
    if 0 <= i < file_paths.len() {
        Some(file_paths[i]@)
    } else {
        None
    }
}

/// The name that a failed document is listed under: the display name of
/// its path, and "unknown" only where there is no path.
pub open spec fn failed_name(file_path: Option<Seq<char>>) -> Seq<char> {
    match file_path {
        Some(path) => display_name(path),
        None => unknown_name(),
    }
}

/// `entry` reports `outcome` for the document at `file_path`: a success
/// with the document's name, chunk count and stage times, or a failure
/// with the display name of the path, the message and nothing else.
pub open spec fn reports(
    file_path: Option<Seq<char>>,
    outcome: Result<PipelineResult, String>,
    entry: DocumentResult,
) -> bool {
    match outcome {
        Ok(doc) => {
            &&& entry.filename@ == doc.filename@
            &&& entry.success
            &&& entry.chunks_count == Some(doc.chunks.len())
            &&& entry.error is None
            &&& entry.parse_us == Some(doc.benchmarks.parse_us)
            &&& entry.chunk_us == Some(doc.benchmarks.chunk_us)
        },
        Err(message) => {
            &&& entry.filename@ == failed_name(file_path)
            &&& !entry.success
            &&& entry.chunks_count is None
            &&& entry.error is Some
            &&& entry.error->Some_0@ == message@
            &&& entry.parse_us is None
            &&& entry.chunk_us is None
        },
    }
}

/// The number of documents that succeeded.
pub open spec fn successes(outcomes: Seq<Result<PipelineResult, String>>) -> nat
    decreases outcomes.len(),
{
    if outcomes.len() == 0 {
        0
    } else {
        successes(outcomes.drop_last()) + if outcomes.last() is Ok {
            1nat
        } else {
            0nat
        }
    }
}

/// The number of entries that report a success.
pub open spec fn successful_entries(entries: Seq<DocumentResult>) -> nat
    decreases entries.len(),
{
    if entries.len() == 0 {
        0
    } else {
        successful_entries(entries.drop_last()) + if entries.last().success {
            1nat
        } else {
            0nat
        }
    }
}

/// `entry` reports what the pipeline owes for the document at `file_path`.
pub open spec fn reported(config: PipelineConfig, file_path: Seq<char>, entry: DocumentResult) -> bool {
    exists|outcome: Result<PipelineResult, String>|
        processed(config, file_path, outcome) && reports(Some(file_path), outcome, entry)
}

/// `entries` holds, at each index, the report of what the pipeline owes for
/// the path at that index.
pub open spec fn batch_reported(
    config: PipelineConfig,
    file_paths: Seq<String>,
    entries: Seq<DocumentResult>,
) -> bool {
    &&& entries.len() == file_paths.len()
    &&& forall|i: int|
        0 <= i < file_paths.len() ==> reported(config, file_paths[i]@, #[trigger] entries[i])
}

/// No more documents succeed than there are.
pub proof fn lemma_successes_bounded(outcomes: Seq<Result<PipelineResult, String>>)
    ensures
        successes(outcomes) <= outcomes.len(),
    decreases outcomes.len(),
{
    if outcomes.len() > 0 {
        lemma_successes_bounded(outcomes.drop_last());
    }
}

/// The report of the document at index `i` of a batch.
pub fn report_document(
    file_paths: &[String],
    i: usize,
    outcome: &Result<PipelineResult, String>,
) -> (entry: DocumentResult)
    ensures
        reports(path_at(file_paths@, i as int), *outcome, entry),
{
    match outcome {
        Ok(doc) => DocumentResult {
            filename: doc.filename.clone(),
            success: true,
            chunks_count: Some(doc.chunks.len()),
            error: None,
            parse_us: Some(doc.benchmarks.parse_us),
            chunk_us: Some(doc.benchmarks.chunk_us),
        },
        Err(message) => {
            let filename = if i < file_paths.len() {
                display_name_of(file_paths[i].as_str())
            } else {
                "unknown".to_owned()
            };
            DocumentResult {
                filename,
                success: false,
                chunks_count: None,
                error: Some(message.clone()),
                parse_us: None,
                chunk_us: None,
            }
        },
    }
}

/// Reports every document of a finished batch, in order, and counts the
/// successes and the failures. `outcomes` holds, at each index, how the
/// document at that index of `file_paths` fared.
pub fn summarize(file_paths: &[String], outcomes: &[Result<PipelineResult, String>]) -> (report: (
    Vec<DocumentResult>,
    usize,
    usize,
))
    ensures
        report.0.len() == outcomes.len(),
        forall|i: int|
            0 <= i < outcomes.len() ==> reports(
                path_at(file_paths@, i),
                outcomes[i],
                #[trigger] report.0[i],
            ),
        report.1 == successes(outcomes@),
        report.1 == successful_entries(report.0@),
        report.1 + report.2 == outcomes.len(),
{
    let mut entries: Vec<DocumentResult> = Vec::new();
    let mut successful: usize = 0;
    let mut failed: usize = 0;
    let mut i: usize = 0;
    while i < outcomes.len()
        invariant
            i <= outcomes.len(),
            entries.len() == i,
            forall|j: int|
                0 <= j < i ==> reports(path_at(file_paths@, j), outcomes[j], #[trigger] entries[j]),
            successful == successes(outcomes@.take(i as int)),
            successful == successful_entries(entries@),
            successful + failed == i,
        decreases outcomes.len() - i,
    {
        let entry = report_document(file_paths, i, &outcomes[i]);
        let ghost before = entries@;
        proof {
            assert(outcomes@.take(i + 1).drop_last() =~= outcomes@.take(i as int));
            assert(outcomes@.take(i + 1).last() == outcomes[i as int]);
            assert(before.push(entry).drop_last() =~= before);
        }
        match &outcomes[i] {
            Ok(_) => {
                successful = successful + 1;
            },
            Err(_) => {
                failed = failed + 1;
            },
        }
        entries.push(entry);
        i = i + 1;
    }
    assert(outcomes@.take(i as int) =~= outcomes@);
    (entries, successful, failed)
}

/// Merges a finished batch into its response: the report of every
/// document, in order, the counts, the wall-clock time of the whole batch
/// and the resources sampled once for all of it. `outcomes` holds, at each
/// index, how the document at that index of `file_paths` fared.
pub fn aggregate(
    file_paths: &[String],
    outcomes: &[Result<PipelineResult, String>],
    parallel: bool,
    total_us: u128,
    resources: &ResourceMetrics,
) -> (response: BatchResponse)
    ensures
        response.success,
        response.results.len() == outcomes.len(),
        forall|i: int|
            0 <= i < outcomes.len() ==> reports(
                path_at(file_paths@, i),
                outcomes[i],
                #[trigger] response.results[i],
            ),
        response.summary.total_documents == outcomes.len(),
        response.summary.successful == successes(outcomes@),
        response.summary.successful == successful_entries(response.results@),
        response.summary.failed == outcomes.len() - successes(outcomes@),
        response.summary.total_us == total_us,
        response.summary.parallel == parallel,
        response.summary.memory_used == resources.memory_used,
        response.summary.cpu_count == resources.cpu_count,
        response.summary.rayon_threads == resources.rayon_threads,
{
    let (results, successful, failed) = summarize(file_paths, outcomes);
    BatchResponse {
        success: true,
        results,
        summary: BatchSummary {
            total_documents: outcomes.len(),
            successful,
            failed,
            total_us,
            parallel,
            memory_used: resources.memory_used,
            cpu_count: resources.cpu_count,
            rayon_threads: resources.rayon_threads,
        },
    }
}

/// Processes a batch with the default pipeline, on the worker pool or one
/// document after the other as the request says, and summarizes it. Every
/// document of the request is reported once, in the request's order,
/// whether it succeeded or failed. The resources are sampled once, after
/// the last document is done. A request without paths is answered with an
/// empty report and counts of zero.
pub fn batch_handler<E: Extractor + Sync>(payload: &BatchRequest, extractor: &E) -> (response:
    BatchResponse)
    ensures
        response.success,
        batch_reported(default_config(), payload.file_paths@, response.results@),
        response.summary.total_documents == payload.file_paths.len(),
        response.summary.successful == successful_entries(response.results@),
        response.summary.successful + response.summary.failed == payload.file_paths.len(),
        response.summary.parallel == payload.parallel,
        response.summary.rayon_threads >= 1,
{
    let mut tracker = BenchmarkTracker::new();
    let pipeline = RagPipeline::with_defaults();
    let outcomes = if payload.parallel {
        pipeline.process_documents_parallel(extractor, payload.file_paths.as_slice())
    } else {
        pipeline.process_documents_sequential(extractor, payload.file_paths.as_slice())
    };
    let resources = tracker.get_resources();
    let total_us = tracker.elapsed_micros();
    let response = aggregate(
        payload.file_paths.as_slice(),
        outcomes.as_slice(),
        payload.parallel,
        total_us,
        &resources,
    );
    proof {
        lemma_successes_bounded(outcomes@);
        assert forall|i: int| 0 <= i < payload.file_paths.len() implies reported(
            default_config(),
            payload.file_paths[i]@,
            #[trigger] response.results@[i],
        ) by {
            assert(path_at(payload.file_paths@, i) == Some(payload.file_paths[i]@));
            assert(processed(default_config(), payload.file_paths[i]@, outcomes@[i]) && reports(
                Some(payload.file_paths[i]@),
                outcomes@[i],
                response.results@[i],
            ));
        }
    }
    response
}

} // verus!
