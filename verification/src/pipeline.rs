//! Processing of documents: extraction, then chunking, each stage timed,
//! for one document or for a batch whose documents fail independently.

use crate::chunker::{chunk_text, chunks_of, config_error_text, texts, valid_config};
use crate::clock::{micros_since, now};
use crate::paths::{display_name, display_name_of};
use rayon::iter::{IntoParallelRefIterator, ParallelIterator};
use std::collections::HashMap;
use std::time::Instant;
use vstd::prelude::*;
use vstd::string::*;

verus! {

/// How texts are chunked: the window's size and the overlap of adjacent
/// windows, in characters.
#[derive(Debug, Clone, Copy)]
pub struct PipelineConfig {
    pub chunk_size: usize,
    pub overlap: usize,
}

/// The configuration used where none is given: windows of 1024 characters
/// that overlap by 128.
pub open spec fn default_config() -> PipelineConfig {
    PipelineConfig { chunk_size: 1024, overlap: 128 }
}

impl Default for PipelineConfig {
    fn default() -> (config: Self)
        ensures
            config == default_config(),
    {
        Self { chunk_size: 1024, overlap: 128 }
    }
}

/// What an extractor found in a document.
#[derive(Debug)]
pub struct ExtractionResult {
    pub text: String,
    pub metadata: HashMap<String, Vec<String>>,
}

/// The text extraction that documents are handed to. It is free to succeed
/// or fail on any path: the pipeline promises its part for either outcome.
pub trait Extractor {
    fn extract(&self, file_path: &str) -> Result<ExtractionResult, String>;
}

/// A processed document.
#[derive(Debug)]
pub struct PipelineResult {
    pub filename: String,
    pub chunks: Vec<String>,
    pub metadata: HashMap<String, Vec<String>>,
    pub benchmarks: PipelineBenchmarks,
}

/// The time each stage took for one document, in microseconds.
#[derive(Debug)]
pub struct PipelineBenchmarks {
    pub parse_us: u128,
    pub chunk_us: u128,
    pub total_us: u128,
}

/// The pipeline: nothing but its configuration, which never changes.
pub struct RagPipeline {
    config: PipelineConfig,
}

/// The message of a document whose extraction failed with `cause`.
pub open spec fn extraction_failure(cause: Seq<char>) -> Seq<char> {
    "extraction failed: "@ + cause
}

/// The message of a document that could not be chunked under `config`.
pub open spec fn chunking_failure(config: PipelineConfig) -> Seq<char> {
    "chunking failed: "@ + config_error_text(config.chunk_size as nat, config.overlap as nat)
}

/// `outcome` is what the pipeline owes for the document at `file_path` once
/// its extraction has ended in `extraction`: the extractor's failure passed
/// on, a failure of its own where the configuration is invalid, and else
/// the document's name, the chunks of the extracted text and its metadata.
pub open spec fn chunked(
    config: PipelineConfig,
    file_path: Seq<char>,
    extraction: Result<ExtractionResult, String>,
    outcome: Result<PipelineResult, String>,
) -> bool {
    match extraction {
        Err(cause) => outcome is Err && outcome->Err_0@ == extraction_failure(cause@),
        Ok(extracted) => if valid_config(config.chunk_size as int, config.overlap as int) {
            &&& outcome is Ok
            &&& outcome->Ok_0.filename@ == display_name(file_path)
            &&& texts(outcome->Ok_0.chunks@) == chunks_of(
                extracted.text@,
                config.chunk_size as int,
                config.overlap as int,
            )
            &&& outcome->Ok_0.metadata == extracted.metadata
        } else {
            outcome is Err && outcome->Err_0@ == chunking_failure(config)
        },
    }
}

/// `outcome` is what the pipeline owes for the document at `file_path` for
/// some outcome of its extraction.
pub open spec fn processed(
    config: PipelineConfig,
    file_path: Seq<char>,
    outcome: Result<PipelineResult, String>,
) -> bool {
    exists|extraction: Result<ExtractionResult, String>|
        chunked(config, file_path, extraction, outcome)
}

/// `outcomes` holds, at each index, what the pipeline owes for the path at
/// that index.
pub open spec fn processed_all(
    config: PipelineConfig,
    file_paths: Seq<String>,
    outcomes: Seq<Result<PipelineResult, String>>,
) -> bool {
    &&& outcomes.len() == file_paths.len()
    &&& forall|i: int|
        0 <= i < file_paths.len() ==> processed(config, file_paths[i]@, #[trigger] outcomes[i])
}

/// Two outcomes agree in all but their timings: both failed with the same
/// message, or both succeeded with the same name, chunks and metadata.
pub open spec fn same_document(
    one: Result<PipelineResult, String>,
    other: Result<PipelineResult, String>,
) -> bool {
    match (one, other) {
        (Ok(a), Ok(b)) => {
            &&& a.filename@ == b.filename@
            &&& texts(a.chunks@) == texts(b.chunks@)
            &&& a.metadata == b.metadata
        },
        (Err(a), Err(b)) => a@ == b@,
        _ => false,
    }
}

/// `outcomes` holds, at each index, what the pipeline owes for the path at
/// that index once its extraction has ended as `extractions` says at that
/// index.
pub open spec fn chunked_all(
    config: PipelineConfig,
    file_paths: Seq<String>,
    extractions: Seq<Result<ExtractionResult, String>>,
    outcomes: Seq<Result<PipelineResult, String>>,
) -> bool {
    &&& extractions.len() == file_paths.len()
    &&& outcomes.len() == file_paths.len()
    &&& forall|i: int|
        0 <= i < file_paths.len() ==> chunked(
            config,
            file_paths[i]@,
            extractions[i],
            #[trigger] outcomes[i],
        )
}

/// Order preservation: where the extractions end the same way, a batch
/// processed on the worker pool and the same batch processed one document
/// after the other agree index by index, in all but the timings. Every
/// path has its outcome at its own index, in either mode.
pub proof fn lemma_order_preserved(
    config: PipelineConfig,
    file_paths: Seq<String>,
    extractions: Seq<Result<ExtractionResult, String>>,
    parallel: Seq<Result<PipelineResult, String>>,
    sequential: Seq<Result<PipelineResult, String>>,
)
    requires
        chunked_all(config, file_paths, extractions, parallel),
        chunked_all(config, file_paths, extractions, sequential),
    ensures
        parallel.len() == sequential.len(),
        processed_all(config, file_paths, parallel),
        processed_all(config, file_paths, sequential),
        forall|i: int|
            0 <= i < file_paths.len() ==> same_document(
                #[trigger] parallel[i],
                sequential[i],
            ),
{
    assert forall|i: int| 0 <= i < file_paths.len() implies same_document(
        #[trigger] parallel[i],
        sequential[i],
    ) by {
        assert(chunked(config, file_paths[i]@, extractions[i], parallel[i]));
        assert(chunked(config, file_paths[i]@, extractions[i], sequential[i]));
    }
    assert forall|i: int| 0 <= i < file_paths.len() implies processed(
        config,
        file_paths[i]@,
        #[trigger] parallel[i],
    ) by {
        assert(chunked(config, file_paths[i]@, extractions[i], parallel[i]));
    }
    assert forall|i: int| 0 <= i < file_paths.len() implies processed(
        config,
        file_paths[i]@,
        #[trigger] sequential[i],
    ) by {
        assert(chunked(config, file_paths[i]@, extractions[i], sequential[i]));
    }
}

/// Failure isolation: whether a document succeeds depends on its own
/// extraction and on the configuration alone. Under a valid configuration
/// a document succeeds exactly when its extraction did, whatever became of
/// the other documents of the batch.
pub proof fn lemma_failure_isolated(
    config: PipelineConfig,
    file_paths: Seq<String>,
    extractions: Seq<Result<ExtractionResult, String>>,
    outcomes: Seq<Result<PipelineResult, String>>,
    i: int,
)
    requires
        chunked_all(config, file_paths, extractions, outcomes),
        valid_config(config.chunk_size as int, config.overlap as int),
        0 <= i < file_paths.len(),
    ensures
        outcomes[i] is Ok <==> extractions[i] is Ok,
        outcomes[i] is Ok ==> texts(outcomes[i]->Ok_0.chunks@) == chunks_of(
            extractions[i]->Ok_0.text@,
            config.chunk_size as int,
            config.overlap as int,
        ),
        outcomes[i] is Err ==> outcomes[i]->Err_0@ == extraction_failure(
            extractions[i]->Err_0@,
        ),
{
    assert(chunked(config, file_paths[i]@, extractions[i], outcomes[i]));
}

/// Runs `process_document` on every path on rayon's worker pool, through
/// `par_iter`, `map` and `collect`. A parallel iterator over a slice is
/// indexed, and `collect` on it fills a vector in the order of the slice:
/// one outcome per path, each at the index of its path, whichever worker
/// finished first. Each outcome is one that `process_document` returned
/// for that path.
#[verifier::external_body]
fn process_on_workers<E: Extractor + Sync>(
    pipeline: &RagPipeline,
    extractor: &E,
    file_paths: &[String],
) -> (outcomes: Vec<Result<PipelineResult, String>>)
    ensures
        processed_all(pipeline.config(), file_paths@, outcomes@),
{
    file_paths.par_iter().map(|path| pipeline.process_document(extractor, path)).collect()
}

impl RagPipeline {
    /// The configuration that the pipeline was made with.
    pub closed spec fn config(&self) -> PipelineConfig {
        self.config
    }

    pub fn new(config: PipelineConfig) -> (pipeline: Self)
        ensures
            pipeline.config() == config,
    {
        Self { config }
    }

    /// A pipeline with windows of 1024 characters that overlap by 128.
    pub fn with_defaults() -> (pipeline: Self)
        ensures
            pipeline.config() == default_config(),
    {
        Self::new(PipelineConfig::default())
    }

    pub fn chunk_size(&self) -> (size: usize)
        ensures
            size == self.config().chunk_size,
    {
        self.config.chunk_size
    }

    pub fn overlap(&self) -> (overlap: usize)
        ensures
            overlap == self.config().overlap,
    {
        self.config.overlap
    }

    /// The second half of a document's processing: given how its extraction
    /// ended and the `parse_us` microseconds that took, chunks the text and
    /// assembles the result. `total_start` is when the document was begun.
    pub fn finish_document(
        &self,
        file_path: &str,
        extraction: Result<ExtractionResult, String>,
        parse_us: u128,
        total_start: &Instant,
    ) -> (outcome: Result<PipelineResult, String>)
        ensures
            chunked(self.config(), file_path@, extraction, outcome),
            outcome is Ok ==> outcome->Ok_0.benchmarks.parse_us == parse_us,
    {
        let filename = display_name_of(file_path);
        let extracted = match extraction {
            Ok(extracted) => extracted,
            Err(cause) => {
                let mut message = "extraction failed: ".to_owned();
                message.append(cause.as_str());
                return Err(message);
            },
        };
        let chunk_start = now();
        let chunks = match chunk_text(
            extracted.text.as_str(),
            self.config.chunk_size,
            self.config.overlap,
        ) {
            Ok(chunks) => chunks,
            Err(error) => {
                let mut message = "chunking failed: ".to_owned();
                let cause = error.message();
                message.append(cause.as_str());
                return Err(message);
            },
        };
        let chunk_us = micros_since(&chunk_start);
        let total_us = micros_since(total_start);
        Ok(
            PipelineResult {
                filename,
                chunks,
                metadata: extracted.metadata,
                benchmarks: PipelineBenchmarks { parse_us, chunk_us, total_us },
            },
        )
    }

    /// Processes one document: extracts its text with `extractor`, chunks
    /// it, and times both stages.
    pub fn process_document<E: Extractor>(&self, extractor: &E, file_path: &str) -> (outcome:
        Result<PipelineResult, String>)
        ensures
            processed(self.config(), file_path@, outcome),
    {
        let total_start = now();
        let parse_start = now();
        let extraction = extractor.extract(file_path);
        let parse_us = micros_since(&parse_start);
        let ghost handed = extraction;
        let outcome = self.finish_document(file_path, extraction, parse_us, &total_start);
        assert(chunked(self.config(), file_path@, handed, outcome));
        outcome
    }

    /// Processes the documents on the worker pool. The outcomes stand in the
    /// order of the paths, and a document that fails stops no other.
    pub fn process_documents_parallel<E: Extractor + Sync>(
        &self,
        extractor: &E,
        file_paths: &[String],
    ) -> (outcomes: Vec<Result<PipelineResult, String>>)
        ensures
            processed_all(self.config(), file_paths@, outcomes@),
    {
        process_on_workers(self, extractor, file_paths)
    }

    /// Processes the documents one after the other, in the order of the
    /// paths. A document that fails stops no other.
    pub fn process_documents_sequential<E: Extractor>(
        &self,
        extractor: &E,
        file_paths: &[String],
    ) -> (outcomes: Vec<Result<PipelineResult, String>>)
        ensures
            processed_all(self.config(), file_paths@, outcomes@),
    {
        let mut outcomes: Vec<Result<PipelineResult, String>> = Vec::new();
        let mut i: usize = 0;
        while i < file_paths.len()
            invariant
                i <= file_paths.len(),
                outcomes.len() == i,
                forall|j: int|
                    0 <= j < i ==> processed(self.config(), file_paths[j]@, #[trigger] outcomes[j]),
            decreases file_paths.len() - i,
        {
            let outcome = self.process_document(extractor, file_paths[i].as_str());
            outcomes.push(outcome);
            i = i + 1;
        }
        outcomes
    }
}

} // verus!
