use rag_pipeline::chunker::{chunk_text, ConfigError};

fn rejoin(chunks: &[String], overlap: usize) -> String {
    let mut text = String::new();
    for (i, chunk) in chunks.iter().enumerate() {
        if i == 0 {
            text.push_str(chunk);
        } else {
            let fresh: String = chunk.chars().skip(overlap).collect();
            text.push_str(&fresh);
        }
    }
    text
}

#[test]
fn windows_and_tail_of_ten_letters() {
    let chunks = chunk_text("abcdefghij", 4, 2).unwrap();
    assert_eq!(chunks, vec!["abcd", "cdef", "efgh", "ghij", "ij"]);
}

#[test]
fn empty_text_has_no_chunks() {
    let chunks = chunk_text("", 1024, 128).unwrap();
    assert!(chunks.is_empty());
}

#[test]
fn zero_chunk_size_is_rejected() {
    let err = chunk_text("some text", 0, 0).unwrap_err();
    assert_eq!(err, ConfigError { chunk_size: 0, overlap: 0 });
}

#[test]
fn overlap_equal_to_chunk_size_is_rejected() {
    let err = chunk_text("some text", 100, 100).unwrap_err();
    assert_eq!(err, ConfigError { chunk_size: 100, overlap: 100 });
}

#[test]
fn overlap_above_chunk_size_is_rejected() {
    let err = chunk_text("", 3, 7).unwrap_err();
    assert_eq!(err.chunk_size, 3);
    assert_eq!(err.overlap, 7);
}

#[test]
fn config_error_message() {
    let err = chunk_text("x", 0, 0).unwrap_err();
    assert_eq!(err.message(), "the overlap (0) must be less than the chunk size (0)");
    let err = chunk_text("x", 100, 2048).unwrap_err();
    assert_eq!(err.message(), "the overlap (2048) must be less than the chunk size (100)");
}

#[test]
fn without_overlap_chunks_partition_the_text() {
    let chunks = chunk_text("abcdefghij", 3, 0).unwrap();
    assert_eq!(chunks, vec!["abc", "def", "ghi", "j"]);
}

#[test]
fn text_shorter_than_window_is_one_chunk() {
    let chunks = chunk_text("abc", 1024, 128).unwrap();
    assert_eq!(chunks, vec!["abc"]);
}

#[test]
fn text_of_exactly_one_window() {
    let chunks = chunk_text("abcd", 4, 0).unwrap();
    assert_eq!(chunks, vec!["abcd"]);
}

#[test]
fn several_truncated_chunks_at_the_end() {
    let chunks = chunk_text("abcdefghij", 5, 3).unwrap();
    assert_eq!(chunks, vec!["abcde", "cdefg", "efghi", "ghij", "ij"]);
}

#[test]
fn chunk_count_is_length_over_stride_rounded_up() {
    let text: String = "x".repeat(1000);
    let chunks = chunk_text(&text, 100, 10).unwrap();
    assert_eq!(chunks.len(), 12);
    assert_eq!(chunks[0].len(), 100);
    assert_eq!(chunks[11].len(), 10);
}

#[test]
fn positions_count_characters() {
    let chunks = chunk_text("héllo wörld", 4, 1).unwrap();
    assert_eq!(chunks, vec!["héll", "lo w", "wörl", "ld"]);
}

#[test]
fn chunks_cover_the_text() {
    let text = "The quick brown fox jumps over the lazy dog";
    for (size, overlap) in [(4usize, 2usize), (5, 0), (7, 6), (1, 0), (50, 49), (10, 3)] {
        let chunks = chunk_text(text, size, overlap).unwrap();
        assert_eq!(rejoin(&chunks, overlap), text);
    }
}

#[test]
fn adjacent_chunks_start_one_stride_apart() {
    let text = "0123456789abcdefghijklmnopqrstuvwxyz";
    let (size, overlap) = (8usize, 3usize);
    let stride = size - overlap;
    let chunks = chunk_text(text, size, overlap).unwrap();
    for (i, chunk) in chunks.iter().enumerate() {
        let start = i * stride;
        let end = (start + size).min(text.len());
        assert_eq!(chunk, &text[start..end]);
    }
    for pair in chunks.windows(2) {
        if pair[0].len() == size && pair[1].len() >= overlap {
            assert_eq!(pair[0][stride..], pair[1][..overlap]);
        }
    }
}

#[test]
fn chunking_is_repeatable() {
    let text = "the same text, the same chunks";
    assert_eq!(chunk_text(text, 6, 2).unwrap(), chunk_text(text, 6, 2).unwrap());
}
