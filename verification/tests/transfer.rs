use axdevice::{block_spans, BlockSpan, DeviceError};

#[test]
fn test_block_spans_aligned() {
    let spans = block_spans(0, 1024, 512).unwrap();
    assert_eq!(
        spans,
        vec![
            BlockSpan { block_id: 0, offset: 0, len: 512 },
            BlockSpan { block_id: 1, offset: 0, len: 512 },
        ]
    );
}

#[test]
fn test_block_spans_within_large_block() {
    // One 4096-byte device block holds the whole 300-byte request starting
    // at sector 1 (byte 512).
    let spans = block_spans(1, 300, 4096).unwrap();
    assert_eq!(spans, vec![BlockSpan { block_id: 0, offset: 512, len: 300 }]);
}

#[test]
fn test_block_spans_crossing_blocks() {
    // Sector 7 starts at byte 3584; 1000 bytes touch blocks 7 and 8.
    let spans = block_spans(7, 1000, 512).unwrap();
    assert_eq!(
        spans,
        vec![
            BlockSpan { block_id: 7, offset: 0, len: 512 },
            BlockSpan { block_id: 8, offset: 0, len: 488 },
        ]
    );
    let total: u64 = spans.iter().map(|s| s.len).sum();
    assert_eq!(total, 1000);
}

#[test]
fn test_block_spans_unaligned_tail() {
    // Start in the middle of a block and spill into the next two.
    let spans = block_spans(1, 5000, 2048).unwrap();
    assert_eq!(
        spans,
        vec![
            BlockSpan { block_id: 0, offset: 512, len: 1536 },
            BlockSpan { block_id: 1, offset: 0, len: 2048 },
            BlockSpan { block_id: 2, offset: 0, len: 1416 },
        ]
    );
}

#[test]
fn test_block_spans_empty_and_invalid() {
    assert_eq!(block_spans(3, 0, 512), Ok(vec![]));
    assert_eq!(block_spans(3, 100, 0), Err(DeviceError::InvalidInput));
}
