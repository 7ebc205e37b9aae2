use drop_core::chunk::{
    advance, byte_done, byte_result, byte_step, chunk_done, chunk_finishes, claim_range,
    claim_step,
    ByteOutcome, ByteStep, ChunkClaimReader, ChunkRange, ReaderState,
};

#[test]
fn claim_range_inside_the_file() {
    assert_eq!(claim_range(100, 0, 30), Some(ChunkRange { offset: 0, len: 30 }));
    assert_eq!(claim_range(100, 30, 30), Some(ChunkRange { offset: 30, len: 30 }));
    assert_eq!(claim_range(100, 90, 30), Some(ChunkRange { offset: 90, len: 10 }));
    assert_eq!(claim_range(100, 99, 1), Some(ChunkRange { offset: 99, len: 1 }));
    assert_eq!(claim_range(100, 50, 0), Some(ChunkRange { offset: 50, len: 0 }));
    assert_eq!(claim_range(u64::MAX, 5, u64::MAX), Some(ChunkRange { offset: 5, len: u64::MAX - 5 }));
}

#[test]
fn claim_range_at_or_past_the_end() {
    assert_eq!(claim_range(100, 100, 30), None);
    assert_eq!(claim_range(100, 101, 30), None);
    assert_eq!(claim_range(100, u64::MAX, 30), None);
    assert_eq!(claim_range(0, 0, 30), None);
}

#[test]
fn chunk_finishes_on_failure_or_at_the_end() {
    assert!(chunk_finishes(100, ChunkRange { offset: 0, len: 10 }, false));
    assert!(!chunk_finishes(100, ChunkRange { offset: 0, len: 10 }, true));
    assert!(chunk_finishes(100, ChunkRange { offset: 90, len: 10 }, true));
    assert!(!chunk_finishes(100, ChunkRange { offset: 90, len: 9 }, true));
    assert!(chunk_finishes(100, ChunkRange { offset: u64::MAX, len: u64::MAX }, true));
}

#[test]
fn single_byte_mode_rules() {
    assert_eq!(byte_step(true, false), ByteStep::Finished);
    assert_eq!(byte_step(true, true), ByteStep::Finished);
    assert_eq!(byte_step(false, false), ByteStep::OpenAndRead);
    assert_eq!(byte_step(false, true), ByteStep::Read);
    assert_eq!(byte_result(ByteOutcome::Byte(7)), Some(7));
    assert_eq!(byte_result(ByteOutcome::EndOfFile), None);
    assert_eq!(byte_result(ByteOutcome::OpenFailed), None);
    assert_eq!(byte_result(ByteOutcome::ReadFailed), None);
}

#[test]
fn sequential_claims_tile_the_file() {
    let reader = ChunkClaimReader::new(100);
    assert_eq!(reader.len(), 100);
    let mut ranges = Vec::new();
    for requested in [30u64, 0, 30, 30, 30, 30] {
        match reader.claim_chunk(requested) {
            Some(range) => {
                assert!(reader.finish_chunk(range, true));
                ranges.push(range);
            }
            None => {}
        }
    }
    assert_eq!(
        ranges,
        vec![
            ChunkRange { offset: 0, len: 30 },
            ChunkRange { offset: 30, len: 0 },
            ChunkRange { offset: 30, len: 30 },
            ChunkRange { offset: 60, len: 30 },
            ChunkRange { offset: 90, len: 10 },
        ]
    );
    assert!(reader.is_finished());
    assert_eq!(reader.claim_chunk(10), None);
    assert_eq!(reader.claim_chunk(0), None);
}

#[test]
fn a_failed_read_finishes_the_reader() {
    let reader = ChunkClaimReader::new(100);
    let range = reader.claim_chunk(10).unwrap();
    assert!(!reader.is_finished());
    assert!(!reader.finish_chunk(range, false));
    assert!(reader.is_finished());
    assert_eq!(reader.claim_chunk(10), None);
    assert_eq!(reader.next_byte_step(true), ByteStep::Finished);
}

#[test]
fn an_empty_file_is_finished_by_the_first_claim() {
    let reader = ChunkClaimReader::new(0);
    assert!(!reader.is_finished());
    assert_eq!(reader.claim_chunk(10), None);
    assert!(reader.is_finished());
}

#[test]
fn single_byte_mode_shares_the_finished_flag() {
    let reader = ChunkClaimReader::new(3);
    assert_eq!(reader.next_byte_step(false), ByteStep::OpenAndRead);
    assert_eq!(reader.finish_byte(ByteOutcome::Byte(1)), Some(1));
    assert_eq!(reader.next_byte_step(true), ByteStep::Read);
    assert_eq!(reader.finish_byte(ByteOutcome::EndOfFile), None);
    assert!(reader.is_finished());
    assert_eq!(reader.next_byte_step(true), ByteStep::Finished);
    assert_eq!(reader.claim_chunk(1), None);
}

#[test]
fn interleaved_claims_hand_out_every_byte_once() {
    let size: u64 = 100_003;
    let reader = ChunkClaimReader::new(size);
    let mut pending: Vec<Option<ChunkRange>> = vec![None; 8];
    let mut ranges: Vec<ChunkRange> = Vec::new();
    let mut calls: u64 = 0;
    let mut idle = 0;
    while idle < 8 {
        let worker = (calls % 8) as usize;
        calls += 1;
        if let Some(range) = pending[worker].take() {
            reader.finish_chunk(range, true);
            ranges.push(range);
        }
        match reader.claim_chunk(1 + (calls * 37) % 257) {
            Some(range) => {
                pending[worker] = Some(range);
                idle = 0;
            }
            None => idle += 1,
        }
    }
    for range in pending.into_iter().flatten() {
        reader.finish_chunk(range, true);
        ranges.push(range);
    }
    ranges.sort_by_key(|r| r.offset);
    let mut next = 0u64;
    for range in &ranges {
        assert_eq!(range.offset, next);
        next += range.len;
    }
    assert_eq!(next, size);
    assert!(reader.is_finished());
    assert_eq!(reader.claim_chunk(1), None);
}

#[test]
fn claim_step_moves_the_counter_and_grants_the_range() {
    let fresh = ReaderState { position: 0, finished: false };
    let (s, r) = claim_step(100, fresh, 30);
    assert_eq!(s, ReaderState { position: 30, finished: false });
    assert_eq!(r, Some(ChunkRange { offset: 0, len: 30 }));
    let (s, r) = claim_step(100, ReaderState { position: 90, finished: false }, 30);
    assert_eq!(s, ReaderState { position: 100, finished: false });
    assert_eq!(r, Some(ChunkRange { offset: 90, len: 10 }));
    let (s, r) = claim_step(100, s, 30);
    assert_eq!(s, ReaderState { position: 100, finished: true });
    assert_eq!(r, None);
}

#[test]
fn the_counter_never_wraps_and_never_passes_the_end() {
    assert_eq!(advance(10, 5, u64::MAX), 10);
    assert_eq!(advance(10, 5, 4), 9);
    assert_eq!(advance(10, 5, 5), 10);
    assert_eq!(advance(10, 10, 7), 10);
    assert_eq!(advance(10, 11, u64::MAX), 10);
    assert_eq!(advance(u64::MAX, u64::MAX - 1, u64::MAX), u64::MAX);
    let (s, r) = claim_step(10, ReaderState { position: 5, finished: false }, u64::MAX);
    assert_eq!(s, ReaderState { position: 10, finished: false });
    assert_eq!(r, Some(ChunkRange { offset: 5, len: 5 }));
}

#[test]
fn claims_past_the_largest_count_hand_out_no_byte_twice() {
    let reader = ChunkClaimReader::new(100);
    let first = reader.claim_chunk(u64::MAX - 1);
    let second = reader.claim_chunk(2);
    let third = reader.claim_chunk(3);
    assert_eq!(first, Some(ChunkRange { offset: 0, len: 100 }));
    assert_eq!(second, None);
    assert_eq!(third, None);
    let reader = ChunkClaimReader::new(100);
    let first = reader.claim_chunk(40);
    let second = reader.claim_chunk(u64::MAX);
    let third = reader.claim_chunk(u64::MAX);
    assert_eq!(first, Some(ChunkRange { offset: 0, len: 40 }));
    assert_eq!(second, Some(ChunkRange { offset: 40, len: 60 }));
    assert_eq!(third, None);
}

#[test]
fn a_finished_state_grants_nothing_and_stays() {
    let done = ReaderState { position: 7, finished: true };
    assert_eq!(claim_step(100, done, 30), (done, None));
    assert_eq!(chunk_done(100, done, ChunkRange { offset: 0, len: 1 }, true), done);
    assert_eq!(byte_done(done, ByteOutcome::Byte(1)), (done, Some(1)));
    assert_eq!(byte_done(done, ByteOutcome::EndOfFile), (done, None));
}

#[test]
fn chunk_done_and_byte_done_set_the_flag() {
    let s = ReaderState { position: 40, finished: false };
    assert_eq!(chunk_done(100, s, ChunkRange { offset: 30, len: 10 }, true), s);
    let finished = ReaderState { position: 40, finished: true };
    assert_eq!(chunk_done(100, s, ChunkRange { offset: 30, len: 10 }, false), finished);
    assert_eq!(chunk_done(100, s, ChunkRange { offset: 90, len: 10 }, true), finished);
    assert_eq!(byte_done(s, ByteOutcome::Byte(9)), (s, Some(9)));
    assert_eq!(byte_done(s, ByteOutcome::ReadFailed), (finished, None));
    assert_eq!(byte_done(s, ByteOutcome::OpenFailed), (finished, None));
    assert_eq!(byte_done(s, ByteOutcome::EndOfFile), (finished, None));
}

#[test]
fn served_claims_grant_the_whole_file_once() {
    for size in [0u64, 1, 7, 100] {
        for sizes in [vec![3u64, 3, 3], vec![0, 1, 0, 200, 5], vec![u64::MAX, 1], vec![50, 50, 1]] {
            let mut state = ReaderState { position: 0, finished: false };
            let mut granted = 0u64;
            let mut asked = 0u128;
            for requested in sizes {
                let (claimed, r) = claim_step(size, state, requested);
                state = claimed;
                if let Some(range) = r {
                    assert_eq!(range.offset, granted);
                    granted += range.len;
                    state = chunk_done(size, state, range, true);
                }
                asked += requested as u128;
                assert_eq!(granted as u128, asked.min(size as u128));
                assert_eq!(state.finished, asked >= size as u128);
            }
        }
    }
}
