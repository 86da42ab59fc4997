use fanout_tee::job::aggregate;
use fanout_tee::pipe::Pipe;
use fanout_tee::pipe::Tap;
use fanout_tee::reader::broadcast_all;
use fanout_tee::reader::broadcast_bounded;
use fanout_tee::reader::Reader;
use fanout_tee::writer::append_block;
use fanout_tee::errors::JobError;
use fanout_tee::status::Status;

fn pattern(len: usize) -> Vec<u8> {
    let mut v = Vec::with_capacity(len);
    let mut i = 0usize;
    while i < len {
        v.push((i % 251) as u8);
        i += 1;
    }
    v
}

fn drain(mut tap: Tap) -> Vec<Vec<u8>> {
    let mut blocks = Vec::new();
    loop {
        match tap.next_block() {
            Some(b) => blocks.push(b),
            None => break,
        }
    }
    blocks
}

fn assemble(blocks: &Vec<Vec<u8>>) -> Vec<u8> {
    let mut out = Vec::new();
    for b in blocks {
        append_block(&mut out, b);
    }
    out
}

#[test]
fn full_stream_three_blocks_two_taps() {
    let input = pattern(150000);
    let mut pipe = Pipe::new(4);
    let tap_a = pipe.register();
    let tap_b = pipe.register();
    let total = broadcast_all(&mut pipe, &input, 64000);
    assert_eq!(total, 150000);
    drop(pipe);

    for tap in [tap_a, tap_b] {
        let blocks = drain(tap);
        assert_eq!(blocks.len(), 3);
        assert_eq!(blocks[0].len(), 64000);
        assert_eq!(blocks[1].len(), 64000);
        assert_eq!(blocks[2].len(), 22000);
        assert_eq!(assemble(&blocks), input);
    }

    let status = Status { bytes_copied: 150000, num_of_files: 2 };
    let (size, unit) = status.scaled();
    let line = format!("{} {} copied to {} files.", size, unit.label(), status.num_of_files);
    assert_eq!(line, "146 KB copied to 2 files.");
}

#[test]
fn full_stream_exact_multiple_has_no_short_block() {
    let input = pattern(200);
    let mut pipe = Pipe::new(8);
    let tap = pipe.register();
    let total = broadcast_all(&mut pipe, &input, 50);
    assert_eq!(total, 200);
    drop(pipe);
    let blocks = drain(tap);
    assert_eq!(blocks.len(), 4);
    for b in &blocks {
        assert_eq!(b.len(), 50);
    }
    assert_eq!(assemble(&blocks), input);
}

#[test]
fn backpressure_bound_capacity_two() {
    let mut pipe = Pipe::new(2);
    let mut tap = pipe.register();
    assert!(pipe.try_broadcast_block(vec![1u8]).is_none());
    assert!(pipe.try_broadcast_block(vec![2u8]).is_none());
    // The tap has two blocks pending, the configured bound: a third broadcast
    // would let the producer get further ahead, so it is refused.
    let rejected = pipe.try_broadcast_block(vec![3u8]);
    assert_eq!(rejected, Some(vec![3u8]));
    // Once the slowest (only) tap takes a block, there is room again.
    assert_eq!(tap.next_block(), Some(vec![1u8]));
    assert!(pipe.try_broadcast_block(vec![3u8]).is_none());
    drop(pipe);
    assert_eq!(tap.next_block(), Some(vec![2u8]));
    assert_eq!(tap.next_block(), Some(vec![3u8]));
    assert_eq!(tap.next_block(), None);
}

#[test]
fn bounded_mode_short_reads_pad_blocks_and_count_actual_bytes() {
    // Five requested reads of 100 bytes from a 250-byte input: every block is
    // broadcast at its full requested size, the tail stays zeroed, and the
    // byte count reports only what was actually read.
    let input = pattern(250);
    let mut pipe = Pipe::new(8);
    let tap = pipe.register();
    let mut reader = Reader::new_bounded(100, 5);
    let mut pos = 0usize;
    let mut broadcasts = 0usize;
    while let Some(request) = reader.next_request() {
        assert_eq!(request, 100);
        let mut block = vec![0u8; request];
        let n_read = if pos < input.len() {
            let n = (input.len() - pos).min(request);
            block[..n].copy_from_slice(&input[pos..pos + n]);
            n
        } else {
            0
        };
        pos += n_read;
        reader.publish(&mut pipe, block, n_read);
        broadcasts += 1;
    }
    assert_eq!(broadcasts, 5);
    assert_eq!(reader.bytes_read, 250);
    drop(pipe);
    let blocks = drain(tap);
    assert_eq!(blocks.len(), 5);
    for b in &blocks {
        assert_eq!(b.len(), 100);
    }
    let out = assemble(&blocks);
    assert_eq!(out.len(), 500);
    assert_eq!(&out[..250], &input[..]);
    assert!(out[250..].iter().all(|&x| x == 0));
}

#[test]
fn bounded_driver_pads_short_and_missing_reads() {
    let input = pattern(250);
    let mut pipe = Pipe::new(8);
    let tap = pipe.register();
    let total = broadcast_bounded(&mut pipe, &input, 100, 5);
    assert_eq!(total, 250);
    drop(pipe);
    let blocks = drain(tap);
    assert_eq!(blocks.len(), 5);
    for b in &blocks {
        assert_eq!(b.len(), 100);
    }
    let out = assemble(&blocks);
    assert_eq!(&out[..250], &input[..]);
    assert!(out[250..].iter().all(|&x| x == 0));
}

#[test]
fn zero_taps_still_drains_input() {
    let input = pattern(1000);
    let mut pipe = Pipe::new(1);
    let total = broadcast_all(&mut pipe, &input, 64);
    assert_eq!(total, 1000);
    let status = aggregate(Ok(total), Vec::new());
    assert_eq!(status, Ok(Status { bytes_copied: 1000, num_of_files: 0 }));
}

#[test]
fn tap_on_dropped_silent_pipe_reports_end() {
    let pipe_started;
    let mut tap;
    {
        let mut pipe = Pipe::new(1);
        tap = pipe.register();
        pipe_started = pipe.is_started();
        drop(pipe);
    }
    assert!(!pipe_started);
    assert_eq!(tap.next_block(), None);
}

#[test]
fn registration_is_tracked_by_is_started() {
    let mut pipe = Pipe::new(2);
    assert!(!pipe.is_started());
    let _tap = pipe.register();
    assert!(!pipe.is_started());
    pipe.broadcast_block(vec![9u8, 9, 9]);
    assert!(pipe.is_started());
}

#[test]
fn writer_failure_surfaces_as_job_error() {
    let writers = vec![
        Err(JobError::CreateOutputFailed(String::from("/no/such/dir/out.img"))),
        Ok(()),
    ];
    let r = aggregate(Ok(150000), writers);
    assert_eq!(r, Err(JobError::CreateOutputFailed(String::from("/no/such/dir/out.img"))));
}

#[test]
fn first_error_in_join_order_wins() {
    let r = aggregate(
        Err(JobError::OpenInputFailed(String::from("in.img"))),
        vec![Err(JobError::WriteFailed)],
    );
    assert_eq!(r, Err(JobError::OpenInputFailed(String::from("in.img"))));

    let r = aggregate(Ok(7), vec![Ok(()), Err(JobError::SyncFailed), Err(JobError::WriteFailed)]);
    assert_eq!(r, Err(JobError::SyncFailed));

    let r = aggregate(Ok(7), vec![Ok(()), Ok(())]);
    assert_eq!(r, Ok(Status { bytes_copied: 7, num_of_files: 2 }));
}

fn sample_errors() -> Vec<JobError> {
    vec![
        JobError::OpenInputFailed(String::from("in.img")),
        JobError::CreateOutputFailed(String::from("out.img")),
        JobError::ReadFailed(String::from("in.img")),
        JobError::WriteFailed,
        JobError::SyncFailed,
        JobError::QueryPositionFailed(String::from("in.img")),
        JobError::QueryLengthFailed(String::from("in.img")),
        JobError::JoinFailed,
    ]
}

#[test]
fn every_error_kind_survives_aggregation_unchanged() {
    for (err, expected) in sample_errors().into_iter().zip(sample_errors()) {
        assert_eq!(aggregate(Ok(1), vec![Err(err)]), Err(expected));
    }
    for (err, expected) in sample_errors().into_iter().zip(sample_errors()) {
        assert_eq!(aggregate(Err(err), Vec::new()), Err(expected));
    }
}
