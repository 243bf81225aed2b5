use rand::rngs::StdRng;
use rand::SeedableRng;
use random_dd::config::{Args, ConfigError, RandomDd};
use random_dd::engine::{
    Engine, Fault, ReadOutcome, ReadStep, StartError, WriteOutcome, WriteStep,
};
use random_dd::size::SizeError;

fn args(bs: &str) -> Args {
    Args {
        input: None,
        output: None,
        bs: String::from(bs),
        count: None,
        skip: None,
        seek: None,
        speed: None,
        conv: Vec::new(),
        status: Some(String::from("none")),
    }
}

fn seeded(seed: u64) -> StdRng {
    StdRng::seed_from_u64(seed)
}

fn settings(bs: &str, conv: &[&str], status: &str, count: Option<u64>) -> RandomDd {
    let mut given = args(bs);
    given.conv = conv.iter().map(|flag| String::from(*flag)).collect();
    given.status = Some(String::from(status));
    given.count = count;
    RandomDd::new(given).unwrap()
}

fn engine(bs: &str, conv: &[&str], status: &str, count: Option<u64>, output: u64) -> Engine {
    settings(bs, conv, status, count).start(output).unwrap()
}

/// Runs the engine on a source and a destination in memory: every read
/// gives what is left of the source, up to the block's size, and every
/// write succeeds. Returns the offset and the bytes of each write.
fn copy(engine: &mut Engine, source: &[u8], dest: &mut [u8]) -> Vec<(u64, Vec<u8>)> {
    let mut rng = seeded(1);
    let mut at = 0usize;
    let mut writes = Vec::new();
    while let Some(chunk) = engine.next_block(&mut rng) {
        let end = source.len().min(at + chunk as usize);
        let read = source[at..end].to_vec();
        at = end;
        match engine.read_completed(chunk, ReadOutcome::Data(read), &mut rng) {
            ReadStep::Write { pos, data } => {
                let start = pos as usize;
                dest[start..start + data.len()].copy_from_slice(&data);
                let step = engine.write_completed(pos, data.len() as u64, WriteOutcome::Done);
                assert_eq!(step, WriteStep::Counted);
                writes.push((pos, data));
            }
            ReadStep::Finish => break,
            other => panic!("unexpected: {:?}", other),
        }
    }
    writes
}

#[test]
fn empty_destination_is_refused() {
    let refused = settings("10", &[], "none", None).start(0).unwrap_err();
    assert!(matches!(refused, StartError::EmptyOutput));
    assert_eq!(
        refused.message("\"out.bin\""),
        "Output file \"out.bin\" has zero size, cannot write to random positions"
    );
}

#[test]
fn destination_smaller_than_a_block_is_refused() {
    let refused = settings("2k-4k", &[], "none", None).start(2047).unwrap_err();
    match refused {
        StartError::BlockTooLarge { block, output } => {
            assert_eq!(block, 2048);
            assert_eq!(output, 2047);
        }
        ref other => panic!("unexpected: {:?}", other),
    }
    assert_eq!(
        refused.message("out"),
        "Block size (2.00 KB) is larger than output file size (2.00 KB), cannot write to random positions"
    );
    assert!(settings("2k-4k", &[], "none", None).start(2048).is_ok());
}

#[test]
fn bad_speed_is_refused() {
    let mut given = args("10");
    given.speed = Some(String::from("fast"));
    let refused = RandomDd::new(given).unwrap().start(100).unwrap_err();
    assert!(matches!(refused, StartError::Speed(SizeError::NoDigits)));
    assert_eq!(
        refused.message("out"),
        "Failed to parse speed: Invalid size: cannot parse integer from empty string"
    );
}

#[test]
fn destination_is_judged_before_speed() {
    let mut given = args("10");
    given.speed = Some(String::from("fast"));
    let dd = RandomDd::new(given).unwrap();
    assert!(matches!(dd.start(0), Err(StartError::EmptyOutput)));
    assert!(matches!(dd.start(9), Err(StartError::BlockTooLarge { .. })));
}

#[test]
fn speed_is_read_as_a_size() {
    let mut given = args("10");
    given.speed = Some(String::from(" 2K "));
    let started = RandomDd::new(given).unwrap().start(100).unwrap();
    assert_eq!(started.speed_limit(), Some(2048));
    assert_eq!(engine("10", &[], "none", None, 100).speed_limit(), None);
}

#[test]
fn known_speed_is_taken_as_given() {
    let started = settings("10", &[], "none", Some(3)).start_with(1000, Some(77)).unwrap();
    assert_eq!(started.speed_limit(), Some(77));
    assert_eq!(started.max_blocks(), Some(3));
    assert!(matches!(
        settings("10", &[], "none", None).start_with(0, None),
        Err(StartError::EmptyOutput)
    ));
    assert!(matches!(
        settings("10", &[], "none", None).start_with(5, None),
        Err(StartError::BlockTooLarge { block: 10, output: 5 })
    ));
}

#[test]
fn block_size_of_zero_gives_no_settings() {
    for bs in ["0", "0k", "000", " 0 ", "0-0", "0-10", "0b-1k"] {
        let refused = RandomDd::new(args(bs)).unwrap_err();
        assert!(matches!(refused, ConfigError::ZeroBlockSize), "for {:?}", bs);
    }
}

#[test]
fn smallest_block_is_at_least_one_byte() {
    for bs in ["1", "1-1", "1-4k", "2b", "7-9"] {
        let dd = RandomDd::new(args(bs)).unwrap();
        assert!(1 <= dd.bs_min() && dd.bs_min() <= dd.bs_max());
    }
}

#[test]
fn refusals_come_in_their_order() {
    let mut given = args("8");
    given.speed = Some(String::from("1x"));
    let dd = RandomDd::new(given).unwrap();
    assert!(matches!(dd.try_start(0), Some(Err(StartError::EmptyOutput))));
    assert!(matches!(dd.try_start(7), Some(Err(StartError::BlockTooLarge { .. }))));
    assert!(matches!(dd.try_start(100), Some(Err(StartError::Speed(_)))));
}

#[test]
fn try_start_starts_what_start_starts() {
    let dd = settings("10", &[], "bitarray", Some(4));
    let started = dd.try_start(1000).unwrap().unwrap();
    assert_eq!(started.bitarray_size(), 100);
    assert_eq!(started.bitarray().len(), 13);
    assert_eq!(started.max_blocks(), Some(4));
    assert!(matches!(dd.try_start(9), Some(Err(StartError::BlockTooLarge { .. }))));
}

#[test]
fn run_starts_with_nothing_written() {
    let started = engine("10", &[], "none", Some(5), 1000);
    assert_eq!(started.bytes_copied(), 0);
    assert_eq!(started.blocks_processed(), 0);
    assert_eq!(started.output_size(), 1000);
    assert_eq!(started.max_blocks(), Some(5));
    assert_eq!(started.bitarray_size(), 100);
    assert!(started.bitarray().is_empty());
}

#[test]
fn bitmap_has_a_bit_for_each_stretch() {
    let started = engine("10", &[], "bitarray", None, 1000);
    assert_eq!(started.bitarray_size(), 100);
    assert_eq!(started.bitarray(), &vec![0u8; 13]);
    let started = engine("10", &[], "bitarray", None, 1001);
    assert_eq!(started.bitarray_size(), 101);
    assert_eq!(started.bitarray().len(), 13);
    let started = engine("16-64", &[], "bitarray", None, 1024);
    assert_eq!(started.bitarray_size(), 64);
    assert_eq!(started.bitarray().len(), 8);
    let started = engine("7", &[], "bitarray", None, 7);
    assert_eq!(started.bitarray_size(), 1);
    assert_eq!(started.bitarray().len(), 1);
}

#[test]
fn fixed_block_size_is_always_chosen() {
    let mut rng = seeded(2);
    let run = engine("4k", &[], "none", None, 1 << 20);
    for _ in 0..100 {
        assert_eq!(run.next_block(&mut rng), Some(4096));
    }
}

#[test]
fn chosen_block_sizes_lie_in_the_range() {
    let mut rng = seeded(3);
    let run = engine("10-20", &[], "none", None, 1000);
    let mut seen = [false; 11];
    for _ in 0..2000 {
        let chunk = run.next_block(&mut rng).unwrap();
        assert!((10..=20).contains(&chunk));
        seen[(chunk - 10) as usize] = true;
    }
    assert!(seen.iter().all(|hit| *hit));
}

#[test]
fn same_seed_gives_the_same_draws() {
    let run = engine("10-2000", &[], "none", None, 1 << 20);
    let mut first = seeded(42);
    let mut second = seeded(42);
    let mut other = seeded(43);
    let mut differs = false;
    for _ in 0..200 {
        let chunk = run.next_block(&mut first).unwrap();
        assert_eq!(run.next_block(&mut second), Some(chunk));
        differs |= run.next_block(&mut other) != Some(chunk);
        let read = vec![7u8; chunk as usize];
        let here = run.read_completed(chunk, ReadOutcome::Data(read.clone()), &mut first);
        let there = run.read_completed(chunk, ReadOutcome::Data(read), &mut second);
        match (here, there) {
            (ReadStep::Write { pos: a, .. }, ReadStep::Write { pos: b, .. }) => assert_eq!(a, b),
            other => panic!("unexpected: {:?}", other),
        }
    }
    assert!(differs);
}

#[test]
fn no_block_follows_the_last_one() {
    let mut rng = seeded(4);
    let mut run = engine("10", &[], "none", Some(2), 1000);
    assert_eq!(run.next_block(&mut rng), Some(10));
    assert_eq!(run.write_completed(0, 10, WriteOutcome::Done), WriteStep::Counted);
    assert_eq!(run.next_block(&mut rng), Some(10));
    assert_eq!(run.write_completed(0, 10, WriteOutcome::Done), WriteStep::Counted);
    assert_eq!(run.next_block(&mut rng), None);
    let run = engine("10", &[], "none", Some(0), 1000);
    assert_eq!(run.next_block(&mut rng), None);
}

#[test]
fn full_block_is_written_as_read() {
    let mut rng = seeded(5);
    for conv in [&[][..], &["sync"][..], &["noerror", "sync"][..]] {
        let run = engine("4", conv, "none", None, 100);
        match run.read_completed(4, ReadOutcome::Data(vec![1, 2, 3, 4]), &mut rng) {
            ReadStep::Write { pos, data } => {
                assert_eq!(data, vec![1, 2, 3, 4]);
                assert!(pos <= 96);
            }
            other => panic!("unexpected: {:?}", other),
        }
    }
}

#[test]
fn bytes_beyond_the_block_are_cut_off() {
    let mut rng = seeded(6);
    let run = engine("4", &[], "none", None, 100);
    match run.read_completed(4, ReadOutcome::Data(vec![1, 2, 3, 4, 5, 6]), &mut rng) {
        ReadStep::Write { data, .. } => assert_eq!(data, vec![1, 2, 3, 4]),
        other => panic!("unexpected: {:?}", other),
    }
}

#[test]
fn end_of_source_ends_the_run() {
    let mut rng = seeded(7);
    for conv in [&[][..], &["sync"][..], &["noerror"][..], &["noerror", "sync"][..]] {
        let run = engine("4", conv, "none", None, 100);
        assert!(matches!(
            run.read_completed(4, ReadOutcome::Data(Vec::new()), &mut rng),
            ReadStep::Finish
        ));
    }
}

#[test]
fn short_block_is_written_short_without_sync() {
    let mut rng = seeded(8);
    let run = engine("8", &[], "none", None, 100);
    match run.read_completed(8, ReadOutcome::Data(vec![9, 8, 7]), &mut rng) {
        ReadStep::Write { pos, data } => {
            assert_eq!(data, vec![9, 8, 7]);
            assert!(pos <= 97);
        }
        other => panic!("unexpected: {:?}", other),
    }
}

#[test]
fn short_block_is_padded_with_sync() {
    let mut rng = seeded(9);
    let run = engine("8", &["sync"], "none", None, 100);
    match run.read_completed(8, ReadOutcome::Data(vec![9, 8, 7]), &mut rng) {
        ReadStep::Write { pos, data } => {
            assert_eq!(data, vec![9, 8, 7, 0, 0, 0, 0, 0]);
            assert!(pos <= 92);
        }
        other => panic!("unexpected: {:?}", other),
    }
}

#[test]
fn failed_read_breaks_the_run_off() {
    let mut rng = seeded(10);
    for conv in [&[][..], &["sync"][..]] {
        let run = engine("8", conv, "none", None, 100);
        assert!(matches!(
            run.read_completed(8, ReadOutcome::Failed, &mut rng),
            ReadStep::Fail(Fault::Input)
        ));
    }
}

#[test]
fn failed_read_is_passed_over_with_noerror() {
    let mut rng = seeded(11);
    let run = engine("8-16", &["noerror"], "none", None, 100);
    assert!(matches!(
        run.read_completed(12, ReadOutcome::Failed, &mut rng),
        ReadStep::Skip { len: 12 }
    ));
}

#[test]
fn failed_read_gives_zeros_with_noerror_and_sync() {
    let mut rng = seeded(12);
    let run = engine("8-16", &["noerror", "sync"], "none", None, 100);
    match run.read_completed(12, ReadOutcome::Failed, &mut rng) {
        ReadStep::Write { pos, data } => {
            assert_eq!(data, vec![0u8; 12]);
            assert!(pos <= 88);
        }
        other => panic!("unexpected: {:?}", other),
    }
}

#[test]
fn offsets_keep_the_block_within_the_destination() {
    let mut rng = seeded(13);
    let run = engine("1-64", &[], "none", None, 100);
    let mut first = false;
    let mut last = false;
    for round in 0..5000u64 {
        let len = 1 + round % 64;
        let read = vec![0xaau8; len as usize];
        match run.read_completed(len, ReadOutcome::Data(read), &mut rng) {
            ReadStep::Write { pos, data } => {
                assert_eq!(data.len() as u64, len);
                assert!(pos + len <= 100);
                first |= pos == 0;
                last |= pos + len == 100;
            }
            other => panic!("unexpected: {:?}", other),
        }
    }
    assert!(first && last);
}

#[test]
fn block_that_fills_the_destination_goes_to_its_start() {
    let mut rng = seeded(14);
    let run = engine("100", &[], "none", None, 100);
    for _ in 0..50 {
        match run.read_completed(100, ReadOutcome::Data(vec![1u8; 100]), &mut rng) {
            ReadStep::Write { pos, .. } => assert_eq!(pos, 0),
            other => panic!("unexpected: {:?}", other),
        }
    }
}

#[test]
fn block_longer_than_the_destination_goes_to_its_start() {
    let mut rng = seeded(15);
    let run = engine("10-2000", &[], "none", None, 1000);
    for _ in 0..50 {
        match run.read_completed(1500, ReadOutcome::Data(vec![1u8; 1500]), &mut rng) {
            ReadStep::Write { pos, data } => {
                assert_eq!(pos, 0);
                assert_eq!(data.len(), 1500);
            }
            other => panic!("unexpected: {:?}", other),
        }
    }
}

#[test]
fn passed_over_block_ends_where_the_next_starts() {
    assert_eq!(Engine::skip_target(0, 512), 512);
    assert_eq!(Engine::skip_target(4096, 512), 4608);
    assert_eq!(Engine::skip_target(u64::MAX - 1, 1), u64::MAX);
    assert_eq!(Engine::skip_target(u64::MAX - 1, 512), u64::MAX);
}

#[test]
fn written_block_is_counted() {
    let mut run = engine("10-20", &[], "none", None, 1000);
    assert_eq!(run.write_completed(5, 12, WriteOutcome::Done), WriteStep::Counted);
    assert_eq!(run.blocks_processed(), 1);
    assert_eq!(run.bytes_copied(), 12);
    assert_eq!(run.write_completed(500, 20, WriteOutcome::Done), WriteStep::Counted);
    assert_eq!(run.blocks_processed(), 2);
    assert_eq!(run.bytes_copied(), 32);
}

#[test]
fn bytes_are_counted_modulo_64_bits() {
    let mut run = engine("1", &[], "none", None, 1000);
    run.write_completed(0, u64::MAX, WriteOutcome::Done);
    run.write_completed(0, 3, WriteOutcome::Done);
    assert_eq!(run.bytes_copied(), 2);
    assert_eq!(run.blocks_processed(), 2);
}

#[test]
fn failed_write_breaks_the_run_off() {
    let mut run = engine("10", &[], "bitarray", None, 1000);
    assert_eq!(
        run.write_completed(30, 10, WriteOutcome::SeekFailed),
        WriteStep::Fail(Fault::OutputSeek { pos: 30 })
    );
    assert_eq!(
        run.write_completed(30, 10, WriteOutcome::WriteFailed),
        WriteStep::Fail(Fault::Output)
    );
    assert_eq!(
        run.write_completed(30, 10, WriteOutcome::FlushFailed),
        WriteStep::Fail(Fault::Flush)
    );
    assert_eq!(run.blocks_processed(), 0);
    assert_eq!(run.bytes_copied(), 0);
    assert_eq!(run.bitarray(), &vec![0u8; 13]);
}

#[test]
fn failed_write_is_dropped_with_noerror() {
    let mut run = engine("10", &["noerror"], "bitarray", None, 1000);
    assert_eq!(
        run.write_completed(30, 10, WriteOutcome::SeekFailed),
        WriteStep::Dropped(Fault::OutputSeek { pos: 30 })
    );
    assert_eq!(
        run.write_completed(30, 10, WriteOutcome::WriteFailed),
        WriteStep::Dropped(Fault::Output)
    );
    assert_eq!(
        run.write_completed(30, 10, WriteOutcome::FlushFailed),
        WriteStep::Dropped(Fault::Flush)
    );
    assert_eq!(run.blocks_processed(), 0);
    assert_eq!(run.bytes_copied(), 0);
    assert_eq!(run.bitarray(), &vec![0u8; 13]);
}

#[test]
fn written_block_flips_the_bit_of_its_stretch() {
    let mut run = engine("10", &[], "bitarray", None, 1000);
    run.write_completed(0, 10, WriteOutcome::Done);
    assert_eq!(run.bitarray()[0], 0b0000_0001);
    run.write_completed(35, 10, WriteOutcome::Done);
    assert_eq!(run.bitarray()[0], 0b0000_1001);
    run.write_completed(990, 10, WriteOutcome::Done);
    assert_eq!(run.bitarray()[12], 0b0000_1000);
    run.write_completed(39, 10, WriteOutcome::Done);
    assert_eq!(run.bitarray()[0], 0b0000_0001);
    assert_eq!(run.blocks_processed(), 4);
}

#[test]
fn no_bitmap_is_kept_at_other_levels() {
    for status in ["none", "noxfer", "progress"] {
        let mut run = engine("10", &[], status, None, 1000);
        run.write_completed(35, 10, WriteOutcome::Done);
        assert!(run.bitarray().is_empty());
        assert_eq!(run.blocks_processed(), 1);
    }
}

#[test]
fn count_blocks_are_written_from_a_large_source() {
    for count in [0u64, 1, 2, 7, 100] {
        let source = vec![0x11u8; 100_000];
        let mut dest = vec![0u8; 4096];
        let mut run = engine("16-512", &[], "none", Some(count), 4096);
        let writes = copy(&mut run, &source, &mut dest);
        assert_eq!(writes.len() as u64, count);
        assert_eq!(run.blocks_processed(), count);
        let total: u64 = writes.iter().map(|(_, data)| data.len() as u64).sum();
        assert_eq!(run.bytes_copied(), total);
    }
}

#[test]
fn short_source_gives_one_short_block() {
    let source = vec![0x42u8; 37];
    let mut dest = vec![0u8; 1000];
    let mut run = engine("64", &[], "none", None, 1000);
    let writes = copy(&mut run, &source, &mut dest);
    assert_eq!(writes.len(), 1);
    assert_eq!(writes[0].1, source);
    assert_eq!(run.blocks_processed(), 1);
    assert_eq!(run.bytes_copied(), 37);
    assert_eq!(dest.iter().filter(|byte| **byte == 0x42).count(), 37);
}

#[test]
fn empty_source_gives_no_block() {
    let mut dest = vec![0u8; 1000];
    let mut run = engine("64", &[], "none", None, 1000);
    let writes = copy(&mut run, &[], &mut dest);
    assert!(writes.is_empty());
    assert_eq!(run.blocks_processed(), 0);
    assert_eq!(run.bytes_copied(), 0);
}

#[test]
fn short_source_is_padded_to_the_block_with_sync() {
    let source = vec![0x42u8; 37];
    let mut dest = vec![0xffu8; 1000];
    let mut run = engine("64", &["sync"], "none", None, 1000);
    let writes = copy(&mut run, &source, &mut dest);
    assert_eq!(writes.len(), 1);
    let (pos, data) = &writes[0];
    assert_eq!(data.len(), 64);
    assert_eq!(&data[..37], &source[..]);
    assert_eq!(&data[37..], &[0u8; 27][..]);
    assert_eq!(run.bytes_copied(), 64);
    assert_eq!(&dest[*pos as usize..*pos as usize + 64], &data[..]);
}

#[test]
fn source_is_copied_block_by_block_until_its_end() {
    let source: Vec<u8> = (0..250u8).collect();
    let mut dest = vec![0u8; 1000];
    let mut run = engine("100", &[], "none", None, 1000);
    let writes = copy(&mut run, &source, &mut dest);
    let blocks: Vec<&[u8]> = writes.iter().map(|(_, data)| &data[..]).collect();
    assert_eq!(blocks, vec![&source[..100], &source[100..200], &source[200..]]);
    assert_eq!(run.blocks_processed(), 3);
    assert_eq!(run.bytes_copied(), 250);
}

#[test]
fn five_blocks_of_ten_bytes_end_to_end() {
    let source = vec![0xaau8; 100];
    let mut dest = vec![0u8; 1000];
    let mut run = engine("10", &[], "none", Some(5), 1000);
    let writes = copy(&mut run, &source, &mut dest);
    assert_eq!(writes.len(), 5);
    for (pos, data) in &writes {
        assert_eq!(data, &vec![0xaau8; 10]);
        assert!(*pos <= 990);
    }
    assert_eq!(run.blocks_processed(), 5);
    assert_eq!(run.bytes_copied(), 50);
    for (at, byte) in dest.iter().enumerate() {
        let covered = writes
            .iter()
            .any(|(pos, data)| (*pos as usize..*pos as usize + data.len()).contains(&at));
        assert_eq!(*byte, if covered { 0xaa } else { 0 });
    }
}

#[test]
fn faults_in_words() {
    assert_eq!(Fault::Input.fatal_text("broken pipe"), "Input error: broken pipe");
    assert_eq!(
        Fault::InputPosition.fatal_text("bad descriptor"),
        "Failed to get input position: bad descriptor"
    );
    assert_eq!(Fault::InputSeek.fatal_text("illegal seek"), "Failed to seek past error: illegal seek");
    assert_eq!(
        Fault::OutputSeek { pos: 4096 }.fatal_text("illegal seek"),
        "Failed to seek output to 4096: illegal seek"
    );
    assert_eq!(Fault::OutputSeek { pos: 0 }.fatal_text(""), "Failed to seek output to 0: ");
    assert_eq!(Fault::Output.fatal_text("disk full"), "Output error: disk full");
    assert_eq!(Fault::Flush.fatal_text("disk full"), "Flush error: disk full");
}

#[test]
fn notices_in_words() {
    assert_eq!(Fault::Input.notice_text("bad sector"), "Input error (continuing): bad sector");
    assert_eq!(Fault::Output.notice_text("disk full"), "Output error (continuing): disk full");
    assert_eq!(Fault::Flush.notice_text("disk full"), "Flush error: disk full");
    assert_eq!(
        Fault::OutputSeek { pos: 18446744073709551615 }.notice_text("illegal seek"),
        "Failed to seek output to 18446744073709551615 (continuing): illegal seek"
    );
}
