use pipe::account::{rate_milli_gib_per_sec, GIB};
use pipe::engine::{
    BufferedReader, BufferedWriter, ReadOutcome, SpliceSignal, WriterAction, ZeroCopyReader,
    ZeroCopyWriter,
};
use pipe::{Mode, TransferConfig};

fn config(mode: Mode, gibs: usize, block_size: usize, disable_memcpy: bool) -> TransferConfig {
    TransferConfig::new(mode, gibs, block_size, disable_memcpy, false)
}

#[test]
fn config_resolves_volume_in_bytes() {
    let cfg = config(Mode::Pipe, 3, 65536, false);
    assert_eq!(cfg.volume_bytes, 3 * GIB);
    assert_eq!(cfg.block_size, 65536);
    assert_eq!(cfg.mode, Mode::Pipe);
    assert!(!cfg.disable_memcpy);
    assert!(!cfg.use_huge_pages);
}

#[test]
fn scenario_a_buffered_writer_moves_exactly_one_gib() {
    let cfg = config(Mode::Pipe, 1, 65536, false);
    let mut writer = BufferedWriter::new(&cfg);
    let mut iterations: usize = 0;
    while !writer.is_finished() {
        writer.record_block();
        iterations += 1;
    }
    assert_eq!(iterations, 16384);
    assert_eq!(writer.written, 1073741824);

    // A reader fed the same blocks back-to-back counts the same bytes.
    let mut reader = BufferedReader::new(&cfg);
    for _ in 0..iterations {
        assert!(reader.step(ReadOutcome::FullBlock));
    }
    reader.step(ReadOutcome::EndOfStream);
    assert!(reader.is_done());
    assert_eq!(reader.received, writer.written);
}

#[test]
fn scenario_b_zero_volume_means_zero_iterations_and_zero_rate() {
    let cfg = config(Mode::Pipe, 0, 65536, false);
    let mut writer = BufferedWriter::new(&cfg);
    assert!(writer.is_finished());
    assert_eq!(writer.written, 0);

    let zc = ZeroCopyWriter::new(&config(Mode::Vmsplice, 0, 65536, false));
    assert!(zc.is_finished());
    assert_eq!(zc.written, 0);

    assert_eq!(rate_milli_gib_per_sec(writer.written, 0), 0);
    assert_eq!(rate_milli_gib_per_sec(writer.written, 250), 0);
}

#[test]
fn scenario_c_never_ready_channel_never_advances_or_switches_half() {
    let cfg = config(Mode::Vmsplice, 1, 65536, false);
    let mut writer = ZeroCopyWriter::new(&cfg);
    for _ in 0..10000 {
        match writer.current_action() {
            WriterAction::Submit { half, offset, len } => {
                assert_eq!(half, 0);
                assert_eq!(offset, 0);
                assert_eq!(len, 65536);
            }
            WriterAction::Finished => panic!("the target cannot be reached"),
        }
        assert!(writer.step(SpliceSignal::WouldBlock));
        assert_eq!(writer.written, 0);
        assert_eq!(writer.accepted, 0);
    }
}

#[test]
fn zero_copy_writer_alternates_halves_and_overshoots_less_than_a_block() {
    // Block size 4, target 10 bytes: three whole blocks, halves 0, 1, 0.
    let cfg = TransferConfig::new(Mode::Vmsplice, 0, 4, false, false);
    let mut writer = ZeroCopyWriter { target: 10, ..ZeroCopyWriter::new(&cfg) };
    let mut halves = Vec::new();
    while !writer.is_finished() {
        match writer.current_action() {
            WriterAction::Submit { half, offset, len } => {
                if offset == 0 {
                    halves.push(half);
                }
                // The channel accepts one byte, then the rest after a retry.
                if len > 1 {
                    assert!(writer.step(SpliceSignal::Accepted(1)));
                    assert!(writer.step(SpliceSignal::WouldBlock));
                } else {
                    assert!(writer.step(SpliceSignal::Accepted(1)));
                }
            }
            WriterAction::Finished => unreachable!(),
        }
    }
    assert_eq!(halves, vec![0, 1, 0]);
    assert_eq!(writer.written, 12);
    assert!(writer.written >= 10 && writer.written < 10 + 4);
    assert_eq!(writer.written % 4, 0);
}

#[test]
fn zero_copy_writer_half_switches_only_on_full_acceptance() {
    let cfg = TransferConfig::new(Mode::Vmsplice, 0, 8, false, false);
    let mut writer = ZeroCopyWriter { target: 16, ..ZeroCopyWriter::new(&cfg) };
    assert!(writer.step(SpliceSignal::Accepted(3)));
    match writer.current_action() {
        WriterAction::Submit { half, offset, len } => {
            assert_eq!(half, 0);
            assert_eq!(offset, 3);
            assert_eq!(len, 5);
        }
        WriterAction::Finished => unreachable!(),
    }
    assert!(writer.step(SpliceSignal::Accepted(5)));
    match writer.current_action() {
        WriterAction::Submit { half, offset, len } => {
            assert_eq!(half, 1);
            assert_eq!(offset, 0);
            assert_eq!(len, 8);
        }
        WriterAction::Finished => unreachable!(),
    }
    assert_eq!(writer.written, 8);
}

#[test]
fn zero_copy_writer_terminal_signal_reports_fatal() {
    let cfg = TransferConfig::new(Mode::Vmsplice, 0, 8, false, false);
    let mut writer = ZeroCopyWriter { target: 8, ..ZeroCopyWriter::new(&cfg) };
    assert!(!writer.step(SpliceSignal::Ended));
}

#[test]
fn zero_copy_reader_counts_partial_block_at_end() {
    let cfg = TransferConfig::new(Mode::Vmsplice, 0, 6, true, false);
    let mut reader = ZeroCopyReader::new(&cfg);
    assert!(!reader.step(SpliceSignal::Accepted(4)));
    assert!(!reader.step(SpliceSignal::WouldBlock));
    assert_eq!(reader.in_block, 4);
    assert_eq!(reader.received, 0);
    assert!(reader.step(SpliceSignal::Ended));
    assert!(reader.is_done());
    assert_eq!(reader.received, 4);
}

#[test]
fn zero_copy_reader_rolls_whole_blocks_into_the_count() {
    let cfg = TransferConfig::new(Mode::Vmsplice, 0, 6, false, false);
    let mut reader = ZeroCopyReader::new(&cfg);
    assert!(reader.step(SpliceSignal::Accepted(6)));
    assert_eq!(reader.received, 6);
    assert_eq!(reader.in_block, 0);
    assert!(!reader.step(SpliceSignal::Accepted(2)));
    assert!(reader.step(SpliceSignal::Accepted(4)));
    assert_eq!(reader.received, 12);
    assert!(reader.step(SpliceSignal::Ended));
    assert_eq!(reader.received, 12);
}

#[test]
fn memcpy_flag_never_changes_the_zero_copy_count() {
    let signals = [
        SpliceSignal::Accepted(2),
        SpliceSignal::WouldBlock,
        SpliceSignal::Accepted(2),
        SpliceSignal::Accepted(4),
        SpliceSignal::WouldBlock,
        SpliceSignal::Accepted(3),
        SpliceSignal::Ended,
    ];
    let mut with_copy = ZeroCopyReader::new(&TransferConfig::new(Mode::Vmsplice, 0, 4, false, false));
    let mut without_copy =
        ZeroCopyReader::new(&TransferConfig::new(Mode::Vmsplice, 0, 4, true, false));
    for sig in signals {
        with_copy.step(sig);
        without_copy.step(sig);
        assert_eq!(with_copy.received, without_copy.received);
        assert_eq!(with_copy.in_block, without_copy.in_block);
        assert_eq!(with_copy.is_done(), without_copy.is_done());
    }
    assert_eq!(with_copy.received, 11);
}

#[test]
fn memcpy_flag_never_changes_the_buffered_count() {
    let outcomes = [
        ReadOutcome::FullBlock,
        ReadOutcome::FullBlock,
        ReadOutcome::FullBlock,
        ReadOutcome::EndOfStream,
    ];
    let mut with_copy = BufferedReader::new(&TransferConfig::new(Mode::Pipe, 0, 5, false, false));
    let mut without_copy = BufferedReader::new(&TransferConfig::new(Mode::Pipe, 0, 5, true, false));
    for outcome in outcomes {
        with_copy.step(outcome);
        without_copy.step(outcome);
        assert_eq!(with_copy.received, without_copy.received);
        assert_eq!(with_copy.is_done(), without_copy.is_done());
    }
    assert_eq!(with_copy.received, 15);
}

#[test]
fn buffered_reader_stops_without_counting_a_short_read() {
    let cfg = TransferConfig::new(Mode::Pipe, 0, 7, false, false);
    let mut reader = BufferedReader::new(&cfg);
    assert!(reader.step(ReadOutcome::FullBlock));
    assert!(!reader.step(ReadOutcome::EndOfStream));
    assert!(reader.is_done());
    assert_eq!(reader.received, 7);
}
