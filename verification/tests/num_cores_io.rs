use minits::io::{io_len, io_outcome, read_all_len, split_offset, IoOutcome};
use minits::num_cores::{count_physical_cores, num_processor_infos};

const ERROR_INSUFFICIENT_BUFFER: u32 = 122;
const ERROR_IO_PENDING: u32 = 997;

#[test]
fn processor_info_count() {
    assert_eq!(num_processor_infos(0, ERROR_INSUFFICIENT_BUFFER, 96, 24, ERROR_INSUFFICIENT_BUFFER), Some(4));
    assert_eq!(num_processor_infos(1, ERROR_INSUFFICIENT_BUFFER, 96, 24, ERROR_INSUFFICIENT_BUFFER), None);
    assert_eq!(num_processor_infos(0, 5, 96, 24, ERROR_INSUFFICIENT_BUFFER), None);
    assert_eq!(num_processor_infos(0, ERROR_INSUFFICIENT_BUFFER, 10, 24, ERROR_INSUFFICIENT_BUFFER), None);
}

#[test]
fn physical_core_count() {
    assert_eq!(count_physical_cores(&vec![0, 2, 0, 3, 0, 0], 0), 4);
    assert_eq!(count_physical_cores(&vec![], 0), 0);
    assert_eq!(count_physical_cores(&vec![1, 1], 0), 0);
}

#[test]
fn offsets_and_lengths() {
    assert_eq!(split_offset(0), (0, 0));
    assert_eq!(split_offset(0x1_0000_0005), (5, 1));
    assert_eq!(split_offset(u64::MAX), (u32::MAX, u32::MAX));
    assert_eq!(io_len(9), 9);
    assert_eq!(io_len(u32::MAX as usize), u32::MAX);
    assert_eq!(read_all_len(9, 9), Some(9));
    assert_eq!(read_all_len(9, 10), None);
}

#[test]
fn io_outcomes() {
    assert_eq!(io_outcome(1, 0, ERROR_IO_PENDING), IoOutcome::Completed);
    assert_eq!(io_outcome(0, ERROR_IO_PENDING, ERROR_IO_PENDING), IoOutcome::Pending);
    assert_eq!(io_outcome(0, 5, ERROR_IO_PENDING), IoOutcome::Failed(5));
}
