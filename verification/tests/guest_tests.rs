use blockless_rust_sdk::guest::{
    add, long_running_task, multiply, read_memory, write_memory, ScratchMemory,
};

#[test]
fn add_wraps_to_32_bits() {
    assert_eq!(add(2, 3), 5);
    assert_eq!(add(-7, 4), -3);
    assert_eq!(add(i32::MAX, 1), i32::MIN);
    assert_eq!(add(i32::MIN, -1), i32::MAX);
}

#[test]
fn multiply_wraps_to_32_bits() {
    assert_eq!(multiply(6, 7), 42);
    assert_eq!(multiply(-3, 5), -15);
    assert_eq!(multiply(65536, 65536), 0);
    assert_eq!(multiply(i32::MAX, 2), -2);
}

#[test]
fn fresh_scratch_memory_reads_zero() {
    let memory = ScratchMemory::new();
    for index in 0..4 {
        assert_eq!(read_memory(&memory, index), 0);
    }
}

#[test]
fn scratch_cell_is_read_back() {
    let mut memory = ScratchMemory::new();
    write_memory(&mut memory, 0, 11);
    write_memory(&mut memory, 3, -44);
    assert_eq!(read_memory(&memory, 0), 11);
    assert_eq!(read_memory(&memory, 1), 0);
    assert_eq!(read_memory(&memory, 2), 0);
    assert_eq!(read_memory(&memory, 3), -44);
    write_memory(&mut memory, 0, 12);
    assert_eq!(read_memory(&memory, 0), 12);
}

#[test]
fn scratch_access_outside_the_cells_is_ignored() {
    let mut memory = ScratchMemory::new();
    write_memory(&mut memory, 1, 5);
    for index in [-1, 4, 5, i32::MAX, i32::MIN] {
        write_memory(&mut memory, index, 99);
        assert_eq!(read_memory(&memory, index), 0);
    }
    assert_eq!(read_memory(&memory, 0), 0);
    assert_eq!(read_memory(&memory, 1), 5);
    assert_eq!(read_memory(&memory, 2), 0);
    assert_eq!(read_memory(&memory, 3), 0);
}

#[test]
fn long_running_task_sums_with_wraparound() {
    assert_eq!(long_running_task(), 1783293664);
    assert_eq!(long_running_task(), (499_999_500_000i64 % (1i64 << 32)) as i32);
}
