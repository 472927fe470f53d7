//! The sample guest: the functions that the demonstration module exports.
//!
//! The guest computes in 32-bit two's complement, as code inside the sandbox
//! does, so its arithmetic wraps around. Its scratch memory is a value that
//! the caller holds and hands in, not state shared by the whole process, and
//! every access to it is checked against its size.

use vstd::prelude::*;
use vstd::wrapping::i32_specs::signed_crop;

verus! {

/// The number of cells of the scratch memory.
pub const SCRATCH_CELLS: usize = 4;

/// The number of terms that `long_running_task` adds up.
pub const LONG_TASK_TERMS: i32 = 1000000;

/// The scratch memory of the guest: a few integer cells, all zero at first.
pub struct ScratchMemory {
    cells: [i32; 4],
}

impl View for ScratchMemory {
    type V = Seq<i32>;

    /// The cells, first to last.
    closed spec fn view(&self) -> Seq<i32> {
        self.cells@
    }
}

/// Whether the index names a cell of the scratch memory.
pub open spec fn in_scratch(index: i32) -> bool {
    0 <= index < SCRATCH_CELLS
}

/// The cells after a write: the value stands in the cell that the index
/// names, and nothing changes where the index names none.
pub open spec fn written(cells: Seq<i32>, index: i32, value: i32) -> Seq<i32> {
    if in_scratch(index) {
        cells.update(index as int, value)
    } else {
        cells
    }
}

/// What a read yields: the value of the cell that the index names, and zero
/// where the index names none.
pub open spec fn read(cells: Seq<i32>, index: i32) -> i32 {
    if in_scratch(index) {
        cells[index as int]
    } else {
        0
    }
}

/// The sum of the integers from zero up to, and without, `n`.
pub open spec fn sum_below(n: int) -> int
    decreases n,
{
    if n <= 0 {
        0
    } else {
        sum_below(n - 1) + (n - 1)
    }
}

impl ScratchMemory {
    /// A scratch memory with every cell at zero.
    pub fn new() -> (memory: Self)
        ensures
            memory@ == seq![0i32, 0i32, 0i32, 0i32],
            memory@.len() == SCRATCH_CELLS,
    {
        let memory = ScratchMemory { cells: [0, 0, 0, 0] };
        assert(memory@ =~= seq![0i32, 0i32, 0i32, 0i32]);
        memory
    }
}

/// The sum of two integers, wrapped to 32 bits.
pub fn add(a: i32, b: i32) -> (sum: i32)
    ensures
        sum == signed_crop(a + b),
{
    a.wrapping_add(b)
}

/// The product of two integers, wrapped to 32 bits.
pub fn multiply(a: i32, b: i32) -> (product: i32)
    ensures
        product == signed_crop(a * b),
{
    a.wrapping_mul(b)
}

/// Stores the value in the cell that the index names, and does nothing where
/// the index names none.
pub fn write_memory(memory: &mut ScratchMemory, index: i32, value: i32)
    ensures
        final(memory)@ == written(old(memory)@, index, value),
        final(memory)@.len() == SCRATCH_CELLS,
{
    if index >= 0 && (index as usize) < SCRATCH_CELLS {
        memory.cells[index as usize] = value;
    }
}

/// The value of the cell that the index names, and zero where the index
/// names none.
pub fn read_memory(memory: &ScratchMemory, index: i32) -> (value: i32)
    ensures
        value == read(memory@, index),
{
    if index >= 0 && (index as usize) < SCRATCH_CELLS {
        memory.cells[index as usize]
    } else {
        0
    }
}

/// Adds up the integers below one million, one by one, wrapping to 32 bits.
pub fn long_running_task() -> (sum: i32)
    ensures
        sum == signed_crop(sum_below(LONG_TASK_TERMS as int)),
        sum == 1783293664,
{
    let mut sum: i32 = 0;
    let mut i: i32 = 0;
    while i < LONG_TASK_TERMS
        invariant
            0 <= i <= LONG_TASK_TERMS,
            sum == signed_crop(sum_below(i as int)),
        decreases LONG_TASK_TERMS - i,
    {
        proof {
            lemma_crop_add(sum_below(i as int), i as int);
        }
        sum = sum.wrapping_add(i);
        i += 1;
    }
    proof {
        lemma_sum_below(1000000);
        assert(1000000int * 999999 == 2 * 499999500000);
        assert(499999500000int == 116 * 0x1_0000_0000 + 1783293664);
    }
    sum
}

/// A value that was written is read back from the same cell, and every
/// other cell reads as before; a write outside the cells changes no read.
pub proof fn lemma_written_value_is_read_back(cells: Seq<i32>, index: i32, value: i32, other: i32)
    requires
        cells.len() == SCRATCH_CELLS,
    ensures
        in_scratch(index) ==> read(written(cells, index, value), index) == value,
        other != index ==> read(written(cells, index, value), other) == read(cells, other),
        !in_scratch(index) ==> written(cells, index, value) == cells,
        written(cells, index, value).len() == SCRATCH_CELLS,
{
}

/// Twice the sum of the integers below `n` is `n` times `n - 1`.
pub proof fn lemma_sum_below(n: int)
    requires
        0 <= n,
    ensures
        2 * sum_below(n) == n * (n - 1),
    decreases n,
{
    if n > 0 {
        let m = n - 1;
        lemma_sum_below(m);
        assert(n * (n - 1) == m * (m - 1) + 2 * m) by (nonlinear_arith)
            requires
                m == n - 1,
        ;
    } else {
        assert(n * (n - 1) == 0) by (nonlinear_arith)
            requires
                n == 0,
        ;
    }
}

/// Wrapping before an addition changes nothing in the wrapped sum.
proof fn lemma_crop_add(x: int, y: int)
    requires
        i32::MIN <= y <= i32::MAX,
    ensures
        vstd::wrapping::i32_specs::wrapping_add(signed_crop(x), y as i32) == signed_crop(x + y),
{
    vstd::arithmetic::div_mod::lemma_add_mod_noop(x, y, 0x1_0000_0000);
    vstd::arithmetic::div_mod::lemma_mod_bound(x, 0x1_0000_0000);
    vstd::arithmetic::div_mod::lemma_mod_bound(y, 0x1_0000_0000);
    vstd::arithmetic::div_mod::lemma_mod_bound(x + y, 0x1_0000_0000);
}

} // verus!
