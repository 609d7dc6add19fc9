//! Sizes and addresses computed while filling buffers and descriptor heaps.
use vstd::prelude::*;

verus! {

/// Size in bytes of a buffer of `count` elements of `element_size` bytes;
/// `None` when it does not fit the 32-bit size field of a buffer view.
pub fn buffer_size_in_bytes(count: usize, element_size: usize) -> (r: Option<u32>)
    ensures
        r is Some <==> count * element_size <= u32::MAX,
        r matches Some(n) ==> n == count * element_size,
{
    if element_size == 0 {
        assert(count * element_size == 0) by (nonlinear_arith)
            requires element_size == 0;
        return Some(0);
    }
    if count > u32::MAX as usize / element_size {
        assert(count * element_size > u32::MAX) by (nonlinear_arith)
            requires count > (u32::MAX as int) / (element_size as int), element_size > 0;
        return None;
    }
    assert(count * element_size <= u32::MAX) by (nonlinear_arith)
        requires count <= (u32::MAX as int) / (element_size as int), element_size > 0;
    Some((count * element_size) as u32)
}

/// Address of the descriptor `index` places after `start` in a heap whose
/// descriptors are `increment` bytes apart; `None` when it overflows.
pub fn descriptor_handle(start: usize, index: u32, increment: u32) -> (r: Option<usize>)
    ensures
        r is Some <==> start + index * increment <= usize::MAX,
        r matches Some(h) ==> h == start + index * increment,
{
    assert(index * increment <= u32::MAX * u32::MAX) by (nonlinear_arith)
        requires index <= u32::MAX, increment <= u32::MAX;
    let offset: u64 = index as u64 * increment as u64;
    if offset > usize::MAX as u64 {
        return None;
    }
    start.checked_add(offset as usize)
}

/// Addresses of `count` consecutive descriptors from `start`, `increment`
/// bytes apart, one for each back buffer; `None` when the last overflows.
pub fn back_buffer_handles(start: usize, count: u32, increment: u32) -> (r: Option<Vec<usize>>)
    ensures
        r is Some <==> (count == 0 || start + (count - 1) * increment <= usize::MAX),
        r matches Some(v) ==> {
            &&& v@.len() == count
            &&& forall|i: int| 0 <= i < count ==> v@[i] == start + i * increment
        },
{
    let mut out: Vec<usize> = Vec::new();
    let mut handle: usize = start;
    let mut i: u32 = 0;
    while i < count
        invariant
            i <= count,
            out@.len() == i,
            forall|j: int| 0 <= j < i ==> out@[j] == start + j * increment,
            i < count ==> handle == start + i * increment,
            i > 0 ==> start + (i - 1) * increment <= usize::MAX,
        decreases count - i,
    {
        out.push(handle);
        if i + 1 < count {
            match handle.checked_add(increment as usize) {
                Some(h) => {
                    assert(h == start + (i + 1) * increment) by (nonlinear_arith)
                        requires h == handle + increment, handle == start + i * increment;
                    handle = h;
                },
                None => {
                    assert(start + (count - 1) * increment > usize::MAX) by (nonlinear_arith)
                        requires
                            handle + increment > usize::MAX,
                            handle == start + i * increment,
                            i + 1 <= count - 1,
                            increment >= 0;
                    return None;
                },
            }
        }
        i += 1;
    }
    Some(out)
}

/// An integer rectangle, edges in pixels.
#[derive(Clone, Copy, Debug, PartialEq, Eq, Structural)]
pub struct Rect {
    pub left: i32,
    pub top: i32,
    pub right: i32,
    pub bottom: i32,
}

/// The scissor rectangle covering a `width` x `height` target from its
/// top-left corner.
pub fn set_scissor_rect(width: i32, height: i32) -> (r: Rect)
    ensures
        r == (Rect { left: 0, top: 0, right: width, bottom: height }),
{
    let left: i32 = 0;
    let top: i32 = 0;
    Rect { left, top, right: left + width, bottom: top + height }
}

} // verus!
