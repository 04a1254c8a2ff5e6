//! Sizing of the heap arena inside the memory range that the linker reserves.

use vstd::prelude::*;

verus! {

/// Number of bytes that the heap arena occupies.
pub const HEAP_SIZE: usize = 32768;

/// The byte range that is handed to the allocator.
#[derive(Clone, Copy, Debug, PartialEq, Eq)]
pub struct HeapArena {
    pub start: usize,
    pub size: usize,
}

/// Why no arena can be installed.
#[derive(Clone, Copy, Debug, PartialEq, Eq)]
pub enum HeapError {
    /// The reserved region holds fewer bytes than the arena needs.
    NotEnoughMemory { available: usize },
}

/// Bytes between the two addresses; an end below the start leaves none.
pub open spec fn region_span(heap_start: int, heap_end: int) -> int {
    if heap_end >= heap_start {
        heap_end - heap_start
    } else {
        0
    }
}

/// Whether the reserved region can hold the arena.
pub open spec fn region_fits(heap_start: int, heap_end: int) -> bool {
    region_span(heap_start, heap_end) >= HEAP_SIZE
}

/// What `plan_heap` answers for a reserved region.
pub open spec fn heap_plan(heap_start: usize, heap_end: usize) -> Result<HeapArena, HeapError> {
    if region_fits(heap_start as int, heap_end as int) {
        Ok(HeapArena { start: heap_start, size: HEAP_SIZE })
    } else {
        Err(HeapError::NotEnoughMemory {
            available: region_span(heap_start as int, heap_end as int) as usize,
        })
    }
}

impl HeapArena {
    /// The arena lies inside the reserved region.
    pub open spec fn within(&self, heap_start: int, heap_end: int) -> bool {
        heap_start <= self.start && self.start + self.size <= heap_end
    }

    /// First address past the arena.
    pub fn end(&self) -> (e: Option<usize>)
        ensures
            e == (if self.start + self.size <= usize::MAX {
                Some((self.start + self.size) as usize)
            } else {
                None::<usize>
            }),
    {
        self.start.checked_add(self.size)
    }
}

impl HeapError {
    /// The diagnostic that accompanies the failure.
    pub fn message(&self) -> (m: &'static str)
        ensures
            m@ == "Not enough available heap memory."@,
    {
        "Not enough available heap memory."
    }
}

/// Bytes available between the two linker addresses.
pub fn available_span(heap_start: usize, heap_end: usize) -> (span: usize)
    ensures
        span == region_span(heap_start as int, heap_end as int),
{
    if heap_end >= heap_start {
        heap_end - heap_start
    } else {
        0
    }
}

/// Decides whether the arena fits the reserved region and, if so, where it
/// lies: at the region's start, `HEAP_SIZE` bytes long.
pub fn plan_heap(heap_start: usize, heap_end: usize) -> (plan: Result<HeapArena, HeapError>)
    ensures
        plan == heap_plan(heap_start, heap_end),
        plan is Ok <==> region_fits(heap_start as int, heap_end as int),
        plan matches Ok(arena) ==> arena.within(heap_start as int, heap_end as int),
{
    let available: usize = available_span(heap_start, heap_end);
    if available >= HEAP_SIZE {
        Ok(HeapArena { start: heap_start, size: HEAP_SIZE })
    } else {
        Err(HeapError::NotEnoughMemory { available })
    }
}

/// A region of exactly the arena's size is accepted, and one that is a single
/// byte shorter is refused.
pub proof fn lemma_heap_boundary(heap_start: usize)
    requires
        heap_start + HEAP_SIZE <= usize::MAX,
    ensures
        heap_plan(heap_start, (heap_start + HEAP_SIZE) as usize) == Ok::<HeapArena, HeapError>(
            HeapArena { start: heap_start, size: HEAP_SIZE },
        ),
        heap_plan(heap_start, (heap_start + HEAP_SIZE - 1) as usize) == Err::<
            HeapArena,
            HeapError,
        >(HeapError::NotEnoughMemory { available: (HEAP_SIZE - 1) as usize }),
{
}

/// Whether a region is accepted depends on its length alone: it is accepted
/// exactly when it holds at least `HEAP_SIZE` bytes.
pub proof fn lemma_heap_threshold(heap_start: usize, heap_end: usize)
    ensures
        heap_plan(heap_start, heap_end) is Ok <==> heap_end - heap_start >= HEAP_SIZE,
{
}

} // verus!
