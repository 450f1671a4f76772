//! Memory layout of one task allocation: header, then scheduler, then status,
//! each at an offset honouring its alignment.

use vstd::arithmetic::div_mod::{lemma_add_mod_noop, lemma_mod_self_0, lemma_small_mod};
use vstd::layout::valid_layout;
use vstd::prelude::*;

verus! {

/// Size and alignment of one field of the allocation.
#[derive(Clone, Copy, Debug, PartialEq, Eq, Structural)]
pub struct FieldLayout {
    /// Size of the field in bytes.
    pub size: usize,
    /// Alignment requirement of the field in bytes; a power of two.
    pub align: usize,
}

/// `size` rounded up to the next multiple of `align`.
pub open spec fn round_up(size: int, align: int) -> int
    recommends
        align >= 1,
{
    size + ((align - size % align) % align)
}

impl FieldLayout {
    /// A size/alignment pair the allocator accepts: the alignment is a power
    /// of two and the rounded-up size stays within an allocation's bounds.
    pub open spec fn wf(&self) -> bool {
        valid_layout(self.size, self.align)
    }

    /// The size and alignment of the type `T`.
    pub open spec fn spec_of<T>() -> FieldLayout {
        FieldLayout {
            size: vstd::layout::size_of::<T>() as usize,
            align: vstd::layout::align_of::<T>() as usize,
        }
    }

    /// Reads the size and alignment of the type `T`.
    pub fn of<T>() -> (r: FieldLayout)
        ensures
            r == FieldLayout::spec_of::<T>(),
            r.size == vstd::layout::size_of::<T>(),
            r.align == vstd::layout::align_of::<T>(),
            r.wf(),
    {
        vstd::layout::layout_for_type_is_valid::<T>();
        FieldLayout { size: core::mem::size_of::<T>(), align: core::mem::align_of::<T>() }
    }
}

/// A power of two is at least one.
proof fn lemma_pow2_at_least_one(n: int)
    requires
        vstd::arithmetic::power2::is_pow2(n),
    ensures
        n >= 1,
{
    reveal(vstd::arithmetic::power2::is_pow2);
}

/// Memory layout of a whole task allocation: its combined size and alignment,
/// and the byte offsets of the scheduler field and the status field relative
/// to the allocation base. The header sits at offset zero.
#[derive(Clone, Copy, Debug, PartialEq, Eq, Structural)]
pub struct TaskLayout {
    /// Total size of the allocation in bytes.
    pub size: usize,
    /// Alignment of the allocation: the largest of the field alignments.
    pub align: usize,
    /// Byte offset of the embedded scheduler instance.
    pub offset_schedule: usize,
    /// Byte offset of the status cell.
    pub offset_status: usize,
}

/// Offset of the scheduler field: the header's size rounded up to the
/// scheduler's alignment.
pub open spec fn combined_offset_schedule(header: FieldLayout, schedule: FieldLayout) -> int {
    round_up(header.size as int, schedule.align as int)
}

/// Offset of the status field: the end of the scheduler field rounded up to
/// the status cell's alignment.
pub open spec fn combined_offset_status(
    header: FieldLayout,
    schedule: FieldLayout,
    status: FieldLayout,
) -> int {
    round_up(
        combined_offset_schedule(header, schedule) + schedule.size,
        status.align as int,
    )
}

/// Total size of the allocation: the end of the status field.
pub open spec fn combined_size(
    header: FieldLayout,
    schedule: FieldLayout,
    status: FieldLayout,
) -> int {
    combined_offset_status(header, schedule, status) + status.size
}

/// Alignment of the allocation: the largest of the three field alignments.
pub open spec fn combined_align(
    header: FieldLayout,
    schedule: FieldLayout,
    status: FieldLayout,
) -> int {
    let a = if schedule.align > header.align {
        schedule.align
    } else {
        header.align
    };
    if status.align > a {
        status.align as int
    } else {
        a as int
    }
}

/// Whether the combined allocation stays within the allocator's bounds. When
/// it does not, computing the layout fails, which the task core treats as a
/// fatal condition.
pub open spec fn combined_fits(
    header: FieldLayout,
    schedule: FieldLayout,
    status: FieldLayout,
) -> bool {
    combined_size(header, schedule, status) <= isize::MAX as int - (isize::MAX as int % combined_align(
        header,
        schedule,
        status,
    ))
}

/// The one task layout determined by the three field layouts.
pub open spec fn combined_layout(
    header: FieldLayout,
    schedule: FieldLayout,
    status: FieldLayout,
) -> TaskLayout {
    TaskLayout {
        size: combined_size(header, schedule, status) as usize,
        align: combined_align(header, schedule, status) as usize,
        offset_schedule: combined_offset_schedule(header, schedule) as usize,
        offset_status: combined_offset_status(header, schedule, status) as usize,
    }
}

/// What computing the task layout for the given field layouts must return:
/// the combined layout exactly when it fits, and nothing otherwise.
pub open spec fn computes_to(
    header: FieldLayout,
    schedule: FieldLayout,
    status: FieldLayout,
    r: Option<TaskLayout>,
) -> bool {
    &&& (r is Some) <==> combined_fits(header, schedule, status)
    &&& (r matches Some(l) ==> l == combined_layout(header, schedule, status))
}

/// Rounds `size` up to the next multiple of `align`, unless the result would
/// not fit in a `usize`.
fn checked_round_up(size: usize, align: usize) -> (r: Option<usize>)
    requires
        align >= 1,
    ensures
        (r is Some) <==> round_up(size as int, align as int) <= usize::MAX,
        r matches Some(v) ==> {
            &&& v == round_up(size as int, align as int)
            &&& v >= size
            &&& v as int % align as int == 0
        },
{
    let rem = size % align;
    if rem == 0 {
        proof {
            lemma_mod_self_0(align as int);
        }
        Some(size)
    } else {
        let pad = align - rem;
        proof {
            lemma_small_mod((align - rem) as nat, align as nat);
            lemma_add_mod_noop(size as int, pad as int, align as int);
            lemma_mod_self_0(align as int);
        }
        size.checked_add(pad)
    }
}

impl TaskLayout {
    /// Computes the layout of one allocation holding a header, a scheduler
    /// and a status cell, in that order, each field at the first offset that
    /// honours its alignment. The same field layouts always produce the same
    /// result; `None` means the combined allocation would exceed the
    /// allocator's bounds, a fatal condition for the task core.
    pub fn compute(
        header: FieldLayout,
        schedule: FieldLayout,
        status: FieldLayout,
    ) -> (r: Option<TaskLayout>)
        requires
            header.wf(),
            schedule.wf(),
            status.wf(),
        ensures
            computes_to(header, schedule, status, r),
            r matches Some(l) ==> {
                &&& valid_layout(l.size, l.align)
                &&& l.offset_schedule as int % (schedule.align as int) == 0
                &&& l.offset_status as int % (status.align as int) == 0
                &&& header.size <= l.offset_schedule
                &&& l.offset_schedule + schedule.size <= l.offset_status
                &&& l.offset_status + status.size <= l.size
            },
    {
        proof {
            lemma_pow2_at_least_one(header.align as int);
            lemma_pow2_at_least_one(schedule.align as int);
            lemma_pow2_at_least_one(status.align as int);
        }
        let offset_schedule = match checked_round_up(header.size, schedule.align) {
            Some(v) => v,
            None => {
                return None;
            },
        };
        let schedule_end = match offset_schedule.checked_add(schedule.size) {
            Some(v) => v,
            None => {
                return None;
            },
        };
        let offset_status = match checked_round_up(schedule_end, status.align) {
            Some(v) => v,
            None => {
                return None;
            },
        };
        let size = match offset_status.checked_add(status.size) {
            Some(v) => v,
            None => {
                return None;
            },
        };
        let mut align = header.align;
        if schedule.align > align {
            align = schedule.align;
        }
        if status.align > align {
            align = status.align;
        }
        let bound = isize::MAX as usize;
        if size <= bound - bound % align {
            Some(TaskLayout { size, align, offset_schedule, offset_status })
        } else {
            None
        }
    }
}

/// Law (layout determinism): the task layout is a function of the three field
/// layouts alone. Any two computations for the same fields return the same
/// size and the same offsets.
pub proof fn lemma_layout_deterministic(
    header: FieldLayout,
    schedule: FieldLayout,
    status: FieldLayout,
    r1: Option<TaskLayout>,
    r2: Option<TaskLayout>,
)
    requires
        computes_to(header, schedule, status, r1),
        computes_to(header, schedule, status, r2),
    ensures
        r1 == r2,
{
    if combined_fits(header, schedule, status) {
        assert(r1 == Some(combined_layout(header, schedule, status)));
        assert(r2 == Some(combined_layout(header, schedule, status)));
    }
}

} // verus!
