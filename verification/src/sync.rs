//! Synchronization and submission: fences, events, query results, and how
//! the submissions of a queue are put together.

use vstd::prelude::*;

use crate::conv::VK_FALSE;
use crate::hal::device::OomOrDeviceLost;
use crate::hal::pso::PipelineStage;
use crate::instance::{map_oom, oom_spec};
use crate::render_pass::pipeline_stage_spec;
use crate::conv::map_pipeline_stage_flags;
use crate::vk_enums::{VkFenceCreateFlagBits, VkResult};
use crate::vk_structs::{VkBool32, VkPipelineStageFlags};

verus! {

// ---------------------------------------------------------------------------
// Fences.

/// Whether a fence is created signaled.
pub fn fence_signaled(flags: u32) -> (r: bool)
    ensures
        r == (flags & VkFenceCreateFlagBits::VK_FENCE_CREATE_SIGNALED_BIT.value() != 0),
{
    flags & VkFenceCreateFlagBits::VK_FENCE_CREATE_SIGNALED_BIT.as_raw() != 0
}

/// The status of a fence. A fake fence (one handed to an acquire of a
/// swapchain image, which the portability layer does not signal) is always
/// signaled, and the device is not asked; otherwise the device's answer.
pub open spec fn fence_status_spec(is_fake: bool, status: Result<bool, ()>) -> VkResult {
    if is_fake {
        VkResult::VK_SUCCESS
    } else {
        match status {
            Ok(true) => VkResult::VK_SUCCESS,
            Ok(false) => VkResult::VK_NOT_READY,
            Err(_) => VkResult::VK_ERROR_DEVICE_LOST,
        }
    }
}

pub fn fence_status(is_fake: bool, status: Result<bool, ()>) -> (r: VkResult)
    ensures
        r == fence_status_spec(is_fake, status),
{
    if is_fake {
        VkResult::VK_SUCCESS
    } else {
        match status {
            Ok(true) => VkResult::VK_SUCCESS,
            Ok(false) => VkResult::VK_NOT_READY,
            Err(_) => VkResult::VK_ERROR_DEVICE_LOST,
        }
    }
}

/// The indices of the fences that are not fake, in order.
pub open spec fn real_fences(fakes: Seq<bool>) -> Seq<usize>
    decreases fakes.len(),
{
    if fakes.len() == 0 {
        Seq::empty()
    } else {
        let rest = real_fences(fakes.drop_last());
        if fakes.last() {
            rest
        } else {
            rest.push((fakes.len() - 1) as usize)
        }
    }
}

/// How a wait for fences goes: done at once, a wait on one fence, or a wait
/// on several (for all of them or for any).
#[derive(Clone, Debug)]
pub enum WaitPlan {
    Done,
    One(usize),
    Many(Vec<usize>, bool),
}

pub open spec fn all_fake(fakes: Seq<bool>) -> bool {
    forall|i: int| 0 <= i < fakes.len() ==> #[trigger] fakes[i]
}

/// The plan of a wait for fences (given by whether each is fake): with no
/// fence, done; with one real fence, a wait on it; otherwise done if every
/// fence is fake, else a wait on the real ones, for all of them unless
/// `wait_all` is false.
pub fn wait_plan(fakes: &[bool], wait_all: VkBool32) -> (r: WaitPlan)
    ensures
        fakes@.len() == 0 ==> r is Done,
        fakes@.len() == 1 && !fakes@[0] ==> r == WaitPlan::One(0),
        fakes@.len() >= 1 && !(fakes@.len() == 1 && !fakes@[0]) && all_fake(fakes@) ==> r is Done,
        fakes@.len() >= 1 && !(fakes@.len() == 1 && !fakes@[0]) && !all_fake(fakes@) ==> (
        r matches WaitPlan::Many(v, all) && v@ == real_fences(fakes@) && all == (wait_all
            != VK_FALSE)),
{
    if fakes.len() == 0 {
        return WaitPlan::Done;
    }
    if fakes.len() == 1 && !fakes[0] {
        return WaitPlan::One(0);
    }
    let mut reals: Vec<usize> = Vec::new();
    let mut i: usize = 0;
    while i < fakes.len()
        invariant
            i <= fakes@.len(),
            reals@ == real_fences(fakes@.take(i as int)),
            reals@.len() == 0 <==> all_fake(fakes@.take(i as int)),
        decreases fakes@.len() - i,
    {
        proof {
            assert(fakes@.take(i + 1).drop_last() =~= fakes@.take(i as int));
            assert(fakes@.take(i + 1).last() == fakes@[i as int]);
        }
        if !fakes[i] {
            reals.push(i);
        }
        proof {
            if !fakes@[i as int] {
                assert(!fakes@.take(i + 1)[i as int]);
            } else {
                assert(all_fake(fakes@.take(i as int)) ==> all_fake(fakes@.take(i + 1))) by {
                    if all_fake(fakes@.take(i as int)) {
                        assert forall|k: int| 0 <= k < i + 1 implies #[trigger] fakes@.take(
                            i + 1,
                        )[k] by {
                            if k < i {
                                assert(fakes@.take(i + 1)[k] == fakes@.take(i as int)[k]);
                            }
                        }
                    }
                }
                assert(all_fake(fakes@.take(i + 1)) ==> all_fake(fakes@.take(i as int))) by {
                    if all_fake(fakes@.take(i + 1)) {
                        assert forall|k: int| 0 <= k < i implies #[trigger] fakes@.take(i as int)[k] by {
                            assert(fakes@.take(i + 1)[k]);
                        }
                    }
                }
            }
        }
        i = i + 1;
    }
    assert(fakes@.take(fakes@.len() as int) =~= fakes@);
    if reals.len() == 0 {
        WaitPlan::Done
    } else {
        WaitPlan::Many(reals, wait_all != VK_FALSE)
    }
}

/// The Vulkan result of a wait: success when the fences were signaled, a
/// timeout when not in time, or the error.
pub open spec fn wait_result_spec(r: Result<bool, OomOrDeviceLost>) -> VkResult {
    match r {
        Ok(true) => VkResult::VK_SUCCESS,
        Ok(false) => VkResult::VK_TIMEOUT,
        Err(OomOrDeviceLost::OutOfMemory(oom)) => oom_spec(oom),
        Err(OomOrDeviceLost::DeviceLost) => VkResult::VK_ERROR_DEVICE_LOST,
    }
}

pub fn wait_result(r: Result<bool, OomOrDeviceLost>) -> (v: VkResult)
    ensures
        v == wait_result_spec(r),
{
    match r {
        Ok(true) => VkResult::VK_SUCCESS,
        Ok(false) => VkResult::VK_TIMEOUT,
        Err(OomOrDeviceLost::OutOfMemory(oom)) => map_oom(oom),
        Err(OomOrDeviceLost::DeviceLost) => VkResult::VK_ERROR_DEVICE_LOST,
    }
}

// ---------------------------------------------------------------------------
// Events and queries.

/// The Vulkan status of an event: set or reset, or the error.
pub open spec fn event_status_spec(r: Result<bool, OomOrDeviceLost>) -> VkResult {
    match r {
        Ok(true) => VkResult::VK_EVENT_SET,
        Ok(false) => VkResult::VK_EVENT_RESET,
        Err(OomOrDeviceLost::OutOfMemory(oom)) => oom_spec(oom),
        Err(OomOrDeviceLost::DeviceLost) => VkResult::VK_ERROR_DEVICE_LOST,
    }
}

pub fn event_status(r: Result<bool, OomOrDeviceLost>) -> (v: VkResult)
    ensures
        v == event_status_spec(r),
{
    match r {
        Ok(true) => VkResult::VK_EVENT_SET,
        Ok(false) => VkResult::VK_EVENT_RESET,
        Err(OomOrDeviceLost::OutOfMemory(oom)) => map_oom(oom),
        Err(OomOrDeviceLost::DeviceLost) => VkResult::VK_ERROR_DEVICE_LOST,
    }
}

/// The Vulkan result of reading query results: success when all were
/// available, not ready otherwise, and out of device memory on any error.
pub fn query_results_status(r: Result<bool, OomOrDeviceLost>) -> (v: VkResult)
    ensures
        r == Ok::<bool, OomOrDeviceLost>(true) ==> v == VkResult::VK_SUCCESS,
        r == Ok::<bool, OomOrDeviceLost>(false) ==> v == VkResult::VK_NOT_READY,
        r is Err ==> v == VkResult::VK_ERROR_OUT_OF_DEVICE_MEMORY,
{
    match r {
        Ok(true) => VkResult::VK_SUCCESS,
        Ok(false) => VkResult::VK_NOT_READY,
        Err(_) => VkResult::VK_ERROR_OUT_OF_DEVICE_MEMORY,
    }
}

// ---------------------------------------------------------------------------
// Submissions.

/// The semaphores of a submit info: whether each semaphore it waits on is
/// fake, with the stages that wait on it, and whether each semaphore it
/// signals is fake.
#[derive(Clone, Debug)]
pub struct SubmitWaits {
    pub fakes: Vec<bool>,
    pub stages: Vec<VkPipelineStageFlags>,
    pub signal_fakes: Vec<bool>,
}

/// A submission to a queue: the semaphores it waits on (by index, with the
/// stages that wait), whether the fence goes with it, and whether each
/// semaphore it signals is fake afterwards.
#[derive(Clone, Debug)]
pub struct Submission {
    pub waits: Vec<(usize, PipelineStage)>,
    pub with_fence: bool,
    pub signal_fakes: Vec<bool>,
}

/// Fake flags of which none is set.
pub open spec fn all_real(n: nat) -> Seq<bool> {
    Seq::new(n, |i: int| false)
}

/// The fake flags of fences or semaphores after a submission signals them,
/// or after they are reset: none of them is fake any more.
pub fn made_real(fakes: &[bool]) -> (r: Vec<bool>)
    ensures
        r@ == all_real(fakes@.len()),
{
    let mut out: Vec<bool> = Vec::new();
    let mut i: usize = 0;
    while i < fakes.len()
        invariant
            i <= fakes@.len(),
            out@ == all_real(i as nat),
        decreases fakes@.len() - i,
    {
        out.push(false);
        i = i + 1;
        assert(out@ =~= all_real(i as nat));
    }
    out
}

/// The waits of a submission over its first `n` semaphores: each real one,
/// in order, with its stages mapped. A fake semaphore (one handed to an
/// acquire of a swapchain image and not signaled since) is not waited on.
pub open spec fn waits_spec(fakes: Seq<bool>, stages: Seq<u32>, n: int) -> Seq<(usize, PipelineStage)>
    decreases n,
{
    if n <= 0 {
        Seq::empty()
    } else {
        let rest = waits_spec(fakes, stages, n - 1);
        if fakes[n - 1] {
            rest
        } else {
            rest.push(((n - 1) as usize, pipeline_stage_spec(stages[n - 1])))
        }
    }
}

/// The number of semaphore waits a submission describes: the shorter of
/// its two lists.
pub open spec fn wait_count(w: SubmitWaits) -> int {
    if w.fakes@.len() < w.stages@.len() {
        w.fakes@.len() as int
    } else {
        w.stages@.len() as int
    }
}

fn submission_waits(w: &SubmitWaits) -> (r: Vec<(usize, PipelineStage)>)
    ensures
        r@ == waits_spec(w.fakes@, w.stages@, wait_count(*w)),
{
    let n = if w.fakes.len() < w.stages.len() {
        w.fakes.len()
    } else {
        w.stages.len()
    };
    let mut out: Vec<(usize, PipelineStage)> = Vec::new();
    let mut i: usize = 0;
    while i < n
        invariant
            i <= n,
            n == wait_count(*w),
            n <= w.fakes@.len(),
            n <= w.stages@.len(),
            out@ == waits_spec(w.fakes@, w.stages@, i as int),
        decreases n - i,
    {
        if !w.fakes[i] {
            let stage = map_pipeline_stage_flags(w.stages[i]);
            out.push((i, stage));
        }
        i = i + 1;
    }
    out
}

/// The submissions for a queue submit: one per submit info, in order, the
/// fence going with the last, and every semaphore a submission signals real
/// afterwards; where there is no submit info, a single empty submission
/// carries the fence.
pub fn submissions(infos: &[SubmitWaits]) -> (r: Vec<Submission>)
    ensures
        infos@.len() == 0 ==> r@.len() == 1 && r@[0].waits@.len() == 0 && r@[0].with_fence
            && r@[0].signal_fakes@.len() == 0,
        infos@.len() > 0 ==> r@.len() == infos@.len(),
        forall|i: int|
            0 <= i < infos@.len() ==> (#[trigger] r@[i]).waits@ == waits_spec(
                infos@[i].fakes@,
                infos@[i].stages@,
                wait_count(infos@[i]),
            ) && r@[i].with_fence == (i + 1 == infos@.len()) && r@[i].signal_fakes@ == all_real(
                infos@[i].signal_fakes@.len(),
            ),
{
    let mut out: Vec<Submission> = Vec::new();
    if infos.len() == 0 {
        out.push(Submission { waits: Vec::new(), with_fence: true, signal_fakes: Vec::new() });
        return out;
    }
    let mut i: usize = 0;
    while i < infos.len()
        invariant
            i <= infos@.len(),
            out@.len() == i,
            forall|k: int|
                0 <= k < i ==> (#[trigger] out@[k]).waits@ == waits_spec(
                    infos@[k].fakes@,
                    infos@[k].stages@,
                    wait_count(infos@[k]),
                ) && out@[k].with_fence == (k + 1 == infos@.len()) && out@[k].signal_fakes@ == all_real(
                    infos@[k].signal_fakes@.len(),
                ),
        decreases infos@.len() - i,
    {
        let waits = submission_waits(&infos[i]);
        let signal_fakes = made_real(infos[i].signal_fakes.as_slice());
        out.push(Submission { waits, with_fence: i + 1 == infos.len(), signal_fakes });
        i = i + 1;
    }
    out
}

} // verus!
