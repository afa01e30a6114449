//! Creating instances and logical devices: what is checked of the creation
//! info, and how queues are asked for and found again.

use vstd::prelude::*;

use crate::extensions::{
    all_supported,
    check_extensions,
    device_extension_names,
    device_extension_names_spec,
    instance_extension_names,
    instance_extension_names_spec,
    Platform,
};
use crate::instance::is_api_version_supported;
use crate::vk_enums::VkResult;

verus! {

/// Whether an application that names `api_version` may create an instance
/// (see `is_api_version_supported`).
pub open spec fn version_ok(api_version: Option<u32>) -> bool {
    match api_version {
        Some(v) => v >> 12u32 == 0 || v >> 12u32 == 0x400,
        None => true,
    }
}

/// The checks of instance creation: an API version that the application
/// names must be supported (else the driver is incompatible); then every
/// extension it enables must be one the platform offers (else the extension
/// is not present). On success, the names of the enabled extensions.
pub fn check_instance_creation(
    api_version: Option<u32>,
    platform: Platform,
    requested: &Vec<Vec<u8>>,
) -> (r: Result<Vec<Vec<u8>>, VkResult>)
    ensures
        !version_ok(api_version) ==> r == Err::<Vec<Vec<u8>>, VkResult>(
            VkResult::VK_ERROR_INCOMPATIBLE_DRIVER,
        ),
        version_ok(api_version) && !all_supported(
            requested.deep_view(),
            instance_extension_names_spec(platform),
        ) ==> r == Err::<Vec<Vec<u8>>, VkResult>(VkResult::VK_ERROR_EXTENSION_NOT_PRESENT),
        version_ok(api_version) && all_supported(
            requested.deep_view(),
            instance_extension_names_spec(platform),
        ) ==> (r matches Ok(v) && v.deep_view() == requested.deep_view()),
{
    match api_version {
        Some(v) => {
            if !is_api_version_supported(v) {
                return Err(VkResult::VK_ERROR_INCOMPATIBLE_DRIVER);
            }
        },
        None => {},
    }
    let supported = instance_extension_names(platform);
    match check_extensions(&supported, requested) {
        Ok(enabled) => Ok(enabled),
        Err(()) => Err(VkResult::VK_ERROR_EXTENSION_NOT_PRESENT),
    }
}

/// The extension check of device creation: every extension the application
/// enables must be a device extension of the portability layer.
pub fn check_device_extensions(requested: &Vec<Vec<u8>>) -> (r: Result<Vec<Vec<u8>>, VkResult>)
    ensures
        !all_supported(requested.deep_view(), device_extension_names_spec()) ==> r == Err::<
            Vec<Vec<u8>>,
            VkResult,
        >(VkResult::VK_ERROR_EXTENSION_NOT_PRESENT),
        all_supported(requested.deep_view(), device_extension_names_spec()) ==> (r matches Ok(v)
            && v.deep_view() == requested.deep_view()),
{
    let supported = device_extension_names();
    match check_extensions(&supported, requested) {
        Ok(enabled) => Ok(enabled),
        Err(()) => Err(VkResult::VK_ERROR_EXTENSION_NOT_PRESENT),
    }
}

/// The largest of a list of queue counts, zero for none.
pub open spec fn max_count(counts: Seq<u32>) -> nat
    decreases counts.len(),
{
    if counts.len() == 0 {
        0
    } else {
        let rest = max_count(counts.drop_last());
        if counts.last() > rest {
            counts.last() as nat
        } else {
            rest
        }
    }
}

proof fn lemma_max_count_bound(counts: Seq<u32>)
    ensures
        max_count(counts) <= u32::MAX,
        forall|i: int| 0 <= i < counts.len() ==> #[trigger] counts[i] <= max_count(counts),
        counts.len() > 0 ==> exists|i: int| 0 <= i < counts.len() && counts[i] == max_count(counts),
    decreases counts.len(),
{
    if counts.len() > 0 {
        lemma_max_count_bound(counts.drop_last());
        assert forall|i: int| 0 <= i < counts.len() implies #[trigger] counts[i] <= max_count(counts) by {
            if i < counts.len() - 1 {
                assert(counts[i] == counts.drop_last()[i]);
            }
        }
        if counts.last() > max_count(counts.drop_last()) {
            assert(counts[counts.len() - 1] == max_count(counts));
        } else if counts.len() > 1 {
            let j = choose|j: int|
                0 <= j < counts.drop_last().len() && counts.drop_last()[j] == max_count(
                    counts.drop_last(),
                );
            assert(counts[j] == max_count(counts));
        } else {
            assert(max_count(counts.drop_last()) == 0);
            assert(counts[0] == max_count(counts));
        }
    }
}

/// The number of queue priorities that device creation sets up: as many as
/// the largest number of queues asked for in one family (every priority is
/// the same).
pub fn max_queue_count(counts: &[u32]) -> (r: usize)
    ensures
        r == max_count(counts@),
        forall|i: int| 0 <= i < counts@.len() ==> #[trigger] counts@[i] <= r,
{
    proof {
        lemma_max_count_bound(counts@);
    }
    let mut best: u32 = 0;
    let mut i: usize = 0;
    while i < counts.len()
        invariant
            i <= counts@.len(),
            best == max_count(counts@.take(i as int)),
        decreases counts@.len() - i,
    {
        proof {
            assert(counts@.take(i + 1).drop_last() =~= counts@.take(i as int));
            assert(counts@.take(i + 1).last() == counts@[i as int]);
        }
        if counts[i] > best {
            best = counts[i];
        }
        i = i + 1;
    }
    assert(counts@.take(counts@.len() as int) =~= counts@);
    best as usize
}

/// Finds the queue group of a family among the groups of a new device (by
/// their families): the first one of that family.
pub fn find_queue_group(group_families: &[usize], family: usize) -> (r: Option<usize>)
    ensures
        r matches Some(i) ==> i < group_families@.len() && group_families@[i as int] == family
            && forall|j: int| 0 <= j < i ==> group_families@[j] != family,
        r is None ==> forall|j: int| 0 <= j < group_families@.len() ==> group_families@[j] != family,
{
    let mut i: usize = 0;
    while i < group_families.len()
        invariant
            i <= group_families@.len(),
            forall|j: int| 0 <= j < i ==> group_families@[j] != family,
        decreases group_families@.len() - i,
    {
        if group_families[i] == family {
            return Some(i);
        }
        i = i + 1;
    }
    None
}

} // verus!
