//! The extensions that the instance and devices offer, and the checks of the
//! extensions that an application enables.

use vstd::prelude::*;
use vstd::string::StringSliceAdditionalSpecFns;

verus! {

pub const VK_KHR_SURFACE_EXTENSION_NAME: &'static str = "VK_KHR_surface";
pub const VK_KHR_SURFACE_SPEC_VERSION: u32 = 25;
pub const VK_KHR_WIN32_SURFACE_EXTENSION_NAME: &'static str = "VK_KHR_win32_surface";
pub const VK_KHR_WIN32_SURFACE_SPEC_VERSION: u32 = 6;
pub const VK_EXT_METAL_SURFACE_EXTENSION_NAME: &'static str = "VK_EXT_metal_surface";
pub const VK_EXT_METAL_SURFACE_SPEC_VERSION: u32 = 1;
pub const VK_MVK_MACOS_SURFACE_EXTENSION_NAME: &'static str = "VK_MVK_macos_surface";
pub const VK_MVK_MACOS_SURFACE_SPEC_VERSION: u32 = 2;
pub const VK_KHR_GET_PHYSICAL_DEVICE_PROPERTIES_2_EXTENSION_NAME: &'static str =
    "VK_KHR_get_physical_device_properties2";
pub const VK_KHR_GET_PHYSICAL_DEVICE_PROPERTIES_2_SPEC_VERSION: u32 = 1;
pub const VK_KHR_GET_SURFACE_CAPABILITIES_2_EXTENSION_NAME: &'static str =
    "VK_KHR_get_surface_capabilities2";
pub const VK_KHR_SWAPCHAIN_EXTENSION_NAME: &'static str = "VK_KHR_swapchain";
pub const VK_KHR_SWAPCHAIN_SPEC_VERSION: u32 = 68;
pub const VK_KHR_MAINTENANCE1_EXTENSION_NAME: &'static str = "VK_KHR_maintenance1";
pub const VK_KHR_MAINTENANCE1_SPEC_VERSION: u32 = 1;
pub const VK_EXTX_PORTABILITY_SUBSET_EXTENSION_NAME: &'static str = "VK_EXTX_portability_subset";
pub const VK_EXTX_PORTABILITY_SUBSET_SPEC_VERSION: u32 = 1;

/// Whether two byte strings are equal.
pub fn bytes_eq(a: &[u8], b: &[u8]) -> (r: bool)
    ensures
        r == (a@ == b@),
{
    if a.len() != b.len() {
        return false;
    }
    let mut i: usize = 0;
    while i < a.len()
        invariant
            a@.len() == b@.len(),
            i <= a@.len(),
            forall|j: int| 0 <= j < i ==> a@[j] == b@[j],
        decreases a@.len() - i,
    {
        if a[i] != b[i] {
            return false;
        }
        i = i + 1;
    }
    assert(a@ =~= b@);
    true
}

/// Whether a list of names holds `name`.
pub fn contains_name(names: &Vec<Vec<u8>>, name: &[u8]) -> (r: bool)
    ensures
        r == names.deep_view().contains(name@),
{
    let mut i: usize = 0;
    while i < names.len()
        invariant
            i <= names@.len(),
            forall|j: int| 0 <= j < i ==> #[trigger] names@[j]@ != name@,
        decreases names@.len() - i,
    {
        if bytes_eq(names[i].as_slice(), name) {
            assert(names.deep_view()[i as int] == name@);
            return true;
        }
        i = i + 1;
    }
    proof {
        if names.deep_view().contains(name@) {
            let k = choose|k: int| 0 <= k < names.deep_view().len() && names.deep_view()[k] == name@;
            assert(names@[k]@ == name@);
        }
    }
    false
}

/// The platform that the portability layer is built for, as far as it
/// decides which surface extensions the instance offers.
#[derive(Clone, Copy, Debug, PartialEq, Eq, Structural)]
pub struct Platform {
    pub windows: bool,
    pub metal: bool,
    pub macos: bool,
}

/// The extensions that an application may enable on the instance.
pub open spec fn instance_extension_names_spec(p: Platform) -> Seq<&'static str> {
    seq![VK_KHR_SURFACE_EXTENSION_NAME] + (if p.windows {
        seq![VK_KHR_WIN32_SURFACE_EXTENSION_NAME]
    } else {
        seq![]
    }) + (if p.metal {
        seq![VK_EXT_METAL_SURFACE_EXTENSION_NAME]
    } else {
        seq![]
    }) + (if p.macos {
        seq![VK_MVK_MACOS_SURFACE_EXTENSION_NAME]
    } else {
        seq![]
    }) + seq![
        VK_KHR_GET_PHYSICAL_DEVICE_PROPERTIES_2_EXTENSION_NAME,
        VK_KHR_GET_SURFACE_CAPABILITIES_2_EXTENSION_NAME,
    ]
}

pub fn instance_extension_names(p: Platform) -> (r: Vec<&'static str>)
    ensures
        r@ == instance_extension_names_spec(p),
{
    let mut names: Vec<&'static str> = Vec::new();
    names.push(VK_KHR_SURFACE_EXTENSION_NAME);
    if p.windows {
        names.push(VK_KHR_WIN32_SURFACE_EXTENSION_NAME);
    }
    if p.metal {
        names.push(VK_EXT_METAL_SURFACE_EXTENSION_NAME);
    }
    if p.macos {
        names.push(VK_MVK_MACOS_SURFACE_EXTENSION_NAME);
    }
    names.push(VK_KHR_GET_PHYSICAL_DEVICE_PROPERTIES_2_EXTENSION_NAME);
    names.push(VK_KHR_GET_SURFACE_CAPABILITIES_2_EXTENSION_NAME);
    assert(names@ =~= instance_extension_names_spec(p));
    names
}

/// The extensions that the instance reports, with their versions: each
/// enabled-able extension but the last, which has no version to report.
pub open spec fn instance_extensions_spec(p: Platform) -> Seq<(&'static str, u32)> {
    seq![(VK_KHR_SURFACE_EXTENSION_NAME, VK_KHR_SURFACE_SPEC_VERSION)] + (if p.windows {
        seq![(VK_KHR_WIN32_SURFACE_EXTENSION_NAME, VK_KHR_WIN32_SURFACE_SPEC_VERSION)]
    } else {
        seq![]
    }) + (if p.metal {
        seq![(VK_EXT_METAL_SURFACE_EXTENSION_NAME, VK_EXT_METAL_SURFACE_SPEC_VERSION)]
    } else {
        seq![]
    }) + (if p.macos {
        seq![(VK_MVK_MACOS_SURFACE_EXTENSION_NAME, VK_MVK_MACOS_SURFACE_SPEC_VERSION)]
    } else {
        seq![]
    }) + seq![
        (
            VK_KHR_GET_PHYSICAL_DEVICE_PROPERTIES_2_EXTENSION_NAME,
            VK_KHR_GET_PHYSICAL_DEVICE_PROPERTIES_2_SPEC_VERSION,
        ),
    ]
}

pub fn instance_extensions(p: Platform) -> (r: Vec<(&'static str, u32)>)
    ensures
        r@ == instance_extensions_spec(p),
{
    let mut exts: Vec<(&'static str, u32)> = Vec::new();
    exts.push((VK_KHR_SURFACE_EXTENSION_NAME, VK_KHR_SURFACE_SPEC_VERSION));
    if p.windows {
        exts.push((VK_KHR_WIN32_SURFACE_EXTENSION_NAME, VK_KHR_WIN32_SURFACE_SPEC_VERSION));
    }
    if p.metal {
        exts.push((VK_EXT_METAL_SURFACE_EXTENSION_NAME, VK_EXT_METAL_SURFACE_SPEC_VERSION));
    }
    if p.macos {
        exts.push((VK_MVK_MACOS_SURFACE_EXTENSION_NAME, VK_MVK_MACOS_SURFACE_SPEC_VERSION));
    }
    exts.push(
        (
            VK_KHR_GET_PHYSICAL_DEVICE_PROPERTIES_2_EXTENSION_NAME,
            VK_KHR_GET_PHYSICAL_DEVICE_PROPERTIES_2_SPEC_VERSION,
        ),
    );
    assert(exts@ =~= instance_extensions_spec(p));
    exts
}

/// The extensions that an application may enable on a device.
pub open spec fn device_extension_names_spec() -> Seq<&'static str> {
    seq![
        VK_KHR_SWAPCHAIN_EXTENSION_NAME,
        VK_KHR_MAINTENANCE1_EXTENSION_NAME,
        VK_EXTX_PORTABILITY_SUBSET_EXTENSION_NAME,
    ]
}

pub fn device_extension_names() -> (r: Vec<&'static str>)
    ensures
        r@ == device_extension_names_spec(),
{
    vec![
        VK_KHR_SWAPCHAIN_EXTENSION_NAME,
        VK_KHR_MAINTENANCE1_EXTENSION_NAME,
        VK_EXTX_PORTABILITY_SUBSET_EXTENSION_NAME,
    ]
}

/// The extensions that a device reports, with their versions.
pub open spec fn device_extensions_spec() -> Seq<(&'static str, u32)> {
    seq![
        (VK_KHR_SWAPCHAIN_EXTENSION_NAME, VK_KHR_SWAPCHAIN_SPEC_VERSION),
        (VK_KHR_MAINTENANCE1_EXTENSION_NAME, VK_KHR_MAINTENANCE1_SPEC_VERSION),
        (VK_EXTX_PORTABILITY_SUBSET_EXTENSION_NAME, VK_EXTX_PORTABILITY_SUBSET_SPEC_VERSION),
    ]
}

pub fn device_extensions() -> (r: Vec<(&'static str, u32)>)
    ensures
        r@ == device_extensions_spec(),
{
    vec![
        (VK_KHR_SWAPCHAIN_EXTENSION_NAME, VK_KHR_SWAPCHAIN_SPEC_VERSION),
        (VK_KHR_MAINTENANCE1_EXTENSION_NAME, VK_KHR_MAINTENANCE1_SPEC_VERSION),
        (VK_EXTX_PORTABILITY_SUBSET_EXTENSION_NAME, VK_EXTX_PORTABILITY_SUBSET_SPEC_VERSION),
    ]
}

/// Whether every name that an application asks for is one of `supported`.
pub open spec fn all_supported(requested: Seq<Seq<u8>>, supported: Seq<&'static str>) -> bool {
    forall|i: int| 0 <= i < requested.len() ==> #[trigger] is_listed(supported, requested[i])
}

/// Whether `supported` lists `name`.
pub open spec fn is_listed(supported: Seq<&'static str>, name: Seq<u8>) -> bool {
    exists|j: int| 0 <= j < supported.len() && #[trigger] supported[j].spec_bytes() == name
}

/// Whether `supported` holds `name`.
pub fn is_supported(supported: &Vec<&'static str>, name: &[u8]) -> (r: bool)
    ensures
        r == is_listed(supported@, name@),
{
    let mut i: usize = 0;
    while i < supported.len()
        invariant
            i <= supported@.len(),
            forall|j: int| 0 <= j < i ==> #[trigger] supported@[j].spec_bytes() != name@,
        decreases supported@.len() - i,
    {
        if bytes_eq(supported[i].as_bytes(), name) {
            return true;
        }
        i = i + 1;
    }
    false
}

/// The deep view of a list of byte strings holds their views.
pub proof fn lemma_names_deep_view(v: Vec<Vec<u8>>)
    ensures
        v.deep_view().len() == v@.len(),
        forall|i: int| 0 <= i < v@.len() ==> #[trigger] v.deep_view()[i] == v@[i]@,
{
    assert forall|i: int| 0 <= i < v@.len() implies #[trigger] v.deep_view()[i] == v@[i]@ by {
        assert(v.deep_view()[i] =~= v@[i]@);
    }
}

/// The extensions that an application enables: all of them, in order, when
/// each is one that `supported` lists; else an error, which the caller
/// answers with `VK_ERROR_EXTENSION_NOT_PRESENT`.
pub fn check_extensions(supported: &Vec<&'static str>, requested: &Vec<Vec<u8>>) -> (r: Result<
    Vec<Vec<u8>>,
    (),
>)
    ensures
        r is Ok <==> all_supported(requested.deep_view(), supported@),
        r matches Ok(v) ==> v.deep_view() == requested.deep_view(),
{
    proof {
        lemma_names_deep_view(*requested);
    }
    let mut enabled: Vec<Vec<u8>> = Vec::new();
    let mut i: usize = 0;
    while i < requested.len()
        invariant
            i <= requested@.len(),
            requested.deep_view().len() == requested@.len(),
            forall|k: int| 0 <= k < requested@.len() ==> #[trigger] requested.deep_view()[k] == requested@[k]@,
            enabled@.len() == i,
            forall|k: int| 0 <= k < i ==> #[trigger] enabled@[k]@ == requested@[k]@,
            forall|k: int| 0 <= k < i ==> #[trigger] is_listed(supported@, requested@[k]@),
        decreases requested@.len() - i,
    {
        if !is_supported(supported, requested[i].as_slice()) {
            assert(requested.deep_view()[i as int] == requested@[i as int]@);
            return Err(());
        }
        let name = requested[i].clone();
        assert(name@ =~= requested@[i as int]@);
        enabled.push(name);
        i = i + 1;
    }
    proof {
        lemma_names_deep_view(enabled);
        assert(enabled.deep_view() =~= requested.deep_view());
        assert forall|k: int| 0 <= k < requested.deep_view().len() implies #[trigger] is_listed(
            supported@,
            requested.deep_view()[k],
        ) by {
            assert(requested.deep_view()[k] == requested@[k]@);
            assert(is_listed(supported@, requested@[k]@));
        }
        assert(all_supported(requested.deep_view(), supported@));
    }
    Ok(enabled)
}

} // verus!
