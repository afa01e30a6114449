# portability_gfx

A Vulkan Portability layer over gfx-hal, with its logic verified by Verus.

The Vulkan API is implemented by mapping its values and calls onto those of
the gfx-hal abstraction layer. The library (`src/`) holds that mapping and
the decisions around it, each function with a contract that Verus proves:

- `vk_enums`, `vk_structs`: the Vulkan enumerations (with their numeric
  values) and the plain Vulkan structures.
- `hal`: the values of the abstraction layer that the conversions produce.
- `conv`: conversions of formats, features, flags, operations and states.
- `instance`, `extensions`, `procs`, `device`: versions, the enumeration
  protocol, extensions, entry points by name, instance and device creation
  checks, queue lookup.
- `handle`, `owned`, `objects`: handles that own their objects, and images
  with their subresource ranges.
- `pipeline`, `graphics_pipeline`: pipeline state, specialization constants
  and the description of a graphics pipeline.
- `render_pass`, `commands`, `descriptors`, `resources`: render passes,
  command regions and barriers, descriptor pools and writes, samplers and
  other resources.
- `sync`, `swapchain`: fences, waits and submissions; swapchain images as
  they are acquired and presented, and what surfaces report.
- `laws`: properties across these functions (round trips, the version rule,
  pool resets, specialization data, pipelines that discard primitives,
  entry points by name, fake fences and semaphores).

`app/` is the driver around the library: it makes the gfx-hal calls (here on
the empty backend), converts between gfx-hal values and the library's, and
holds what involves floating-point values (device limits, viewports).

`tests/` runs the library on concrete values.
