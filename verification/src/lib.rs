#![allow(non_camel_case_types)]
#![allow(non_snake_case)]

pub mod vk_enums;
pub mod vk_structs;
pub mod hal;
pub mod conv;
pub mod handle;
pub mod owned;
pub mod objects;
pub mod instance;
pub mod extensions;
pub mod procs;
pub mod pipeline;
pub mod render_pass;
pub mod commands;
pub mod swapchain;
pub mod descriptors;
pub mod sync;
pub mod device;
pub mod graphics_pipeline;
pub mod laws;
pub mod resources;
