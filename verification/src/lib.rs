//! The coordination core of a frame-synchronised renderer: packed integer
//! vectors, aligned uniform-buffer slots, the semaphore that bounds the
//! frames in flight, the frame clock's life cycle and the depth-texture
//! cache rule.
//!
//! Nothing here touches the platform. Each type is plain state with the
//! decisions of the protocol as its methods: a method changes the state and
//! says what its caller has to do (submit a frame at an offset, wait, start
//! or stop a timer, make a texture). The caller performs it.
#![allow(non_camel_case_types)]
#![allow(non_upper_case_globals)]

pub mod core_anim_display_link;
pub mod dispatch_semaphore;
pub mod mbe_metal_view;
pub mod mbe_renderer;
pub mod metal_texture;
pub mod vector_types;
