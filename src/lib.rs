//! The frame lifecycle and asset logic of a small real-time renderer.
//!
//! `frame` decides each step of the acquire, record, submit and present cycle,
//! including swapchain rebuilds; `command_buffer` plans the commands of a draw;
//! `mesh` and `texture` turn OBJ and PNG data into upload-ready buffers;
//! `device` chooses the GPU; `input` and `game_object` steer and identify scene
//! objects. The GPU calls themselves, and all floating-point math, stay with
//! the caller.
pub mod command_buffer;
pub mod device;
pub mod frame;
pub mod game_object;
pub mod input;
pub mod mesh;
pub mod swapchain;
pub mod texture;
