//! The core of a user-space driver for an embedded GPU, without any I/O of
//! its own.
//!
//! The crate encodes method calls into the words that the hardware
//! front-end reads ([`command`], [`fifo_entry`]), keeps the ring of
//! descriptors and its fence ([`queue`]), follows memory that host and GPU
//! share from its allocation to its release ([`allocation`], [`nvmap`],
//! [`upload`]), and ties the three together in the command stream
//! ([`stream`]). The engines' registers and the commands built from them
//! are under [`maxwell`]; [`decoder`] reads command words back.
//!
//! Nothing here opens a device node. Where the kernel has to be asked, a
//! function gives back the call to make ([`kernel::KernelCall`],
//! [`nvmap::MemoryCall`]); the embedding program makes the call, turns its
//! raw outcome into a [`nvmap::KernelReply`] with the help of [`error`] and
//! [`channel`], and hands the reply in. Every step in between is verified.

pub mod align;
pub mod allocation;
pub mod bits;
pub mod channel;
pub mod class;
pub mod command;
pub mod decoder;
pub mod error;
pub mod fifo_entry;
pub mod gpu_box;
pub mod kernel;
pub mod maxwell;
pub mod nvhost;
pub mod nvmap;
pub mod queue;
pub mod stream;
pub mod text;
pub mod upload;
pub mod word_array;
