//! Hardware control and packet I/O core of a driver for the Intel 82540EM
//! (e1000) network controller.
//!
//! The library owns the decisions: which registers are written with which
//! values and in what order, how the TX and RX descriptor rings hand buffers
//! between driver and device, and when a poll runs. The caller performs the
//! register accesses, DMA mappings and hand-offs to the network stack that
//! these decisions ask for.
pub mod regs;
pub mod ops;
pub mod reset;
pub mod desc;
pub mod ring;
pub mod tx;
pub mod rx;
pub mod irq;
pub mod configure;
pub mod device;
pub mod laws;
