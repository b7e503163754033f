//! The transport of a virtual HID device: the frames that register, drive and release a
//! device that the kernel emulates, the state of the emulated mouse, and the decisions of
//! the loop that serves the operator and the kernel. The library reads and writes bytes in
//! memory only; the owner of the channel sends and receives them.

pub mod byte_order;
pub mod codec;
pub mod control;
pub mod event_loop;
pub mod kind;
pub mod layout;
pub mod record;
pub mod session;
pub mod state;
