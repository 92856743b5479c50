//! Decoder and connection lifecycle for the serial report protocol of a B0XX
//! controller: report codes and state snapshots, device discovery, the frame
//! reader and the reconnect supervisor, each as verified logic over plain
//! values. Transport, threads and rendering are left to the caller.

pub mod b0xx_state;
pub mod backoff;
pub mod error;
pub mod frame_reader;
pub mod locator;
pub mod serial_probe;
pub mod supervisor;
pub mod usb;
