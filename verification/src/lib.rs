//! Driver core for a proximity / ambient-light / gesture sensor that sits on a
//! two-wire, register-addressed bus.
//!
//! The crate verifies the sensor's register-mediated state protocol: flag
//! registers are updated by read-modify-write against locally cached shadow
//! values (so that setting one field never corrupts another), and multi-byte
//! sensor readings are fetched through a non-blocking check-then-fetch pattern
//! that reports "not ready" instead of blocking or erroring.
//!
//! The physical bus is an external collaborator behind the [`Transport`]
//! trait; integrators supply an implementation for their bus hardware.

mod config;
mod device;
mod flags;
mod proximity;
mod reading;
pub mod registers;
mod transport;

pub use device::{wide_register_bytes, Apds9960};
pub use flags::{spec_with_flag, with_flag};
pub use flags::{lemma_flag_sequence_preserves_fields, lemma_with_flag_preserves_disjoint};
pub use proximity::{
    lemma_proximity_poll_complete, offset_byte, persistence_byte, persistence_logged,
    proximity_int_logged, proximity_interrupt, proximity_poll_logged, proximity_status_logged,
    proximity_valid, spec_offset_byte, spec_persistence_byte, spec_proximity_interrupt,
    spec_proximity_poll, spec_proximity_valid,
};
pub use reading::{
    copy_to_front, gesture_burst_logged, gesture_byte_count, gesture_level_logged,
    gesture_status_logged, gesture_valid, lemma_gesture_burst_shape, spec_gesture_byte_count,
    spec_gesture_valid,
};
pub use registers::ShadowRegister;
pub use transport::{Poll, Transport, DEV_ADDR};
