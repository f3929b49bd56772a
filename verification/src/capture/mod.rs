//! Capture Studio: a journal of TX/RX frames, guided stimulus steps and the
//! GATT map, exported as a bundle or a markdown packet table.

pub mod copy;
pub mod hint;
pub mod markdown;
pub mod steps;
pub mod store;
pub mod types;
