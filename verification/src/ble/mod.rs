//! Bluetooth LE side of the app: the devices a scan found, the live link
//! state merged from notifications, and raw hex writes.

pub mod devices;
pub mod gatt;
pub mod hex;
pub mod link;
pub mod order;
pub mod table;
