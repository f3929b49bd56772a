pub mod ble;
pub mod capture;
pub mod catalog;
pub mod device;
pub mod protocol;
pub mod laws;
pub mod text;
pub mod ui;
