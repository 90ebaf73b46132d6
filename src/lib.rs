//! Bridge between a serial radio-control panel and a flight simulator's radio
//! stack: packet framing, packet dispatch, and the numeric codecs that turn
//! wire bytes into frequencies, transponder codes and device selections.

pub mod bcd;
pub mod sim_freq;
pub mod packet;
pub mod device_select;
pub mod freq;
pub mod dispatch;
pub mod sim_wrap;
pub mod msfs_connect;
pub mod ports;
