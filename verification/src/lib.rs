//! ROM editing, Ostrich serial protocol framing and datalog decoding for
//! Honda OBD1 ECUs driven through a One ROM board.

pub mod checksum;
pub mod ostrich;
pub mod settings;
pub mod patch;
pub mod tables;
pub mod modes;
pub mod tracking;
pub mod datalog;
pub mod hexdump;
pub mod text;
pub mod session;
pub mod ports;
pub mod plugin;
