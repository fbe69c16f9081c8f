pub mod dedicated;
pub mod firewall;
pub mod shared;
pub mod user;
pub mod vps;
