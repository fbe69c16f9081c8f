pub mod dedicated;
pub mod firewall;
pub mod user;
pub mod vps;
