pub mod address;
pub mod tunnel;
