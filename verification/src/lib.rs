pub mod enums;
pub mod json;
pub mod parser;
pub mod text;
pub mod util;
pub mod packet_laws;
pub mod socket;
pub mod strmap;
pub mod structs;
