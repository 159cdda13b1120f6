//! The operations behind the commands, on plain byte values.

pub mod base64;
pub mod csv_convert;
pub mod genpass;
pub mod http;
pub mod text;

pub use self::base64::{base64_decode, base64_encode};
pub use self::csv_convert::process_csv;
pub use self::genpass::genpass;
