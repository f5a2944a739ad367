//! Plain value types shared by every component.
pub mod address;
pub mod byte;
pub mod cartrige;
pub mod licensee;
pub mod signed_byte;
