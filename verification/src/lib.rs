//! Safe, read-only views of the data that a keychain service hands back across
//! its C interface: four-character identifier codes, and lists of tagged
//! attribute records.
//!
//! Nothing here calls an entry point of the service or owns its memory. The
//! caller makes the call, wraps what came back in the views of [`attribute`],
//! reads it, and releases it with the call that matches the one that made it.

pub mod attribute;
pub mod foreign_string;
pub mod four_char_code;

pub use attribute::{SecKeychainAttrType, SecKeychainAttribute, SecKeychainAttributeList};
pub use four_char_code::FourCharacterCode;
