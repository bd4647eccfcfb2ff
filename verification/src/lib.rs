//! Transliteration between South Slavic scripts and the legacy YUTF-8 encoding.
//!
//! YUTF-8 stores every script-specific letter of Serbian Latin, Serbian
//! Cyrillic and Macedonian Cyrillic in a printable ASCII code point between
//! `0x40` and `0x7E`.  The crate states the substitution tables as
//! mathematical maps, proves that the tables of each script are inverses of
//! one another, and proves that the executable transcoder applies a table to
//! a text character by character.
//!
//! - [`mappings`]: the tables and the lookup in them.
//! - [`conversion`]: the transcoder, and what holds of conversions there and
//!   back.
//! - [`mode`]: the keywords that name a script and a direction.
//! - [`hex`]: a hexadecimal dump of the bytes of a text.
//! - [`strings`]: string helpers shared by the other modules.

pub mod conversion;
pub mod hex;
pub mod mappings;
pub mod mode;
pub mod strings;
