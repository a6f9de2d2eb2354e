//! Library for reading Super Mario Maker 2 level files: decryption of the
//! on-disk format, structural parsing of the decrypted byte stream into a
//! typed `Level` value, and resolution of raw numeric codes into display
//! names.

pub mod course_decryptor;
pub mod cursor;
pub mod item_groups;
pub mod level_parser;
pub mod mm2_api;
pub mod pair_stats;
pub mod text;
