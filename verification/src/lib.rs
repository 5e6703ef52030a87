//! A small HTTP service core: a validated JSON echo endpoint, a static-file
//! fallback rule, and an error normalizer that maps every internal failure to
//! a status code plus a JSON error envelope.

pub mod app_error;
pub mod echo;
pub mod json_text;
pub mod static_files;
