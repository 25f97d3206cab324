//! Derives an "optional" variant of a record type: given a description of a
//! record (its name, visibility, generics, annotations and fields) and a
//! configuration, produces a new record description in which every field's
//! type is wrapped in the `Option` container, with configurable overrides for
//! the generated record's name, visibility, annotations and extra fields.

pub mod attrs;
pub mod fields;
pub mod generate;
pub mod model;
