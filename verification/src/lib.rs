//! A typed, in-memory document model for the MJML email-markup dialect,
//! together with a verified engine that serializes the model back into
//! well-formed nested markup text.
pub mod model;
