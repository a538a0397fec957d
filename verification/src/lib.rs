//! A resume in a canonical schema, the rules that its fields have to meet, and the
//! normalizer that makes such a resume of a LinkedIn profile.
//!
//! Contracts are stated over models: a text is its sequence of characters, an
//! entity is a record of such values, and every executable function says which
//! model its result has.

pub mod audit;
pub mod document;
pub mod example;
pub mod from_linkedin;
pub mod json;
pub mod json_resume;
pub mod linkedin;
pub mod resume_document;
pub mod resumes;
pub mod segment;
pub mod text;
pub mod uri;
pub mod validate;
