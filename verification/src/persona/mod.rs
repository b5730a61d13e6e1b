//! Persona and transparent memory: scopes and kinds of memory, the privacy
//! classifier and write policy, persona profiles and their validation, local
//! persona settings, memory records, and the rule-based memory candidate
//! detector.
pub mod extractor;
pub mod memory;
pub mod policy;
pub mod profile;
pub mod recall;
pub mod settings;
