// Pipelines over optional and fallible values: a run through a list of
// stages stops at the first absence or error and reports it. Around the
// pipelines stand the kitchen whose steps they run, parsing and doubling
// numbers with typed errors, and a few small decisions by pattern matching.
pub mod closures;
pub mod doubling;
pub mod files;
pub mod food;
pub mod kitchen;
pub mod matching;
pub mod pipeline;
