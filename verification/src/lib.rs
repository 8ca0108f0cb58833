//! Normalised slot values for the results of a natural-language extraction
//! engine: the value taxonomy, the conversion of raw results into it, the
//! canonical text of an instant, and the decisions of one parse request.

pub mod dispatch;
pub mod instant;
pub mod magnitude;
pub mod moment_json;
pub mod optional_moment_json;
pub mod raw;
pub mod slot;
pub mod tolerance;
