//! Reduction of Arabic-script text to its rasm, the undotted consonantal
//! skeleton, as a string of class tags and as a string of Arabic letters.

pub mod inventory;
pub mod ligature;
pub mod segment;
pub mod reduce;
pub mod pipeline;
pub mod index;
