//! Build-time policy engine for storing a fieldless enum as a database
//! column: deriving the canonical wire string of each variant (an explicit
//! override, or one of several case-conversion styles), reading the
//! attribute configuration, and deciding which set of codec impls a code
//! generator should emit for the configured backends.

pub mod attrs;
pub mod case_style;
pub mod derive;
pub mod plan;
pub mod strutil;
pub mod wire;
