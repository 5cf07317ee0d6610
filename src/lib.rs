//! Generic point containers, integer aggregates and text layout helpers,
//! each with a verified contract.
pub mod defaults;
pub mod hello_generic;
pub mod iteration;
pub mod point_n;
pub mod point_object;
pub mod points;
pub mod points_generic;
pub mod points_iter;
pub mod stats;
pub mod text;
