//! Verified core of the spacing types: how compound sizes are ordered from
//! their components, and the text forms they are displayed in.

pub mod order;
pub mod render;
