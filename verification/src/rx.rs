pub mod bounds;
pub mod combine_latest;
pub mod zip;
