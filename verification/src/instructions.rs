pub mod course;
pub mod mintnft;
pub mod school;
