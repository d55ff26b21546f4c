pub mod course;
pub mod ratelimit;
pub mod school;
