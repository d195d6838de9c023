pub mod functions;
pub mod report;
pub mod vec;
