pub mod math;
