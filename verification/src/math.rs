pub mod scalar;
pub mod vector2d_struct;
