pub mod control;
pub mod mask;
