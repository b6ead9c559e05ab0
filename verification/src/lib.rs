pub mod battle;
pub mod meters;
pub mod timer;
