pub mod generic;
pub mod windows;
