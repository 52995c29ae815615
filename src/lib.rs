pub mod gate;
pub mod install;
pub mod isolate;
pub mod lifecycle;
pub mod limits;
pub mod metadata;
pub mod stage;
pub mod text;
