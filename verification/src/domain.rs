pub mod id;
pub mod info;
pub mod item;
