pub mod slide;
pub mod trial;
