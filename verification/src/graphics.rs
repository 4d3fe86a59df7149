pub mod animation;
pub mod sprite;
pub mod texture;
