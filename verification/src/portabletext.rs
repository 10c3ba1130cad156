pub mod blocks;
pub mod renderer;
