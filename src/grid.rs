pub mod color;
pub mod depth_stencil;
pub mod dump;
pub mod group;
pub mod id;
pub mod region;

pub use id::AbstractGridID;
