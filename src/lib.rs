pub mod data;
pub mod debug;
pub mod flow;
pub mod framebuffer;
pub mod grid;
pub mod pipeline;
pub mod shader;
pub mod util;
pub mod vertex;

pub use grid::AbstractGridID;
pub use util::{str_ref, string_ref, StringRef};
