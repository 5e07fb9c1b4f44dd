//! Building blocks for small OpenGL programs: a shader-program builder that
//! decides every call to the graphics context without making any itself, and
//! the discrete rules of a free-look camera.

pub mod camera;
pub mod compile;
pub mod driver;
pub mod guarantees;
pub mod link;
pub mod protocol;
pub mod run;
pub mod scripts;
pub mod shader;
pub mod single;
