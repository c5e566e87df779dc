//! Planning side of a GPU slime-mould ("physarum") simulation: the sizes of
//! the buffers and dispatches it needs, the bind groups that swap its two
//! particle buffers, and the commands that make up each frame.

pub mod sizing;
pub mod bindings;
pub mod frame;
