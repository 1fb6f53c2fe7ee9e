//! Text storage for a terminal line editor: a gap buffer, the line and file
//! buffers built on it, and the cursor and viewport model of the editor.
pub mod editor;
pub mod error;
pub mod file_buffer;
pub mod file_manager;
pub mod gap_buffer;
pub mod line_buffer;
pub mod text;
