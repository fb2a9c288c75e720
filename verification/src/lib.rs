//! Text-mode console and game-loop core of a falling-block puzzle that runs on
//! bare hardware.
//!
//! [`vga_buffer`] is the double-buffered renderer in front of the memory-mapped
//! character device; [`tetris`] holds the game session and the state machine
//! that decides, frame by frame, what the surrounding program has to do next.

pub mod vga_buffer;
pub mod tetris;
