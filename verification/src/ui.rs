//! What the game shows: frames, made of strokes, for a terminal to draw.

pub mod draw;
