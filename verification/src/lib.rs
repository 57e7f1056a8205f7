//! An in-game developer console and a few composable UI widgets: a button
//! with hover/press tinting, a text input with a blinking caret and
//! key-repeat backspace, a scrolling item list, and a console panel that
//! slides in and out. The engine-facing side (spawning UI nodes, reading
//! input events, writing styles) lives outside this crate; here stand the
//! decisions those widgets make each frame, as verified functions over
//! plain values: what a timer does with a delta, when the caret toggles,
//! how a submitted command moves from the input buffer to the log, which
//! list rows are reused, spawned or despawned, and how the console panel
//! animates and clamps.

pub mod button;
pub mod console;
pub mod input_text;
pub mod item_list;
pub mod timer;
