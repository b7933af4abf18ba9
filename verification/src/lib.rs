//! ZenShot's verified core: hotkeys, configuration rules, the overlay's
//! interaction state machine, pixel burning, and the small protocols the
//! tray, the overlay and the clipboard holder speak to one another.
pub mod hotkey;
pub mod text;
pub mod mask;
pub mod raster;
pub mod burn;
pub mod ipc;
pub mod notify;
pub mod cli;
pub mod config;
pub mod overlay;
pub mod tray;
pub mod export;
pub mod instance;
pub mod codec;
pub mod clipboard;
pub mod capture;
pub mod autostart;
pub mod options;
