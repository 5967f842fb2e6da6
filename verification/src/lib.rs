//! The core of a small always-on-top media overlay: three transport
//! buttons, the play/pause state they drive, the media keys each one
//! sends, and the parameters of the window that holds them.

pub mod action;
pub mod dispatch;
pub mod placement;
pub mod playback;
pub mod report;
pub mod theme;
pub mod view;
pub mod window;
