//! Decision and text-processing logic of a desktop wrapper around a web
//! messaging client: audio device listings, navigation policy, notification
//! text, session storage outcomes, tray tooltip, window state and shortcuts.

pub mod text;
pub mod audio;
pub mod navigation;
pub mod notification;
pub mod tray;
pub mod window;
pub mod session;
pub mod shortcuts;
pub mod media;
pub mod webview;
