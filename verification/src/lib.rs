//! The decision logic behind Uplink's chat and file views: which thumbnail a
//! file gets, which attachments are shown and removed, how the notification
//! switches behave, what the chat top bar offers and how it reacts, and which
//! keystore request a tesseract command makes.

pub mod attachments;
pub mod file_preview;
pub mod notifications;
pub mod tesseract;
pub mod thumbnail;
pub mod topbar;
