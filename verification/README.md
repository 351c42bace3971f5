# uplink

The decision logic of Uplink's chat and file views, written in Verus and
proved against its contracts.

- `src/thumbnail.rs`: the inline `data:` thumbnail of an image file.
- `src/attachments.rs`: the attachment strip of the compose view; local
  paths are compared by their components, as `std::path::Path` does.
- `src/file_preview.rs`: the file preview's download request and image source.
- `src/notifications.rs`: the switches of the notification settings page.
- `src/topbar.rs`: the chat top bar's permissions, menu and events.
- `src/tesseract.rs`: the keystore request behind each tesseract command.

`app/` holds what reads files and talks to the keystore and reply channels.
