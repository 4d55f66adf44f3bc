pub mod foundation;
pub mod popover;
pub mod toast;
pub mod tabs;
pub mod tooltip;
pub mod select;
