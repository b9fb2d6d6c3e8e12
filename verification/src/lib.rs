pub mod about;
pub mod buttons;
pub mod codec;
pub mod config;
pub mod info;
pub mod inspector;
pub mod listener;
pub mod namespaces;
pub mod scratchpad;
pub mod symbols;
pub mod strutil;
pub mod syscons;
pub mod tty;
pub mod ui;
