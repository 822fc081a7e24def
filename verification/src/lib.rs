//! Verified core of a multi-account desktop wrapper around WhatsApp Web.
use vstd::prelude::*;

pub mod text;
pub mod browser;
pub mod filedrop;
pub mod clipboard;
pub mod config;
pub mod shell;
pub mod theme;
pub mod diagnostico;
pub mod paths;
pub mod accounts;
pub mod json;
pub mod rail;
pub mod urls;
pub mod logs;
pub mod report;
pub mod notifications;
pub mod tray;
pub mod icon;
pub mod permissions;
pub mod startup;
pub mod views;
pub mod platform;

verus! {
}
