//! Tray synchronisation core of a desktop status bar: a mirror of the
//! StatusNotifierItem services on the session bus, their context menus,
//! and the decisions that turn bus events and user clicks into work.

pub mod icon;
pub mod item;
pub mod menu;
pub mod event;
pub mod registry;
pub mod activation;
pub mod bridge;
pub mod notification;
