//! Idle-power management for a Bluetooth adapter: a controller that tracks the
//! adapter's activity state and a countdown that powers the adapter off after a
//! configurable period without connected devices.
pub mod configuration;
pub mod device;
pub mod event;
pub mod notification;
pub mod service;
pub mod timeout;
