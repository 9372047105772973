//! Windows toast notifications for Tauri apps: the adaptive toast XML, the
//! arguments that bring tag, group and action id back on activation, the
//! exactly-once activation queue with its encrypted storage, the COM
//! activator's GUIDs and events, and the decisions around registration,
//! sound, listener access and shutdown.
//!
//! Everything here is verified; the operating-system calls (WinRT, COM, the
//! registry, files, threads) are made by the application around it.
pub mod text;
pub mod input_map;
pub mod error;
pub mod version;
pub mod models;
pub mod notification_builder;
pub mod xml_builder;
pub mod query;
pub mod activation_bridge;
pub mod background_activation;
pub mod round_trip;
pub mod activation_queue;
pub mod guid;
pub mod com_server;
pub mod com_activator;
pub mod action_handler;
pub mod runtime_context;
pub mod shutdown;
pub mod sound_player;
pub mod registry_installer;
pub mod shortcut_creator;
pub mod notification_listener;
pub mod toast;
pub mod plugin;
pub mod commands;
