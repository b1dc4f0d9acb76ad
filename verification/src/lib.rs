//! The decision-making core of a Wayland status bar: protocol codecs, parsers,
//! service state machines and the rules by which the bar renders what it knows.
//!
//! Everything here works on plain values. Sockets, D-Bus, subprocesses and GTK
//! live in the program around the library, which feeds events in and carries
//! the returned decisions out.

pub mod bar_text_laws;
pub mod bar_widget;
pub mod bar_widget_laws;
pub mod base;
pub mod callbacks;
pub mod config;
pub mod control_panel;
pub mod css;
pub mod css_laws;
pub mod custom;
pub mod hyprpaper;
pub mod hyprwire;
pub mod iwd;
pub mod iwd_events;
pub mod iwd_laws;
pub mod iwd_network_laws;
pub mod iwd_networks;
pub mod iwd_service_laws;
pub mod keyboard_layout;
pub mod layer_shell_popover;
pub mod names;
pub mod network;
pub mod network_card;
pub mod network_card_laws;
pub mod network_speed;
pub mod network_state;
pub mod notification_common;
pub mod outcome_laws;
pub mod password_dialog;
pub mod password_laws;
pub mod popover_laws;
pub mod quick_settings;
pub mod quick_settings_laws;
pub mod ripple;
pub mod snapshot_laws;
pub mod sourced_theme;
pub mod text;
pub mod text_laws;
pub mod vpn_card;
pub mod vpn_laws;
pub mod wallpaper;
pub mod wallpaper_laws;
pub mod wallpaper_theme;
pub mod wifi_list;
pub mod wifi_list_laws;
pub mod window_title;
pub mod wire_laws;
pub mod workspace;
