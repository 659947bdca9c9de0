//! Core logic of the Ju.N.Owen netplay client and its signaling server.
pub mod output;
pub mod room_utils;
pub mod text;
pub mod timestamps;
pub mod room_activity;
pub mod args;
pub mod routes;
pub mod menu_controller;
pub mod menu;
pub mod text_input;
pub mod common_menu;
pub mod components;
pub mod room;
pub mod helper;
pub mod lang;
pub mod title_menu;
pub mod lobby;
pub mod signaling_server;
pub mod waiting_for_spectator;
pub mod offer;
pub mod settings;
pub mod cui;
pub mod cloudwatch;
pub mod p2p;
pub mod reserved_room;
pub mod waiting_for_match;
