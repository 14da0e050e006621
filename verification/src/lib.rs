use vstd::prelude::*;

pub mod text;
pub mod doctor_fmt;
pub mod screen;
pub mod tabs;
pub mod config;
pub mod status;
pub mod domain;
pub mod events;
pub mod log_buffer;
pub mod flag;
pub mod widgets;
pub mod settings_flow;
pub mod actions;
pub mod platform_rows;
pub mod health_rows;
pub mod details;
pub mod app;
pub mod keys;
pub mod output;
pub mod sorting;
pub mod doctor;
pub mod repos;
pub mod views;
pub mod auth;
pub mod auth_flow;
pub mod sync_flow;
pub mod poll;
pub mod alerts;
pub mod worker;
pub mod wizard;
pub mod settings_detail;
pub mod main_loop;
pub mod cli;
pub mod theme;
pub mod panels;
pub mod daemon;
pub mod tables;

verus! {

} // verus!
