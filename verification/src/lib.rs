//! Analytics backend: the rules that turn tracker events and proxy headers
//! into stored rows, resolved client addresses and locations.

pub mod text;
pub mod headers;
pub mod ip_resolver;
pub mod errors;
pub mod geoip;
pub mod models;
pub mod controller;
pub mod tracker_models;
pub mod services;
pub mod controllers;
pub mod repository;
pub mod service;
pub mod config;
