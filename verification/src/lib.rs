//! A status-line engine for i3bar-style bars: each configured block pairs a
//! typed sensor value with its display configuration, renders into colored
//! JSON segments, and a scheduler mixes fixed-interval polling with
//! signal-driven refreshes, emitting one array line per refresh.
#![verifier::loop_isolation(false)]
pub mod base;
pub mod battery;
pub mod block;
pub mod block_builder;
pub mod blocks;
pub mod cpuload;
pub mod custom;
pub mod filesystem;
pub mod memory;
pub mod network;
pub mod pipewire_dev;
pub mod pulse_dev;
pub mod sound_service;
pub mod temperature;
pub mod time;
pub mod utility;
pub mod volume;
pub mod wifi;
