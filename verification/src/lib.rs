//! Verified core of a battery powered water meter: the data model of the
//! valve, the meter and the battery, the flow statistics, the MQTT command
//! parser and publication rules, the keep-alive and emergency decisions,
//! the screen state and a packed framebuffer.
pub mod battery;
pub mod text;
pub mod mqtt;
pub mod valve;
pub mod water_meter;
pub mod water_meter_stats;
pub mod ulp_meter;
pub mod mqtt_publish;
pub mod emergency;
pub mod keepalive;
pub mod screen;
pub mod framebuffer;
pub mod geometry;
pub mod web;
pub mod button;
pub mod state;
pub mod shapes;
pub mod widgets;
pub mod pages;
pub mod wifi;
