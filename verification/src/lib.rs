//! Verified core of the sensor data server: data models, conversions,
//! alerting rules, request validation and the MQTT topic lexer.
pub mod text;
pub mod distinct;
pub mod mqtt_lexer;
pub mod mqtt_handler;
pub mod decimal;
pub mod service;
pub mod timestamp;
pub mod error;
pub mod api;
pub mod repository;
pub mod wire;
pub mod api_db_conv;
pub mod config;
pub mod email;
pub mod http_server;
