pub mod app_state;
pub mod county;
pub mod dashboard;
pub mod forecast_cache;
pub mod multiplexer;
pub mod provider;
pub mod ticker;
pub mod tui_utils;
pub mod weather_report;
