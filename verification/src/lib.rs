pub mod app;
pub mod orchestrator;
pub mod settings;
pub mod speedtest;
pub mod ui;
