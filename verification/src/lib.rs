pub mod audio;
pub mod calendar;
pub mod console;
pub mod dashboard;
pub mod demo;
pub mod device;
pub mod draw;
pub mod eventlog;
pub mod files;
pub mod media;
pub mod graphics;
pub mod input;
pub mod library;
pub mod preview;
pub mod rlcd;
pub mod runloop;
pub mod st7305;
pub mod telemetry;
pub mod text;
pub mod touch349;
pub mod touch_runtime;
pub mod touch_ui;
pub mod wav;
