pub mod text;
pub mod pattern;
pub mod clock;
pub mod date_parser;
pub mod shortcuts;
pub mod store;
pub mod whisper;
pub mod notifications;
pub mod scheduler;
pub mod commands;
