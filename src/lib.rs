//! Converts a free-form time expression into instants and renders them in
//! requested time zones.

mod cli;
mod config;
mod render;
mod text;
mod time;

pub use render::{format_offset, format_timezone_output, LocalTime};
pub use time::{
    parse_integer, parse_time, resolve_local, select_time_format, LocalOutcome, ParseError, TimeFormat,
    MAX_TIMESTAMP, MIN_TIMESTAMP,
};
pub use cli::{get_timezones, needs_config, split_timezone_list, Args, ResolveError};
pub use config::Config;
pub use render::{render_lines, render_zone, OutputLine, RenderError};
