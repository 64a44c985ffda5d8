//! A lightweight structured-tracing core: nested spans with severity levels
//! and ordered key/value attributes, emitting one JSON record per line for an
//! external sink. The span context stack, level cascade, emission decisions,
//! and record formatting are all verified; chrono and serde_json are called
//! through a small set of trusted wrappers for timestamp formatting and JSON
//! string escaping.
mod attrs;
mod json;
mod level;
mod logs;
mod numfmt;
mod paths;
mod spans;
mod timefmt;

pub use attrs::AttrList;
pub use attrs::AttrValue;
pub use level::LogLevel;
pub use level::LogLevelParseError;
pub use logs::Log;
pub use paths::trim_fn_path;
pub use paths::trim_src_path;
pub use spans::disable_logging;
pub use spans::set_min_log_level;
pub use spans::Span;
pub use spans::SpanBuilder;
pub use spans::StackEntry;
pub use spans::StackViolation;
pub use spans::TraceContext;
pub use timefmt::duration_micros;
