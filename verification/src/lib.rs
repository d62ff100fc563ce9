//! A minimal file-backed logging backend: records are filtered by a
//! configured minimum severity, rendered as `[<timestamp>] <message>` lines,
//! and appended to a transcript in call order. A set-once registry models the
//! process-wide installation of a single backend.

pub mod level;
pub mod logger;
pub mod registry;

pub use level::Level;
pub use logger::FileLogger;
pub use logger::Record;
pub use logger::Transcript;
pub use registry::AlreadyInitializedError;
pub use registry::Registry;
pub use registry::init;
pub use registry::init_with_level;
