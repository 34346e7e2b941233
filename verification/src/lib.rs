//! Batch image compression core: format-aware encode planning, resize
//! decisions, a minimum-savings guard, and loss-free result aggregation.
//!
//! The decision logic is verified; image decoding and encoding are supplied
//! by an external codec library behind a small set of trusted wrappers.

pub mod batch;
pub mod codec;
pub mod format;
pub mod guard;
pub mod heuristic;
pub mod outcome;
pub mod pipeline;
pub mod plan;
pub mod request;
pub mod resize;

pub use batch::FileEvent;
pub use format::OutputFormat;
pub use guard::Disposition;
pub use guard::FileStatus;
pub use guard::GuardVerdict;
pub use outcome::FileOutcome;
pub use outcome::RunStatistics;
pub use pipeline::CompressError;
pub use pipeline::CompressStep;
pub use pipeline::OutputAction;
pub use pipeline::ProcessOutcome;
pub use plan::EncodePlan;
pub use request::CompressionRequest;
pub use request::ConfigError;
