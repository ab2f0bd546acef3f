pub use self::runner::Error;
pub use self::runner::ProbeOutcome;
pub use self::runner::CycleSummary;
pub use self::runner::ProbeReport;
pub use self::runner::RequestMetrics;
pub use self::runner::Runner;
pub use self::runner::RunnerBuilder;
pub use self::runner::RunnerBuilderView;
pub use self::runner::RunnerView;
pub use self::runner::Step;
pub use self::runner::TickState;
pub use self::status::Event;
pub use self::status::Status;
pub use self::status::StatusView;
pub use self::target::ParseError;
pub use self::target::Target;
pub use self::target::TargetView;
pub use self::time::TimeDelta;
pub use self::time::Timestamp;
pub use self::url::InvalidUrl;
pub use self::url::Url;

pub mod run;
pub mod runner;
pub mod status;
pub mod target;
pub mod text;
pub mod time;
pub mod url;
