//! Routes a URL to one of several installed browsers, based on which
//! application asked for the open or which host is being opened, falling
//! back to a configured default.
//!
//! The core is the client-identification chain - three detection
//! strategies composed with first-match priority - and the rule matcher
//! that consumes its output alongside the URL's host. Detectors work on
//! data their caller hands over (the window class the compositor's query
//! reported, the desktop-launch environment variable, a process-table
//! snapshot), so the whole decision path from that data to the selected
//! browser command is specified and proved. Reading the configuration
//! file, querying the compositor and the process table, and spawning the
//! chosen browser are thin collaborators around this library.

pub mod config;
pub mod detection;
pub mod matcher;
pub mod text;

pub mod logger;
pub mod policy;

pub use config::Config;
pub use config::DefaultSection;
pub use config::RuleSection;
pub use config::default_browser;
pub use detection::ClientDetector;
pub use detection::EnvDetector;
pub use detection::HyprlandDetector;
pub use detection::ProcessRecord;
pub use detection::ProcessTreeDetector;
pub use detection::detect_client;
pub use logger::init_logger;
pub use matcher::UrlError;
pub use matcher::match_client;
pub use matcher::match_host;
pub use matcher::parse_url_host;
pub use matcher::url_host;
pub use policy::select_browser;
