//! The logging facade: severities, line formatting, the router with its
//! appenders, the configuration builder and the tagged logger.

pub mod cat;
pub mod format;
pub mod log4rs;
pub mod router;
pub mod severity;

pub use self::cat::{Emission, LogCat, Mode};
pub use self::log4rs::Log4rsConfig;
pub use self::router::{ActivateError, Backend, Router};
pub use self::severity::{admits, Severity};
