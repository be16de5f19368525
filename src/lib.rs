pub mod config;
pub mod error;
pub mod paths;
pub mod process;
pub mod services;
pub mod shutdown;

pub use config::{Config, SubCommand};
pub use error::{Error, ErrorKind};
pub use shutdown::Process;
