//! Runs the prebuilt Tailwind CSS command-line tool that ships with this
//! library, without it being installed on the machine.
//!
//! The library decides; the caller acts. It resolves the platform, picks the
//! executable for it, names the temporary file it is written to, classifies
//! what the tool printed, and guarantees that the file is removed again on
//! every path once it may exist.
pub mod binaries;
pub mod error;
pub mod invocation;
pub mod naming;
pub mod output;
pub mod platform;

pub use binaries::EmbeddedBinaries;
pub use error::TailwindCliError;
pub use invocation::{Action, Event, Invocation, Step};
pub use output::{classify, TailwindCliOutput};
pub use platform::{guess_platform, Platform};
