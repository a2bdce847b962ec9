//! The ways an invocation of the tool can fail.
use vstd::prelude::*;
use vstd::string::*;

verus! {

#[verifier::external_type_specification]
#[verifier::external_body]
pub struct ExIoError(std::io::Error);

/// Why running the tool did not produce a successful result.
#[derive(Debug)]
pub enum TailwindCliError {
    /// The tool ran and exited unsuccessfully; what it printed, trimmed.
    TailwindCliReturnedAnError { stdout: String, stderr: String },
    /// The operating system could not start the tool.
    CouldntInvokeTailwindCli(std::io::Error),
    /// The executable could not be written to its temporary file.
    CouldntSaveCliExecutableToTemporaryFile(std::io::Error),
    /// The temporary file could not be removed after use; `outcome` is what
    /// the invocation had produced before that.
    CouldntDeleteTemporaryFile {
        error: std::io::Error,
        outcome: Box<Result<crate::output::TailwindCliOutput, TailwindCliError>>,
    },
    /// No executable ships for this operating system and architecture.
    UnsupportedPlatform { os: String, arch: String },
}

/// Whether `os` names an operating system that executables ship for.
pub open spec fn known_os(os: Seq<char>) -> bool {
    os == "macos"@ || os == "linux"@ || os == "windows"@
}

/// Whether `r` is `prefix` followed by the text that `error` displays as.
pub open spec fn describes_io_error(r: Seq<char>, prefix: Seq<char>, error: std::io::Error) -> bool {
    exists|t: String|
        to_string_from_display_ensures::<std::io::Error>(&error, t) && r == prefix + t@
}

impl TailwindCliError {
    /// A description of the error for people to read.
    pub fn message(&self) -> (r: String)
        ensures
            match self {
                TailwindCliError::TailwindCliReturnedAnError { stdout, stderr } => r@
                    == "Tailwind CLI returned an error:\n\n"@ + "stdout:\n"@ + stdout@ + "\n\n"@
                    + "stderr:\n"@ + stderr@ + "\n\n"@,
                TailwindCliError::CouldntInvokeTailwindCli(error) => describes_io_error(
                    r@,
                    "Couldn't invoke Tailwind CLI: "@,
                    *error,
                ),
                TailwindCliError::CouldntSaveCliExecutableToTemporaryFile(error) => describes_io_error(
                    r@,
                    "Couldn't save Tailwind CLI executable to temporary file: "@,
                    *error,
                ),
                TailwindCliError::CouldntDeleteTemporaryFile { error, .. } => describes_io_error(
                    r@,
                    "Couldn't delete Tailwind CLI executable temporary file: "@,
                    *error,
                ),
                TailwindCliError::UnsupportedPlatform { os, arch } => if known_os(os@) {
                    r@ == "Unsupported architecture: "@ + arch@
                } else {
                    r@ == "Unsupported OS: "@ + os@
                },
            },
    {
        match self {
            TailwindCliError::TailwindCliReturnedAnError { stdout, stderr } => {
                let mut r = String::from_str("Tailwind CLI returned an error:\n\n");
                r.append("stdout:\n");
                r.append(stdout.as_str());
                r.append("\n\n");
                r.append("stderr:\n");
                r.append(stderr.as_str());
                r.append("\n\n");
                r
            },
            TailwindCliError::CouldntInvokeTailwindCli(error) => {
                let t = error.to_string();
                String::from_str("Couldn't invoke Tailwind CLI: ").concat(t.as_str())
            },
            TailwindCliError::CouldntSaveCliExecutableToTemporaryFile(error) => {
                let t = error.to_string();
                String::from_str("Couldn't save Tailwind CLI executable to temporary file: ").concat(
                    t.as_str(),
                )
            },
            TailwindCliError::CouldntDeleteTemporaryFile { error, .. } => {
                let t = error.to_string();
                String::from_str("Couldn't delete Tailwind CLI executable temporary file: ").concat(
                    t.as_str(),
                )
            },
            TailwindCliError::UnsupportedPlatform { os, arch } => {
                let os = os.as_str();
                if crate::platform::same_text(os, "macos") || crate::platform::same_text(os, "linux")
                    || crate::platform::same_text(os, "windows") {
                    String::from_str("Unsupported architecture: ").concat(arch.as_str())
                } else {
                    String::from_str("Unsupported OS: ").concat(os)
                }
            },
        }
    }
}

} // verus!
