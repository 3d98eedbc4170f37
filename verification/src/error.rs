//! The failures that building or running a command can end in.

use vstd::prelude::*;
use vstd::string::StringExecFns;

verus! {

/// What can go wrong between describing a command and reading its output.
#[derive(Debug, Clone, PartialEq, Eq)]
pub enum Error {
    /// Waiting for the process failed; `message` is the operating system's report.
    CommandError { message: String },
    /// The process ended with a nonzero status; both captured texts are kept whole.
    CommandFailedError { stdout: String, stderr: String },
    /// The executable was not found on the search path.
    CommandNotFoundError,
    /// A configuration value holds a variant that has no encoding.
    CommandOptionsSerializationError { message: String },
    /// The process did not end within its time budget.
    CommandTimeoutError,
    /// The output of the process is not the JSON that was expected.
    JsonDeserializationError { message: String },
    /// The process could not be started.
    SpawnError { message: String },
}

impl Error {
    /// The text that `to_string` gives for an error.
    pub open spec fn text(self) -> Seq<char> {
        match self {
            Error::CommandError { message } => "Ip command error: "@ + message@,
            Error::CommandFailedError { stdout, stderr } => "Ip command failed, stdout: \""@
                + stdout@ + "\", stderr: \""@ + stderr@ + "\""@,
            Error::CommandNotFoundError => "Command not found in PATH"@,
            Error::CommandOptionsSerializationError { message } => "Command options error: "@
                + message@,
            Error::CommandTimeoutError => "Ip command timed out"@,
            Error::JsonDeserializationError { message } => "Failed to deserialize json: "@
                + message@,
            Error::SpawnError { message } => "Unable to spawn process: "@ + message@,
        }
    }

    /// A one-line description of the error, with everything it carries.
    pub fn to_string(&self) -> (r: String)
        ensures
            r@ == self.text(),
    {
        match self {
            Error::CommandError { message } => String::from_str("Ip command error: ").concat(
                message.as_str(),
            ),
            Error::CommandFailedError { stdout, stderr } => {
                let mut r = String::from_str("Ip command failed, stdout: \"");
                r.append(stdout.as_str());
                r.append("\", stderr: \"");
                r.append(stderr.as_str());
                r.append("\"");
                r
            },
            Error::CommandNotFoundError => String::from_str("Command not found in PATH"),
            Error::CommandOptionsSerializationError { message } => String::from_str(
                "Command options error: ",
            ).concat(message.as_str()),
            Error::CommandTimeoutError => String::from_str("Ip command timed out"),
            Error::JsonDeserializationError { message } => String::from_str(
                "Failed to deserialize json: ",
            ).concat(message.as_str()),
            Error::SpawnError { message } => String::from_str("Unable to spawn process: ").concat(
                message.as_str(),
            ),
        }
    }
}

} // verus!
