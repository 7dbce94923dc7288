//! The errors that stop the program at startup.
use vstd::prelude::*;
use vstd::string::*;

verus! {

/// Why the program cannot start or stopped.
#[derive(Debug)]
pub enum Error {
    /// A required setting is missing; the setting's name.
    Env(String),
    /// A setting could not be read as a number.
    EnvParseError,
    /// The main loop ended.
    MainLoopClosed,
    /// An input or output failure, described.
    Io(String),
    /// The host's platform cannot be sampled.
    UnsupportedOS,
    Unknown,
}

impl Error {
    /// The message shown for the error.
    pub open spec fn message(&self) -> Seq<char> {
        match self {
            Error::Env(key) => "env key `"@ + key@ + "` is not set"@,
            Error::EnvParseError => "failed to parse env"@,
            Error::MainLoopClosed => "main loop closed"@,
            Error::Io(what) => "IO error: "@ + what@,
            Error::UnsupportedOS => "unsupported OS"@,
            Error::Unknown => "unknown error"@,
        }
    }

    /// Renders the message.
    pub fn to_string(&self) -> (r: String)
        ensures
            r@ == self.message(),
    {
        match self {
            Error::Env(key) => {
                let mut s = String::from_str("env key `");
                s.append(key.as_str());
                s.append("` is not set");
                s
            },
            Error::EnvParseError => String::from_str("failed to parse env"),
            Error::MainLoopClosed => String::from_str("main loop closed"),
            Error::Io(what) => {
                let mut s = String::from_str("IO error: ");
                s.append(what.as_str());
                s
            },
            Error::UnsupportedOS => String::from_str("unsupported OS"),
            Error::Unknown => String::from_str("unknown error"),
        }
    }
}

} // verus!
