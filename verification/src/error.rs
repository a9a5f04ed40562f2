//! The error taxonomy: every failure of a conversion run is one of four
//! kinds, carries a one-line message, and maps to the same nonzero
//! process exit code.

use vstd::prelude::*;

verus! {

/// Why a conversion failed.
#[derive(Debug)]
pub enum ConvError {
    /// A format name outside the allow-list was requested.
    Config(String),
    /// Standard input could not be read as text.
    Io(String),
    /// The input text is not a valid document in the input format.
    Parse(String),
    /// The generic value cannot be represented in the output format.
    Serialize(String),
}

impl ConvError {
    /// The stage prefix that opens the diagnostic line.
    pub open spec fn spec_stage(&self) -> Seq<char> {
        match self {
            ConvError::Config(_) => "config error"@,
            ConvError::Io(_) => "io error"@,
            ConvError::Parse(_) => "parse error"@,
            ConvError::Serialize(_) => "serialize error"@,
        }
    }

    /// The message carried by the error.
    pub open spec fn spec_message(&self) -> Seq<char> {
        match self {
            ConvError::Config(m) => m@,
            ConvError::Io(m) => m@,
            ConvError::Parse(m) => m@,
            ConvError::Serialize(m) => m@,
        }
    }

    /// The one-line diagnostic: the failing stage, a separator, and the
    /// message.
    pub open spec fn spec_diagnostic(&self) -> Seq<char> {
        self.spec_stage() + ": "@ + self.spec_message()
    }

    /// The stage prefix of this error's diagnostic line.
    pub fn stage(&self) -> (r: &'static str)
        ensures
            r@ == self.spec_stage(),
    {
        match self {
            ConvError::Config(_) => "config error",
            ConvError::Io(_) => "io error",
            ConvError::Parse(_) => "parse error",
            ConvError::Serialize(_) => "serialize error",
        }
    }

    /// The message carried by this error.
    pub fn message(&self) -> (r: &String)
        ensures
            r@ == self.spec_message(),
    {
        match self {
            ConvError::Config(m) => m,
            ConvError::Io(m) => m,
            ConvError::Parse(m) => m,
            ConvError::Serialize(m) => m,
        }
    }

    /// Render the one-line diagnostic that is written to the error
    /// stream before the process exits.
    pub fn diagnostic(&self) -> (r: String)
        ensures
            r@ == self.spec_diagnostic(),
    {
        let mut s = String::from_str(self.stage());
        s.append(": ");
        s.append(self.message().as_str());
        s
    }

    /// Every failure is terminal and maps to the same nonzero exit code.
    pub fn exit_code(&self) -> (r: i32)
        ensures
            r == 1,
    {
        1
    }
}

} // verus!
