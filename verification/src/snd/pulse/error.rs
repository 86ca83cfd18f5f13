//! Error types for the PulseAudio driver.

use vstd::prelude::*;

use super::DriverComponent;

verus! {

/// Errors reported by the PulseAudio server and its client library.
#[derive(Debug, Clone, Copy, PartialEq, Eq, Structural)]
pub enum Code {
    /// No error.
    Success,
    /// Access failure.
    Access,
    /// Unknown command.
    Command,
    /// Invalid argument.
    Invalid,
    /// Entity exists.
    Exist,
    /// No such entity.
    NoEntity,
    /// Connection refused.
    ConnectionRefused,
    /// Protocol error.
    Protocol,
    /// Timeout.
    Timeout,
    /// No authentication key.
    AuthKey,
    /// Internal error.
    Internal,
    /// Connection terminated.
    ConnectionTerminated,
    /// Entity killed.
    Killed,
    /// Invalid server.
    InvalidServer,
    /// Module initialization failed.
    ModInitFailed,
    /// Bad state.
    BadState,
    /// No data.
    NoData,
    /// Incompatible protocol version.
    Version,
    /// Data too large.
    TooLarge,
    /// Operation not supported.
    NotSupported,
    /// The error code was unknown to the client.
    Unknown,
    /// Extension does not exist.
    NoExtension,
    /// Obsolete functionality.
    Obsolete,
    /// Missing implementation.
    NotImplemented,
    /// The client forked without replacing its process image.
    Forked,
    /// An IO error happened.
    IO,
    /// Device or resource busy.
    Busy,
}

/// Error conditions that can occur during driver initialization.
#[derive(Debug)]
pub enum PulseDriverError {
    /// Error that occurred in a driver component.
    ComponentError(ComponentError),

    /// Error caused by an underlying PulseAudio failure.
    PulseError(Code),

    /// The driver failed to start due to invalid configuration, with an
    /// explanation.
    BadConfig(String),
}

/// An error in a component of the driver.
#[derive(Debug, Clone, Copy, PartialEq, Eq, Structural)]
pub struct ComponentError {
    pub component: DriverComponent,
    pub code: Code,
}

impl ComponentError {
    /// Creates an error in the given component.
    pub fn new(component: DriverComponent, code: Code) -> (r: Self)
        ensures
            r == (ComponentError { component, code }),
    {
        ComponentError { component, code }
    }

    /// How this error is explained to the user, given the description of its
    /// code.
    pub open spec fn explained(self, code_text: Seq<char>) -> Seq<char> {
        "Error in driver component '"@ + self.component.name_spec() + "': "@ + code_text
    }

    /// Renders this error, given the description of its code.
    pub fn message(&self, code_text: &str) -> (r: String)
        ensures
            r@ == self.explained(code_text@),
    {
        let mut r = "Error in driver component '".to_owned();
        r.append(self.component.name());
        r.append("': ");
        r.append(code_text);
        r
    }
}

impl PulseDriverError {
    /// The code that caused this error, if any.
    pub open spec fn spec_code(self) -> Option<Code> {
        match self {
            PulseDriverError::ComponentError(e) => Some(e.code),
            PulseDriverError::PulseError(code) => Some(code),
            PulseDriverError::BadConfig(_) => None,
        }
    }

    /// How this error is explained to the user, given the description of its
    /// code.
    pub open spec fn explained(self, code_text: Seq<char>) -> Seq<char> {
        match self {
            PulseDriverError::ComponentError(e) => e.explained(code_text),
            PulseDriverError::PulseError(_) => "PulseAudio error: "@ + code_text,
            PulseDriverError::BadConfig(reason) => "Invalid driver configuration: "@ + reason@,
        }
    }

    /// Returns the code that caused this error, if any.
    pub fn code(&self) -> (r: Option<Code>)
        ensures
            r == self.spec_code(),
    {
        match self {
            PulseDriverError::ComponentError(e) => Some(e.code),
            PulseDriverError::PulseError(code) => Some(*code),
            PulseDriverError::BadConfig(_) => None,
        }
    }

    /// Renders this error, given the description of its code.
    pub fn message(&self, code_text: &str) -> (r: String)
        ensures
            r@ == self.explained(code_text@),
    {
        match self {
            PulseDriverError::ComponentError(e) => e.message(code_text),
            PulseDriverError::PulseError(_) => {
                let mut r = "PulseAudio error: ".to_owned();
                r.append(code_text);
                r
            },
            PulseDriverError::BadConfig(reason) => {
                let mut r = "Invalid driver configuration: ".to_owned();
                r.append(reason.as_str());
                r
            },
        }
    }
}

impl vstd::std_specs::convert::FromSpecImpl<ComponentError> for PulseDriverError {
    open spec fn obeys_from_spec() -> bool {
        true
    }

    open spec fn from_spec(e: ComponentError) -> PulseDriverError {
        PulseDriverError::ComponentError(e)
    }
}

impl From<ComponentError> for PulseDriverError {
    fn from(e: ComponentError) -> (r: Self) {
        PulseDriverError::ComponentError(e)
    }
}

impl vstd::std_specs::convert::FromSpecImpl<Code> for PulseDriverError {
    open spec fn obeys_from_spec() -> bool {
        true
    }

    open spec fn from_spec(code: Code) -> PulseDriverError {
        PulseDriverError::PulseError(code)
    }
}

impl From<Code> for PulseDriverError {
    fn from(code: Code) -> (r: Self) {
        PulseDriverError::PulseError(code)
    }
}

} // verus!
