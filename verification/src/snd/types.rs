//! Types shared by all sound drivers.

use vstd::prelude::*;

verus! {

/// The number of milliseconds after which a read from an audio stream times out,
/// if none is otherwise specified.
pub const DEFAULT_ASYNC_READ_TIMEOUT: u64 = 250;

/// The size of a stereo IEEE 754 32-bit floating point audio sample.
pub const F32LE_STEREO_SAMPLE_SIZE: usize = 8;

// TYPE DEFINITIONS ************************************************************

/// High-level representation of errors that can occur during the process of
/// starting/initializing a sound driver. Underlying errors are represented by
/// their explanation.
#[derive(Debug)]
pub enum StartError {
    /// The sound driver failed to connect to its backend.
    ConnectionError(String),

    /// The consumer failed to initialize after a successful initialization of
    /// the driver.
    ConsumerInitializationError(String),

    /// The sound driver encountered an internal error while initializing.
    DriverInitializationError(String),

    /// The application failed to automatically find a suitable sound driver.
    NoAvailableBackends,

    /// The user-requested sound driver does not exist, with the requested sound
    /// driver provided as a string.
    UnknownDriver(String),
}

/// Internal specialization of errors thrown specifically by sound drivers
/// during initialization.
#[derive(Debug)]
pub enum DriverInitError<E> {
    /// The sound driver failed to connect to its backend, with a
    /// driver-provided error type providing details.
    ///
    /// When a driver returns this error during driver autoselection, the
    /// application will attempt to start the next configured sound driver, if
    /// any.
    ConnectionError(E),

    /// The sound driver encountered an internal error while initializing, but
    /// was otherwise able to communicate with its backend. A driver-provided
    /// error type carries the details of the failure.
    ///
    /// When a driver returns this error during driver autoselection, the
    /// application will shut down without attempting to start any other sound
    /// drivers.
    InitializationError(E),
}

/// The contents of a [`StartError`].
pub enum StartErrorView {
    ConnectionError(Seq<char>),
    ConsumerInitializationError(Seq<char>),
    DriverInitializationError(Seq<char>),
    NoAvailableBackends,
    UnknownDriver(Seq<char>),
}

// MODELS **********************************************************************

impl View for StartError {
    type V = StartErrorView;

    open spec fn view(&self) -> StartErrorView {
        match *self {
            StartError::ConnectionError(e) => StartErrorView::ConnectionError(e@),
            StartError::ConsumerInitializationError(
                e,
            ) => StartErrorView::ConsumerInitializationError(e@),
            StartError::DriverInitializationError(e) => StartErrorView::DriverInitializationError(
                e@,
            ),
            StartError::NoAvailableBackends => StartErrorView::NoAvailableBackends,
            StartError::UnknownDriver(name) => StartErrorView::UnknownDriver(name@),
        }
    }
}

impl StartErrorView {
    /// How this error is explained to the user.
    pub open spec fn explained(self) -> Seq<char> {
        match self {
            StartErrorView::ConnectionError(e) => "Sound driver failed to connect to backend: "@
                + e,
            StartErrorView::ConsumerInitializationError(e) => {
                "Audio consumer failed to initialize: "@ + e
            },
            StartErrorView::DriverInitializationError(e) => "Sound driver failed to initialize: "@
                + e,
            StartErrorView::NoAvailableBackends => "No audio backends available"@,
            StartErrorView::UnknownDriver(name) => "No such sound driver '"@ + name + "'"@,
        }
    }
}

impl<E> DriverInitError<E> {
    /// The underlying error.
    pub open spec fn spec_source(self) -> E {
        match self {
            DriverInitError::ConnectionError(e) => e,
            DriverInitError::InitializationError(e) => e,
        }
    }

    /// The representation of this error that is independent of the driver, given
    /// the explanation of the underlying error.
    pub open spec fn as_start_error(self, source_text: Seq<char>) -> StartErrorView {
        match self {
            DriverInitError::ConnectionError(_) => StartErrorView::ConnectionError(source_text),
            DriverInitError::InitializationError(_) => {
                StartErrorView::DriverInitializationError(source_text)
            },
        }
    }
}

// TYPE IMPLS ******************************************************************

impl StartError {
    /// Renders this error.
    pub fn message(&self) -> (r: String)
        ensures
            r@ == self@.explained(),
    {
        match self {
            StartError::ConnectionError(e) => {
                let mut r = "Sound driver failed to connect to backend: ".to_owned();
                r.append(e.as_str());
                r
            },
            StartError::ConsumerInitializationError(e) => {
                let mut r = "Audio consumer failed to initialize: ".to_owned();
                r.append(e.as_str());
                r
            },
            StartError::DriverInitializationError(e) => {
                let mut r = "Sound driver failed to initialize: ".to_owned();
                r.append(e.as_str());
                r
            },
            StartError::NoAvailableBackends => "No audio backends available".to_owned(),
            StartError::UnknownDriver(name) => {
                let mut r = "No such sound driver '".to_owned();
                r.append(name.as_str());
                r.append("'");
                r
            },
        }
    }
}

impl<E> DriverInitError<E> {
    /// Returns the underlying error.
    pub fn source(&self) -> (r: &E)
        ensures
            *r == self.spec_source(),
    {
        match self {
            DriverInitError::ConnectionError(e) => e,
            DriverInitError::InitializationError(e) => e,
        }
    }

    /// Converts this error to a representation that is independent of the
    /// driver, given the explanation of the underlying error.
    pub fn into_start_error(self, source_text: String) -> (r: StartError)
        ensures
            r@ == self.as_start_error(source_text@),
    {
        match self {
            DriverInitError::ConnectionError(_) => StartError::ConnectionError(source_text),
            DriverInitError::InitializationError(_) => StartError::DriverInitializationError(
                source_text,
            ),
        }
    }

    /// Renders this error, given the explanation of the underlying error.
    pub fn message(&self, source_text: &str) -> (r: String)
        ensures
            r@ == self.as_start_error(source_text@).explained(),
    {
        let mut r = match self {
            DriverInitError::ConnectionError(_) => {
                "Sound driver failed to connect to backend: ".to_owned()
            },
            DriverInitError::InitializationError(_) => {
                "Sound driver failed to initialize: ".to_owned()
            },
        };
        r.append(source_text);
        r
    }
}

// FUNCTIONS *******************************************************************

/// Determines the number of milliseconds after which a read from an audio stream
/// times out. If none is given, a timeout of a quarter second is used.
pub fn read_timeout(timeout: Option<u64>) -> (r: u64)
    ensures
        r == (match timeout {
            Some(timeout) => timeout,
            None => 250,
        }),
{
    match timeout {
        Some(timeout) => timeout,
        None => DEFAULT_ASYNC_READ_TIMEOUT,
    }
}

} // verus!
