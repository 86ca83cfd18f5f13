//! Error types used with the Discord client.

use vstd::prelude::*;

verus! {

// TYPE DEFINITIONS ************************************************************

/// Primary error type used with the Discord client. Covers a number of
/// underlying errors that can occur during normal operation of the client, which
/// are represented by their explanation, in addition to a few additional
/// exceptional cases.
#[derive(Debug)]
pub enum DiscordError {
    /// Underlying error from the Discord client library.
    Serenity(String),

    /// Underlying error from the Discord audio client library.
    Songbird(String),

    /// A client task crashed.
    TaskCrash(String),

    /// An error occurred while initializing the Discord client.
    InitializationError,

    /// The client failed to look up information from Discord that is otherwise
    /// required for normal function of the application, with detail provided as
    /// a string.
    DataLookupError(String),

    /// The user failed to provide a required configuration property to the
    /// client, with the name of the property provided as a string.
    MissingRequiredProperty(String),
}

/// The contents of a [`DiscordError`].
pub enum DiscordErrorView {
    Serenity(Seq<char>),
    Songbird(Seq<char>),
    TaskCrash(Seq<char>),
    InitializationError,
    DataLookupError(Seq<char>),
    MissingRequiredProperty(Seq<char>),
}

// MODELS **********************************************************************

impl View for DiscordError {
    type V = DiscordErrorView;

    open spec fn view(&self) -> DiscordErrorView {
        match *self {
            DiscordError::Serenity(e) => DiscordErrorView::Serenity(e@),
            DiscordError::Songbird(e) => DiscordErrorView::Songbird(e@),
            DiscordError::TaskCrash(e) => DiscordErrorView::TaskCrash(e@),
            DiscordError::InitializationError => DiscordErrorView::InitializationError,
            DiscordError::DataLookupError(e) => DiscordErrorView::DataLookupError(e@),
            DiscordError::MissingRequiredProperty(p) => DiscordErrorView::MissingRequiredProperty(
                p@,
            ),
        }
    }
}

impl DiscordErrorView {
    /// How this error is explained to the user.
    pub open spec fn explained(self) -> Seq<char> {
        match self {
            DiscordErrorView::Serenity(e) => e,
            DiscordErrorView::Songbird(e) => e,
            DiscordErrorView::TaskCrash(e) => "Discord client task unexpectedly quit: "@ + e,
            DiscordErrorView::InitializationError => "Initialization error"@,
            DiscordErrorView::DataLookupError(msg) => "Could not find entity in Discord: "@ + msg,
            DiscordErrorView::MissingRequiredProperty(name) => {
                "Could not start Discord client: missing required property '"@ + name + "'"@
            },
        }
    }
}

// TYPE IMPLS ******************************************************************

impl DiscordError {
    /// Renders this error.
    pub fn message(&self) -> (r: String)
        ensures
            r@ == self@.explained(),
    {
        match self {
            DiscordError::Serenity(e) => e.clone(),
            DiscordError::Songbird(e) => e.clone(),
            DiscordError::TaskCrash(e) => {
                let mut r = "Discord client task unexpectedly quit: ".to_owned();
                r.append(e.as_str());
                r
            },
            DiscordError::InitializationError => "Initialization error".to_owned(),
            DiscordError::DataLookupError(msg) => {
                let mut r = "Could not find entity in Discord: ".to_owned();
                r.append(msg.as_str());
                r
            },
            DiscordError::MissingRequiredProperty(name) => {
                let mut r = "Could not start Discord client: missing required property '".to_owned();
                r.append(name.as_str());
                r.append("'");
                r
            },
        }
    }
}

} // verus!
