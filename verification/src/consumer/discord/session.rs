//! Connections to Discord, from their setup until they are torn down.
//!
//! Setting up a connection proceeds in steps, which either request something
//! from the Discord client or conclude the procedure.

use vstd::prelude::*;

use crate::util;
use crate::util::{Lease, Lessor, ShutdownSignal};
use crate::util::text;

use super::cfg::DiscordConfig;
use super::client;
use super::client::Channels;
use super::error::{DiscordError, DiscordErrorView};

verus! {

// SETUP ***********************************************************************

/// Something that has to be done in order to connect to Discord.
#[derive(Debug)]
pub enum ConnectRequest {
    /// Create a client that uses the given bot token and resolves the names of
    /// the given channels.
    CreateClient { token: String, channels: Channels<String> },

    /// Start the client in a task of its own, and wait for the resolved
    /// channels.
    StartClient,

    /// Join the voice channel with the given ID.
    Join { guild_id: u64, channel_id: u64 },

    /// Abort the task of the client.
    AbortClient,
}

/// The reply to a [`ConnectRequest`].
#[derive(Debug)]
pub enum ConnectReply {
    /// Whether the created client is able to report resolved channels, or the
    /// reason for which it could not be created.
    Created(Result<bool, String>),

    /// The resolved channels, unless the client ceased to exist before it could
    /// report them.
    Resolved(Option<Result<Channels<u64>, DiscordError>>),

    /// Whether the voice channel could be joined, or the reason for which it
    /// could not.
    Joined(Result<(), String>),

    /// The task of the client has been aborted.
    Aborted,
}

/// A step of the setup of a connection to Discord.
#[derive(Debug)]
pub enum ConnectStep {
    /// The reply to the given request is needed to proceed.
    Request(ConnectRequest),

    /// The procedure is complete. If successful, the client is connected to the
    /// given channels.
    Done(Result<Channels<u64>, DiscordError>),
}

/// The contents of a [`ConnectRequest`].
pub enum ConnectRequestView {
    CreateClient {
        token: Seq<char>,
        guild_id: u64,
        voice: Seq<char>,
        metadata: Option<Seq<char>>,
    },
    StartClient,
    Join { guild_id: u64, channel_id: u64 },
    AbortClient,
}

/// The contents of a [`ConnectReply`].
pub enum ConnectReplyView {
    Created(Result<bool, Seq<char>>),
    Resolved(Option<Result<Channels<u64>, DiscordErrorView>>),
    Joined(Result<(), Seq<char>>),
    Aborted,
}

/// The contents of a [`ConnectStep`].
pub enum ConnectStepView {
    Request(ConnectRequestView),
    Done(Result<Channels<u64>, DiscordErrorView>),
}

impl View for ConnectRequest {
    type V = ConnectRequestView;

    open spec fn view(&self) -> ConnectRequestView {
        match *self {
            ConnectRequest::CreateClient { token, channels } => ConnectRequestView::CreateClient {
                token: token@,
                guild_id: channels.guild_id,
                voice: channels.voice@,
                metadata: text::opt_view(channels.metadata),
            },
            ConnectRequest::StartClient => ConnectRequestView::StartClient,
            ConnectRequest::Join { guild_id, channel_id } => ConnectRequestView::Join {
                guild_id,
                channel_id,
            },
            ConnectRequest::AbortClient => ConnectRequestView::AbortClient,
        }
    }
}

impl View for ConnectReply {
    type V = ConnectReplyView;

    open spec fn view(&self) -> ConnectReplyView {
        match *self {
            ConnectReply::Created(Ok(resolves)) => ConnectReplyView::Created(Ok(resolves)),
            ConnectReply::Created(Err(e)) => ConnectReplyView::Created(Err(e@)),
            ConnectReply::Resolved(Some(Ok(channels))) => ConnectReplyView::Resolved(
                Some(Ok(channels)),
            ),
            ConnectReply::Resolved(Some(Err(e))) => ConnectReplyView::Resolved(Some(Err(e@))),
            ConnectReply::Resolved(None) => ConnectReplyView::Resolved(None),
            ConnectReply::Joined(Ok(())) => ConnectReplyView::Joined(Ok(())),
            ConnectReply::Joined(Err(e)) => ConnectReplyView::Joined(Err(e@)),
            ConnectReply::Aborted => ConnectReplyView::Aborted,
        }
    }
}

impl View for ConnectStep {
    type V = ConnectStepView;

    open spec fn view(&self) -> ConnectStepView {
        match *self {
            ConnectStep::Request(request) => ConnectStepView::Request(request@),
            ConnectStep::Done(Ok(channels)) => ConnectStepView::Done(Ok(channels)),
            ConnectStep::Done(Err(e)) => ConnectStepView::Done(Err(e@)),
        }
    }
}

/// Progress of a [`ClientSetup`].
enum SetupProgress {
    Creating,
    Resolving,
    Joining(Channels<u64>),
    Aborting(DiscordError),
    Finished,
}

/// The setup of a connection to Discord.
///
/// The configured channels are resolved before the voice channel is joined. If
/// anything fails after the client has been started, then the client is aborted.
pub struct ClientSetup {
    progress: SetupProgress,
}

/// The state of a [`ClientSetup`].
pub enum SetupState {
    Creating,
    Resolving,
    Joining(Channels<u64>),
    Aborting(DiscordErrorView),
    Finished,
}

impl SetupState {
    /// The state and the step at the beginning of the procedure. Anything that
    /// is needed has to be part of the configuration.
    pub open spec fn begin(cfg: DiscordConfig) -> (SetupState, ConnectStepView) {
        match (cfg.token, cfg.server_id, cfg.voice_channel) {
            (Some(token), Some(guild_id), Some(voice)) => (
                SetupState::Creating,
                ConnectStepView::Request(
                    ConnectRequestView::CreateClient {
                        token: token@,
                        guild_id,
                        voice: voice@,
                        metadata: text::opt_view(cfg.metadata_channel),
                    },
                ),
            ),
            (None, _, _) => Self::fail(DiscordErrorView::MissingRequiredProperty("token"@)),
            (_, None, _) => Self::fail(DiscordErrorView::MissingRequiredProperty("server-id"@)),
            (_, _, None) => Self::fail(DiscordErrorView::MissingRequiredProperty("voice-channel"@)),
        }
    }

    /// Concludes the procedure with the given error.
    pub open spec fn fail(e: DiscordErrorView) -> (SetupState, ConnectStepView) {
        (SetupState::Finished, ConnectStepView::Done(Err(e)))
    }

    /// Aborts the client because of the given error.
    pub open spec fn abort(e: DiscordErrorView) -> (SetupState, ConnectStepView) {
        (
            SetupState::Aborting(e),
            ConnectStepView::Request(ConnectRequestView::AbortClient),
        )
    }

    /// Whether `reply` is of the form that is needed to proceed.
    pub open spec fn expects(self, reply: ConnectReplyView) -> bool {
        match self {
            SetupState::Creating => reply is Created,
            SetupState::Resolving => reply is Resolved,
            SetupState::Joining(_) => reply is Joined,
            SetupState::Aborting(_) => reply is Aborted,
            SetupState::Finished => false,
        }
    }

    /// The step that follows the given reply.
    pub open spec fn resume_next(self, reply: ConnectReplyView) -> (SetupState, ConnectStepView) {
        match (self, reply) {
            (SetupState::Creating, ConnectReplyView::Created(Ok(resolves))) => if resolves {
                (
                    SetupState::Resolving,
                    ConnectStepView::Request(ConnectRequestView::StartClient),
                )
            } else {
                Self::fail(DiscordErrorView::InitializationError)
            },
            (SetupState::Creating, ConnectReplyView::Created(Err(e))) => Self::fail(
                DiscordErrorView::Serenity(e),
            ),
            (SetupState::Resolving, ConnectReplyView::Resolved(Some(Ok(channels)))) => (
                SetupState::Joining(channels),
                ConnectStepView::Request(
                    ConnectRequestView::Join {
                        guild_id: channels.guild_id,
                        channel_id: channels.voice,
                    },
                ),
            ),
            (SetupState::Resolving, ConnectReplyView::Resolved(Some(Err(e)))) => Self::abort(e),
            (SetupState::Resolving, ConnectReplyView::Resolved(None)) => Self::abort(
                DiscordErrorView::InitializationError,
            ),
            (SetupState::Joining(channels), ConnectReplyView::Joined(Ok(()))) => (
                SetupState::Finished,
                ConnectStepView::Done(Ok(channels)),
            ),
            (SetupState::Joining(_), ConnectReplyView::Joined(Err(e))) => Self::abort(
                DiscordErrorView::Songbird(e),
            ),
            (SetupState::Aborting(e), _) => Self::fail(e),
            _ => Self::fail(DiscordErrorView::InitializationError),
        }
    }
}

impl ClientSetup {
    /// The state of the procedure.
    pub closed spec fn view(&self) -> SetupState {
        match self.progress {
            SetupProgress::Creating => SetupState::Creating,
            SetupProgress::Resolving => SetupState::Resolving,
            SetupProgress::Joining(channels) => SetupState::Joining(channels),
            SetupProgress::Aborting(e) => SetupState::Aborting(e@),
            SetupProgress::Finished => SetupState::Finished,
        }
    }

    /// Starts to set up a connection from the given config.
    pub fn new(cfg: &DiscordConfig) -> (r: (Self, ConnectStep))
        ensures
            (r.0@, r.1@) == SetupState::begin(*cfg),
    {
        let token = match &cfg.token {
            Some(token) => token.clone(),
            None => {
                let e = DiscordError::MissingRequiredProperty("token".to_owned());
                return (
                    ClientSetup { progress: SetupProgress::Finished },
                    ConnectStep::Done(Err(e)),
                );
            },
        };

        match Channels::from_config(cfg) {
            Ok(channels) => (
                ClientSetup { progress: SetupProgress::Creating },
                ConnectStep::Request(ConnectRequest::CreateClient { token, channels }),
            ),
            Err(e) => (
                ClientSetup { progress: SetupProgress::Finished },
                ConnectStep::Done(Err(e)),
            ),
        }
    }

    /// Aborts the client because of the given error.
    fn abort(&mut self, e: DiscordError) -> (r: ConnectStep)
        ensures
            (final(self)@, r@) == SetupState::abort(e@),
    {
        self.progress = SetupProgress::Aborting(e);
        ConnectStep::Request(ConnectRequest::AbortClient)
    }

    /// Proceeds with the reply to the last request.
    pub fn resume(&mut self, reply: ConnectReply) -> (r: ConnectStep)
        requires
            old(self)@.expects(reply@),
        ensures
            (final(self)@, r@) == old(self)@.resume_next(reply@),
    {
        let mut progress = SetupProgress::Finished;
        std::mem::swap(&mut progress, &mut self.progress);

        match (progress, reply) {
            (SetupProgress::Creating, ConnectReply::Created(Ok(resolves))) => {
                if resolves {
                    self.progress = SetupProgress::Resolving;
                    ConnectStep::Request(ConnectRequest::StartClient)
                } else {
                    ConnectStep::Done(Err(DiscordError::InitializationError))
                }
            },
            (SetupProgress::Creating, ConnectReply::Created(Err(e))) => ConnectStep::Done(
                Err(DiscordError::Serenity(e)),
            ),
            (SetupProgress::Resolving, ConnectReply::Resolved(Some(Ok(channels)))) => {
                let guild_id = channels.guild_id;
                let channel_id = channels.voice;
                self.progress = SetupProgress::Joining(channels);
                ConnectStep::Request(ConnectRequest::Join { guild_id, channel_id })
            },
            (SetupProgress::Resolving, ConnectReply::Resolved(Some(Err(e)))) => self.abort(e),
            (SetupProgress::Resolving, ConnectReply::Resolved(None)) => self.abort(
                DiscordError::InitializationError,
            ),
            (SetupProgress::Joining(channels), ConnectReply::Joined(Ok(()))) => ConnectStep::Done(
                Ok(channels),
            ),
            (SetupProgress::Joining(_), ConnectReply::Joined(Err(e))) => self.abort(
                DiscordError::Songbird(e),
            ),
            (SetupProgress::Aborting(e), _) => ConnectStep::Done(Err(e)),
            _ => ConnectStep::Done(Err(DiscordError::InitializationError)),
        }
    }
}

// MAIN LOOP *******************************************************************

/// How the task that handles the connection to Discord ended.
#[derive(Debug)]
pub enum ClientExit {
    /// The task crashed, for the given reason.
    Crashed(String),

    /// The connection failed, for the given reason.
    Failed(String),

    /// The task quit without error.
    Quit,
}

/// Events that an active connection to Discord reacts to.
#[derive(Debug)]
pub enum ClientEvent<P> {
    /// The task that handles the connection to Discord ended.
    ClientEnded(ClientExit),

    /// There was a change to whether the application is to keep running.
    Shutdown(ShutdownSignal),

    /// Audio playback has started, or ended if there is none.
    Playback(Option<P>),
}

/// What follows an event.
#[derive(Debug)]
pub enum ClientAction {
    /// Wait for the next event.
    Continue,

    /// Disconnect, and report the given result.
    Stop(Result<(), DiscordError>),
}

/// A message to be posted to a text channel.
#[derive(Debug)]
pub struct Announcement {
    pub channel_id: u64,
    pub text: String,
}

/// An active connection to Discord with playback handles of type `P`.
#[derive(Debug)]
pub struct ClientSession<P> {
    channels: Channels<u64>,
    playback: Option<P>,
}

/// What has to be done in order to tear down a connection. See
/// [`Cleanup::steps`].
#[derive(Debug)]
pub struct Cleanup<P> {
    /// The playback to stop, if any.
    pub playback: Option<P>,

    /// The message to post, if any.
    pub goodbye: Option<Announcement>,
}

/// A step of tearing down a connection. A step that fails does not prevent the
/// ones after it.
#[derive(Debug)]
pub enum CleanupStep<'a, P> {
    /// Stop the given playback.
    StopPlayback(&'a P),

    /// Leave the voice channel.
    Leave,

    /// Post the given message.
    Post(&'a Announcement),

    /// Shut down the client, if it is still running.
    ShutDown,
}

/// How to end the task that handles the connection to Discord.
#[derive(Debug, Clone, Copy, PartialEq, Eq, Structural)]
pub enum ClientShutdown {
    /// The task has already ended.
    Nothing,

    /// The task has to be aborted.
    Abort,

    /// The task has been told to end, which has to be awaited.
    Await,
}

impl<P> ClientSession<P> {
    /// The channels that the client is connected to.
    pub closed spec fn spec_channels(&self) -> Channels<u64> {
        self.channels
    }

    /// The audio playback in progress, if any.
    pub closed spec fn spec_playback(&self) -> Option<P> {
        self.playback
    }

    /// Creates a handler for a connection to the given channels.
    pub fn new(channels: Channels<u64>) -> (r: Self)
        ensures
            r.spec_channels() == channels,
            r.spec_playback() is None,
    {
        ClientSession { channels, playback: None }
    }

    /// Returns the audio playback in progress, if any.
    pub fn playback(&self) -> (r: Option<&P>)
        ensures
            match self.spec_playback() {
                Some(playback) => r == Some(&playback),
                None => r is None,
            },
    {
        match &self.playback {
            Some(playback) => Some(playback),
            None => None,
        }
    }

    /// Renders the message to post on connect to the configured metadata
    /// channel, if any.
    pub fn hello(&self, app_name: &str, app_version: &str) -> (r: Option<Announcement>)
        ensures
            match self.spec_channels().metadata {
                Some(channel_id) => {
                    &&& r matches Some(message)
                    &&& message.channel_id == channel_id
                    &&& message.text@ == client::hello_text(
                        app_name@,
                        app_version@,
                        self.spec_channels().voice,
                    )
                },
                None => r is None,
            },
    {
        match self.channels.metadata {
            Some(channel_id) => Some(
                Announcement {
                    channel_id,
                    text: client::hello_message(app_name, app_version, self.channels.voice),
                },
            ),
            None => None,
        }
    }

    /// Reacts to the given event.
    ///
    /// The task that handles the connection shouldn't end on its own, but it is
    /// not fatal if it does so without error.
    pub fn handle(&mut self, event: ClientEvent<P>) -> (r: ClientAction)
        ensures
            final(self).spec_channels() == old(self).spec_channels(),
            final(self).spec_playback() == (match event {
                ClientEvent::Playback(playback) => playback,
                _ => old(self).spec_playback(),
            }),
            match event {
                ClientEvent::ClientEnded(ClientExit::Crashed(e)) => {
                    &&& r matches ClientAction::Stop(Err(err))
                    &&& err@ == DiscordErrorView::TaskCrash(e@)
                },
                ClientEvent::ClientEnded(ClientExit::Failed(e)) => {
                    &&& r matches ClientAction::Stop(Err(err))
                    &&& err@ == DiscordErrorView::Serenity(e@)
                },
                ClientEvent::ClientEnded(ClientExit::Quit) => r is Continue,
                ClientEvent::Shutdown(signal) => if signal.keeps_running() {
                    r is Continue
                } else {
                    r matches ClientAction::Stop(Ok(()))
                },
                ClientEvent::Playback(_) => r is Continue,
            },
    {
        match event {
            ClientEvent::ClientEnded(ClientExit::Crashed(e)) => ClientAction::Stop(
                Err(DiscordError::TaskCrash(e)),
            ),
            ClientEvent::ClientEnded(ClientExit::Failed(e)) => ClientAction::Stop(
                Err(DiscordError::Serenity(e)),
            ),
            ClientEvent::ClientEnded(ClientExit::Quit) => ClientAction::Continue,
            ClientEvent::Shutdown(signal) => if signal.is_running() {
                ClientAction::Continue
            } else {
                ClientAction::Stop(Ok(()))
            },
            ClientEvent::Playback(playback) => {
                self.playback = playback;
                ClientAction::Continue
            },
        }
    }

    /// Tears down the connection: terminates any playing audio and posts a
    /// disconnect message to the configured metadata channel, if any.
    pub fn cleanup(self, app_name: &str) -> (r: Cleanup<P>)
        ensures
            r.playback == self.spec_playback(),
            match self.spec_channels().metadata {
                Some(channel_id) => {
                    &&& r.goodbye matches Some(message)
                    &&& message.channel_id == channel_id
                    &&& message.text@ == client::goodbye_text(app_name@)
                },
                None => r.goodbye is None,
            },
    {
        let goodbye = match self.channels.metadata {
            Some(channel_id) => Some(
                Announcement { channel_id, text: client::goodbye_message(app_name) },
            ),
            None => None,
        };

        Cleanup { playback: self.playback, goodbye }
    }
}

impl<P> Cleanup<P> {
    /// Lists the steps of tearing down the connection, in the order in which they
    /// have to be carried out.
    pub fn steps(&self) -> (r: Vec<CleanupStep<'_, P>>)
        ensures
            r@ == (match self.playback {
                Some(playback) => seq![CleanupStep::StopPlayback(&playback)],
                None => Seq::empty(),
            }) + seq![CleanupStep::Leave] + (match self.goodbye {
                Some(message) => seq![CleanupStep::Post(&message)],
                None => Seq::empty(),
            }) + seq![CleanupStep::ShutDown],
    {
        let mut r: Vec<CleanupStep<'_, P>> = Vec::new();
        if let Some(playback) = &self.playback {
            r.push(CleanupStep::StopPlayback(playback));
        }
        r.push(CleanupStep::Leave);
        if let Some(message) = &self.goodbye {
            r.push(CleanupStep::Post(message));
        }
        r.push(CleanupStep::ShutDown);
        r
    }
}

/// Determines how to end the task that handles the connection to Discord, given
/// whether it has already ended, and whether it could be told to end.
pub fn client_shutdown(finished: bool, told_to_end: bool) -> (r: ClientShutdown)
    ensures
        r == (if finished {
            ClientShutdown::Nothing
        } else if told_to_end {
            ClientShutdown::Await
        } else {
            ClientShutdown::Abort
        }),
{
    if finished {
        ClientShutdown::Nothing
    } else if told_to_end {
        ClientShutdown::Await
    } else {
        ClientShutdown::Abort
    }
}

/// Renders the message with which the application shuts down after the client
/// exited abnormally.
pub fn crash_message(e: &DiscordError) -> (r: String)
    ensures
        r@ == "Discord client crashed: "@ + e@.explained(),
{
    let mut r = "Discord client crashed: ".to_owned();
    r.append(e.message().as_str());
    r
}

// PLAYBACK ********************************************************************

/// What has to be done in order to play audio.
#[verifier::reject_recursive_types(S)]
pub enum PlaybackPlan<S> {
    /// Wait for audio to become available in the leased stream, then play it.
    Play(Lease<S>),

    /// Wait for the stream to be returned, which happens once playback has
    /// ended, and make sure that it has.
    AwaitRelease,
}

/// What is known about audio playback after its stream was returned.
#[derive(Debug, Clone, Copy, PartialEq, Eq, Structural)]
pub enum PlaybackStatus {
    /// Nothing was being played.
    NoPlayback,

    /// The status of playback could be determined.
    Known { done: bool },

    /// The status of playback is no longer available because it has finished.
    Finished,

    /// The status of playback could not be determined for another reason.
    Unknown,
}

/// Determines what has to be done in order to play audio from the given stream.
/// Only one playback can use the stream at a time.
pub fn plan_playback<S>(stream: &mut Lessor<S>) -> (r: PlaybackPlan<S>)
    ensures
        final(stream)@ is None,
        match old(stream)@ {
            Some(value) => {
                &&& r matches PlaybackPlan::Play(lease)
                &&& lease@ == value
                &&& final(stream).receiver() matches Some(rx)
                &&& util::is_channel(lease.channel(), rx)
            },
            None => r is AwaitRelease && final(stream).receiver() == old(stream).receiver(),
        },
{
    match stream.lease() {
        Some(lease) => PlaybackPlan::Play(lease),
        None => PlaybackPlan::AwaitRelease,
    }
}

/// Determines whether audio playback has to be stopped after its stream was
/// returned, which is the case if it is still in progress.
pub fn needs_stop(status: PlaybackStatus) -> (r: bool)
    ensures
        r == (status == PlaybackStatus::Known { done: false }),
{
    match status {
        PlaybackStatus::Known { done } => !done,
        _ => false,
    }
}

// LAWS ************************************************************************

/// If everything that is requested succeeds, then the client connects to the
/// channels that it resolved, and joins the voice channel among them.
pub proof fn law_setup_succeeds(cfg: DiscordConfig, channels: Channels<u64>)
    requires
        cfg.token is Some,
        cfg.server_id is Some,
        cfg.voice_channel is Some,
    ensures
        ({
            let (created, create) = SetupState::begin(cfg);
            let (resolving, start) = created.resume_next(ConnectReplyView::Created(Ok(true)));
            let (joining, join) = resolving.resume_next(
                ConnectReplyView::Resolved(Some(Ok(channels))),
            );
            let (finished, done) = joining.resume_next(ConnectReplyView::Joined(Ok(())));
            &&& create matches ConnectStepView::Request(
                ConnectRequestView::CreateClient { token, guild_id, voice, .. },
            )
            &&& token == cfg.token.unwrap()@
            &&& guild_id == cfg.server_id.unwrap()
            &&& voice == cfg.voice_channel.unwrap()@
            &&& start == ConnectStepView::Request(ConnectRequestView::StartClient)
            &&& join == ConnectStepView::Request(
                ConnectRequestView::Join {
                    guild_id: channels.guild_id,
                    channel_id: channels.voice,
                },
            )
            &&& finished is Finished
            &&& done == ConnectStepView::Done(Ok(channels))
        }),
{
}

/// Once the client has been started, it is aborted before any failure is
/// reported.
pub proof fn law_failed_setup_aborts(state: SetupState, reply: ConnectReplyView)
    requires
        state is Resolving || state is Joining,
        state.expects(reply),
    ensures
        ({
            let (next, step) = state.resume_next(reply);
            &&& step matches ConnectStepView::Done(result) ==> result is Ok
            &&& next matches SetupState::Aborting(e) ==> {
                &&& step == ConnectStepView::Request(ConnectRequestView::AbortClient)
                &&& next.resume_next(ConnectReplyView::Aborted) == SetupState::fail(e)
            }
        }),
{
}

/// Nothing is requested from Discord unless the configuration is complete.
pub proof fn law_setup_needs_configuration(cfg: DiscordConfig)
    ensures
        SetupState::begin(cfg).1 is Request <==> (cfg.token is Some && cfg.server_id is Some
            && cfg.voice_channel is Some),
{
}

} // verus!
