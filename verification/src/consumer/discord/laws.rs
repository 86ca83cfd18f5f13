//! Laws that hold of the connection to Discord.

use dashmap::DashMap;
use std::time::Duration;
use vstd::prelude::*;

use crate::util;
use crate::util::text;
use crate::util::{Lessor, ShutdownSignal};

use super::cfg::DiscordConfig;
use super::client;
use super::client::{ChannelType, Channels, GuildChannel};
use super::error::{DiscordError, DiscordErrorView};
use super::session;
use super::session::{
    Cleanup, CleanupStep, ClientAction, ClientEvent, ClientExit, ClientSession, ClientSetup,
    ClientShutdown, ConnectReplyView, ConnectRequestView, ConnectStep, ConnectStepView,
    PlaybackPlan, PlaybackStatus, SetupState,
};
use super::{DiscordConsumer, GuildEnumeration, GuildPage, GuildRow};

verus! {

// CHANNELS ********************************************************************

/// The first channel that has both the given name and the given type is found, and
/// none is found if there is no such channel.
pub proof fn law_first_channel_is_found(
    channels: Vec<(u64, GuildChannel)>,
    name: &str,
    kind: ChannelType,
    r: Option<u64>,
    i: int,
)
    requires
        call_ensures(client::find_matching_channel, (&channels, name, kind), r),
    ensures
        ({
            let before = forall|j: int|
                0 <= j < i ==> (#[trigger] channels@[j]).1.name@ != name@ || channels@[j].1.kind
                    != kind;
            &&& 0 <= i < channels@.len() && channels@[i].1.name@ == name@ && channels@[i].1.kind
                == kind && before ==> r == Some(channels@[i].0)
            &&& i == channels@.len() && before ==> r is None
        }),
{
    let views = client::channel_views(channels@);
    assert(views.len() == channels@.len());
    assert forall|j: int| 0 <= j < views.len() implies #[trigger] views[j] == (
        channels@[j].0,
        channels@[j].1@,
    ) by {}
    let before = forall|j: int|
        0 <= j < i ==> (#[trigger] channels@[j]).1.name@ != name@ || channels@[j].1.kind != kind;
    if 0 <= i <= channels@.len() && before {
        assert forall|j: int| 0 <= j < i implies !(#[trigger] views[j]).1.matches(name@, kind) by {
            assert(channels@[j].1.name@ != name@ || channels@[j].1.kind != kind);
        }
        lemma_skipped(views, name@, kind, i);
        if i < channels@.len() {
            assert(views.skip(i)[0] == views[i]);
        }
    }
}

/// Channels that do not match are skipped.
proof fn lemma_skipped(
    channels: Seq<(u64, client::GuildChannelView)>,
    name: Seq<char>,
    kind: ChannelType,
    i: int,
)
    requires
        0 <= i <= channels.len(),
        forall|j: int| 0 <= j < i ==> !(#[trigger] channels[j]).1.matches(name, kind),
    ensures
        client::matching_channel(channels, name, kind) == client::matching_channel(
            channels.skip(i),
            name,
            kind,
        ),
    decreases i,
{
    if i > 0 {
        let rest = channels.skip(1);
        assert forall|j: int| 0 <= j < i - 1 implies !(#[trigger] rest[j]).1.matches(name, kind) by {
            assert(rest[j] == channels[j + 1]);
        }
        lemma_skipped(rest, name, kind, i - 1);
        assert(rest.skip(i - 1) =~= channels.skip(i));
    } else {
        assert(channels.skip(0) =~= channels);
    }
}

/// The channels to connect to are looked up by their names: a voice channel, which
/// has to exist, and a text channel, which need not. Nothing can be looked up if the
/// channels are not known.
pub proof fn law_channels_are_resolved(
    channels: Channels<String>,
    all: Vec<(u64, GuildChannel)>,
    r: Result<Channels<u64>, DiscordError>,
    voice_name: &str,
    voice: Option<u64>,
    text_name: &str,
    text: Option<u64>,
    missing: Result<Channels<u64>, DiscordError>,
)
    requires
        call_ensures(Channels::<String>::resolve_listed, (&channels, &Some(all)), r),
        voice_name@ == channels.voice@,
        call_ensures(client::find_matching_channel, (&all, voice_name, ChannelType::Voice), voice),
        channels.metadata matches Some(name) ==> text_name@ == name@,
        call_ensures(client::find_matching_channel, (&all, text_name, ChannelType::Text), text),
        call_ensures(
            Channels::<String>::resolve_listed,
            (&channels, &None::<Vec<(u64, GuildChannel)>>),
            missing,
        ),
    ensures
        r is Ok <==> voice is Some,
        r matches Ok(resolved) ==> {
            &&& resolved.guild_id == channels.guild_id
            &&& Some(resolved.voice) == voice
            &&& channels.metadata is None ==> resolved.metadata is None
            &&& channels.metadata is Some ==> resolved.metadata == text
        },
        r matches Err(e) ==> e@ == DiscordErrorView::DataLookupError(
            "No such voice channel with name '"@ + channels.voice@ + "'"@,
        ),
        missing matches Err(e) && e@ == DiscordErrorView::DataLookupError(
            "Available channels unexpectedly missing from cache"@,
        ),
{
}

/// Channels that are resolved from the cache are ones that the cache holds, of the
/// right type and with the right name.
pub proof fn law_cached_channels_are_resolved(
    channels: Channels<String>,
    all: DashMap<u64, GuildChannel>,
    r: Result<Channels<u64>, DiscordError>,
)
    requires
        call_ensures(Channels::<String>::resolve, (&channels, Some(all)), r),
    ensures
        ({
            let held = client::channels_held(all);
            &&& r matches Ok(resolved) ==> {
                &&& resolved.guild_id == channels.guild_id
                &&& held.contains_key(resolved.voice)
                &&& held[resolved.voice].name == channels.voice@
                &&& held[resolved.voice].kind == ChannelType::Voice
                &&& resolved.metadata matches Some(id) ==> held.contains_key(id) && held[id].kind
                    == ChannelType::Text && Some(held[id].name) == text::opt_view(channels.metadata)
            }
            &&& r is Err ==> forall|id: u64| #[trigger]
                held.contains_key(id) ==> held[id].name != channels.voice@ || held[id].kind
                    != ChannelType::Voice
        }),
{
    let held = client::channels_held(all);
    let metadata = text::opt_view(channels.metadata);
    let listed = choose|listed: Seq<(u64, client::GuildChannelView)>|
        {
            &&& #[trigger] client::is_listing(held, listed)
            &&& client::is_resolution(
                client::resolved(channels.guild_id, channels.voice@, metadata, Some(listed)),
                r,
            )
        };
    client::law_channel_is_found(listed, channels.voice@, ChannelType::Voice);
    if let Some(name) = metadata {
        client::law_channel_is_found(listed, name, ChannelType::Text);
    }
    if r is Err {
        assert forall|id: u64| #[trigger] held.contains_key(id) implies held[id].name
            != channels.voice@ || held[id].kind != ChannelType::Voice by {
            let i = choose|i: int| 0 <= i < listed.len() && (#[trigger] listed[i]).0 == id;
            assert(!listed[i].1.matches(channels.voice@, ChannelType::Voice));
        }
    }
}

/// The names of channels are those in the configuration, which needs a server and a
/// voice channel.
pub proof fn law_configured_channels(cfg: DiscordConfig, r: Result<Channels<String>, DiscordError>)
    requires
        call_ensures(Channels::<String>::from_config, (&cfg,), r),
    ensures
        r is Ok <==> cfg.server_id is Some && cfg.voice_channel is Some,
        r matches Ok(channels) ==> cfg.server_id == Some(channels.guild_id) && cfg.voice_channel
            == Some(channels.voice) && channels.metadata == cfg.metadata_channel,
        cfg.server_id is None ==> (r matches Err(e) && e@
            == DiscordErrorView::MissingRequiredProperty("server-id"@)),
        cfg.server_id is Some && cfg.voice_channel is None ==> (r matches Err(e) && e@
            == DiscordErrorView::MissingRequiredProperty("voice-channel"@)),
{
}

// SETUP ***********************************************************************

/// A connection is set up with the configured token and channels, all of which are
/// needed. Of those that are missing, the token is reported first.
pub proof fn law_setup_starts(cfg: DiscordConfig, r: (ClientSetup, ConnectStep))
    requires
        call_ensures(ClientSetup::new, (&cfg,), r),
    ensures
        match (cfg.token, cfg.server_id, cfg.voice_channel) {
            (Some(token), Some(guild_id), Some(voice)) => r.0@ is Creating && r.1@
                == ConnectStepView::Request(
                ConnectRequestView::CreateClient {
                    token: token@,
                    guild_id,
                    voice: voice@,
                    metadata: text::opt_view(cfg.metadata_channel),
                },
            ),
            (None, _, _) => r.1@ == ConnectStepView::Done(
                Err(DiscordErrorView::MissingRequiredProperty("token"@)),
            ),
            (Some(_), None, _) => r.1@ == ConnectStepView::Done(
                Err(DiscordErrorView::MissingRequiredProperty("server-id"@)),
            ),
            (Some(_), Some(_), None) => r.1@ == ConnectStepView::Done(
                Err(DiscordErrorView::MissingRequiredProperty("voice-channel"@)),
            ),
        },
{
}

/// A client that cannot be created is an error, with nothing to be undone. Once it
/// has been started, every failure aborts it before that failure is reported.
pub proof fn law_setup_fails(e: Seq<char>, lookup: DiscordErrorView, channels: Channels<u64>)
    ensures
        SetupState::Creating.resume_next(ConnectReplyView::Created(Err(e))).1
            == ConnectStepView::Done(Err(DiscordErrorView::Serenity(e))),
        SetupState::Creating.resume_next(ConnectReplyView::Created(Ok(false))).1
            == ConnectStepView::Done(Err(DiscordErrorView::InitializationError)),
        aborts(
            SetupState::Resolving.resume_next(ConnectReplyView::Resolved(Some(Err(lookup)))),
            lookup,
        ),
        aborts(
            SetupState::Resolving.resume_next(ConnectReplyView::Resolved(None)),
            DiscordErrorView::InitializationError,
        ),
        aborts(
            SetupState::Joining(channels).resume_next(ConnectReplyView::Joined(Err(e))),
            DiscordErrorView::Songbird(e),
        ),
{
}

/// Whether the given step aborts the client, and reports the given error after that.
pub open spec fn aborts(next: (SetupState, ConnectStepView), e: DiscordErrorView) -> bool {
    &&& next.1 == ConnectStepView::Request(ConnectRequestView::AbortClient)
    &&& next.0.resume_next(ConnectReplyView::Aborted).1 == ConnectStepView::Done(Err(e))
}

/// A connection is established in the voice channel that was resolved, and with the
/// channels that were resolved.
pub proof fn law_setup_joins(channels: Channels<u64>)
    ensures
        ({
            let s1 = SetupState::Creating.resume_next(ConnectReplyView::Created(Ok(true)));
            let s2 = s1.0.resume_next(ConnectReplyView::Resolved(Some(Ok(channels))));
            let s3 = s2.0.resume_next(ConnectReplyView::Joined(Ok(())));
            &&& s1.1 == ConnectStepView::Request(ConnectRequestView::StartClient)
            &&& s2.1 == ConnectStepView::Request(
                ConnectRequestView::Join {
                    guild_id: channels.guild_id,
                    channel_id: channels.voice,
                },
            )
            &&& s3.1 == ConnectStepView::Done(Ok(channels))
        }),
{
}

// SESSION *********************************************************************

/// A session goes on until the application shuts down, or until the client crashes or
/// fails, which is an error. Neither a client that quits nor a change of playback ends
/// it.
pub proof fn law_session_continues<P>(event: ClientEvent<P>)
    ensures
        forall|session: &mut ClientSession<P>, r: ClientAction| #[trigger]
            call_ensures(ClientSession::<P>::handle, (session, event), r) ==> {
                &&& final(session).spec_channels() == session.spec_channels()
                &&& match event {
                    ClientEvent::Playback(playback) => r is Continue
                        && final(session).spec_playback() == playback,
                    ClientEvent::Shutdown(ShutdownSignal::Closed) => {
                        r matches ClientAction::Stop(Ok(())) && final(session).spec_playback()
                            == session.spec_playback()
                    },
                    ClientEvent::Shutdown(ShutdownSignal::Unchanged) => r is Continue
                        && final(session).spec_playback() == session.spec_playback(),
                    ClientEvent::Shutdown(ShutdownSignal::Changed(running)) => {
                        &&& running ==> r is Continue
                        &&& !running ==> (r matches ClientAction::Stop(Ok(())))
                        &&& final(session).spec_playback() == session.spec_playback()
                    },
                    ClientEvent::ClientEnded(ClientExit::Quit) => r is Continue
                        && final(session).spec_playback() == session.spec_playback(),
                    ClientEvent::ClientEnded(ClientExit::Crashed(e)) => r matches ClientAction::Stop(
                        Err(err),
                    ) && err@ == DiscordErrorView::TaskCrash(e@),
                    ClientEvent::ClientEnded(ClientExit::Failed(e)) => r matches ClientAction::Stop(
                        Err(err),
                    ) && err@ == DiscordErrorView::Serenity(e@),
                }
            },
{
}

/// Messages are posted to the text channel, if there is one: one that mentions the
/// voice channel at the start, and one at the end.
pub proof fn law_announcements<P>(
    channels: Channels<u64>,
    session: ClientSession<P>,
    name: &str,
    version: &str,
    hello: Option<session::Announcement>,
    cleanup: Cleanup<P>,
    playback: Option<&P>,
)
    requires
        call_ensures(ClientSession::<P>::hello, (&session, name, version), hello),
        call_ensures(ClientSession::<P>::cleanup, (session, name), cleanup),
        call_ensures(ClientSession::<P>::playback, (&session,), playback),
    ensures
        forall|new: ClientSession<P>| #[trigger]
            call_ensures(ClientSession::<P>::new, (channels,), new) ==> new.spec_channels()
                == channels && new.spec_playback() is None,
        hello is Some <==> session.spec_channels().metadata is Some,
        cleanup.goodbye is Some <==> session.spec_channels().metadata is Some,
        hello matches Some(message) ==> session.spec_channels().metadata == Some(
            message.channel_id,
        ) && message.text@ == name@ + " version "@ + version@ + " connected to voice channel "@
            + "<#"@ + text::decimal(session.spec_channels().voice as nat) + ">"@,
        cleanup.goodbye matches Some(message) ==> session.spec_channels().metadata == Some(
            message.channel_id,
        ) && message.text@ == name@ + " disconnected"@,
        cleanup.playback == session.spec_playback(),
        playback is Some <==> session.spec_playback() is Some,
        playback matches Some(p) ==> session.spec_playback() == Some(*p),
{
}

/// A connection is torn down in a fixed order: what is played is stopped, the voice
/// channel is left, the message is posted, and the client is shut down. Nothing is
/// done twice.
pub proof fn law_cleanup_order<'a, P>(cleanup: &'a Cleanup<P>, steps: Vec<CleanupStep<'a, P>>)
    requires
        call_ensures(Cleanup::<P>::steps, (cleanup,), steps),
    ensures
        ({
            let first: int = if cleanup.playback is Some {
                1
            } else {
                0
            };
            let last: int = if cleanup.goodbye is Some {
                first + 2
            } else {
                first + 1
            };
            &&& steps@.len() == last + 1
            &&& cleanup.playback matches Some(p) ==> steps@[0] == CleanupStep::StopPlayback(&p)
            &&& steps@[first] is Leave
            &&& cleanup.goodbye matches Some(m) ==> steps@[first + 1] == CleanupStep::<P>::Post(&m)
            &&& steps@[last] is ShutDown
        }),
{
}

/// A client that has ended needs nothing more. One that was told to end is waited
/// for, and any other is aborted.
pub proof fn law_client_shutdown(finished: bool, told: bool, r: ClientShutdown)
    requires
        call_ensures(session::client_shutdown, (finished, told), r),
    ensures
        r is Nothing <==> finished,
        r is Await <==> !finished && told,
        r is Abort <==> !finished && !told,
{
}

/// Only playback that is known to be going on has to be stopped.
pub proof fn law_stopped_playback(status: PlaybackStatus, r: bool)
    requires
        call_ensures(session::needs_stop, (status,), r),
    ensures
        r <==> (status matches PlaybackStatus::Known { done } && !done),
{
}

/// Audio is played if the stream is there, which is lent for that. Otherwise it has to
/// return first.
pub proof fn law_playback_is_planned<S>()
    ensures
        forall|stream: &mut Lessor<S>, r: PlaybackPlan<S>| #[trigger]
            call_ensures(session::plan_playback::<S>, (stream,), r) ==> {
                &&& r is Play <==> stream@ is Some
                &&& final(stream)@ is None
                &&& r matches PlaybackPlan::Play(lease) ==> stream@ == Some(lease@) && (
                final(stream).receiver() matches Some(rx) && util::is_channel(lease.channel(), rx))
                &&& r is AwaitRelease ==> final(stream).receiver() == stream.receiver()
            },
{
}

/// Errors are explained, and those of other crates are passed on as they are.
pub proof fn law_discord_errors(e: DiscordError, r: String, crash: String)
    requires
        call_ensures(DiscordError::message, (&e,), r),
        call_ensures(session::crash_message, (&e,), crash),
    ensures
        crash@ == "Discord client crashed: "@ + r@,
        match e {
            DiscordError::Serenity(e) => r@ == e@,
            DiscordError::Songbird(e) => r@ == e@,
            DiscordError::TaskCrash(e) => r@ == "Discord client task unexpectedly quit: "@ + e@,
            DiscordError::InitializationError => r@ == "Initialization error"@,
            DiscordError::DataLookupError(e) => r@ == "Could not find entity in Discord: "@ + e@,
            DiscordError::MissingRequiredProperty(name) => r@
                == "Could not start Discord client: missing required property '"@ + name@ + "'"@,
        },
{
}

/// A consumer keeps what it was created with.
pub proof fn law_consumer<'a>(
    config: &'a DiscordConfig,
    timeout: Option<Duration>,
    consumer: DiscordConsumer<'a>,
    c: &'a DiscordConfig,
    t: Option<Duration>,
)
    requires
        call_ensures(DiscordConsumer::new, (config, timeout), consumer),
        call_ensures(DiscordConsumer::config, (&consumer,), c),
        call_ensures(DiscordConsumer::read_timeout, (&consumer,), t),
    ensures
        *c == *config,
        t == timeout,
{
}

// SERVERS *********************************************************************

/// The first page of servers is requested from the start, and each further one after
/// the last server of the one before, until there is an empty page. All servers are
/// kept, in the order in which they were found.
pub proof fn law_servers_are_enumerated(
    page: Vec<u64>,
    query: GuildEnumeration,
    next: Option<GuildPage>,
    found: Vec<u64>,
)
    ensures
        forall|new: GuildEnumeration, first: Option<GuildPage>|
            #![trigger
                call_ensures(GuildEnumeration::new, (), new),
                call_ensures(GuildEnumeration::next_page, (&new,), first)]
            call_ensures(GuildEnumeration::new, (), new) && call_ensures(
                GuildEnumeration::next_page,
                (&new,),
                first,
            ) ==> (first matches Some(first) && first.after is None && first.limit == 100)
                && new@.guilds.len() == 0,
        forall|q: &mut GuildEnumeration, after: Option<GuildPage>|
            #![trigger
                call_ensures(GuildEnumeration::add_page, (q, page), ()),
                call_ensures(GuildEnumeration::next_page, (final(q),), after)]
            call_ensures(GuildEnumeration::add_page, (q, page), ()) && call_ensures(
                GuildEnumeration::next_page,
                (final(q),),
                after,
            ) ==> {
                &&& final(q)@.guilds == q@.guilds + page@
                &&& page@.len() == 0 ==> after is None
                &&& page@.len() > 0 ==> (after matches Some(after) && after.after == Some(
                    page@.last(),
                ) && after.limit == 100)
            },
        call_ensures(GuildEnumeration::into_guilds, (query,), found) ==> found@ == query@.guilds,
{
}

/// The table of servers has a line for its headers and one for each server, which
/// shows its ID, its name and its owner, in columns that are separated by tabs and are
/// as wide as the longest text in them.
pub proof fn law_server_table(rows: Vec<GuildRow>, r: Vec<String>, i: int)
    requires
        call_ensures(super::render_guilds, (&rows,), r),
        0 <= i < rows@.len(),
    ensures
        ({
            let views = super::row_views(rows@);
            let id_width = super::column_width("Server ID"@, super::id_cells(views));
            let name_width = super::column_width("Server Name"@, super::name_cells(views));
            &&& r@.len() == rows@.len() + 1
            &&& r@[0]@ == text::padded("Server ID"@, id_width) + "\t"@ + text::padded(
                "Server Name"@,
                name_width,
            ) + "\t"@ + "Owner"@
            &&& r@[i + 1]@ == text::padded(text::decimal(rows@[i].id as nat), id_width) + "\t"@
                + text::padded(rows@[i].name@, name_width) + "\t"@ + (rows@[i].owner_name@ + "#"@
                + text::zero_padded(rows@[i].owner_discriminator as nat, 4))
            &&& id_width >= "Server ID"@.len() && id_width >= text::decimal(
                rows@[i].id as nat,
            ).len()
            &&& name_width >= "Server Name"@.len() && name_width >= rows@[i].name@.len()
        }),
{
    let views = super::row_views(rows@);
    let lines = text::views(r@);
    assert(lines.len() == r@.len());
    assert(lines[0] == r@[0]@);
    assert(lines[i + 1] == r@[i + 1]@);
    assert(views[i] == rows@[i]@);
    let ids = super::id_cells(views);
    let names = super::name_cells(views);
    assert(ids[i] == text::decimal(rows@[i].id as nat));
    assert(names[i] == rows@[i].name@);
    super::law_column_is_wide_enough("Server ID"@, ids, i);
    super::law_column_is_wide_enough("Server Name"@, names, i);
}

/// A column is no wider than it has to be.
pub proof fn law_columns_are_narrow(header: Seq<char>, cells: Seq<Seq<char>>)
    ensures
        super::column_width(header, cells) == header.len() || exists|i: int|
            0 <= i < cells.len() && super::column_width(header, cells) == (#[trigger] cells[i]).len(),
    decreases cells.len(),
{
    if cells.len() > 0 {
        let before = cells.drop_last();
        law_columns_are_narrow(header, before);
        if super::column_width(header, cells) == super::column_width(header, before) {
            if super::column_width(header, before) != header.len() {
                let i = choose|i: int|
                    0 <= i < before.len() && super::column_width(header, before) == (
                    #[trigger] before[i]).len();
                assert(cells[i] == before[i]);
            }
        } else {
            assert(super::column_width(header, cells) == cells[cells.len() - 1].len());
        }
    }
}

/// There is no table without servers.
pub proof fn law_empty_table(rows: Vec<GuildRow>, r: Vec<String>)
    requires
        call_ensures(super::render_guilds, (&rows,), r),
        rows@.len() == 0,
    ensures
        r@.len() == 0,
{
    assert(text::views(r@).len() == r@.len());
}

/// Connecting proceeds with each reply, as the laws on the setup tell.
pub proof fn law_setup_proceeds(reply: session::ConnectReply)
    ensures
        forall|setup: &mut ClientSetup, r: ConnectStep| #[trigger]
            call_ensures(ClientSetup::resume, (setup, reply), r) ==> (final(setup)@, r@)
                == setup@.resume_next(reply@),
{
}

// MODELS **********************************************************************

/// The model of an error tells exactly what the error is.
pub proof fn law_discord_errors_are_modeled(e: DiscordError, other: DiscordError)
    ensures
        e@ == other@ <==> match (e, other) {
            (DiscordError::Serenity(a), DiscordError::Serenity(b)) => a@ == b@,
            (DiscordError::Songbird(a), DiscordError::Songbird(b)) => a@ == b@,
            (DiscordError::TaskCrash(a), DiscordError::TaskCrash(b)) => a@ == b@,
            (DiscordError::InitializationError, DiscordError::InitializationError) => true,
            (DiscordError::DataLookupError(a), DiscordError::DataLookupError(b)) => a@ == b@,
            (
                DiscordError::MissingRequiredProperty(a),
                DiscordError::MissingRequiredProperty(b),
            ) => a@ == b@,
            _ => false,
        },
        match e {
            DiscordError::Serenity(text) => e@ == DiscordErrorView::Serenity(text@),
            DiscordError::Songbird(text) => e@ == DiscordErrorView::Songbird(text@),
            DiscordError::TaskCrash(text) => e@ == DiscordErrorView::TaskCrash(text@),
            DiscordError::InitializationError => e@ == DiscordErrorView::InitializationError,
            DiscordError::DataLookupError(text) => e@ == DiscordErrorView::DataLookupError(text@),
            DiscordError::MissingRequiredProperty(name) => e@
                == DiscordErrorView::MissingRequiredProperty(name@),
        },
{
}

/// The models of requests, replies and steps of the setup tell exactly what they are.
pub proof fn law_setup_steps_are_modeled(
    request: session::ConnectRequest,
    reply: session::ConnectReply,
    step: ConnectStep,
)
    ensures
        match request {
            session::ConnectRequest::CreateClient { token, channels } => request@ == (
            ConnectRequestView::CreateClient {
                token: token@,
                guild_id: channels.guild_id,
                voice: channels.voice@,
                metadata: match channels.metadata {
                    Some(name) => Some(name@),
                    None => None,
                },
            }),
            session::ConnectRequest::StartClient => request@ is StartClient,
            session::ConnectRequest::Join { guild_id, channel_id } => request@ == (
            ConnectRequestView::Join { guild_id, channel_id }),
            session::ConnectRequest::AbortClient => request@ is AbortClient,
        },
        match reply {
            session::ConnectReply::Created(Ok(resolves)) => reply@ == ConnectReplyView::Created(
                Ok(resolves),
            ),
            session::ConnectReply::Created(Err(e)) => reply@ == ConnectReplyView::Created(Err(e@)),
            session::ConnectReply::Resolved(Some(Ok(channels))) => reply@
                == ConnectReplyView::Resolved(Some(Ok(channels))),
            session::ConnectReply::Resolved(Some(Err(e))) => reply@ == ConnectReplyView::Resolved(
                Some(Err(e@)),
            ),
            session::ConnectReply::Resolved(None) => reply@ == ConnectReplyView::Resolved(None),
            session::ConnectReply::Joined(Ok(_)) => reply@ == ConnectReplyView::Joined(Ok(())),
            session::ConnectReply::Joined(Err(e)) => reply@ == ConnectReplyView::Joined(Err(e@)),
            session::ConnectReply::Aborted => reply@ is Aborted,
        },
        match step {
            ConnectStep::Request(request) => step@ == ConnectStepView::Request(request@),
            ConnectStep::Done(Ok(channels)) => step@ == ConnectStepView::Done(Ok(channels)),
            ConnectStep::Done(Err(e)) => step@ == ConnectStepView::Done(Err(e@)),
        },
{
}

/// The models of channels and of servers tell what is known of them.
pub proof fn law_entities_are_modeled(channel: GuildChannel, row: GuildRow)
    ensures
        channel@.name == channel.name@,
        channel@.kind == channel.kind,
        row@.id == row.id,
        row@.name == row.name@,
        row@.owner_name == row.owner_name@,
        row@.owner_discriminator == row.owner_discriminator,
{
}

} // verus!
