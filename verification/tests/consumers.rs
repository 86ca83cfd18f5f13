use std::time::Duration;

use bardcast::consumer::discord::cfg::DiscordConfig;
use bardcast::consumer::discord::client::{
    find_matching_channel, goodbye_message, hello_message, ChannelType, Channels, GuildChannel,
};
use bardcast::consumer::discord::error::DiscordError;
use bardcast::consumer::discord::session::{
    client_shutdown, crash_message, needs_stop, plan_playback, CleanupStep, ClientAction,
    ClientEvent, ClientExit, ClientSession, ClientSetup, ClientShutdown, ConnectReply,
    ConnectRequest, ConnectStep, PlaybackPlan, PlaybackStatus,
};
use bardcast::consumer::discord::{
    render_guilds, DiscordConsumer, GuildEnumeration, GuildPage, GuildRow,
};
use bardcast::consumer::wav::{
    failure_message, is_recording_len_low, max_recording_len, should_continue_output,
    zero_sample_count, OutputEvent, ReadOutcome, Sample, WavError, WavReply, WavRequest, WavStep,
    WavStream,
};
use bardcast::util::{Lessor, ShutdownSignal};
use dashmap::DashMap;

fn config() -> DiscordConfig {
    DiscordConfig {
        token: Some("token".to_string()),
        voice_channel: Some("General".to_string()),
        metadata_channel: Some("bots".to_string()),
        server_id: Some(1),
    }
}

fn channel(id: u64, name: &str, kind: ChannelType) -> (u64, GuildChannel) {
    (id, GuildChannel { name: name.to_string(), kind })
}

fn guild() -> Vec<(u64, GuildChannel)> {
    vec![
        channel(10, "General", ChannelType::Text),
        channel(11, "bots", ChannelType::Other),
        channel(12, "General", ChannelType::Voice),
        channel(13, "bots", ChannelType::Text),
    ]
}

fn cached(channels: Vec<(u64, GuildChannel)>) -> Option<DashMap<u64, GuildChannel>> {
    let map = DashMap::new();
    for (id, channel) in channels {
        map.insert(id, channel);
    }
    Some(map)
}

fn resolved() -> Channels<u64> {
    Channels { guild_id: 1, voice: 12, metadata: Some(13) }
}

#[test]
fn channels_are_found_by_name_and_type() {
    assert_eq!(find_matching_channel(&guild(), "General", ChannelType::Voice), Some(12));
    assert_eq!(find_matching_channel(&guild(), "General", ChannelType::Text), Some(10));
    assert_eq!(find_matching_channel(&guild(), "general", ChannelType::Voice), None);
    assert_eq!(find_matching_channel(&Vec::new(), "General", ChannelType::Voice), None);
}

#[test]
fn channels_are_resolved() {
    let channels = Channels::from_config(&config()).unwrap();
    let ids = channels.resolve(cached(guild())).unwrap();
    assert_eq!(ids.guild_id, 1);
    assert_eq!(ids.voice, 12);
    assert_eq!(ids.metadata, Some(13));
    let without_text = vec![channel(12, "General", ChannelType::Voice)];
    let ids = channels.resolve(cached(without_text)).unwrap();
    assert_eq!(ids.metadata, None);
}

#[test]
fn missing_voice_channels_are_errors() {
    let channels = Channels::from_config(&config()).unwrap();
    let text_only = vec![channel(10, "General", ChannelType::Text)];
    assert_eq!(
        channels.resolve(cached(text_only)).unwrap_err().message(),
        "Could not find entity in Discord: No such voice channel with name 'General'"
    );
    assert_eq!(
        channels.resolve(None).unwrap_err().message(),
        "Could not find entity in Discord: Available channels unexpectedly missing from cache"
    );
}

#[test]
fn channels_must_be_configured() {
    let missing = |cfg: &DiscordConfig| Channels::from_config(cfg).unwrap_err().message();
    assert_eq!(
        missing(&DiscordConfig { server_id: None, voice_channel: None, ..config() }),
        "Could not start Discord client: missing required property 'server-id'"
    );
    assert_eq!(
        missing(&DiscordConfig { voice_channel: None, ..config() }),
        "Could not start Discord client: missing required property 'voice-channel'"
    );
}

#[test]
fn discord_errors_are_explained() {
    assert_eq!(DiscordError::Serenity("s".to_string()).message(), "s");
    assert_eq!(DiscordError::Songbird("b".to_string()).message(), "b");
    assert_eq!(
        DiscordError::TaskCrash("t".to_string()).message(),
        "Discord client task unexpectedly quit: t"
    );
    assert_eq!(DiscordError::InitializationError.message(), "Initialization error");
    assert_eq!(
        crash_message(&DiscordError::InitializationError),
        "Discord client crashed: Initialization error"
    );
}

#[test]
fn announcements_mention_the_voice_channel() {
    assert_eq!(
        hello_message("bardcast", "0.2.0", 12),
        "bardcast version 0.2.0 connected to voice channel <#12>"
    );
    assert_eq!(goodbye_message("bardcast"), "bardcast disconnected");
}

#[test]
fn connections_are_set_up() {
    let (mut setup, step) = ClientSetup::new(&config());
    match step {
        ConnectStep::Request(ConnectRequest::CreateClient { token, channels }) => {
            assert_eq!(token, "token");
            assert_eq!(channels.voice, "General");
            assert_eq!(channels.metadata, Some("bots".to_string()));
        }
        _ => panic!("client expected"),
    }
    let step = setup.resume(ConnectReply::Created(Ok(true)));
    assert!(matches!(step, ConnectStep::Request(ConnectRequest::StartClient)));
    let step = setup.resume(ConnectReply::Resolved(Some(Ok(resolved()))));
    assert!(matches!(
        step,
        ConnectStep::Request(ConnectRequest::Join { guild_id: 1, channel_id: 12 })
    ));
    match setup.resume(ConnectReply::Joined(Ok(()))) {
        ConnectStep::Done(Ok(channels)) => assert_eq!(channels.metadata, Some(13)),
        _ => panic!("connection expected"),
    }
}

#[test]
fn incomplete_configuration_prevents_connections() {
    let (_, step) = ClientSetup::new(&DiscordConfig { token: None, ..config() });
    match step {
        ConnectStep::Done(Err(e)) => assert_eq!(
            e.message(),
            "Could not start Discord client: missing required property 'token'"
        ),
        _ => panic!("error expected"),
    }
    let (_, step) = ClientSetup::new(&DiscordConfig { voice_channel: None, ..config() });
    assert!(matches!(step, ConnectStep::Done(Err(DiscordError::MissingRequiredProperty(_)))));
}

#[test]
fn clients_that_cannot_be_created_are_not_aborted() {
    let (mut setup, _) = ClientSetup::new(&config());
    let step = setup.resume(ConnectReply::Created(Err("bad token".to_string())));
    assert!(matches!(step, ConnectStep::Done(Err(DiscordError::Serenity(e))) if e == "bad token"));
    let (mut setup, _) = ClientSetup::new(&config());
    let step = setup.resume(ConnectReply::Created(Ok(false)));
    assert!(matches!(step, ConnectStep::Done(Err(DiscordError::InitializationError))));
}

#[test]
fn started_clients_are_aborted_on_failure() {
    let started = || {
        let (mut setup, _) = ClientSetup::new(&config());
        let _ = setup.resume(ConnectReply::Created(Ok(true)));
        setup
    };
    let mut setup = started();
    let step = setup.resume(ConnectReply::Resolved(None));
    assert!(matches!(step, ConnectStep::Request(ConnectRequest::AbortClient)));
    let step = setup.resume(ConnectReply::Aborted);
    assert!(matches!(step, ConnectStep::Done(Err(DiscordError::InitializationError))));

    let mut setup = started();
    let error = DiscordError::DataLookupError("x".to_string());
    let step = setup.resume(ConnectReply::Resolved(Some(Err(error))));
    assert!(matches!(step, ConnectStep::Request(ConnectRequest::AbortClient)));
    let step = setup.resume(ConnectReply::Aborted);
    assert!(matches!(step, ConnectStep::Done(Err(DiscordError::DataLookupError(e))) if e == "x"));

    let mut setup = started();
    let _ = setup.resume(ConnectReply::Resolved(Some(Ok(resolved()))));
    let step = setup.resume(ConnectReply::Joined(Err("full".to_string())));
    assert!(matches!(step, ConnectStep::Request(ConnectRequest::AbortClient)));
    let step = setup.resume(ConnectReply::Aborted);
    assert!(matches!(step, ConnectStep::Done(Err(DiscordError::Songbird(e))) if e == "full"));
}

#[test]
fn sessions_react_to_events() {
    let mut session: ClientSession<u8> = ClientSession::new(resolved());
    assert!(matches!(
        session.handle(ClientEvent::ClientEnded(ClientExit::Quit)),
        ClientAction::Continue
    ));
    assert!(matches!(
        session.handle(ClientEvent::Shutdown(ShutdownSignal::Changed(true))),
        ClientAction::Continue
    ));
    assert!(matches!(
        session.handle(ClientEvent::Shutdown(ShutdownSignal::Changed(false))),
        ClientAction::Stop(Ok(()))
    ));
    assert!(matches!(
        session.handle(ClientEvent::Shutdown(ShutdownSignal::Closed)),
        ClientAction::Stop(Ok(()))
    ));
    assert!(matches!(
        session.handle(ClientEvent::ClientEnded(ClientExit::Crashed("c".to_string()))),
        ClientAction::Stop(Err(DiscordError::TaskCrash(e))) if e == "c"
    ));
    assert!(matches!(
        session.handle(ClientEvent::ClientEnded(ClientExit::Failed("f".to_string()))),
        ClientAction::Stop(Err(DiscordError::Serenity(e))) if e == "f"
    ));
}

#[test]
fn sessions_clean_up() {
    let mut session = ClientSession::new(resolved());
    let hello = session.hello("bardcast", "1").unwrap();
    assert_eq!(hello.channel_id, 13);
    assert_eq!(hello.text, "bardcast version 1 connected to voice channel <#12>");
    assert_eq!(session.playback(), None);
    let _ = session.handle(ClientEvent::Playback(Some(7)));
    assert_eq!(session.playback(), Some(&7));
    let cleanup = session.cleanup("bardcast");
    assert_eq!(cleanup.playback, Some(7));
    let steps = cleanup.steps();
    assert_eq!(steps.len(), 4);
    assert!(matches!(steps[0], CleanupStep::StopPlayback(7)));
    assert!(matches!(steps[1], CleanupStep::Leave));
    assert!(matches!(steps[2], CleanupStep::Post(m) if m.text == "bardcast disconnected"));
    assert!(matches!(steps[3], CleanupStep::ShutDown));
    let goodbye = cleanup.goodbye.unwrap();
    assert_eq!(goodbye.channel_id, 13);
    assert_eq!(goodbye.text, "bardcast disconnected");

    let quiet: ClientSession<u8> =
        ClientSession::new(Channels { metadata: None, ..resolved() });
    assert!(quiet.hello("bardcast", "1").is_none());
    let cleanup = quiet.cleanup("bardcast");
    assert!(cleanup.goodbye.is_none());
    assert!(cleanup.playback.is_none());
    let steps = cleanup.steps();
    assert_eq!(steps.len(), 2);
    assert!(matches!(steps[0], CleanupStep::Leave));
    assert!(matches!(steps[1], CleanupStep::ShutDown));
}

#[test]
fn clients_are_shut_down() {
    assert_eq!(client_shutdown(true, false), ClientShutdown::Nothing);
    assert_eq!(client_shutdown(false, true), ClientShutdown::Await);
    assert_eq!(client_shutdown(false, false), ClientShutdown::Abort);
}

#[test]
fn playback_uses_the_stream_exclusively() {
    let mut stream = Lessor::new("audio");
    let lease = match plan_playback(&mut stream) {
        PlaybackPlan::Play(lease) => lease,
        PlaybackPlan::AwaitRelease => panic!("lease expected"),
    };
    assert_eq!(*lease.as_ref(), "audio");
    assert!(matches!(plan_playback(&mut stream), PlaybackPlan::AwaitRelease));
}

#[test]
fn playback_is_stopped_while_in_progress() {
    assert!(needs_stop(PlaybackStatus::Known { done: false }));
    assert!(!needs_stop(PlaybackStatus::Known { done: true }));
    assert!(!needs_stop(PlaybackStatus::NoPlayback));
    assert!(!needs_stop(PlaybackStatus::Finished));
    assert!(!needs_stop(PlaybackStatus::Unknown));
}

#[test]
fn consumers_keep_their_configuration() {
    let config = config();
    let consumer = DiscordConsumer::new(&config, Some(Duration::from_millis(5)));
    assert_eq!(consumer.config().server_id, Some(1));
    assert_eq!(consumer.read_timeout(), Some(Duration::from_millis(5)));
}

#[test]
fn servers_are_enumerated_page_by_page() {
    let mut query = GuildEnumeration::new();
    assert_eq!(query.next_page(), Some(GuildPage { after: None, limit: 100 }));
    query.add_page(vec![1, 2]);
    assert_eq!(query.next_page(), Some(GuildPage { after: Some(2), limit: 100 }));
    query.add_page(vec![5]);
    assert_eq!(query.next_page(), Some(GuildPage { after: Some(5), limit: 100 }));
    query.add_page(Vec::new());
    assert_eq!(query.next_page(), None);
    assert_eq!(query.into_guilds(), [1, 2, 5]);
}

#[test]
fn servers_are_listed_in_a_table() {
    let rows = vec![
        GuildRow {
            id: 12345678901234,
            name: "A".to_string(),
            owner_name: "me".to_string(),
            owner_discriminator: 7,
        },
        GuildRow {
            id: 1,
            name: "A longer name".to_string(),
            owner_name: "you".to_string(),
            owner_discriminator: 1234,
        },
    ];
    assert_eq!(
        render_guilds(&rows),
        [
            "Server ID     \tServer Name  \tOwner",
            "12345678901234\tA            \tme#0007",
            "1             \tA longer name\tyou#1234",
        ]
    );
    assert!(render_guilds(&Vec::new()).is_empty());
}

#[test]
fn narrow_columns_fit_their_headers() {
    let rows = vec![GuildRow {
        id: 1,
        name: "\u{e9}".to_string(),
        owner_name: "o".to_string(),
        owner_discriminator: 0,
    }];
    assert_eq!(
        render_guilds(&rows),
        ["Server ID\tServer Name\tOwner", "1        \t\u{e9}          \to#0000"]
    );
}

#[test]
fn columns_are_as_wide_as_their_longest_text() {
    let row = |name: &str| GuildRow {
        id: 1,
        name: name.to_string(),
        owner_name: "o".to_string(),
        owner_discriminator: 0,
    };
    let rows = vec![row("\u{e9}\u{e9}\u{e9}\u{e9}\u{e9}\u{e9}\u{e9}"), row("a longer name")];
    let lines = render_guilds(&rows);
    assert_eq!(
        lines,
        [
            "Server ID\tServer Name  \tOwner",
            "1        \t\u{e9}\u{e9}\u{e9}\u{e9}\u{e9}\u{e9}\u{e9}      \to#0000",
            "1        \ta longer name\to#0000",
        ]
    );
    for line in &lines {
        let cell = line.split('\t').nth(1).unwrap();
        assert_eq!(cell.chars().count(), 13);
    }
}

#[test]
fn recording_length_is_limited_by_the_platform() {
    assert_eq!(max_recording_len(), usize::MAX as u64 / 48000);
    assert!(is_recording_len_low(86399));
    assert!(!is_recording_len_low(86400));
}

#[test]
fn only_audio_is_contentful() {
    assert!(WavRequest::Write(3, Sample::Audio("s")).is_contentful());
    let others: [WavRequest<&str>; 4] = [
        WavRequest::Write(3, Sample::Silence),
        WavRequest::CheckShutdown,
        WavRequest::Read,
        WavRequest::Flush,
    ];
    for request in others {
        assert!(!request.is_contentful());
    }
}

#[test]
fn silence_matches_elapsed_time() {
    assert_eq!(zero_sample_count(0), Some(0));
    assert_eq!(zero_sample_count(20), Some(0));
    assert_eq!(zero_sample_count(21), Some(1));
    assert_eq!(zero_sample_count(1_000_000), Some(48000));
    assert_eq!(zero_sample_count(10_000_000_000_000_000_000_000), None);
}

#[test]
fn audio_is_written_after_silence() {
    let (mut stream, step) = WavStream::new::<&str, String>(5, 42);
    assert!(matches!(step, WavStep::Request(WavRequest::Write(5, Sample::Silence))));
    let step = stream.resume::<&str, String>(WavReply::Written(Ok(())));
    assert!(matches!(step, WavStep::Request(WavRequest::Write(6, Sample::Silence))));
    let step = stream.resume::<&str, String>(WavReply::Written(Ok(())));
    assert!(matches!(step, WavStep::Request(WavRequest::CheckShutdown)));
    let step = stream.resume::<&str, String>(WavReply::Running(true));
    assert!(matches!(step, WavStep::Request(WavRequest::Read)));
    let step = stream.resume::<&str, String>(WavReply::Read(ReadOutcome::Sample("s")));
    assert!(matches!(step, WavStep::Request(WavRequest::Write(7, Sample::Audio("s")))));
    let step = stream.resume::<&str, String>(WavReply::Written(Ok(())));
    assert!(matches!(step, WavStep::Request(WavRequest::CheckShutdown)));
    let step = stream.resume::<&str, String>(WavReply::Running(true));
    assert!(matches!(step, WavStep::Request(WavRequest::Read)));
    let step = stream.resume::<&str, String>(WavReply::Read(ReadOutcome::Failed));
    assert!(matches!(step, WavStep::Request(WavRequest::CheckShutdown)));
    let step = stream.resume::<&str, String>(WavReply::Running(true));
    assert!(matches!(step, WavStep::Request(WavRequest::Read)));
    let step = stream.resume::<&str, String>(WavReply::Read(ReadOutcome::TimedOut));
    assert!(matches!(step, WavStep::Done(Ok(8))));
}

#[test]
fn writing_ends_on_shutdown_and_failure() {
    let (mut stream, step) = WavStream::new::<u8, &str>(3, 0);
    assert!(matches!(step, WavStep::Request(WavRequest::CheckShutdown)));
    let step = stream.resume::<u8, &str>(WavReply::Running(false));
    assert!(matches!(step, WavStep::Done(Ok(3))));
    let (mut stream, _) = WavStream::new::<u8, &str>(3, 1_000_000);
    let step = stream.resume::<u8, &str>(WavReply::Written(Err("disk full")));
    assert!(matches!(step, WavStep::Done(Err(WavError::Io("disk full")))));
}

#[test]
fn recordings_end_at_their_maximum_length() {
    let (mut stream, step) = WavStream::new::<u8, &str>(usize::MAX, 21);
    assert!(matches!(
        step,
        WavStep::Request(WavRequest::Write(usize::MAX, Sample::Silence))
    ));
    let step = stream.resume::<u8, &str>(WavReply::Written(Ok(())));
    assert!(matches!(step, WavStep::Request(WavRequest::Flush)));
    let step = stream.resume::<u8, &str>(WavReply::Flushed(Ok(())));
    assert!(matches!(step, WavStep::Done(Err(WavError::LengthLimit))));
    let (mut stream, _) = WavStream::new::<u8, &str>(usize::MAX, 21);
    let _ = stream.resume::<u8, &str>(WavReply::Written(Ok(())));
    let step = stream.resume::<u8, &str>(WavReply::Flushed(Err("io")));
    assert!(matches!(step, WavStep::Done(Err(WavError::Io("io")))));
    let (_, step) = WavStream::new::<u8, &str>(0, 10_000_000_000_000_000_000_000);
    assert!(matches!(step, WavStep::Done(Err(WavError::LengthLimit))));
}

#[test]
fn recording_continues_until_shutdown() {
    assert!(should_continue_output(OutputEvent::Samples));
    assert!(should_continue_output(OutputEvent::Shutdown(ShutdownSignal::Changed(true))));
    assert!(!should_continue_output(OutputEvent::Shutdown(ShutdownSignal::Changed(false))));
    assert!(!should_continue_output(OutputEvent::Shutdown(ShutdownSignal::Closed)));
}

#[test]
fn recording_failures_are_explained() {
    assert_eq!(failure_message(Some("disk full")), "Wav writer encountered error: disk full");
    assert_eq!(failure_message(None), "Wav writer crashed unexpectedly");
}

#[test]
fn equal_channels_are_told_apart_by_their_order() {
    let channels = Channels::from_config(&config()).unwrap();
    let twice = || {
        vec![
            channel(12, "General", ChannelType::Voice),
            channel(14, "General", ChannelType::Voice),
        ]
    };
    assert_eq!(channels.resolve_listed(&Some(twice())).unwrap().voice, 12);
    let mut reversed = twice();
    reversed.reverse();
    assert_eq!(channels.resolve_listed(&Some(reversed)).unwrap().voice, 14);
    // Either of them may come first in a map.
    let voice = channels.resolve(cached(twice())).unwrap().voice;
    assert!(voice == 12 || voice == 14);
}
