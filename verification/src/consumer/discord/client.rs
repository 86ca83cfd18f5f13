//! Channels that the Discord client connects to.

use dashmap::DashMap;
use vstd::prelude::*;

use crate::util::text;

use super::cfg::DiscordConfig;
use super::error::{DiscordError, DiscordErrorView};

verus! {

// TYPE DEFINITIONS ************************************************************

/// Wrapper type containing information on which channels the application should
/// connect to.
#[derive(Debug)]
pub struct Channels<T> {
    /// The ID of the guild to which all channels mentioned in this struct
    /// belong.
    pub guild_id: u64,

    /// The voice channel.
    pub voice: T,

    /// A text channel suitable for automatic status updates from the
    /// application.
    pub metadata: Option<T>,
}

/// Types of channels.
#[derive(Debug, Clone, Copy, PartialEq, Eq, Structural)]
pub enum ChannelType {
    Voice,
    Text,

    /// A channel that the application cannot make use of.
    Other,
}

/// A channel of a guild.
#[derive(Debug)]
pub struct GuildChannel {
    pub name: String,
    pub kind: ChannelType,
}

// CACHED CHANNELS *************************************************************

/// A map that can be shared between threads.
#[verifier::external_type_specification]
#[verifier::external_body]
#[verifier::reject_recursive_types(K)]
#[verifier::reject_recursive_types(V)]
#[verifier::reject_recursive_types(S)]
pub struct ExDashMap<K, V, S>(DashMap<K, V, S>);

/// The channels in the given map by their IDs, as they are once the map is no
/// longer shared.
pub uninterp spec fn channels_held(channels: DashMap<u64, GuildChannel>) -> Map<
    u64,
    GuildChannelView,
>;

/// Whether the given list contains every channel in the given map exactly once,
/// in any order.
pub open spec fn is_listing(
    held: Map<u64, GuildChannelView>,
    listed: Seq<(u64, GuildChannelView)>,
) -> bool {
    &&& forall|i: int|
        0 <= i < listed.len() ==> held.contains_key((#[trigger] listed[i]).0) && held[listed[i].0]
            == listed[i].1
    &&& forall|i: int, j: int|
        0 <= i < j < listed.len() ==> (#[trigger] listed[i]).0 != (#[trigger] listed[j]).0
    &&& forall|id: u64| #[trigger]
        held.contains_key(id) ==> exists|i: int|
            0 <= i < listed.len() && (#[trigger] listed[i]).0 == id
}

/// Lists the channels in the given map.
///
/// The owning iterator of `dashmap::DashMap` is trusted to yield every entry of
/// the map exactly once. Nothing is claimed about the order of the entries.
#[verifier::external_body]
fn list_channels(channels: DashMap<u64, GuildChannel>) -> (r: Vec<(u64, GuildChannel)>)
    ensures
        is_listing(channels_held(channels), channel_views(r@)),
{
    channels.into_iter().collect()
}

// MODELS **********************************************************************

/// The contents of a [`GuildChannel`].
pub struct GuildChannelView {
    pub name: Seq<char>,
    pub kind: ChannelType,
}

impl View for GuildChannel {
    type V = GuildChannelView;

    open spec fn view(&self) -> GuildChannelView {
        GuildChannelView { name: self.name@, kind: self.kind }
    }
}

impl GuildChannelView {
    /// Whether this channel has the given name and type.
    pub open spec fn matches(self, name: Seq<char>, kind: ChannelType) -> bool {
        self.name == name && self.kind == kind
    }
}

/// The contents of a list of channels with their IDs.
pub open spec fn channel_views(channels: Seq<(u64, GuildChannel)>) -> Seq<
    (u64, GuildChannelView),
> {
    channels.map_values(|channel: (u64, GuildChannel)| (channel.0, channel.1@))
}

/// The ID of the first of the given channels that has the given name and type.
pub open spec fn matching_channel(
    channels: Seq<(u64, GuildChannelView)>,
    name: Seq<char>,
    kind: ChannelType,
) -> Option<u64>
    decreases channels.len(),
{
    if channels.len() == 0 {
        None
    } else if channels[0].1.matches(name, kind) {
        Some(channels[0].0)
    } else {
        matching_channel(channels.skip(1), name, kind)
    }
}

/// The channels with the given names, where the channels of the guild are only
/// available if they have been cached.
///
/// A voice channel must exist, whereas the application can do without a text
/// channel.
pub open spec fn resolved(
    guild_id: u64,
    voice: Seq<char>,
    metadata: Option<Seq<char>>,
    all_channels: Option<Seq<(u64, GuildChannelView)>>,
) -> Result<Channels<u64>, DiscordErrorView> {
    match all_channels {
        Some(channels) => match matching_channel(channels, voice, ChannelType::Voice) {
            Some(voice) => Ok(
                Channels {
                    guild_id,
                    voice,
                    metadata: match metadata {
                        Some(name) => matching_channel(channels, name, ChannelType::Text),
                        None => None,
                    },
                },
            ),
            None => Err(
                DiscordErrorView::DataLookupError(
                    "No such voice channel with name '"@ + voice + "'"@,
                ),
            ),
        },
        None => Err(
            DiscordErrorView::DataLookupError(
                "Available channels unexpectedly missing from cache"@,
            ),
        ),
    }
}

/// Whether `r` is the given result of resolving channels.
pub open spec fn is_resolution(
    expected: Result<Channels<u64>, DiscordErrorView>,
    r: Result<Channels<u64>, DiscordError>,
) -> bool {
    match r {
        Ok(channels) => expected == Ok::<Channels<u64>, DiscordErrorView>(channels),
        Err(e) => expected == Err::<Channels<u64>, DiscordErrorView>(e@),
    }
}

/// The message that is posted when the application has connected to the voice
/// channel with the given ID, which is mentioned in the message.
pub open spec fn hello_text(
    app_name: Seq<char>,
    app_version: Seq<char>,
    voice_channel: u64,
) -> Seq<char> {
    app_name + " version "@ + app_version + " connected to voice channel "@ + "<#"@
        + text::decimal(voice_channel as nat) + ">"@
}

/// The message that is posted when the application disconnects.
pub open spec fn goodbye_text(app_name: Seq<char>) -> Seq<char> {
    app_name + " disconnected"@
}

// TYPE IMPLS ******************************************************************

impl Channels<String> {
    /// Determines the channels specified by the given configuration.
    pub fn from_config(cfg: &DiscordConfig) -> (r: Result<Channels<String>, DiscordError>)
        ensures
            match (cfg.server_id, cfg.voice_channel) {
                (Some(server_id), Some(voice_channel)) => {
                    &&& r matches Ok(channels)
                    &&& channels.guild_id == server_id
                    &&& channels.voice == voice_channel
                    &&& channels.metadata == cfg.metadata_channel
                },
                (Some(_), None) => r matches Err(e) && e@
                    == DiscordErrorView::MissingRequiredProperty("voice-channel"@),
                (None, _) => r matches Err(e) && e@ == DiscordErrorView::MissingRequiredProperty(
                    "server-id"@,
                ),
            },
    {
        match cfg.server_id {
            Some(guild_id) => match &cfg.voice_channel {
                Some(voice_channel) => Ok(
                    Channels {
                        guild_id,
                        voice: voice_channel.clone(),
                        metadata: text::clone_opt(&cfg.metadata_channel),
                    },
                ),
                None => Err(DiscordError::MissingRequiredProperty("voice-channel".to_owned())),
            },
            None => Err(DiscordError::MissingRequiredProperty("server-id".to_owned())),
        }
    }

    /// Resolves the names of the channels to their IDs, given the cached channels
    /// of the guild, if there are any.
    ///
    /// If several channels have the same name and type, then which one of them is
    /// used depends on the order in which the map lists them.
    pub fn resolve(&self, all_channels: Option<DashMap<u64, GuildChannel>>) -> (r: Result<
        Channels<u64>,
        DiscordError,
    >)
        ensures
            match all_channels {
                Some(channels) => exists|listed: Seq<(u64, GuildChannelView)>|
                    {
                        &&& #[trigger] is_listing(channels_held(channels), listed)
                        &&& is_resolution(
                            resolved(
                                self.guild_id,
                                self.voice@,
                                text::opt_view(self.metadata),
                                Some(listed),
                            ),
                            r,
                        )
                    },
                None => is_resolution(
                    resolved(self.guild_id, self.voice@, text::opt_view(self.metadata), None),
                    r,
                ),
            },
    {
        match all_channels {
            Some(channels) => {
                let listed = list_channels(channels);
                assert(is_listing(channels_held(channels), channel_views(listed@)));
                self.resolve_listed(&Some(listed))
            },
            None => self.resolve_listed(&None),
        }
    }

    /// Resolves the names of the channels to their IDs, given a list of the
    /// cached channels of the guild, if there are any.
    pub fn resolve_listed(&self, all_channels: &Option<Vec<(u64, GuildChannel)>>) -> (r: Result<
        Channels<u64>,
        DiscordError,
    >)
        ensures
            is_resolution(
                resolved(
                    self.guild_id,
                    self.voice@,
                    text::opt_view(self.metadata),
                    match *all_channels {
                        Some(channels) => Some(channel_views(channels@)),
                        None => None,
                    },
                ),
                r,
            ),
    {
        match all_channels {
            Some(channels) => {
                let voice = find_matching_channel(
                    channels,
                    self.voice.as_str(),
                    ChannelType::Voice,
                );
                let metadata = match &self.metadata {
                    Some(name) => find_matching_channel(channels, name.as_str(), ChannelType::Text),
                    None => None,
                };

                match voice {
                    Some(voice) => Ok(Channels { guild_id: self.guild_id, voice, metadata }),
                    None => {
                        let mut msg = "No such voice channel with name '".to_owned();
                        msg.append(self.voice.as_str());
                        msg.append("'");
                        Err(DiscordError::DataLookupError(msg))
                    },
                }
            },
            None => Err(
                DiscordError::DataLookupError(
                    "Available channels unexpectedly missing from cache".to_owned(),
                ),
            ),
        }
    }
}

// FUNCTIONS *******************************************************************

/// Helper function for finding a channel with a matching name and type from
/// a collection of channels for a single guild.
pub fn find_matching_channel(
    channels: &Vec<(u64, GuildChannel)>,
    name: &str,
    kind: ChannelType,
) -> (r: Option<u64>)
    ensures
        r == matching_channel(channel_views(channels@), name@, kind),
{
    let ghost views = channel_views(channels@);
    let mut i: usize = 0;
    assert(views.skip(0) =~= views);
    while i < channels.len()
        invariant
            i <= channels.len(),
            views == channel_views(channels@),
            matching_channel(views, name@, kind) == matching_channel(
                views.skip(i as int),
                name@,
                kind,
            ),
        decreases channels.len() - i,
    {
        assert(views.skip(i as int)[0] == (channels@[i as int].0, channels@[i as int].1@));
        assert(views.skip(i as int).skip(1) =~= views.skip(i + 1));
        if text::same_text(channels[i].1.name.as_str(), name) && channels[i].1.kind == kind {
            return Some(channels[i].0);
        }
        i = i + 1;
    }
    None
}

/// Renders the message that is posted when the application has connected to the
/// voice channel with the given ID.
pub fn hello_message(app_name: &str, app_version: &str, voice_channel: u64) -> (r: String)
    ensures
        r@ == hello_text(app_name@, app_version@, voice_channel),
{
    let mut r = app_name.to_owned();
    r.append(" version ");
    r.append(app_version);
    r.append(" connected to voice channel ");
    r.append("<#");
    r.append(text::decimal_string(voice_channel).as_str());
    r.append(">");
    r
}

/// Renders the message that is posted when the application disconnects.
pub fn goodbye_message(app_name: &str) -> (r: String)
    ensures
        r@ == goodbye_text(app_name@),
{
    let mut r = app_name.to_owned();
    r.append(" disconnected");
    r
}

// LAWS ************************************************************************

/// A channel is found if and only if there is one with the given name and type.
pub proof fn law_channel_is_found(
    channels: Seq<(u64, GuildChannelView)>,
    name: Seq<char>,
    kind: ChannelType,
)
    ensures
        match matching_channel(channels, name, kind) {
            Some(id) => exists|i: int|
                0 <= i < channels.len() && (#[trigger] channels[i]).0 == id && channels[i].1.matches(
                    name,
                    kind,
                ),
            None => forall|i: int|
                0 <= i < channels.len() ==> !(#[trigger] channels[i]).1.matches(name, kind),
        },
    decreases channels.len(),
{
    if channels.len() > 0 && !channels[0].1.matches(name, kind) {
        let rest = channels.skip(1);
        law_channel_is_found(rest, name, kind);
        match matching_channel(channels, name, kind) {
            Some(id) => {
                let i = choose|i: int|
                    0 <= i < rest.len() && (#[trigger] rest[i]).0 == id && rest[i].1.matches(
                        name,
                        kind,
                    );
                assert(channels[i + 1] == rest[i]);
            },
            None => {
                assert forall|i: int| 0 <= i < channels.len() implies !(
                #[trigger] channels[i]).1.matches(name, kind) by {
                    if i > 0 {
                        assert(rest[i - 1] == channels[i]);
                    }
                }
            },
        }
    } else if channels.len() > 0 {
        assert(channels[0].1.matches(name, kind));
    }
}

/// If only one channel has the given name and type, then that channel is found,
/// in whichever order the channels are listed.
pub proof fn law_unique_channel_is_found(
    held: Map<u64, GuildChannelView>,
    listed: Seq<(u64, GuildChannelView)>,
    name: Seq<char>,
    kind: ChannelType,
    id: u64,
)
    requires
        is_listing(held, listed),
        held.contains_key(id),
        forall|other: u64| #[trigger]
            held.contains_key(other) ==> (held[other].matches(name, kind) <==> other == id),
    ensures
        matching_channel(listed, name, kind) == Some(id),
{
    law_channel_is_found(listed, name, kind);
    let i = choose|i: int| 0 <= i < listed.len() && (#[trigger] listed[i]).0 == id;
    assert(listed[i].1.matches(name, kind));
}

/// Text channels are never used as voice channels: if no voice channel has the
/// given name, then the channels cannot be resolved.
pub proof fn law_voice_channel_required(
    guild_id: u64,
    voice: Seq<char>,
    metadata: Option<Seq<char>>,
    held: Map<u64, GuildChannelView>,
    listed: Seq<(u64, GuildChannelView)>,
)
    requires
        is_listing(held, listed),
        forall|id: u64| #[trigger]
            held.contains_key(id) ==> !held[id].matches(voice, ChannelType::Voice),
    ensures
        resolved(guild_id, voice, metadata, Some(listed)) is Err,
{
    law_channel_is_found(listed, voice, ChannelType::Voice);
}

} // verus!
