//! Discord client configuration.

use configparser::ini::Ini;
use vstd::prelude::*;

use crate::cfg;
use crate::cfg::{Action, Args, Config, SelectedConsumer};
use crate::util::text;

verus! {

/// The name of the section of the configuration file that holds the options of
/// the Discord client.
pub const SECTION_NAME: &'static str = "discord";

// TYPE DEFINITIONS ************************************************************

/// Configuration type for the Discord client.
#[derive(Debug)]
pub struct DiscordConfig {
    /// The bot token to authenticate with.
    pub token: Option<String>,

    /// The name of the voice channel to connect to.
    pub voice_channel: Option<String>,

    /// The name of the text channel to post messages to (if any).
    pub metadata_channel: Option<String>,

    /// The unique ID of the server to connect to. This ID can be found either
    /// by using Discord's developer mode, or by running the application with the
    /// --list-servers option.
    pub server_id: Option<u64>,
}

// TYPE IMPLS ******************************************************************

impl DiscordConfig {
    /// Constructs a configuration instance from the given commandline arguments.
    pub fn from_args<V>(args: &Args<V>) -> (r: DiscordConfig)
        ensures
            r.token == args.token,
            r.voice_channel == args.voice_channel,
            r.metadata_channel == args.metadata_channel,
            r.server_id == args.server_id,
    {
        DiscordConfig {
            token: text::clone_opt(&args.token),
            voice_channel: text::clone_opt(&args.voice_channel),
            metadata_channel: text::clone_opt(&args.metadata_channel),
            server_id: args.server_id,
        }
    }
}

impl Config for DiscordConfig {
    type Decoded = ();

    open spec fn loaded(
        options: Map<(Seq<char>, Seq<char>), Seq<char>>,
        decoded: (),
        r: Result<DiscordConfig, String>,
    ) -> bool {
        exists|server_id: Result<Option<u64>, String>| #[trigger]
            cfg::is_uint_option(options, SECTION_NAME@, "server-id"@, server_id) && match server_id {
                Ok(server_id) => {
                    &&& r matches Ok(config)
                    &&& text::opt_view(config.token) == cfg::option_value(
                        options,
                        SECTION_NAME@,
                        "token"@,
                    )
                    &&& text::opt_view(config.voice_channel) == cfg::option_value(
                        options,
                        SECTION_NAME@,
                        "voice-channel"@,
                    )
                    &&& text::opt_view(config.metadata_channel) == cfg::option_value(
                        options,
                        SECTION_NAME@,
                        "metadata-channel"@,
                    )
                    &&& config.server_id == server_id
                },
                Err(e) => r matches Err(e2) && e2@ == e@,
            }
    }

    open spec fn merged(self, other: DiscordConfig) -> DiscordConfig {
        DiscordConfig {
            token: cfg::overridden(self.token, other.token),
            voice_channel: cfg::overridden(self.voice_channel, other.voice_channel),
            metadata_channel: cfg::overridden(self.metadata_channel, other.metadata_channel),
            server_id: cfg::overridden(self.server_id, other.server_id),
        }
    }

    open spec fn semantic_error(self, action: Action) -> Option<Seq<char>> {
        let for_discord = action == Action::Run(SelectedConsumer::Discord);
        if (for_discord || action is ListServers) && self.token is None {
            Some("A Discord bot token is required."@)
        } else if for_discord && self.server_id is None {
            Some("A Discord server ID is required."@)
        } else if for_discord && self.voice_channel is None {
            Some("A voice channel name is required."@)
        } else {
            None
        }
    }

    fn from_ini(ini: &Ini, decoded: ()) -> (r: Result<DiscordConfig, String>) {
        proof {
            reveal_strlit("discord");
            reveal_strlit("token");
            reveal_strlit("voice-channel");
            reveal_strlit("metadata-channel");
            reveal_strlit("server-id");
        }
        let token = cfg::ini_get(ini, SECTION_NAME, "token");
        let voice_channel = cfg::ini_get(ini, SECTION_NAME, "voice-channel");
        let metadata_channel = cfg::ini_get(ini, SECTION_NAME, "metadata-channel");
        let server_id = cfg::ini_getuint(ini, SECTION_NAME, "server-id");
        assert(cfg::is_uint_option(
            cfg::ini_options(*ini),
            SECTION_NAME@,
            "server-id"@,
            server_id,
        ));
        match server_id {
            Ok(server_id) => Ok(DiscordConfig { token, voice_channel, metadata_channel, server_id }),
            Err(e) => Err(e),
        }
    }

    fn merge(&mut self, other: DiscordConfig) {
        cfg::merge_opt(&mut self.token, other.token);
        cfg::merge_opt(&mut self.voice_channel, other.voice_channel);
        cfg::merge_opt(&mut self.metadata_channel, other.metadata_channel);
        cfg::merge_opt(&mut self.server_id, other.server_id);
    }

    fn validate_semantics(&self, action: Action) -> (r: Result<(), String>) {
        match action {
            Action::Run(SelectedConsumer::Discord) => {
                if self.token.is_none() {
                    Err("A Discord bot token is required.".to_owned())
                } else if self.server_id.is_none() {
                    Err("A Discord server ID is required.".to_owned())
                } else if self.voice_channel.is_none() {
                    Err("A voice channel name is required.".to_owned())
                } else {
                    Ok(())
                }
            },
            Action::ListServers => {
                if self.token.is_none() {
                    Err("A Discord bot token is required.".to_owned())
                } else {
                    Ok(())
                }
            },
            _ => Ok(()),
        }
    }
}

} // verus!
