//! Laws that relate the configuration of the application to the configuration file
//! and the commandline arguments that it was made from.

use configparser::ini::Ini;
use regex::Regex;
use vstd::prelude::*;

use crate::cfg;
use crate::cfg::{
    Action, ApplicationConfig, Args, InterceptMode, LevelFilter, SelectedConsumer,
};
use crate::snd::pulse::cfg as pulse_cfg;
use crate::snd::pulse::cfg::PulseDriverConfig;
use crate::util::text;
use crate::util::text_laws;

verus! {

/// The options of a configuration file, by section and key.
pub type Options = Map<(Seq<char>, Seq<char>), Seq<char>>;

// CONFIGURATION FILE **********************************************************

/// Whether the given text is what an optional option of a file holds.
pub open spec fn holds(options: Options, section: Seq<char>, key: Seq<char>, r: Option<String>) -> bool {
    match r {
        Some(value) => options.contains_key((section, key)) && options[(section, key)] == value@,
        None => !options.contains_key((section, key)),
    }
}

/// Every textual option of a configuration file ends up in the setting that it is
/// for, and settings whose option is absent are not set.
pub proof fn law_textual_options<V>(
    ini: Ini,
    volume: Result<Option<V>, String>,
    config: ApplicationConfig<V>,
)
    requires
        call_ensures(ApplicationConfig::<V>::from_ini, (&ini, volume), Ok(config)),
    ensures
        holds(cfg::ini_options(ini), "bardcast"@, "driver"@, config.driver_name),
        holds(cfg::ini_options(ini), "wav"@, "output-file"@, config.output_file),
        holds(cfg::ini_options(ini), "pulse"@, "server"@, config.pulse.server),
        holds(cfg::ini_options(ini), "pulse"@, "sink-name"@, config.pulse.sink_name),
        holds(cfg::ini_options(ini), "discord"@, "token"@, config.discord.token),
        holds(cfg::ini_options(ini), "discord"@, "voice-channel"@, config.discord.voice_channel),
        holds(
            cfg::ini_options(ini),
            "discord"@,
            "metadata-channel"@,
            config.discord.metadata_channel,
        ),
        volume == Ok::<Option<V>, String>(config.pulse.volume),
{
}

/// Every numeric option of a configuration file ends up in the setting that it is
/// for. Settings whose option is absent are not set, and a limit that no number of
/// applications can exceed is not kept.
pub proof fn law_numeric_options<V>(
    ini: Ini,
    volume: Result<Option<V>, String>,
    config: ApplicationConfig<V>,
    n: nat,
)
    requires
        call_ensures(ApplicationConfig::<V>::from_ini, (&ini, volume), Ok(config)),
    ensures
        ({
            let options = cfg::ini_options(ini);
            let key = ("pulse"@, "intercept-limit"@);
            &&& !options.contains_key(key) ==> config.pulse.intercept_limit is None
            &&& options.contains_key(key) && options[key] == text::decimal(n) && n <= usize::MAX
                ==> config.pulse.intercept_limit == Some(n as usize)
            &&& options.contains_key(key) && options[key] == text::decimal(n) && usize::MAX < n
                <= u64::MAX ==> config.pulse.intercept_limit is None
        }),
        ({
            let options = cfg::ini_options(ini);
            let key = ("pulse"@, "sink-index"@);
            &&& !options.contains_key(key) ==> config.pulse.sink_index is None
            &&& options.contains_key(key) && options[key] == text::decimal(n)
                ==> config.pulse.sink_index == Some(n as u32) && n <= u32::MAX
        }),
        ({
            let options = cfg::ini_options(ini);
            let key = ("pulse"@, "max-mainloop-interval-usec"@);
            &&& !options.contains_key(key) ==> config.pulse.max_mainloop_interval_usec is None
            &&& options.contains_key(key) && options[key] == text::decimal(n)
                ==> config.pulse.max_mainloop_interval_usec == Some(n as u64) && n <= u64::MAX
        }),
        ({
            let options = cfg::ini_options(ini);
            let key = ("discord"@, "server-id"@);
            &&& !options.contains_key(key) ==> config.discord.server_id is None
            &&& options.contains_key(key) && options[key] == text::decimal(n)
                ==> config.discord.server_id == Some(n as u64) && n <= u64::MAX
        }),
        ({
            let options = cfg::ini_options(ini);
            let key = ("bardcast"@, "threads"@);
            &&& !options.contains_key(key) ==> config.threads is None
            &&& options.contains_key(key) && options[key] == text::decimal(n) ==> config.threads
                == Some(n as usize) && n <= usize::MAX
        }),
{
    text_laws::lemma_decimal_is_parsed(n, false, text::decimal(n), u64::MAX as nat);
}

/// Whether the given text is the given name, regardless of case.
pub open spec fn is_named(s: Seq<char>, name: Seq<char>) -> bool {
    &&& s.len() == name.len()
    &&& forall|i: int|
        0 <= i < s.len() ==> (#[trigger] s[i] == name[i] || ('a' <= s[i] <= 'z' && s[i] as int
            - 'a' as int == name[i] as int - 'A' as int))
}

/// Text in upper case is the name that it stands for.
proof fn lemma_named(s: Seq<char>, name: Seq<char>)
    requires
        is_named(s, name),
        forall|i: int| 0 <= i < name.len() ==> 'A' <= #[trigger] name[i] <= 'Z',
    ensures
        text::uppercase(s) == name,
{
    assert forall|i: int| 0 <= i < s.len() implies #[trigger] text::uppercase(s)[i] == name[i] by {
        assert(text::uppercase(s)[i] == text::upper(s[i]));
        if 'a' <= s[i] <= 'z' {
            assert(text::upper(s[i]) as int == s[i] as int - 32);
        }
    }
    assert(text::uppercase(s) =~= name);
}

/// What is known of the names of modes and levels: they consist of capital letters,
/// and no two of them are the same.
proof fn lemma_names()
    ensures
        forall|i: int| 0 <= i < "CAPTURE"@.len() ==> 'A' <= #[trigger] "CAPTURE"@[i] <= 'Z',
        forall|i: int| 0 <= i < "PEEK"@.len() ==> 'A' <= #[trigger] "PEEK"@[i] <= 'Z',
        forall|i: int| 0 <= i < "MONITOR"@.len() ==> 'A' <= #[trigger] "MONITOR"@[i] <= 'Z',
        forall|i: int| 0 <= i < "OFF"@.len() ==> 'A' <= #[trigger] "OFF"@[i] <= 'Z',
        forall|i: int| 0 <= i < "ERROR"@.len() ==> 'A' <= #[trigger] "ERROR"@[i] <= 'Z',
        forall|i: int| 0 <= i < "WARN"@.len() ==> 'A' <= #[trigger] "WARN"@[i] <= 'Z',
        forall|i: int| 0 <= i < "INFO"@.len() ==> 'A' <= #[trigger] "INFO"@[i] <= 'Z',
        forall|i: int| 0 <= i < "DEBUG"@.len() ==> 'A' <= #[trigger] "DEBUG"@[i] <= 'Z',
        forall|i: int| 0 <= i < "TRACE"@.len() ==> 'A' <= #[trigger] "TRACE"@[i] <= 'Z',
        "CAPTURE"@.len() == 7 && "PEEK"@.len() == 4 && "MONITOR"@.len() == 7,
        "CAPTURE"@[0] == 'C' && "MONITOR"@[0] == 'M',
        "OFF"@.len() == 3 && "ERROR"@.len() == 5 && "WARN"@.len() == 4 && "INFO"@.len() == 4
            && "DEBUG"@.len() == 5 && "TRACE"@.len() == 5,
        "ERROR"@[0] == 'E' && "WARN"@[0] == 'W' && "INFO"@[0] == 'I' && "DEBUG"@[0] == 'D'
            && "TRACE"@[0] == 'T',
{
    reveal_strlit("CAPTURE");
    reveal_strlit("PEEK");
    reveal_strlit("MONITOR");
    reveal_strlit("OFF");
    reveal_strlit("ERROR");
    reveal_strlit("WARN");
    reveal_strlit("INFO");
    reveal_strlit("DEBUG");
    reveal_strlit("TRACE");
}

/// Intercept modes are recognized by their names regardless of case, and no other
/// text is one.
pub proof fn law_mode_names(s: &str, r: Option<InterceptMode>)
    requires
        call_ensures(cfg::capture_mode_from_string, (s,), r),
    ensures
        is_named(s@, "CAPTURE"@) ==> r == Some(InterceptMode::Capture),
        is_named(s@, "PEEK"@) ==> r == Some(InterceptMode::Peek),
        is_named(s@, "MONITOR"@) ==> r == Some(InterceptMode::Monitor),
        r is Some ==> is_named(s@, "CAPTURE"@) || is_named(s@, "PEEK"@) || is_named(
            s@,
            "MONITOR"@,
        ),
{
    lemma_names();
    if is_named(s@, "CAPTURE"@) {
        lemma_named(s@, "CAPTURE"@);
    }
    if is_named(s@, "PEEK"@) {
        lemma_named(s@, "PEEK"@);
    }
    if is_named(s@, "MONITOR"@) {
        lemma_named(s@, "MONITOR"@);
    }
    lemma_uppercase_is_named(s@);
}

/// Text is what it is in upper case, regardless of case.
proof fn lemma_uppercase_is_named(s: Seq<char>)
    ensures
        is_named(s, text::uppercase(s)),
{
    let name = text::uppercase(s);
    assert forall|i: int| 0 <= i < s.len() implies (#[trigger] s[i] == name[i] || ('a' <= s[i]
        <= 'z' && s[i] as int - 'a' as int == name[i] as int - 'A' as int)) by {
        assert(name[i] == text::upper(s[i]));
        if 'a' <= s[i] <= 'z' {
            assert(text::upper(s[i]) as int == s[i] as int - 32);
        }
    }
}

/// Verbosity levels are recognized by their names regardless of case, and no other
/// text is one.
pub proof fn law_level_names(s: &str, r: Option<LevelFilter>)
    requires
        call_ensures(cfg::level_filter_from_string, (s,), r),
    ensures
        is_named(s@, "OFF"@) ==> r == Some(LevelFilter::Off),
        is_named(s@, "ERROR"@) ==> r == Some(LevelFilter::Error),
        is_named(s@, "WARN"@) ==> r == Some(LevelFilter::Warn),
        is_named(s@, "INFO"@) ==> r == Some(LevelFilter::Info),
        is_named(s@, "DEBUG"@) ==> r == Some(LevelFilter::Debug),
        is_named(s@, "TRACE"@) ==> r == Some(LevelFilter::Trace),
        r is Some ==> is_named(s@, "OFF"@) || is_named(s@, "ERROR"@) || is_named(s@, "WARN"@)
            || is_named(s@, "INFO"@) || is_named(s@, "DEBUG"@) || is_named(s@, "TRACE"@),
{
    lemma_names();
    if is_named(s@, "OFF"@) {
        lemma_named(s@, "OFF"@);
    }
    if is_named(s@, "ERROR"@) {
        lemma_named(s@, "ERROR"@);
    }
    if is_named(s@, "WARN"@) {
        lemma_named(s@, "WARN"@);
    }
    if is_named(s@, "INFO"@) {
        lemma_named(s@, "INFO"@);
    }
    if is_named(s@, "DEBUG"@) {
        lemma_named(s@, "DEBUG"@);
    }
    if is_named(s@, "TRACE"@) {
        lemma_named(s@, "TRACE"@);
    }
    lemma_uppercase_is_named(s@);
}

/// The intercept mode, the verbosity level, the regular expression and the
/// properties that a configuration file specifies are those that are used. Each of
/// them is left out if its option is absent.
pub proof fn law_other_options<V>(
    ini: Ini,
    volume: Result<Option<V>, String>,
    config: ApplicationConfig<V>,
)
    requires
        call_ensures(ApplicationConfig::<V>::from_ini, (&ini, volume), Ok(config)),
    ensures
        ({
            let options = cfg::ini_options(ini);
            let key = ("pulse"@, "intercept-mode"@);
            &&& !options.contains_key(key) ==> config.pulse.intercept_mode is None
            &&& options.contains_key(key) ==> match config.pulse.intercept_mode {
                Some(InterceptMode::Capture) => is_named(options[key], "CAPTURE"@),
                Some(InterceptMode::Peek) => is_named(options[key], "PEEK"@),
                Some(InterceptMode::Monitor) => is_named(options[key], "MONITOR"@),
                None => false,
            }
        }),
        ({
            let options = cfg::ini_options(ini);
            let key = ("bardcast"@, "log-level"@);
            &&& !options.contains_key(key) ==> config.log_level is None
            &&& options.contains_key(key) ==> match config.log_level {
                Some(LevelFilter::Off) => is_named(options[key], "OFF"@),
                Some(LevelFilter::Error) => is_named(options[key], "ERROR"@),
                Some(LevelFilter::Warn) => is_named(options[key], "WARN"@),
                Some(LevelFilter::Info) => is_named(options[key], "INFO"@),
                Some(LevelFilter::Debug) => is_named(options[key], "DEBUG"@),
                Some(LevelFilter::Trace) => is_named(options[key], "TRACE"@),
                None => false,
            }
        }),
        ({
            let options = cfg::ini_options(ini);
            let key = ("pulse"@, "stream-regex"@);
            &&& !options.contains_key(key) ==> config.pulse.stream_regex is None
            &&& options.contains_key(key) ==> (config.pulse.stream_regex matches Some(regex)
                && cfg::pattern_parsed(options[key]) == Ok::<Set<Seq<char>>, Seq<char>>(
                cfg::regex_texts(regex),
            ))
        }),
        ({
            let options = cfg::ini_options(ini);
            let key = ("pulse"@, "stream-properties"@);
            &&& text::views(config.pulse.stream_properties@).no_duplicates()
            &&& !options.contains_key(key) ==> config.pulse.stream_properties@.len() == 0
            &&& options.contains_key(key) ==> forall|property: Seq<char>| #[trigger]
                text::views(config.pulse.stream_properties@).contains(property)
                    <==> text::split_on(options[key], ',').contains(property)
        }),
{
    let options = cfg::ini_options(ini);
    let mode = ("pulse"@, "intercept-mode"@);
    if options.contains_key(mode) {
        lemma_uppercase_is_named(options[mode]);
    }
    let level = ("bardcast"@, "log-level"@);
    if options.contains_key(level) {
        lemma_uppercase_is_named(options[level]);
    }
    let properties = ("pulse"@, "stream-properties"@);
    let views = text::views(config.pulse.stream_properties@);
    assert(views.len() == config.pulse.stream_properties@.len());
    if options.contains_key(properties) {
        let pieces = text::split_on(options[properties], ',');
        assert forall|property: Seq<char>| #[trigger] views.contains(property)
            <==> pieces.contains(property) by {
            cfg::law_deduplicated(pieces, property);
        }
        cfg::law_deduplicated(pieces, Seq::empty());
    }
}

/// An option that has no valid value is an error: one that should be a number but
/// is not, a number that is too large, or a name that is not known.
pub proof fn law_invalid_options<V>(
    ini: Ini,
    volume: Result<Option<V>, String>,
    r: Result<ApplicationConfig<V>, String>,
    n: nat,
)
    requires
        call_ensures(ApplicationConfig::<V>::from_ini, (&ini, volume), r),
        ({
            let options = cfg::ini_options(ini);
            let max = u64::MAX as nat;
            let interval = ("pulse"@, "max-mainloop-interval-usec"@);
            let limit = ("pulse"@, "intercept-limit"@);
            let index = ("pulse"@, "sink-index"@);
            let server = ("discord"@, "server-id"@);
            let threads = ("bardcast"@, "threads"@);
            let mode = ("pulse"@, "intercept-mode"@);
            let level = ("bardcast"@, "log-level"@);
            ||| volume is Err
            ||| options.contains_key(interval) && text::parsed_unsigned(options[interval], max)
                is None
            ||| options.contains_key(limit) && text::parsed_unsigned(options[limit], max) is None
            ||| options.contains_key(index) && text::parsed_unsigned(options[index], max) is None
            ||| options.contains_key(index) && options[index] == text::decimal(n) && n > u32::MAX
            ||| options.contains_key(server) && text::parsed_unsigned(options[server], max) is None
            ||| options.contains_key(threads) && text::parsed_unsigned(options[threads], max)
                is None
            ||| options.contains_key(mode) && !is_named(options[mode], "CAPTURE"@) && !is_named(
                options[mode],
                "PEEK"@,
            ) && !is_named(options[mode], "MONITOR"@)
            ||| options.contains_key(level) && !is_named(options[level], "OFF"@) && !is_named(
                options[level],
                "ERROR"@,
            ) && !is_named(options[level], "WARN"@) && !is_named(options[level], "INFO"@)
                && !is_named(options[level], "DEBUG"@) && !is_named(options[level], "TRACE"@)
        }),
    ensures
        r is Err,
{
    let options = cfg::ini_options(ini);
    text_laws::lemma_decimal_is_parsed(n, false, text::decimal(n), u64::MAX as nat);
    let mode = ("pulse"@, "intercept-mode"@);
    if options.contains_key(mode) {
        lemma_uppercase_is_named(options[mode]);
    }
    let level = ("bardcast"@, "log-level"@);
    if options.contains_key(level) {
        lemma_uppercase_is_named(options[level]);
    }
}

/// A configuration file without a regular expression can be loaded if all of its
/// options are valid, and the volume is.
pub proof fn law_valid_options<V>(
    ini: Ini,
    volume: Result<Option<V>, String>,
    r: Result<ApplicationConfig<V>, String>,
)
    requires
        call_ensures(ApplicationConfig::<V>::from_ini, (&ini, volume), r),
        volume is Ok,
        ({
            let options = cfg::ini_options(ini);
            let max = u64::MAX as nat;
            let interval = ("pulse"@, "max-mainloop-interval-usec"@);
            let limit = ("pulse"@, "intercept-limit"@);
            let index = ("pulse"@, "sink-index"@);
            let server = ("discord"@, "server-id"@);
            let threads = ("bardcast"@, "threads"@);
            let mode = ("pulse"@, "intercept-mode"@);
            let level = ("bardcast"@, "log-level"@);
            &&& !options.contains_key(("pulse"@, "stream-regex"@))
            &&& options.contains_key(interval) ==> text::parsed_unsigned(options[interval], max)
                is Some
            &&& options.contains_key(limit) ==> text::parsed_unsigned(options[limit], max) is Some
            &&& options.contains_key(index) ==> text::parsed_unsigned(
                options[index],
                u32::MAX as nat,
            ) is Some
            &&& options.contains_key(server) ==> text::parsed_unsigned(options[server], max) is Some
            &&& options.contains_key(threads) ==> text::parsed_unsigned(
                options[threads],
                if usize::MAX as nat <= max {
                    usize::MAX as nat
                } else {
                    max
                },
            ) is Some
            &&& options.contains_key(mode) ==> is_named(options[mode], "CAPTURE"@) || is_named(
                options[mode],
                "PEEK"@,
            ) || is_named(options[mode], "MONITOR"@)
            &&& options.contains_key(level) ==> is_named(options[level], "OFF"@) || is_named(
                options[level],
                "ERROR"@,
            ) || is_named(options[level], "WARN"@) || is_named(options[level], "INFO"@)
                || is_named(options[level], "DEBUG"@) || is_named(options[level], "TRACE"@)
        }),
    ensures
        r is Ok,
{
    let options = cfg::ini_options(ini);
    lemma_names();
    let mode = ("pulse"@, "intercept-mode"@);
    if options.contains_key(mode) {
        let s = options[mode];
        if is_named(s, "CAPTURE"@) {
            lemma_named(s, "CAPTURE"@);
        } else if is_named(s, "PEEK"@) {
            lemma_named(s, "PEEK"@);
        } else {
            lemma_named(s, "MONITOR"@);
        }
    }
    let level = ("bardcast"@, "log-level"@);
    if options.contains_key(level) {
        let s = options[level];
        if is_named(s, "OFF"@) {
            lemma_named(s, "OFF"@);
        } else if is_named(s, "ERROR"@) {
            lemma_named(s, "ERROR"@);
        } else if is_named(s, "WARN"@) {
            lemma_named(s, "WARN"@);
        } else if is_named(s, "INFO"@) {
            lemma_named(s, "INFO"@);
        } else if is_named(s, "DEBUG"@) {
            lemma_named(s, "DEBUG"@);
        } else {
            lemma_named(s, "TRACE"@);
        }
    }
}

// COMMANDLINE ARGUMENTS *******************************************************

/// Every commandline argument ends up in the setting that it is for, and settings
/// without an argument are not set. The sink is taken to be an index if it is a
/// number, and a name otherwise.
pub proof fn law_arguments<V>(
    args: Args<V>,
    volume: Result<Option<V>, String>,
    config: ApplicationConfig<V>,
    n: nat,
)
    requires
        call_ensures(ApplicationConfig::<V>::from_args, (args, volume), Ok(config)),
    ensures
        config.log_level == args.log_level,
        config.driver_name == args.driver_name,
        config.output_file == args.output_file,
        config.threads == args.threads,
        config.discord.token == args.token,
        config.discord.voice_channel == args.voice_channel,
        config.discord.metadata_channel == args.metadata_channel,
        config.discord.server_id == args.server_id,
        config.pulse.server == args.snd_backend,
        config.pulse.intercept_limit == args.intercept_limit,
        config.pulse.intercept_mode == args.intercept_mode,
        config.pulse.max_mainloop_interval_usec is None,
        volume == Ok::<Option<V>, String>(config.pulse.volume),
        args.stream_regex is None <==> config.pulse.stream_regex is None,
        args.stream_regex matches Some(pattern) ==> (config.pulse.stream_regex matches Some(regex)
            && cfg::pattern_parsed(pattern@) == Ok::<Set<Seq<char>>, Seq<char>>(
            cfg::regex_texts(regex),
        )),
        text::views(config.pulse.stream_properties@).no_duplicates(),
        forall|property: Seq<char>| #[trigger]
            text::views(config.pulse.stream_properties@).contains(property) <==> text::views(
                args.stream_property@,
            ).contains(property),
        args.sink is None ==> config.pulse.sink_index is None && config.pulse.sink_name is None,
        args.sink matches Some(sink) && sink@ == text::decimal(n) && n <= u32::MAX
            ==> config.pulse.sink_index == Some(n as u32) && config.pulse.sink_name is None,
        args.sink matches Some(sink) && (text::parsed_unsigned(sink@, u32::MAX as nat) is None)
            ==> config.pulse.sink_index is None && config.pulse.sink_name == args.sink,
{
    text_laws::lemma_decimal_is_parsed(n, false, text::decimal(n), u32::MAX as nat);
    let given = text::views(args.stream_property@);
    let views = text::views(config.pulse.stream_properties@);
    assert forall|property: Seq<char>| #[trigger] views.contains(property) <==> given.contains(
        property,
    ) by {
        cfg::law_deduplicated(given, property);
    }
    cfg::law_deduplicated(given, Seq::empty());
}

/// Commandline arguments without a regular expression are invalid only if the
/// volume is, which is then reported.
pub proof fn law_invalid_arguments<V>(
    args: Args<V>,
    volume: Result<Option<V>, String>,
    r: Result<ApplicationConfig<V>, String>,
)
    requires
        call_ensures(ApplicationConfig::<V>::from_args, (args, volume), r),
        args.stream_regex is None,
    ensures
        r is Ok <==> volume is Ok,
        volume matches Err(e) ==> (r matches Err(e2) && e2@ == e@),
{
}

/// The version takes precedence over the list of drivers, which takes precedence
/// over the list of servers, which takes precedence over running the application.
pub proof fn law_requested_action<V>(args: Args<V>, r: Action)
    requires
        call_ensures(Action::from_args::<V>, (&args,), r),
    ensures
        r is PrintVersion <==> args.version,
        r is ListDrivers <==> args.list_drivers && !args.version,
        r is ListServers <==> args.list_servers && !args.list_drivers && !args.version,
        r matches Action::Run(consumer) ==> consumer == args.consumer,
{
}

// COMBINATION *****************************************************************

/// The setting that results from one in the configuration file and one that may
/// override it.
pub open spec fn either<T>(file: Option<T>, args: Option<T>) -> Option<T> {
    match args {
        Some(_) => args,
        None => file,
    }
}

/// The settings of the application are those in the configuration file, except where
/// the commandline arguments override them. A sink on the command line replaces one
/// in the file, however either of them is specified.
pub proof fn law_built_settings<V>(
    file: ApplicationConfig<V>,
    args: ApplicationConfig<V>,
    action: Action,
    config: ApplicationConfig<V>,
)
    requires
        call_ensures(cfg::build_config::<V>, (Some(file), args, action), Ok(config)),
    ensures
        config.log_level == either(file.log_level, args.log_level),
        config.driver_name == either(file.driver_name, args.driver_name),
        config.output_file == either(file.output_file, args.output_file),
        config.threads == either(file.threads, args.threads),
        config.discord.token == either(file.discord.token, args.discord.token),
        config.discord.server_id == either(file.discord.server_id, args.discord.server_id),
        config.discord.voice_channel == either(
            file.discord.voice_channel,
            args.discord.voice_channel,
        ),
        config.discord.metadata_channel == either(
            file.discord.metadata_channel,
            args.discord.metadata_channel,
        ),
        config.pulse.intercept_mode == either(file.pulse.intercept_mode, args.pulse.intercept_mode),
        config.pulse.stream_regex == either(file.pulse.stream_regex, args.pulse.stream_regex),
        config.pulse.server == either(file.pulse.server, args.pulse.server),
        config.pulse.volume == either(file.pulse.volume, args.pulse.volume),
        config.pulse.intercept_limit == either(
            file.pulse.intercept_limit,
            args.pulse.intercept_limit,
        ),
        config.pulse.max_mainloop_interval_usec == either(
            file.pulse.max_mainloop_interval_usec,
            args.pulse.max_mainloop_interval_usec,
        ),
        args.pulse.stream_properties@.len() > 0 ==> config.pulse.stream_properties
            == args.pulse.stream_properties,
        args.pulse.stream_properties@.len() == 0 ==> config.pulse.stream_properties
            == file.pulse.stream_properties,
        args.pulse.sink_index is Some ==> config.pulse.sink_index == args.pulse.sink_index,
        args.pulse.sink_index is None && args.pulse.sink_name is Some ==> config.pulse.sink_index
            is None && config.pulse.sink_name == args.pulse.sink_name,
        args.pulse.sink_index is None && args.pulse.sink_name is None ==> config.pulse.sink_index
            == file.pulse.sink_index && config.pulse.sink_name == file.pulse.sink_name,
{
}

/// Without a configuration file, the settings are those on the command line.
pub proof fn law_built_without_file<V>(
    args: ApplicationConfig<V>,
    action: Action,
    config: ApplicationConfig<V>,
)
    requires
        call_ensures(cfg::build_config::<V>, (None::<ApplicationConfig<V>>, args, action), Ok(config)),
    ensures
        config == args,
{
}

/// Merging configurations one after the other gives the same result as merging the
/// later ones first.
pub proof fn law_merging_is_associative<V>(
    first: ApplicationConfig<V>,
    second: ApplicationConfig<V>,
    third: ApplicationConfig<V>,
)
    requires
        second.pulse.sink_name is Some ==> second.pulse.sink_index is None,
        third.pulse.sink_name is Some ==> third.pulse.sink_index is None,
        second.pulse.sink_name is None || third.pulse.sink_index is None,
    ensures
        first.merged(second).merged(third) == first.merged(second.merged(third)),
{
}

/// What is needed to run the application, and nothing more, has to be configured:
/// the Discord consumer needs a token, a server and a voice channel; the consumer
/// that writes files needs a file; an intercept mode other than monitoring needs a
/// regular expression; and listing servers needs a token.
pub proof fn law_needed_settings<V>(
    file: Option<ApplicationConfig<V>>,
    args: ApplicationConfig<V>,
    action: Action,
    r: Result<ApplicationConfig<V>, String>,
    config: ApplicationConfig<V>,
)
    requires
        call_ensures(cfg::build_config::<V>, (file, args, action), r),
        config == (match file {
            Some(file) => file.merged(args),
            None => args,
        }),
    ensures
        action is PrintVersion || action is ListDrivers ==> r is Ok,
        action is ListServers ==> (r is Ok <==> config.discord.token is Some),
        action == Action::Run(SelectedConsumer::Discord) ==> (r is Ok <==> {
            &&& config.discord.token is Some
            &&& config.discord.server_id is Some
            &&& config.discord.voice_channel is Some
            &&& config.pulse.stream_regex is Some || config.pulse.intercept_mode is None
                || config.pulse.intercept_mode == Some(InterceptMode::Monitor)
        }),
        action == Action::Run(SelectedConsumer::Wav) ==> (r is Ok <==> {
            &&& config.output_file is Some
            &&& config.pulse.stream_regex is Some || config.pulse.intercept_mode is None
                || config.pulse.intercept_mode == Some(InterceptMode::Monitor)
        }),
{
}

/// Settings that have no effect are noticed: a limit without a regular expression,
/// and a file for a consumer that does not write one.
pub proof fn law_settings_without_effect<V>(
    config: ApplicationConfig<V>,
    action: Action,
    limit: bool,
    file: bool,
)
    requires
        call_ensures(PulseDriverConfig::<V>::limit_has_no_effect, (&config.pulse,), limit),
        call_ensures(ApplicationConfig::<V>::output_file_ignored, (&config, action), file),
    ensures
        limit <==> config.pulse.intercept_limit is Some && config.pulse.stream_regex is None,
        file <==> config.output_file is Some && action == Action::Run(SelectedConsumer::Discord),
{
}

/// How verbose the given level is.
pub open spec fn verbosity(level: LevelFilter) -> nat {
    match level {
        LevelFilter::Off => 0,
        LevelFilter::Error => 1,
        LevelFilter::Warn => 2,
        LevelFilter::Info => 3,
        LevelFilter::Debug => 4,
        LevelFilter::Trace => 5,
    }
}

/// Chatty dependencies are never more verbose than the application. While it is
/// not debugged, they do not go beyond warnings; otherwise they are as verbose as
/// it is.
pub proof fn law_dependencies_are_quieter(level: LevelFilter, r: LevelFilter)
    requires
        call_ensures(LevelFilter::dependency_level, (&level,), r),
    ensures
        verbosity(r) <= verbosity(level),
        verbosity(level) <= 3 ==> verbosity(r) <= 2,
        verbosity(level) != 3 ==> r == level,
        level is Info ==> r is Warn,
{
}

/// The configured verbosity level is used if there is one.
pub proof fn law_effective_level<V>(
    config: ApplicationConfig<V>,
    default_log_level: LevelFilter,
    r: LevelFilter,
)
    requires
        call_ensures(
            ApplicationConfig::<V>::effective_log_level,
            (&config, default_log_level),
            r,
        ),
    ensures
        config.log_level is None ==> r == default_log_level,
        config.log_level is Some ==> config.log_level == Some(r),
{
}

// VALIDATION ******************************************************************

/// Numbers are narrowed without being changed. Those that do not fit are rejected,
/// or dropped if they are limits.
pub proof fn law_narrowed_numbers(
    n: u64,
    limit: Option<usize>,
    index: Result<Option<u32>, String>,
    threads: Result<Option<usize>, String>,
)
    requires
        call_ensures(pulse_cfg::process_intercept_limit, (Some(n),), limit),
        call_ensures(
            pulse_cfg::validate_sink_index,
            (Ok::<Option<u64>, String>(Some(n)),),
            index,
        ),
        call_ensures(cfg::validate_thread_count, (&Some(n),), threads),
    ensures
        limit is Some <==> n <= usize::MAX,
        limit matches Some(m) ==> m == n,
        index is Ok <==> n <= u32::MAX,
        index matches Ok(index) ==> (index matches Some(m) && m == n),
        threads is Ok <==> n <= usize::MAX,
        threads matches Ok(threads) ==> (threads matches Some(m) && m == n),
{
}

/// What is absent stays absent when it is validated.
pub proof fn law_absent_settings(
    limit: Option<usize>,
    index: Result<Option<u32>, String>,
    threads: Result<Option<usize>, String>,
    mode: Result<Option<InterceptMode>, String>,
    level: Result<Option<LevelFilter>, String>,
    regex: Result<Option<Regex>, String>,
    properties: Vec<String>,
)
    requires
        call_ensures(pulse_cfg::process_intercept_limit, (None::<u64>,), limit),
        call_ensures(pulse_cfg::validate_sink_index, (Ok::<Option<u64>, String>(None),), index),
        call_ensures(cfg::validate_thread_count, (&None::<u64>,), threads),
        call_ensures(cfg::validate_intercept_mode, (&None::<String>,), mode),
        call_ensures(cfg::validate_log_level, (&None::<String>,), level),
        call_ensures(cfg::validate_regex, (&None::<String>,), regex),
        call_ensures(cfg::parse_raw_property_list, (&None::<String>,), properties),
    ensures
        limit is None,
        index matches Ok(index) && index is None,
        threads matches Ok(threads) && threads is None,
        mode matches Ok(mode) && mode is None,
        level matches Ok(level) && level is None,
        regex matches Ok(regex) && regex is None,
        properties@.len() == 0,
{
    assert(text::views(properties@).len() == properties@.len());
}

/// A value that is set overrides one that was set before, and a value that is not
/// set leaves it alone.
pub proof fn law_overriding<T>(from: Option<T>)
    ensures
        forall|into: &mut Option<T>| #[trigger]
            call_ensures(cfg::merge_opt::<T>, (into, from), ()) ==> {
                &&& from is Some ==> *final(into) == from
                &&& from is None ==> *final(into) == *into
            },
{
}

// REPORTED PROBLEMS ***********************************************************

/// Of several invalid options of a configuration file without a regular expression,
/// the first one is reported, in terms of the value that it has.
pub proof fn law_first_problem_is_reported<V>(
    ini: Ini,
    volume: Result<Option<V>, String>,
    r: Result<PulseDriverConfig<V>, String>,
)
    requires
        call_ensures(
            PulseDriverConfig::<V>::from_ini_parts,
            (&ini, Ok::<Option<Regex>, String>(None), volume),
            r,
        ),
    ensures
        ({
            let options = cfg::ini_options(ini);
            let max = u64::MAX as nat;
            let interval = ("pulse"@, "max-mainloop-interval-usec"@);
            let limit = ("pulse"@, "intercept-limit"@);
            let index = ("pulse"@, "sink-index"@);
            let mode = ("pulse"@, "intercept-mode"@);
            if options.contains_key(interval) && text::parsed_unsigned(options[interval], max)
                is None {
                r matches Err(e) && e@ == cfg::uint_error(options[interval])
            } else if volume is Err {
                r matches Err(e) && e@ == (volume->Err_0)@
            } else if options.contains_key(limit) && text::parsed_unsigned(options[limit], max)
                is None {
                r matches Err(e) && e@ == cfg::uint_error(options[limit])
            } else if options.contains_key(index) && text::parsed_unsigned(options[index], max)
                is None {
                r matches Err(e) && e@ == "Provided sink-index '"@ + cfg::uint_error(options[index])
                    + "' is not valid"@
            } else if options.contains_key(index) && text::parsed_unsigned(options[index], max)->0
                > u32::MAX {
                r matches Err(e) && e@ == "Provided sink-index '"@ + text::decimal(
                    text::parsed_unsigned(options[index], max)->0,
                ) + "' is too large"@
            } else if options.contains_key(mode) && !is_named(options[mode], "CAPTURE"@)
                && !is_named(options[mode], "PEEK"@) && !is_named(options[mode], "MONITOR"@) {
                r matches Err(e) && e@ == "Unknown capture mode"@
            } else {
                r is Ok
            }
        }),
{
    let options = cfg::ini_options(ini);
    let mode = ("pulse"@, "intercept-mode"@);
    lemma_names();
    if options.contains_key(mode) {
        let s = options[mode];
        lemma_uppercase_is_named(s);
        if is_named(s, "CAPTURE"@) {
            lemma_named(s, "CAPTURE"@);
        } else if is_named(s, "PEEK"@) {
            lemma_named(s, "PEEK"@);
        } else if is_named(s, "MONITOR"@) {
            lemma_named(s, "MONITOR"@);
        }
    }
}

/// A regular expression that cannot be used is reported before anything else, whether
/// it is an option or an argument, and so is the volume if it is an argument.
pub proof fn law_regex_is_reported_first<V>(
    ini: Ini,
    args: Args<V>,
    problem: String,
    volume: Result<Option<V>, String>,
    r: Result<PulseDriverConfig<V>, String>,
    r2: Result<PulseDriverConfig<V>, String>,
)
    requires
        call_ensures(
            PulseDriverConfig::<V>::from_ini_parts,
            (&ini, Err::<Option<Regex>, String>(problem), volume),
            r,
        ),
        call_ensures(
            PulseDriverConfig::<V>::from_args_parts,
            (&args, Err::<Option<Regex>, String>(problem), volume),
            r2,
        ),
    ensures
        r matches Err(e) && e@ == problem@,
        r2 matches Err(e) && e@ == problem@,
{
}

/// The reason why a regular expression cannot be used is made clear.
pub proof fn law_regex_problems(
    message: String,
    limit: usize,
    syntax: String,
    size: String,
    unknown: String,
    pattern: String,
    r: Result<Option<Regex>, String>,
)
    requires
        call_ensures(
            cfg::explain_regex_failure,
            (cfg::RegexFailure::Syntax(message),),
            syntax,
        ),
        call_ensures(
            cfg::explain_regex_failure,
            (cfg::RegexFailure::CompiledTooBig(limit),),
            size,
        ),
        call_ensures(cfg::explain_regex_failure, (cfg::RegexFailure::Unknown,), unknown),
        call_ensures(cfg::validate_regex, (&Some(pattern),), r),
    ensures
        syntax@ == "regex syntax error: "@ + message@,
        size@ == "compiled regex exceeded size limit of "@ + text::decimal(limit as nat),
        unknown@ == "unknown regex error"@,
        r != Ok::<Option<Regex>, String>(None),
        cfg::pattern_parsed(pattern@) matches Err(e) ==> (r matches Err(e2) && e2@
            == "regex syntax error: "@ + e),
        r matches Ok(Some(regex)) ==> cfg::pattern_parsed(pattern@) == Ok::<
            Set<Seq<char>>,
            Seq<char>,
        >(cfg::regex_texts(regex)),
{
}

/// The options of a configuration file are those that it contains, where options
/// before the first section belong to the application.
pub proof fn law_parsed_files(contents: String, r: Result<Ini, String>)
    requires
        call_ensures(cfg::parse_config_file, (contents,), r),
    ensures
        match r {
            Ok(ini) => cfg::ini_parsed("bardcast"@, contents@) == Ok::<Options, Seq<char>>(
                cfg::ini_options(ini),
            ),
            Err(e) => cfg::ini_parsed("bardcast"@, contents@) == Err::<Options, Seq<char>>(e@),
        },
{
}

/// Removing duplicates keeps the first of them: a text that is appended to a list
/// stays exactly if the list does not have it yet, and never affects what precedes it.
pub proof fn law_first_duplicate_is_kept(
    texts: Vec<String>,
    more: Vec<String>,
    r: Vec<String>,
    r2: Vec<String>,
)
    requires
        call_ensures(cfg::deduplicate, (texts,), r),
        call_ensures(cfg::deduplicate, (more,), r2),
        more@.len() > 0,
        text::views(more@).drop_last() == text::views(texts@),
    ensures
        text::views(texts@).contains(text::views(more@).last()) ==> text::views(r2@) == text::views(
            r@,
        ),
        !text::views(texts@).contains(text::views(more@).last()) ==> text::views(r2@)
            == text::views(r@).push(text::views(more@).last()),
{
    assert(text::views(more@).len() == more@.len());
    cfg::law_deduplicated(text::views(texts@), text::views(more@).last());
}

/// There are no duplicates among no texts.
pub proof fn law_nothing_to_deduplicate(r: Vec<String>, texts: Vec<String>)
    requires
        call_ensures(cfg::deduplicate, (texts,), r),
        texts@.len() == 0,
    ensures
        r@.len() == 0,
{
    assert(text::views(r@).len() == r@.len());
    assert(text::views(texts@).len() == 0);
}

/// Only recordings are written to a file.
pub proof fn law_output_files(consumer: SelectedConsumer, r: bool)
    requires
        call_ensures(SelectedConsumer::needs_output_file, (&consumer,), r),
    ensures
        r <==> consumer == SelectedConsumer::Wav,
{
}

/// Of several parts of a configuration file without a regular expression that are
/// invalid, the first one is reported: the sound driver comes before the connection to
/// Discord, which comes before the application itself.
pub proof fn law_first_section_is_reported<V>(
    ini: Ini,
    volume: Result<Option<V>, String>,
    pulse: Result<PulseDriverConfig<V>, String>,
    r: Result<ApplicationConfig<V>, String>,
)
    requires
        call_ensures(
            PulseDriverConfig::<V>::from_ini_parts,
            (&ini, Ok::<Option<Regex>, String>(None), volume),
            pulse,
        ),
        call_ensures(ApplicationConfig::<V>::from_ini, (&ini, volume), r),
        !cfg::ini_options(ini).contains_key(("pulse"@, "stream-regex"@)),
    ensures
        ({
            let options = cfg::ini_options(ini);
            let max = u64::MAX as nat;
            let server = ("discord"@, "server-id"@);
            let threads = ("bardcast"@, "threads"@);
            let level = ("bardcast"@, "log-level"@);
            if pulse is Err {
                r matches Err(e) && e@ == (pulse->Err_0)@
            } else if options.contains_key(server) && text::parsed_unsigned(options[server], max)
                is None {
                r matches Err(e) && e@ == cfg::uint_error(options[server])
            } else if options.contains_key(level) && !is_named(options[level], "OFF"@)
                && !is_named(options[level], "ERROR"@) && !is_named(options[level], "WARN"@)
                && !is_named(options[level], "INFO"@) && !is_named(options[level], "DEBUG"@)
                && !is_named(options[level], "TRACE"@) {
                r matches Err(e) && e@ == "Unknown log level"@
            } else if options.contains_key(threads) && text::parsed_unsigned(options[threads], max)
                is None {
                r matches Err(e) && e@ == cfg::uint_error(options[threads])
            } else if options.contains_key(threads) && text::parsed_unsigned(
                options[threads],
                max,
            )->0 > usize::MAX {
                r matches Err(e) && e@ == "Too many threads specified"@
            } else {
                r is Ok
            }
        }),
{
    let options = cfg::ini_options(ini);
    let mode = ("pulse"@, "intercept-mode"@);
    let level = ("bardcast"@, "log-level"@);
    law_first_problem_is_reported(ini, volume, pulse);
    lemma_names();
    if options.contains_key(mode) {
        lemma_uppercase_is_named(options[mode]);
    }
    if options.contains_key(level) {
        let s = options[level];
        lemma_uppercase_is_named(s);
        if is_named(s, "OFF"@) {
            lemma_named(s, "OFF"@);
        } else if is_named(s, "ERROR"@) {
            lemma_named(s, "ERROR"@);
        } else if is_named(s, "WARN"@) {
            lemma_named(s, "WARN"@);
        } else if is_named(s, "INFO"@) {
            lemma_named(s, "INFO"@);
        } else if is_named(s, "DEBUG"@) {
            lemma_named(s, "DEBUG"@);
        } else if is_named(s, "TRACE"@) {
            lemma_named(s, "TRACE"@);
        }
    }
}

/// Of several settings that are missing for an action, the first one is reported: the
/// output file comes before the selection of applications, which comes before what is
/// needed to connect to Discord.
pub proof fn law_first_missing_setting_is_reported<V>(
    config: ApplicationConfig<V>,
    action: Action,
    r: Result<(), String>,
)
    requires
        call_ensures(ApplicationConfig::<V>::validate_semantics, (&config, action), r),
    ensures
        ({
            let runs = action is Run;
            let connects = action == Action::Run(SelectedConsumer::Discord);
            let discord = config.discord;
            if action == Action::Run(SelectedConsumer::Wav) && config.output_file is None {
                r matches Err(e) && e@
                    == "Selected audio consumer requires an output file to be specified"@
            } else if runs && config.pulse.stream_regex is None && (
            config.pulse.intercept_mode is Some && config.pulse.intercept_mode
                != Some(InterceptMode::Monitor)) {
                r matches Err(e) && e@ == "The selected intercept mode requires -E/--stream-regex"@
            } else if (connects || action is ListServers) && discord.token is None {
                r matches Err(e) && e@ == "A Discord bot token is required."@
            } else if connects && discord.server_id is None {
                r matches Err(e) && e@ == "A Discord server ID is required."@
            } else if connects && discord.voice_channel is None {
                r matches Err(e) && e@ == "A voice channel name is required."@
            } else {
                r is Ok
            }
        }),
{
}

/// Merging overrides each setting that the other configuration has, and no other. A
/// sink that the other configuration has by name also replaces one by index, and its
/// properties are not mixed with the earlier ones.
pub proof fn law_merging<V>(other: ApplicationConfig<V>)
    ensures
        forall|c: &mut ApplicationConfig<V>| #[trigger]
            call_ensures(ApplicationConfig::<V>::merge, (c, other), ()) ==> {
                &&& final(c).log_level == either(c.log_level, other.log_level)
                &&& final(c).driver_name == either(c.driver_name, other.driver_name)
                &&& final(c).output_file == either(c.output_file, other.output_file)
                &&& final(c).threads == either(c.threads, other.threads)
                &&& final(c).discord.token == either(c.discord.token, other.discord.token)
                &&& final(c).discord.server_id == either(
                    c.discord.server_id,
                    other.discord.server_id,
                )
                &&& final(c).discord.voice_channel == either(
                    c.discord.voice_channel,
                    other.discord.voice_channel,
                )
                &&& final(c).discord.metadata_channel == either(
                    c.discord.metadata_channel,
                    other.discord.metadata_channel,
                )
                &&& final(c).pulse.server == either(c.pulse.server, other.pulse.server)
                &&& final(c).pulse.volume == either(c.pulse.volume, other.pulse.volume)
                &&& final(c).pulse.stream_regex == either(
                    c.pulse.stream_regex,
                    other.pulse.stream_regex,
                )
                &&& final(c).pulse.intercept_mode == either(
                    c.pulse.intercept_mode,
                    other.pulse.intercept_mode,
                )
                &&& final(c).pulse.intercept_limit == either(
                    c.pulse.intercept_limit,
                    other.pulse.intercept_limit,
                )
                &&& final(c).pulse.max_mainloop_interval_usec == either(
                    c.pulse.max_mainloop_interval_usec,
                    other.pulse.max_mainloop_interval_usec,
                )
                &&& final(c).pulse.sink_name == either(c.pulse.sink_name, other.pulse.sink_name)
                &&& other.pulse.sink_name is Some ==> final(c).pulse.sink_index
                    == other.pulse.sink_index
                &&& other.pulse.sink_name is None ==> final(c).pulse.sink_index == either(
                    c.pulse.sink_index,
                    other.pulse.sink_index,
                )
                &&& other.pulse.stream_properties@.len() > 0 ==> final(c).pulse.stream_properties@
                    == other.pulse.stream_properties@
                &&& other.pulse.stream_properties@.len() == 0 ==> final(c).pulse.stream_properties@
                    == c.pulse.stream_properties@
            },
{
}

} // verus!
