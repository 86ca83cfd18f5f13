use bardcast::cfg::{
    build_config, capture_mode_from_string, contains_text, deduplicate, explain_regex_failure,
    level_filter_from_string, merge_opt, parse_config_file, parse_raw_property_list,
    validate_intercept_mode, validate_log_level, validate_regex, validate_thread_count, Action,
    ApplicationConfig, Args, Config, InterceptMode, LevelFilter, RegexFailure, SelectedConsumer,
};
use bardcast::consumer::discord::cfg::DiscordConfig;
use bardcast::snd::pulse::cfg::{process_intercept_limit, validate_sink_index, PulseDriverConfig};

const DISCORD: Action = Action::Run(SelectedConsumer::Discord);
const WAV: Action = Action::Run(SelectedConsumer::Wav);

fn args() -> Args<f64> {
    Args {
        stream_property: Vec::new(),
        configfile: None,
        driver_name: None,
        stream_regex: None,
        sink: None,
        snd_backend: None,
        token: None,
        voice_channel: None,
        metadata_channel: None,
        output_file: None,
        server_id: None,
        volume: None,
        intercept_limit: None,
        threads: None,
        log_level: None,
        intercept_mode: None,
        consumer: SelectedConsumer::Discord,
        list_drivers: false,
        list_servers: false,
        version: false,
    }
}

fn discord_args() -> Args<f64> {
    Args {
        token: Some("token".to_string()),
        voice_channel: Some("General".to_string()),
        server_id: Some(123),
        stream_regex: Some("vlc".to_string()),
        ..args()
    }
}

fn from_args(args: Args<f64>) -> ApplicationConfig<f64> {
    let volume = args.volume;
    ApplicationConfig::from_args(args, Ok(volume)).unwrap()
}

fn from_file(contents: &str) -> Result<ApplicationConfig<f64>, String> {
    let ini = parse_config_file(contents.to_string())?;
    ApplicationConfig::from_ini(&ini, Ok(None))
}

const FULL: &str = "[bardcast]
log-level = debug
driver = pulse
threads = 4
[discord]
token = secret
server-id = 42
voice-channel = Music
metadata-channel = bot-spam
[pulse]
intercept-mode = Capture
stream-regex = ^mpv$
stream-properties = application.name,media.name,application.name
server = /run/pulse
sink-name = speakers
sink-index = 3
";

#[test]
fn options_are_loaded_from_a_file() {
    let config = from_file(FULL).unwrap();
    assert_eq!(config.log_level, Some(LevelFilter::Debug));
    assert_eq!(config.driver_name, Some("pulse".to_string()));
    assert_eq!(config.threads, Some(4));
    assert_eq!(config.output_file, None);
    assert_eq!(config.discord.token, Some("secret".to_string()));
    assert_eq!(config.discord.server_id, Some(42));
    assert_eq!(config.discord.voice_channel, Some("Music".to_string()));
    assert_eq!(config.discord.metadata_channel, Some("bot-spam".to_string()));
    assert_eq!(config.pulse.intercept_mode, Some(InterceptMode::Capture));
    assert_eq!(config.pulse.server, Some("/run/pulse".to_string()));
    assert_eq!(config.pulse.sink_name, Some("speakers".to_string()));
    assert_eq!(config.pulse.sink_index, Some(3));
    assert_eq!(config.pulse.volume, None);
    let properties = &config.pulse.stream_properties;
    assert_eq!(properties.len(), 2);
    assert!(contains_text(properties, "application.name"));
    assert!(contains_text(properties, "media.name"));
    let regex = config.pulse.stream_regex.unwrap();
    assert!(regex.is_match("mpv"));
    assert!(!regex.is_match("mpv2"));
}

#[test]
fn options_before_the_first_section_are_general() {
    let config = from_file("threads = 3\n[discord]\ntoken = t\n").unwrap();
    assert_eq!(config.threads, Some(3));
    assert_eq!(config.discord.token, Some("t".to_string()));
}

#[test]
fn an_empty_file_sets_nothing() {
    let config = from_file("").unwrap();
    assert_eq!(config.log_level, None);
    assert_eq!(config.discord.token, None);
    assert_eq!(config.pulse.intercept_mode, None);
    assert!(config.pulse.stream_regex.is_none());
    assert!(config.pulse.stream_properties.is_empty());
}

#[test]
fn malformed_files_are_rejected() {
    assert!(parse_config_file("[bardcast".to_string()).is_err());
    assert!(from_file("[bardcast]\nthreads = many\n").is_err());
    assert!(from_file("[discord]\nserver-id = -1\n").is_err());
    assert_eq!(from_file("[bardcast]\nlog-level = loud\n").unwrap_err(), "Unknown log level");
    assert_eq!(
        from_file("[pulse]\nintercept-mode = spy\n").unwrap_err(),
        "Unknown capture mode"
    );
    assert!(from_file("[pulse]\nstream-regex = (\n")
        .unwrap_err()
        .starts_with("regex syntax error: "));
}

#[test]
fn volume_errors_are_reported() {
    let ini = parse_config_file(String::new()).unwrap();
    let e = ApplicationConfig::<f64>::from_ini(&ini, Err("bad volume".to_string())).unwrap_err();
    assert_eq!(e, "bad volume");
    let e = ApplicationConfig::from_args(args(), Err("bad volume".to_string())).unwrap_err();
    assert_eq!(e, "bad volume");
}

#[test]
fn log_levels_are_parsed() {
    assert_eq!(level_filter_from_string("off"), Some(LevelFilter::Off));
    assert_eq!(level_filter_from_string("Error"), Some(LevelFilter::Error));
    assert_eq!(level_filter_from_string("WARN"), Some(LevelFilter::Warn));
    assert_eq!(level_filter_from_string("info"), Some(LevelFilter::Info));
    assert_eq!(level_filter_from_string("dEbUg"), Some(LevelFilter::Debug));
    assert_eq!(level_filter_from_string("trace"), Some(LevelFilter::Trace));
    assert_eq!(level_filter_from_string("warning"), None);
    assert_eq!(validate_log_level(&None), Ok(None));
    assert_eq!(validate_log_level(&Some("info".to_string())), Ok(Some(LevelFilter::Info)));
    assert_eq!(
        validate_log_level(&Some(String::new())),
        Err("Unknown log level".to_string())
    );
}

#[test]
fn intercept_modes_are_parsed() {
    assert_eq!(capture_mode_from_string("capture"), Some(InterceptMode::Capture));
    assert_eq!(capture_mode_from_string("Peek"), Some(InterceptMode::Peek));
    assert_eq!(capture_mode_from_string("MONITOR"), Some(InterceptMode::Monitor));
    assert_eq!(capture_mode_from_string("listen"), None);
    assert_eq!(validate_intercept_mode(&None), Ok(None));
    assert_eq!(
        validate_intercept_mode(&Some("peek".to_string())),
        Ok(Some(InterceptMode::Peek))
    );
    assert_eq!(
        validate_intercept_mode(&Some("listen".to_string())),
        Err("Unknown capture mode".to_string())
    );
}

#[test]
fn regular_expressions_are_compiled() {
    let regex = validate_regex(&Some("v[lm]c".to_string())).unwrap().unwrap();
    assert!(regex.is_match("a vmc b"));
    assert!(!regex.is_match("vnc"));
    assert!(validate_regex(&None).unwrap().is_none());
    let e = validate_regex(&Some("[".to_string())).unwrap_err();
    assert!(e.starts_with("regex syntax error: "));
    let e = validate_regex(&Some("\\w{5000}".to_string())).unwrap_err();
    assert_eq!(e, "compiled regex exceeded size limit of 10485760");
}

#[test]
fn regex_failures_are_explained() {
    assert_eq!(
        explain_regex_failure(RegexFailure::Syntax("oops".to_string())),
        "regex syntax error: oops"
    );
    assert_eq!(
        explain_regex_failure(RegexFailure::CompiledTooBig(12)),
        "compiled regex exceeded size limit of 12"
    );
    assert_eq!(explain_regex_failure(RegexFailure::Unknown), "unknown regex error");
}

#[test]
fn thread_counts_fit_the_platform() {
    assert_eq!(validate_thread_count(&None), Ok(None));
    assert_eq!(validate_thread_count(&Some(8)), Ok(Some(8)));
}

#[test]
fn property_lists_have_no_duplicates() {
    assert!(parse_raw_property_list(&None).is_empty());
    assert_eq!(parse_raw_property_list(&Some("a,b,a".to_string())), ["a", "b"]);
    assert_eq!(parse_raw_property_list(&Some(String::new())), [""]);
    let texts = vec!["x".to_string(), "x".to_string(), "y".to_string(), "x".to_string()];
    assert_eq!(deduplicate(texts), ["x", "y"]);
}

#[test]
fn set_values_override_unset_ones() {
    let mut into = Some(1);
    merge_opt(&mut into, None);
    assert_eq!(into, Some(1));
    merge_opt(&mut into, Some(2));
    assert_eq!(into, Some(2));
    let mut into: Option<i32> = None;
    merge_opt(&mut into, Some(3));
    assert_eq!(into, Some(3));
}

#[test]
fn arguments_override_the_file() {
    let mut config = from_file(FULL).unwrap();
    config.merge(from_args(Args {
        token: Some("other".to_string()),
        threads: Some(9),
        intercept_mode: Some(InterceptMode::Monitor),
        volume: Some(0.5),
        ..args()
    }));
    assert_eq!(config.discord.token, Some("other".to_string()));
    assert_eq!(config.discord.server_id, Some(42));
    assert_eq!(config.threads, Some(9));
    assert_eq!(config.pulse.intercept_mode, Some(InterceptMode::Monitor));
    assert_eq!(config.pulse.volume, Some(0.5));
    assert_eq!(config.log_level, Some(LevelFilter::Debug));
}

#[test]
fn sink_name_argument_overrides_sink_index_of_file() {
    let mut config = from_file(FULL).unwrap();
    config.merge(from_args(Args { sink: Some("headphones".to_string()), ..args() }));
    assert_eq!(config.pulse.sink_name, Some("headphones".to_string()));
    assert_eq!(config.pulse.sink_index, None);
}

#[test]
fn sink_index_argument_overrides_sink_index_of_file() {
    let mut config = from_file(FULL).unwrap();
    config.merge(from_args(Args { sink: Some("7".to_string()), ..args() }));
    assert_eq!(config.pulse.sink_index, Some(7));
}

#[test]
fn sink_argument_is_an_index_if_it_is_a_number() {
    let config = from_args(Args { sink: Some("12".to_string()), ..args() });
    assert_eq!(config.pulse.sink_index, Some(12));
    assert_eq!(config.pulse.sink_name, None);
    let config = from_args(Args { sink: Some("4294967296".to_string()), ..args() });
    assert_eq!(config.pulse.sink_index, None);
    assert_eq!(config.pulse.sink_name, Some("4294967296".to_string()));
}

#[test]
fn sink_indices_are_validated() {
    assert_eq!(validate_sink_index(Ok(None)), Ok(None));
    assert_eq!(validate_sink_index(Ok(Some(5))), Ok(Some(5)));
    assert!(validate_sink_index(Ok(Some(1 << 32))).is_err());
    assert_eq!(
        validate_sink_index(Err("e".to_string())),
        Err("Provided sink-index 'e' is not valid".to_string())
    );
}

#[test]
fn intercept_limits_are_processed() {
    assert_eq!(process_intercept_limit(None), None);
    assert_eq!(process_intercept_limit(Some(2)), Some(2));
}

#[test]
fn actions_follow_from_arguments() {
    assert_eq!(Action::from_args(&args()), DISCORD);
    let wav = Args { consumer: SelectedConsumer::Wav, ..args() };
    assert_eq!(Action::from_args(&wav), WAV);
    assert_eq!(Action::from_args(&Args { list_servers: true, ..args() }), Action::ListServers);
    let both = Args { list_servers: true, list_drivers: true, ..args() };
    assert_eq!(Action::from_args(&both), Action::ListDrivers);
    let all = Args { list_servers: true, list_drivers: true, version: true, ..args() };
    assert_eq!(Action::from_args(&all), Action::PrintVersion);
}

#[test]
fn discord_needs_token_server_and_channel() {
    assert!(build_config(None, from_args(discord_args()), DISCORD).is_ok());
    let missing_token = Args { token: None, ..discord_args() };
    assert!(build_config(None, from_args(missing_token), DISCORD).is_err());
    let missing_server = Args { server_id: None, ..discord_args() };
    assert!(build_config(None, from_args(missing_server), DISCORD).is_err());
    let missing_channel = Args { voice_channel: None, ..discord_args() };
    assert!(build_config(None, from_args(missing_channel), DISCORD).is_err());
    let token_only = Args { token: Some("t".to_string()), ..args() };
    assert!(build_config(None, from_args(token_only), Action::ListServers).is_ok());
    assert!(build_config(None, from_args(args()), Action::ListServers).is_err());
}

#[test]
fn wav_needs_an_output_file() {
    assert!(SelectedConsumer::Wav.needs_output_file());
    assert!(!SelectedConsumer::Discord.needs_output_file());
    let with_file = Args {
        output_file: Some("a.wav".to_string()),
        stream_regex: Some("vlc".to_string()),
        ..args()
    };
    let config = build_config(None, from_args(with_file), WAV).unwrap();
    assert!(!config.output_file_ignored(WAV));
    assert!(config.output_file_ignored(DISCORD));
    let without_file = Args { stream_regex: Some("vlc".to_string()), ..args() };
    assert!(build_config(None, from_args(without_file), WAV).is_err());
}

#[test]
fn file_and_arguments_are_validated_together() {
    let file = from_file("[discord]\ntoken = t\nserver-id = 1\n").unwrap();
    let extra = Args {
        voice_channel: Some("c".to_string()),
        intercept_mode: Some(InterceptMode::Capture),
        ..args()
    };
    assert_eq!(
        build_config(Some(file), from_args(extra), DISCORD).unwrap_err(),
        "The selected intercept mode requires -E/--stream-regex"
    );
    let file = from_file("[discord]\ntoken = t\nserver-id = 1\n").unwrap();
    let extra = Args {
        voice_channel: Some("c".to_string()),
        intercept_mode: Some(InterceptMode::Monitor),
        ..args()
    };
    let config = build_config(Some(file), from_args(extra), DISCORD).unwrap();
    assert_eq!(config.discord.server_id, Some(1));
    assert_eq!(config.discord.voice_channel, Some("c".to_string()));
}

#[test]
fn log_level_defaults_to_the_given_one() {
    let config = from_args(args());
    assert_eq!(config.effective_log_level(LevelFilter::Info), LevelFilter::Info);
    let config = from_args(Args { log_level: Some(LevelFilter::Trace), ..args() });
    assert_eq!(config.effective_log_level(LevelFilter::Info), LevelFilter::Trace);
    assert_eq!(LevelFilter::Info.dependency_level(), LevelFilter::Warn);
    for level in [
        LevelFilter::Off,
        LevelFilter::Error,
        LevelFilter::Warn,
        LevelFilter::Debug,
        LevelFilter::Trace,
    ] {
        assert_eq!(level.dependency_level(), level);
    }
}

#[test]
fn parts_of_the_configuration_can_be_loaded_alone() {
    let ini = parse_config_file(FULL.to_string()).unwrap();
    let discord = DiscordConfig::from_ini(&ini, ()).unwrap();
    assert_eq!(discord.token, Some("secret".to_string()));
    let pulse = <PulseDriverConfig<f64> as Config>::from_ini(&ini, Ok(Some(0.25))).unwrap();
    assert_eq!(pulse.volume, Some(0.25));
    assert_eq!(pulse.sink_index, Some(3));
}
