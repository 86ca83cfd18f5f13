//! Configuration for the PulseAudio sound driver.

use configparser::ini::Ini;
use regex::Regex;
use vstd::prelude::*;

use crate::cfg;
use crate::cfg::{Action, Args, Config, InterceptMode};
use crate::util::text;

verus! {

/// The name of the driver, and of the section of the configuration file that
/// holds its options.
pub const DRIVER_NAME: &'static str = "pulse";

// TYPE DEFINITIONS ************************************************************

/// Main configuration type for the PulseAudio sound driver.
#[derive(Debug)]
pub struct PulseDriverConfig<V> {
    /// A regular expression to match against applications to intercept.
    pub stream_regex: Option<Regex>,

    /// The properties to match [`Self::stream_regex`] against, without
    /// duplicates. If none are present, `application.name` and
    /// `application.process.binary` are used.
    pub stream_properties: Vec<String>,

    /// The path to the PulseAudio server socket. If not set, the application
    /// will determine the PulseAudio server to connect to automatically.
    pub server: Option<String>,

    /// The name of the existing sink that should be interacted with, according
    /// to the [`Self::intercept_mode`].  For `Monitor` mode, this is the sink
    /// that is monitored.
    ///
    /// This is ignored if [`Self::sink_index`] is set.
    pub sink_name: Option<String>,

    /// The maximum duration between mainloop iterations.
    pub max_mainloop_interval_usec: Option<u64>,

    /// The initial volume for the recording stream. The system audio mixer can
    /// be used to adjust audio levels after application startup.
    pub volume: Option<V>,

    /// The number of applications that can be captured concurrently.
    ///
    /// This is ignored if [`Self::stream_regex`] is not set.
    pub intercept_limit: Option<usize>,

    /// The index of the existing sink that should be interacted with, according
    /// to the [`Self::intercept_mode`]. For `Monitor` mode, this is the sink
    /// that is monitored.
    ///
    /// This option takes precedence over [`Self::sink_name`] if both are set.
    pub sink_index: Option<u32>,

    /// The approach the driver should use to intercept individual application
    /// audio.
    pub intercept_mode: Option<InterceptMode>,
}

// MODELS **********************************************************************

/// The value of the given option of the driver, if it is present.
pub open spec fn driver_option(
    options: Map<(Seq<char>, Seq<char>), Seq<char>>,
    key: Seq<char>,
) -> Option<Seq<char>> {
    cfg::option_value(options, DRIVER_NAME@, key)
}

/// Whether `r` is the value of the given option of the driver as a number.
pub open spec fn is_driver_uint(
    options: Map<(Seq<char>, Seq<char>), Seq<char>>,
    key: Seq<char>,
    r: Result<Option<u64>, String>,
) -> bool {
    cfg::is_uint_option(options, DRIVER_NAME@, key, r)
}

/// The given limit, if it is possible to have that many applications.
pub open spec fn possible_limit(raw: Option<u64>) -> Option<usize> {
    match raw {
        Some(n) => if n <= usize::MAX {
            Some(n as usize)
        } else {
            None
        },
        None => None,
    }
}

/// Whether `r` is the sink index represented by the given number, if any.
pub open spec fn is_sink_index(
    raw: Result<Option<u64>, String>,
    r: Result<Option<u32>, String>,
) -> bool {
    match raw {
        Ok(Some(n)) => if n <= u32::MAX {
            r matches Ok(Some(index)) && index == n
        } else {
            r matches Err(e) && e@ == "Provided sink-index '"@ + text::decimal(n as nat)
                + "' is too large"@
        },
        Ok(None) => r == Ok::<Option<u32>, String>(None),
        Err(raw) => r matches Err(e) && e@ == "Provided sink-index '"@ + raw@ + "' is not valid"@,
    }
}

/// Whether `r` is the result of loading the configuration from a file with the
/// given options, where the regular expression and the volume have been decoded
/// already. Of several invalid options, the first one is reported.
pub open spec fn loaded_with<V>(
    options: Map<(Seq<char>, Seq<char>), Seq<char>>,
    regex: Result<Option<Regex>, String>,
    volume: Result<Option<V>, String>,
    r: Result<PulseDriverConfig<V>, String>,
) -> bool {
    exists|
        interval: Result<Option<u64>, String>,
        limit: Result<Option<u64>, String>,
        raw_index: Result<Option<u64>, String>,
        index: Result<Option<u32>, String>,
        mode: Result<Option<InterceptMode>, String>,
    |
        {
            &&& #[trigger] is_driver_uint(options, "max-mainloop-interval-usec"@, interval)
            &&& #[trigger] is_driver_uint(options, "intercept-limit"@, limit)
            &&& #[trigger] is_driver_uint(options, "sink-index"@, raw_index)
            &&& #[trigger] is_sink_index(raw_index, index)
            &&& #[trigger] cfg::is_intercept_mode(driver_option(options, "intercept-mode"@), mode)
            &&& match (regex, interval, volume, limit, index, mode) {
                (Err(e), _, _, _, _, _) => r matches Err(e2) && e2@ == e@,
                (Ok(_), Err(e), _, _, _, _) => r matches Err(e2) && e2@ == e@,
                (Ok(_), Ok(_), Err(e), _, _, _) => r matches Err(e2) && e2@ == e@,
                (Ok(_), Ok(_), Ok(_), Err(e), _, _) => r matches Err(e2) && e2@ == e@,
                (Ok(_), Ok(_), Ok(_), Ok(_), Err(e), _) => r matches Err(e2) && e2@ == e@,
                (Ok(_), Ok(_), Ok(_), Ok(_), Ok(_), Err(e)) => r matches Err(e2) && e2@ == e@,
                (Ok(regex), Ok(interval), Ok(volume), Ok(limit), Ok(index), Ok(mode)) => {
                    &&& r matches Ok(config)
                    &&& config.stream_regex == regex
                    &&& text::views(config.stream_properties@) == (match driver_option(
                        options,
                        "stream-properties"@,
                    ) {
                        Some(raw) => cfg::deduplicated(text::split_on(raw, ',')),
                        None => Seq::empty(),
                    })
                    &&& text::opt_view(config.server) == driver_option(options, "server"@)
                    &&& text::opt_view(config.sink_name) == driver_option(options, "sink-name"@)
                    &&& config.max_mainloop_interval_usec == interval
                    &&& config.volume == volume
                    &&& config.intercept_limit == possible_limit(limit)
                    &&& config.sink_index == index
                    &&& config.intercept_mode == mode
                },
            }
        }
}

/// Whether `r` is the configuration specified by the given commandline
/// arguments, where the regular expression and the volume have been decoded
/// already.
///
/// The sink is specified by its index if that is what it looks like, and by its
/// name otherwise.
pub open spec fn specified_with<V>(
    args: Args<V>,
    regex: Result<Option<Regex>, String>,
    volume: Result<Option<V>, String>,
    r: Result<PulseDriverConfig<V>, String>,
) -> bool {
    match (regex, volume) {
        (Err(e), _) => r matches Err(e2) && e2@ == e@,
        (Ok(_), Err(e)) => r matches Err(e2) && e2@ == e@,
        (Ok(regex), Ok(volume)) => {
            &&& r matches Ok(config)
            &&& config.stream_regex == regex
            &&& text::views(config.stream_properties@) == cfg::deduplicated(
                text::views(args.stream_property@),
            )
            &&& config.server == args.snd_backend
            &&& config.max_mainloop_interval_usec is None
            &&& config.volume == volume
            &&& config.intercept_limit == args.intercept_limit
            &&& config.intercept_mode == args.intercept_mode
            &&& match args.sink {
                Some(sink) => match text::parsed_unsigned(sink@, u32::MAX as nat) {
                    Some(n) => config.sink_name is None && config.sink_index == Some(n as u32),
                    None => config.sink_name == Some(sink) && config.sink_index is None,
                },
                None => config.sink_name is None && config.sink_index is None,
            }
        },
    }
}

// TYPE IMPLS ******************************************************************

impl<V> PulseDriverConfig<V> {
    /// Constructs a configuration instance from the given configuration file,
    /// the regular expression specified there, and the decoded volume.
    pub fn from_ini_parts(
        ini: &Ini,
        regex: Result<Option<Regex>, String>,
        volume: Result<Option<V>, String>,
    ) -> (r: Result<PulseDriverConfig<V>, String>)
        requires
            cfg::is_folded(cfg::ini_default_section(*ini)),
        ensures
            loaded_with(cfg::ini_options(*ini), regex, volume, r),
    {
        proof {
            reveal_strlit("pulse");
            reveal_strlit("stream-properties");
            reveal_strlit("server");
            reveal_strlit("sink-name");
            reveal_strlit("max-mainloop-interval-usec");
            reveal_strlit("intercept-limit");
            reveal_strlit("sink-index");
            reveal_strlit("intercept-mode");
        }
        let raw_properties = cfg::ini_get(ini, DRIVER_NAME, "stream-properties");
        let server = cfg::ini_get(ini, DRIVER_NAME, "server");
        let sink_name = cfg::ini_get(ini, DRIVER_NAME, "sink-name");
        let interval = cfg::ini_getuint(ini, DRIVER_NAME, "max-mainloop-interval-usec");
        let limit = cfg::ini_getuint(ini, DRIVER_NAME, "intercept-limit");
        let raw_index = cfg::ini_getuint(ini, DRIVER_NAME, "sink-index");
        let raw_mode = cfg::ini_get(ini, DRIVER_NAME, "intercept-mode");
        let ghost options = cfg::ini_options(*ini);
        assert(is_driver_uint(options, "max-mainloop-interval-usec"@, interval));
        assert(is_driver_uint(options, "intercept-limit"@, limit));
        assert(is_driver_uint(options, "sink-index"@, raw_index));
        let ghost raw = raw_index;
        let index = validate_sink_index(raw_index);
        assert(is_sink_index(raw, index));
        let mode = cfg::validate_intercept_mode(&raw_mode);
        assert(cfg::is_intercept_mode(driver_option(options, "intercept-mode"@), mode));

        let stream_regex = match regex {
            Ok(regex) => regex,
            Err(e) => {
                return Err(e);
            },
        };
        let max_mainloop_interval_usec = match interval {
            Ok(interval) => interval,
            Err(e) => {
                return Err(e);
            },
        };
        let volume = match volume {
            Ok(volume) => volume,
            Err(e) => {
                return Err(e);
            },
        };
        let intercept_limit = match limit {
            Ok(limit) => process_intercept_limit(limit),
            Err(e) => {
                return Err(e);
            },
        };
        let sink_index = match index {
            Ok(index) => index,
            Err(e) => {
                return Err(e);
            },
        };
        let intercept_mode = match mode {
            Ok(mode) => mode,
            Err(e) => {
                return Err(e);
            },
        };

        Ok(
            PulseDriverConfig {
                stream_regex,
                stream_properties: cfg::parse_raw_property_list(&raw_properties),
                server,
                sink_name,
                max_mainloop_interval_usec,
                volume,
                intercept_limit,
                sink_index,
                intercept_mode,
            },
        )
    }

    /// Constructs a configuration instance from the given commandline arguments,
    /// the regular expression specified there, and the validated volume.
    pub fn from_args_parts(
        args: &Args<V>,
        regex: Result<Option<Regex>, String>,
        volume: Result<Option<V>, String>,
    ) -> (r: Result<PulseDriverConfig<V>, String>)
        ensures
            specified_with(*args, regex, volume, r),
    {
        let (sink_name, sink_index) = match &args.sink {
            Some(sink) => match text::parse_unsigned(sink.as_str(), u32::MAX as u64) {
                Some(index) => (None, Some(index as u32)),
                None => (Some(sink.clone()), None),
            },
            None => (None, None),
        };
        let stream_regex = match regex {
            Ok(regex) => regex,
            Err(e) => {
                return Err(e);
            },
        };
        let volume = match volume {
            Ok(volume) => volume,
            Err(e) => {
                return Err(e);
            },
        };

        Ok(
            PulseDriverConfig {
                stream_regex,
                stream_properties: cfg::deduplicate(text::clone_all(&args.stream_property)),
                server: text::clone_opt(&args.snd_backend),
                sink_name,
                max_mainloop_interval_usec: None,
                volume,
                intercept_limit: args.intercept_limit,
                sink_index,
                intercept_mode: args.intercept_mode,
            },
        )
    }

    /// Constructs a configuration instance from the given commandline arguments
    /// and the validated volume.
    pub fn from_args(args: &Args<V>, volume: Result<Option<V>, String>) -> (r: Result<
        PulseDriverConfig<V>,
        String,
    >)
        ensures
            exists|regex: Result<Option<Regex>, String>| #[trigger]
                cfg::is_regex(text::opt_view(args.stream_regex), regex) && specified_with(
                    *args,
                    regex,
                    volume,
                    r,
                ),
    {
        let regex = cfg::validate_regex(&args.stream_regex);
        Self::from_args_parts(args, regex, volume)
    }

    /// Determines whether an intercept limit was specified that has no effect.
    pub fn limit_has_no_effect(&self) -> (r: bool)
        ensures
            r == (self.intercept_limit is Some && self.stream_regex is None),
    {
        self.intercept_limit.is_some() && self.stream_regex.is_none()
    }
}

// TRAIT IMPLS *****************************************************************

impl<V> Config for PulseDriverConfig<V> {
    type Decoded = Result<Option<V>, String>;

    open spec fn loaded(
        options: Map<(Seq<char>, Seq<char>), Seq<char>>,
        volume: Result<Option<V>, String>,
        r: Result<PulseDriverConfig<V>, String>,
    ) -> bool {
        exists|regex: Result<Option<Regex>, String>| #[trigger]
            cfg::is_regex(driver_option(options, "stream-regex"@), regex) && loaded_with(
                options,
                regex,
                volume,
                r,
            )
    }

    open spec fn merged(self, other: PulseDriverConfig<V>) -> PulseDriverConfig<V> {
        PulseDriverConfig {
            stream_regex: cfg::overridden(self.stream_regex, other.stream_regex),
            stream_properties: if other.stream_properties@.len() > 0 {
                other.stream_properties
            } else {
                self.stream_properties
            },
            server: cfg::overridden(self.server, other.server),
            sink_name: cfg::overridden(self.sink_name, other.sink_name),
            max_mainloop_interval_usec: cfg::overridden(
                self.max_mainloop_interval_usec,
                other.max_mainloop_interval_usec,
            ),
            volume: cfg::overridden(self.volume, other.volume),
            intercept_limit: cfg::overridden(self.intercept_limit, other.intercept_limit),
            // The sink index takes precedence over the sink name if present, but
            // if the override specifies any sink settings we want that to take
            // precedence.
            sink_index: if other.sink_name is Some {
                other.sink_index
            } else {
                cfg::overridden(self.sink_index, other.sink_index)
            },
            intercept_mode: cfg::overridden(self.intercept_mode, other.intercept_mode),
        }
    }

    open spec fn semantic_error(self, action: Action) -> Option<Seq<char>> {
        if self.stream_regex is None && (self.intercept_mode matches Some(mode)
            && mode !is Monitor) {
            Some("The selected intercept mode requires -E/--stream-regex"@)
        } else {
            None
        }
    }

    fn from_ini(ini: &Ini, volume: Result<Option<V>, String>) -> (r: Result<
        PulseDriverConfig<V>,
        String,
    >) {
        proof {
            reveal_strlit("pulse");
            reveal_strlit("stream-regex");
        }
        let raw_regex = cfg::ini_get(ini, DRIVER_NAME, "stream-regex");
        let regex = cfg::validate_regex(&raw_regex);
        Self::from_ini_parts(ini, regex, volume)
    }

    fn merge(&mut self, other: PulseDriverConfig<V>) {
        cfg::merge_opt(&mut self.intercept_mode, other.intercept_mode);
        cfg::merge_opt(&mut self.stream_regex, other.stream_regex);
        cfg::merge_opt(&mut self.server, other.server);
        cfg::merge_opt(&mut self.volume, other.volume);
        cfg::merge_opt(&mut self.intercept_limit, other.intercept_limit);
        cfg::merge_opt(&mut self.max_mainloop_interval_usec, other.max_mainloop_interval_usec);

        // Reset the fallback sink index if the override specifies a sink name.
        if other.sink_name.is_some() && self.sink_index.is_some() {
            self.sink_index = None;
        }

        cfg::merge_opt(&mut self.sink_name, other.sink_name);
        cfg::merge_opt(&mut self.sink_index, other.sink_index);

        if other.stream_properties.len() > 0 {
            self.stream_properties = other.stream_properties;
        }
    }

    fn validate_semantics(&self, action: Action) -> (r: Result<(), String>) {
        if let Some(intercept_mode) = self.intercept_mode {
            if intercept_mode != InterceptMode::Monitor && self.stream_regex.is_none() {
                return Err("The selected intercept mode requires -E/--stream-regex".to_owned());
            }
        }

        Ok(())
    }
}

// HELPER FUNCTIONS ************************************************************

/// Narrows the byte width of the value containing an intercept limit. A limit
/// that exceeds the maximum number of applications is removed.
pub fn process_intercept_limit(intercept_limit_u64: Option<u64>) -> (r: Option<usize>)
    ensures
        r == possible_limit(intercept_limit_u64),
{
    match intercept_limit_u64 {
        Some(n) => if n <= usize::MAX as u64 {
            Some(n as usize)
        } else {
            None
        },
        None => None,
    }
}

/// Narrows the byte width of the value containing a sink index, and returns the
/// result.
pub fn validate_sink_index(raw_index: Result<Option<u64>, String>) -> (r: Result<
    Option<u32>,
    String,
>)
    ensures
        is_sink_index(raw_index, r),
{
    match raw_index {
        Ok(Some(n)) => if n <= u32::MAX as u64 {
            Ok(Some(n as u32))
        } else {
            let mut e = "Provided sink-index '".to_owned();
            e.append(text::decimal_string(n).as_str());
            e.append("' is too large");
            Err(e)
        },
        Ok(None) => Ok(None),
        Err(raw) => {
            let mut e = "Provided sink-index '".to_owned();
            e.append(raw.as_str());
            e.append("' is not valid");
            Err(e)
        },
    }
}

} // verus!
