//! Common application configuration types, and helper functions for parsing
//! configuration options from strings and configuration files.
//!
//! The volume of the record stream is a fraction, which plays no role in any
//! decision made here. Types that carry it are generic over its representation
//! `V`.

use configparser::ini::Ini;
use regex::Regex;
use vstd::prelude::*;

use crate::consumer::discord::cfg::DiscordConfig;
use crate::snd::pulse::cfg::PulseDriverConfig;
use crate::snd::pulse::cfg as pulse_cfg;
use crate::snd::pulse::context::stream;
use crate::util::text;

verus! {

/// The name of the application, and of the general section of its configuration
/// file.
pub const APPLICATION_NAME: &'static str = "bardcast";

// OUTSIDE TYPES ***************************************************************

/// Contents of a configuration file.
#[verifier::external_type_specification]
#[verifier::external_body]
pub struct ExIni(Ini);

/// A compiled regular expression.
#[verifier::external_type_specification]
#[verifier::external_body]
pub struct ExRegex(Regex);

/// The options that lookups in a configuration file find: their values by
/// section and key.
pub uninterp spec fn ini_options(ini: Ini) -> Map<(Seq<char>, Seq<char>), Seq<char>>;

/// The name of the section to which options that precede the first section of a
/// configuration file belong.
pub uninterp spec fn ini_default_section(ini: Ini) -> Seq<char>;

/// What `configparser::ini::Ini::read` makes of the given text if options that
/// precede the first section belong to the section with the given name: the
/// options by section and key, or why the text is malformed.
pub uninterp spec fn ini_parsed(default_section: Seq<char>, contents: Seq<char>) -> Result<
    Map<(Seq<char>, Seq<char>), Seq<char>>,
    Seq<char>,
>;

/// How `configparser::ini::Ini::getuint` words that the given value is not an
/// unsigned number.
pub uninterp spec fn uint_error(value: Seq<char>) -> Seq<char>;

/// The texts in which the given compiled regular expression finds a match.
pub uninterp spec fn regex_texts(regex: Regex) -> Set<Seq<char>>;

/// What `regex::Regex::new` makes of the regular expression with the given
/// source: the texts in which there is a match, or why the source is malformed.
pub uninterp spec fn pattern_parsed(pattern: Seq<char>) -> Result<Set<Seq<char>>, Seq<char>>;

/// Whether case folding as done by `configparser` leaves the given name as it
/// is.
pub open spec fn is_folded(name: Seq<char>) -> bool {
    forall|i: int| 0 <= i < name.len() ==> is_folded_char(#[trigger] name[i])
}

/// Whether the given character is ASCII and not an upper case letter.
pub open spec fn is_folded_char(c: char) -> bool {
    c as u32 <= 127 && !('A' <= c <= 'Z')
}

/// Parses the contents of a configuration file.
///
/// Calls `configparser::ini::Ini::read` on a parser as it is created by
/// `Ini::new`, for which the given default section has been set. The result is
/// trusted to depend on the given texts only.
#[verifier::external_body]
fn read_ini(default_section: &str, contents: String) -> (r: Result<Ini, String>)
    ensures
        r matches Ok(ini) ==> ini_default_section(ini) == default_section@,
        match r {
            Ok(ini) => ini_parsed(default_section@, contents@) == Ok::<
                Map<(Seq<char>, Seq<char>), Seq<char>>,
                Seq<char>,
            >(ini_options(ini)),
            Err(e) => ini_parsed(default_section@, contents@) == Err::<
                Map<(Seq<char>, Seq<char>), Seq<char>>,
                Seq<char>,
            >(e@),
        },
{
    let mut ini = Ini::new();
    ini.set_default_section(default_section);
    match ini.read(contents) {
        Ok(_) => Ok(ini),
        Err(e) => Err(e),
    }
}

/// Looks up an option in a configuration file.
///
/// `configparser::ini::Ini::get` is trusted to return the value of the option
/// with the given key in the given section, if there is one. It folds the case
/// of both names, so they are required to be folded already.
#[verifier::external_body]
pub(crate) fn ini_get(ini: &Ini, section: &str, key: &str) -> (r: Option<String>)
    requires
        is_folded(section@),
        is_folded(key@),
    ensures
        text::opt_view(r) == option_value(ini_options(*ini), section@, key@),
{
    ini.get(section, key)
}

/// Looks up a numeric option in a configuration file.
///
/// `configparser::ini::Ini::getuint` is trusted to parse the value that `get`
/// returns for the same names in the way of `u64::from_str`, which accepts an
/// optional plus sign followed by digits. It additionally folds the case of the
/// name of the default section, so that is required to be folded as well.
#[verifier::external_body]
pub(crate) fn ini_getuint(ini: &Ini, section: &str, key: &str) -> (r: Result<Option<u64>, String>)
    requires
        is_folded(section@),
        is_folded(key@),
        is_folded(ini_default_section(*ini)),
    ensures
        match option_value(ini_options(*ini), section@, key@) {
            Some(value) => match text::parsed_unsigned(value, u64::MAX as nat) {
                Some(n) => r matches Ok(Some(v)) && v == n,
                None => r matches Err(e) && e@ == uint_error(value),
            },
            None => r matches Ok(None),
        },
{
    ini.getuint(section, key)
}

/// Why a regular expression could not be compiled.
#[derive(Debug)]
pub enum RegexFailure {
    /// The expression is malformed, with an explanation.
    Syntax(String),

    /// The compiled expression would exceed the given size limit.
    CompiledTooBig(usize),

    /// The expression could not be compiled for another reason.
    Unknown,
}

/// Compiles a regular expression.
///
/// Calls `regex::Regex::new`, which parses the whole source before it compiles
/// anything. It is trusted to reject a malformed source with a message that
/// depends on the source only. An expression that was compiled is trusted to find
/// matches in those texts that its source determines. Which well-formed
/// expressions can be compiled is left open, since that depends on the size of
/// the compiled expression in memory.
#[verifier::external_body]
fn compile_regex(pattern: &str) -> (r: Result<Regex, RegexFailure>)
    ensures
        match pattern_parsed(pattern@) {
            Ok(texts) => r matches Ok(regex) ==> regex_texts(regex) == texts,
            Err(message) => r matches Err(RegexFailure::Syntax(m)) && m@ == message,
        },
{
    match Regex::new(pattern) {
        Ok(regex) => Ok(regex),
        Err(regex::Error::Syntax(message)) => Err(RegexFailure::Syntax(message)),
        Err(regex::Error::CompiledTooBig(limit)) => Err(RegexFailure::CompiledTooBig(limit)),
        Err(_) => Err(RegexFailure::Unknown),
    }
}

/// Tests whether there is a match of the given regular expression anywhere in
/// the given text.
///
/// `regex::Regex::is_match` is trusted to depend on the regular expression and
/// the text only.
pub assume_specification[ Regex::is_match ](regex: &Regex, haystack: &str) -> (r: bool)
    ensures
        r == regex_texts(*regex).contains(haystack@),
;

// OPTIONS IN CONFIGURATION FILES **********************************************

/// The value of the given option, if it is present.
pub open spec fn option_value(
    options: Map<(Seq<char>, Seq<char>), Seq<char>>,
    section: Seq<char>,
    key: Seq<char>,
) -> Option<Seq<char>> {
    if options.contains_key((section, key)) {
        Some(options[(section, key)])
    } else {
        None
    }
}

/// Whether `r` is the value of the given option as a number.
pub open spec fn is_uint_option(
    options: Map<(Seq<char>, Seq<char>), Seq<char>>,
    section: Seq<char>,
    key: Seq<char>,
    r: Result<Option<u64>, String>,
) -> bool {
    match option_value(options, section, key) {
        Some(value) => match text::parsed_unsigned(value, u64::MAX as nat) {
            Some(n) => r matches Ok(Some(v)) && v == n,
            None => r matches Err(e) && e@ == uint_error(value),
        },
        None => r matches Ok(None),
    }
}

/// Parses the contents of a configuration file. Options that precede the first
/// section belong to the general section of the application.
pub fn parse_config_file(contents: String) -> (r: Result<Ini, String>)
    ensures
        r matches Ok(ini) ==> is_folded(ini_default_section(ini)),
        match r {
            Ok(ini) => ini_parsed(APPLICATION_NAME@, contents@) == Ok::<
                Map<(Seq<char>, Seq<char>), Seq<char>>,
                Seq<char>,
            >(ini_options(ini)),
            Err(e) => ini_parsed(APPLICATION_NAME@, contents@) == Err::<
                Map<(Seq<char>, Seq<char>), Seq<char>>,
                Seq<char>,
            >(e@),
        },
{
    proof {
        reveal_strlit("bardcast");
    }
    read_ini(APPLICATION_NAME, contents)
}

// TYPE DEFINITIONS ************************************************************

/// Verbosity levels of the application.
#[derive(Clone, Copy, Debug, PartialEq, Eq, Structural)]
pub enum LevelFilter {
    Off,
    Error,
    Warn,
    Info,
    Debug,
    Trace,
}

/// Represents the audio consumer to be used for a run of the application.
#[derive(Clone, Copy, Debug, PartialEq, Eq, Structural)]
pub enum SelectedConsumer {
    Discord,
    Wav,
}

/// Represents the high-level action that the user has requested. Most of these
/// options correspond to commandline options, except Run(Discord) is assumed
/// if no overriding option is otherwise passed.
#[derive(Clone, Copy, Debug, PartialEq, Eq, Structural)]
pub enum Action {
    Run(SelectedConsumer),
    ListServers,
    ListDrivers,
    PrintVersion,
}

/// Represents the approach the application uses to intercept system audio.
#[derive(Clone, Copy, Debug, PartialEq, Eq, Structural)]
pub enum InterceptMode {
    /// Capture system audio, preventing it from reaching a hardware audio
    /// output.
    Capture,

    /// Capture system audio without preventing it from reaching a hardware
    /// audio output.
    Peek,

    /// Rather than capture individual application audio streams, simply monitor
    /// all sound played via a specific audio output. WARNING: When using this
    /// mode, be sure the Discord voice chat is not also sending audio to the
    /// same output, or you will get feedback.
    ///
    /// If applications are selected by a regular expression, then only those are
    /// recorded in this mode too, without preventing their audio from reaching a
    /// hardware audio output.
    Monitor,
}

/// Commandline arguments.
#[derive(Debug)]
pub struct Args<V> {
    /// Identifiers for application stream properties that should be matched
    /// against when determining which streams to capture.
    pub stream_property: Vec<String>,

    /// Configuration file from which to load application configuration.
    /// Commandline arguments will take precedence over configuration.
    pub configfile: Option<String>,

    /// Name of the sound driver to use.
    pub driver_name: Option<String>,

    /// Match application streams using the given regex.
    pub stream_regex: Option<String>,

    /// An identifier for the audio output that should be interacted with. This
    /// is either the audio output's system index or name. If not specified, the
    /// system's default audio output will be used.
    pub sink: Option<String>,

    /// Identifier for a sound backend that is compatible with the selected
    /// driver.
    pub snd_backend: Option<String>,

    /// The Discord API token to use to authenticate with Discord.
    pub token: Option<String>,

    /// The name of the Discord voice channel to connect to.
    pub voice_channel: Option<String>,

    /// The name of the Discord text channel to use for notifications.
    pub metadata_channel: Option<String>,

    /// Path to a file to which to write recorded audio.
    pub output_file: Option<String>,

    /// The unique ID of the Discord server to connect to.
    pub server_id: Option<u64>,

    /// Volume of the recorded audio.
    pub volume: Option<V>,

    /// Maximum number of applications to intercept concurrently.
    pub intercept_limit: Option<usize>,

    /// Number of worker threads to spawn, not including the main thread.
    pub threads: Option<usize>,

    /// Application verbosity level.
    pub log_level: Option<LevelFilter>,

    /// Audio intercept mode, controlling where audio that is read is sent.
    pub intercept_mode: Option<InterceptMode>,

    /// The audio consumer to use when running the application.
    pub consumer: SelectedConsumer,

    /// Print the supported sound drivers and exit.
    pub list_drivers: bool,

    /// Print a list of Discord servers to which the configured token has access
    /// and exit.
    pub list_servers: bool,

    /// Print application version information and exit.
    pub version: bool,
}

/// Common trait shared by config structures that can be loaded from a
/// configuration file.
pub trait Config: Sized {
    /// Values that are decoded from the configuration file separately.
    type Decoded;

    /// Whether `r` is the result of loading the configuration from a file with
    /// the given options.
    spec fn loaded(
        options: Map<(Seq<char>, Seq<char>), Seq<char>>,
        decoded: Self::Decoded,
        r: Result<Self, String>,
    ) -> bool;

    /// This configuration, with values overwritten by those set in another one.
    spec fn merged(self, other: Self) -> Self;

    /// What is semantically wrong with this configuration when running the given
    /// action, if anything.
    spec fn semantic_error(self, action: Action) -> Option<Seq<char>>;

    /// Constructs a configuration instance from the given configuration file.
    fn from_ini(ini: &Ini, decoded: Self::Decoded) -> (r: Result<Self, String>)
        requires
            is_folded(ini_default_section(*ini)),
        ensures
            Self::loaded(ini_options(*ini), decoded, r),
    ;

    /// Merges a separate instance of this configuration type into this
    /// instance, overwriting current values in `self` if corresponding values
    /// are found to be set in `other`.
    fn merge(&mut self, other: Self)
        ensures
            *final(self) == old(self).merged(other),
    ;

    /// Performs semantic validation of the configuration, i.e.
    /// misconfigurations that are necessarily correct according to the nature
    /// of the data structure but are semantically incorrect according to the
    /// nature of the underlying code. Typically, such configurations arise from
    /// a combination of configuration parameters, rather than just one.
    ///
    /// The action that the application is to run is provided as an argument, as
    /// that may alter the semantics.
    ///
    /// This will only be called after all config merges are complete.
    fn validate_semantics(&self, action: Action) -> (r: Result<(), String>)
        ensures
            match r {
                Ok(()) => self.semantic_error(action) is None,
                Err(e) => self.semantic_error(action) == Some(e@),
            },
    ;
}

/// Top-level application configuration structure.
#[derive(Debug)]
pub struct ApplicationConfig<V> {
    /// The configuration for the PulseAudio sound driver.
    pub pulse: PulseDriverConfig<V>,

    /// The configuration for the Discord client.
    pub discord: DiscordConfig,

    /// The maximum log level to log at.
    pub log_level: Option<LevelFilter>,

    /// The name of the sound driver to use.
    pub driver_name: Option<String>,

    /// A path to the output file to which to write, if using a consumer that
    /// writes to file.
    pub output_file: Option<String>,

    /// The number of threads to use in the application runtime.
    pub threads: Option<usize>,
}

// MODELS **********************************************************************

/// The given fallback, unless it is overridden.
pub open spec fn overridden<T>(fallback: Option<T>, by: Option<T>) -> Option<T> {
    if by is Some {
        by
    } else {
        fallback
    }
}

/// The verbosity level with the given name in upper case.
pub open spec fn level_named(name: Seq<char>) -> Option<LevelFilter> {
    if name == "OFF"@ {
        Some(LevelFilter::Off)
    } else if name == "ERROR"@ {
        Some(LevelFilter::Error)
    } else if name == "WARN"@ {
        Some(LevelFilter::Warn)
    } else if name == "INFO"@ {
        Some(LevelFilter::Info)
    } else if name == "DEBUG"@ {
        Some(LevelFilter::Debug)
    } else if name == "TRACE"@ {
        Some(LevelFilter::Trace)
    } else {
        None
    }
}

/// The intercept mode with the given name in upper case.
pub open spec fn mode_named(name: Seq<char>) -> Option<InterceptMode> {
    if name == "CAPTURE"@ {
        Some(InterceptMode::Capture)
    } else if name == "PEEK"@ {
        Some(InterceptMode::Peek)
    } else if name == "MONITOR"@ {
        Some(InterceptMode::Monitor)
    } else {
        None
    }
}

/// Whether `r` is the verbosity level represented by the given text, if any.
pub open spec fn is_log_level(raw: Option<Seq<char>>, r: Result<Option<LevelFilter>, String>) -> bool {
    match raw {
        Some(raw) => match level_named(text::uppercase(raw)) {
            Some(level) => r == Ok::<Option<LevelFilter>, String>(Some(level)),
            None => r matches Err(e) && e@ == "Unknown log level"@,
        },
        None => r == Ok::<Option<LevelFilter>, String>(None),
    }
}

/// Whether `r` is the intercept mode represented by the given text, if any.
pub open spec fn is_intercept_mode(
    raw: Option<Seq<char>>,
    r: Result<Option<InterceptMode>, String>,
) -> bool {
    match raw {
        Some(raw) => match mode_named(text::uppercase(raw)) {
            Some(mode) => r == Ok::<Option<InterceptMode>, String>(Some(mode)),
            None => r matches Err(e) && e@ == "Unknown capture mode"@,
        },
        None => r == Ok::<Option<InterceptMode>, String>(None),
    }
}

/// Whether `r` is the given number of threads, if it is possible to have that
/// many.
pub open spec fn is_thread_count(raw: Option<u64>, r: Result<Option<usize>, String>) -> bool {
    match raw {
        Some(n) => if n <= usize::MAX {
            r matches Ok(Some(m)) && m == n
        } else {
            r matches Err(e) && e@ == "Too many threads specified"@
        },
        None => r == Ok::<Option<usize>, String>(None),
    }
}

/// How the failure to compile a regular expression is explained to the user.
pub open spec fn regex_failure_text(failure: RegexFailure) -> Seq<char> {
    match failure {
        RegexFailure::Syntax(message) => "regex syntax error: "@ + message@,
        RegexFailure::CompiledTooBig(limit) => "compiled regex exceeded size limit of "@
            + text::decimal(limit as nat),
        RegexFailure::Unknown => "unknown regex error"@,
    }
}

/// Whether compiling the regular expression with the given source may result in
/// the given outcome.
pub closed spec fn may_compile(pattern: Seq<char>, outcome: Result<Regex, RegexFailure>) -> bool {
    exists|source: &str|
        source@ == pattern && #[trigger] call_ensures(compile_regex, (source,), outcome)
}

/// Whether `r` is the regular expression with the given source, if any, or the
/// explanation of why it could not be compiled.
pub open spec fn is_regex(raw: Option<Seq<char>>, r: Result<Option<Regex>, String>) -> bool {
    match (raw, r) {
        (None, r) => r == Ok::<Option<Regex>, String>(None),
        (Some(_), Ok(None)) => false,
        (Some(pattern), Ok(Some(regex))) => {
            &&& may_compile(pattern, Ok(regex))
            &&& pattern_parsed(pattern) == Ok::<Set<Seq<char>>, Seq<char>>(regex_texts(regex))
        },
        (Some(pattern), Err(e)) => {
            &&& exists|failure: RegexFailure|
                may_compile(pattern, Err(failure)) && e@ == #[trigger] regex_failure_text(failure)
            &&& pattern_parsed(pattern) matches Err(message) ==> e@ == "regex syntax error: "@
                + message
        },
    }
}

/// The given texts without those that occur earlier.
pub open spec fn deduplicated(texts: Seq<Seq<char>>) -> Seq<Seq<char>>
    decreases texts.len(),
{
    if texts.len() == 0 {
        Seq::empty()
    } else {
        let before = deduplicated(texts.drop_last());
        if before.contains(texts.last()) {
            before
        } else {
            before.push(texts.last())
        }
    }
}

impl Action {
    /// The action that is requested by the given arguments.
    pub open spec fn requested<V>(args: Args<V>) -> Action {
        if args.version {
            Action::PrintVersion
        } else if args.list_drivers {
            Action::ListDrivers
        } else if args.list_servers {
            Action::ListServers
        } else {
            Action::Run(args.consumer)
        }
    }
}

impl SelectedConsumer {
    /// Whether this consumer writes to a file.
    pub open spec fn writes_file(self) -> bool {
        self is Wav
    }
}

// TYPE IMPLS ******************************************************************

impl Action {
    /// Determines the action that is requested by the given arguments.
    pub fn from_args<V>(args: &Args<V>) -> (r: Action)
        ensures
            r == Action::requested(*args),
    {
        if args.version {
            return Action::PrintVersion;
        }
        if args.list_drivers {
            return Action::ListDrivers;
        }
        if args.list_servers {
            return Action::ListServers;
        }
        Action::Run(args.consumer)
    }
}

impl SelectedConsumer {
    /// Determines whether this consumer writes to a file.
    pub fn needs_output_file(&self) -> (r: bool)
        ensures
            r == self.writes_file(),
    {
        match self {
            SelectedConsumer::Discord => false,
            SelectedConsumer::Wav => true,
        }
    }
}

// FUNCTIONS *******************************************************************

/// Determines the correct [`LevelFilter`] value represented by the given
/// string, if possible.
pub fn level_filter_from_string(raw: &str) -> (r: Option<LevelFilter>)
    ensures
        r == level_named(text::uppercase(raw@)),
{
    let upper = text::to_uppercase_text(raw);
    let name = upper.as_str();
    if text::same_text(name, "OFF") {
        Some(LevelFilter::Off)
    } else if text::same_text(name, "ERROR") {
        Some(LevelFilter::Error)
    } else if text::same_text(name, "WARN") {
        Some(LevelFilter::Warn)
    } else if text::same_text(name, "INFO") {
        Some(LevelFilter::Info)
    } else if text::same_text(name, "DEBUG") {
        Some(LevelFilter::Debug)
    } else if text::same_text(name, "TRACE") {
        Some(LevelFilter::Trace)
    } else {
        None
    }
}

/// Determines the correct [`InterceptMode`] value from the given string, if
/// possible.
pub fn capture_mode_from_string(raw: &str) -> (r: Option<InterceptMode>)
    ensures
        r == mode_named(text::uppercase(raw@)),
{
    let upper = text::to_uppercase_text(raw);
    let name = upper.as_str();
    if text::same_text(name, "CAPTURE") {
        Some(InterceptMode::Capture)
    } else if text::same_text(name, "PEEK") {
        Some(InterceptMode::Peek)
    } else if text::same_text(name, "MONITOR") {
        Some(InterceptMode::Monitor)
    } else {
        None
    }
}

/// Overwrites the value present in `into` if `from` is `Some`.
pub fn merge_opt<T>(into: &mut Option<T>, from: Option<T>)
    ensures
        *final(into) == overridden(*old(into), from),
{
    if from.is_some() {
        *into = from;
    }
}

/// Parses the [`InterceptMode`] from the given string (if present) and performs
/// validation.
pub fn validate_intercept_mode(raw_capture_mode: &Option<String>) -> (r: Result<
    Option<InterceptMode>,
    String,
>)
    ensures
        is_intercept_mode(text::opt_view(*raw_capture_mode), r),
{
    match raw_capture_mode {
        Some(raw) => match capture_mode_from_string(raw.as_str()) {
            Some(mode) => Ok(Some(mode)),
            None => Err("Unknown capture mode".to_owned()),
        },
        None => Ok(None),
    }
}

/// Renders an explanation of why a regular expression could not be compiled.
pub fn explain_regex_failure(failure: RegexFailure) -> (r: String)
    ensures
        r@ == regex_failure_text(failure),
{
    match failure {
        RegexFailure::Syntax(message) => {
            let mut r = "regex syntax error: ".to_owned();
            r.append(message.as_str());
            r
        },
        RegexFailure::CompiledTooBig(limit) => {
            let mut r = "compiled regex exceeded size limit of ".to_owned();
            r.append(text::decimal_string(limit as u64).as_str());
            r
        },
        RegexFailure::Unknown => "unknown regex error".to_owned(),
    }
}

/// Parses a regular expression from the given string and performs validation.
pub fn validate_regex(raw_regex: &Option<String>) -> (r: Result<Option<Regex>, String>)
    ensures
        is_regex(text::opt_view(*raw_regex), r),
{
    match raw_regex {
        Some(raw) => {
            let outcome = compile_regex(raw.as_str());
            assert(may_compile(raw@, outcome));
            match outcome {
                Ok(regex) => Ok(Some(regex)),
                Err(failure) => Err(explain_regex_failure(failure)),
            }
        },
        None => Ok(None),
    }
}

/// Removes all texts that occur earlier from the given list.
pub fn deduplicate(texts: Vec<String>) -> (r: Vec<String>)
    ensures
        text::views(r@) == deduplicated(text::views(texts@)),
{
    let ghost views = text::views(texts@);
    let mut r: Vec<String> = Vec::new();
    let mut i: usize = 0;
    while i < texts.len()
        invariant
            i <= texts.len(),
            views == text::views(texts@),
            text::views(r@) =~= deduplicated(views.take(i as int)),
        decreases texts.len() - i,
    {
        assert(views.take(i + 1).drop_last() =~= views.take(i as int));
        assert(views.take(i + 1).last() == texts@[i as int]@);
        if !contains_text(&r, texts[i].as_str()) {
            let ghost before = text::views(r@);
            r.push(texts[i].clone());
            assert(text::views(r@) =~= before.push(texts@[i as int]@));
        }
        i = i + 1;
    }
    assert(views.take(i as int) =~= views);
    r
}

/// Tests whether the given list contains the given text.
pub fn contains_text(texts: &Vec<String>, s: &str) -> (r: bool)
    ensures
        r == text::views(texts@).contains(s@),
{
    let mut i: usize = 0;
    while i < texts.len()
        invariant
            i <= texts.len(),
            forall|j: int| 0 <= j < i ==> (#[trigger] text::views(texts@)[j]) != s@,
        decreases texts.len() - i,
    {
        assert(text::views(texts@)[i as int] == texts@[i as int]@);
        if text::same_text(texts[i].as_str(), s) {
            return true;
        }
        i = i + 1;
    }
    false
}

/// Parses a comma-separated list of string values into a set of string values,
/// which is represented by a list without duplicates.
pub fn parse_raw_property_list(raw: &Option<String>) -> (r: Vec<String>)
    ensures
        text::views(r@) == (match text::opt_view(*raw) {
            Some(raw) => deduplicated(text::split_on(raw, ',')),
            None => Seq::empty(),
        }),
{
    match raw {
        Some(raw) => deduplicate(text::split_text(raw.as_str(), ',')),
        None => {
            let r: Vec<String> = Vec::new();
            assert(text::views(r@) =~= Seq::empty());
            r
        },
    }
}

/// Parses the [`LevelFilter`] from the given string (if present) and performs
/// validation.
pub fn validate_log_level(raw_level: &Option<String>) -> (r: Result<Option<LevelFilter>, String>)
    ensures
        is_log_level(text::opt_view(*raw_level), r),
{
    match raw_level {
        Some(raw) => match level_filter_from_string(raw.as_str()) {
            Some(level) => Ok(Some(level)),
            None => Err("Unknown log level".to_owned()),
        },
        None => Ok(None),
    }
}

/// Validates that a `u64` can be contained in a `usize`, and returns a
/// validation error if not. Used to determine the number of threads to be used
/// in the application runtime.
pub fn validate_thread_count(raw_thread_count: &Option<u64>) -> (r: Result<Option<usize>, String>)
    ensures
        is_thread_count(*raw_thread_count, r),
{
    match raw_thread_count {
        Some(n) => if *n <= usize::MAX as u64 {
            Ok(Some(*n as usize))
        } else {
            Err("Too many threads specified".to_owned())
        },
        None => Ok(None),
    }
}

// APPLICATION CONFIGURATION ***************************************************

/// Whether `r` is the configuration loaded from a file with the given options,
/// and the decoded volume. Of several invalid options, the first one is
/// reported.
pub open spec fn app_loaded<V>(
    options: Map<(Seq<char>, Seq<char>), Seq<char>>,
    volume: Result<Option<V>, String>,
    r: Result<ApplicationConfig<V>, String>,
) -> bool {
    exists|
        pulse: Result<PulseDriverConfig<V>, String>,
        discord: Result<DiscordConfig, String>,
        level: Result<Option<LevelFilter>, String>,
        threads: Result<Option<u64>, String>,
    |
        {
            &&& #[trigger] PulseDriverConfig::<V>::loaded(options, volume, pulse)
            &&& #[trigger] DiscordConfig::loaded(options, (), discord)
            &&& #[trigger] is_log_level(
                option_value(options, APPLICATION_NAME@, "log-level"@),
                level,
            )
            &&& #[trigger] is_uint_option(options, APPLICATION_NAME@, "threads"@, threads)
            &&& match (pulse, discord, level, threads) {
                (Err(e), _, _, _) => r matches Err(e2) && e2@ == e@,
                (Ok(_), Err(e), _, _) => r matches Err(e2) && e2@ == e@,
                (Ok(_), Ok(_), Err(e), _) => r matches Err(e2) && e2@ == e@,
                (Ok(_), Ok(_), Ok(_), Err(e)) => r matches Err(e2) && e2@ == e@,
                (Ok(pulse), Ok(discord), Ok(level), Ok(threads)) => match r {
                    Ok(config) => {
                        &&& config.pulse == pulse
                        &&& config.discord == discord
                        &&& config.log_level == level
                        &&& text::opt_view(config.driver_name) == option_value(
                            options,
                            APPLICATION_NAME@,
                            "driver"@,
                        )
                        &&& text::opt_view(config.output_file) == option_value(
                            options,
                            "wav"@,
                            "output-file"@,
                        )
                        &&& is_thread_count(threads, Ok(config.threads))
                    },
                    Err(e) => is_thread_count(threads, Err(e)),
                },
            }
        }
}

/// Whether `r` is the configuration specified by the given commandline
/// arguments, and the validated volume.
pub open spec fn app_specified<V>(
    args: Args<V>,
    volume: Result<Option<V>, String>,
    r: Result<ApplicationConfig<V>, String>,
) -> bool {
    exists|regex: Result<Option<Regex>, String>, pulse: Result<PulseDriverConfig<V>, String>|
        {
            &&& #[trigger] is_regex(text::opt_view(args.stream_regex), regex)
            &&& #[trigger] pulse_cfg::specified_with(args, regex, volume, pulse)
            &&& match pulse {
                Ok(pulse) => {
                    &&& r matches Ok(config)
                    &&& config.pulse == pulse
                    &&& config.discord.token == args.token
                    &&& config.discord.voice_channel == args.voice_channel
                    &&& config.discord.metadata_channel == args.metadata_channel
                    &&& config.discord.server_id == args.server_id
                    &&& config.log_level == args.log_level
                    &&& config.driver_name == args.driver_name
                    &&& config.output_file == args.output_file
                    &&& config.threads == args.threads
                },
                Err(e) => r matches Err(e2) && e2@ == e@,
            }
        }
}

impl<V> ApplicationConfig<V> {
    /// This configuration, with values overwritten by those set in another one.
    pub open spec fn merged(self, other: ApplicationConfig<V>) -> ApplicationConfig<V> {
        ApplicationConfig {
            pulse: self.pulse.merged(other.pulse),
            discord: self.discord.merged(other.discord),
            log_level: overridden(self.log_level, other.log_level),
            driver_name: overridden(self.driver_name, other.driver_name),
            output_file: overridden(self.output_file, other.output_file),
            threads: overridden(self.threads, other.threads),
        }
    }

    /// What is semantically wrong with this configuration when running the given
    /// action, if anything.
    pub open spec fn semantic_error(self, action: Action) -> Option<Seq<char>> {
        match action {
            Action::Run(consumer) => {
                if self.output_file is None && consumer.writes_file() {
                    Some("Selected audio consumer requires an output file to be specified"@)
                } else if self.pulse.semantic_error(action) is Some {
                    self.pulse.semantic_error(action)
                } else {
                    self.discord.semantic_error(action)
                }
            },
            Action::ListServers => self.discord.semantic_error(action),
            _ => None,
        }
    }

    /// Creates an [`ApplicationConfig`] instance from the given configuration
    /// file, and the decoded volume.
    pub fn from_ini(ini: &Ini, volume: Result<Option<V>, String>) -> (r: Result<
        ApplicationConfig<V>,
        String,
    >)
        requires
            is_folded(ini_default_section(*ini)),
        ensures
            app_loaded(ini_options(*ini), volume, r),
    {
        proof {
            reveal_strlit("bardcast");
            reveal_strlit("log-level");
            reveal_strlit("driver");
            reveal_strlit("wav");
            reveal_strlit("output-file");
            reveal_strlit("threads");
        }
        let ghost options = ini_options(*ini);
        let ghost decoded = volume;
        let pulse = PulseDriverConfig::<V>::from_ini(ini, volume);
        let discord = DiscordConfig::from_ini(ini, ());
        let level = validate_log_level(&ini_get(ini, APPLICATION_NAME, "log-level"));
        let driver_name = ini_get(ini, APPLICATION_NAME, "driver");
        let output_file = ini_get(ini, "wav", "output-file");
        let threads = ini_getuint(ini, APPLICATION_NAME, "threads");
        assert(PulseDriverConfig::<V>::loaded(options, decoded, pulse));
        assert(DiscordConfig::loaded(options, (), discord));
        assert(is_log_level(option_value(options, APPLICATION_NAME@, "log-level"@), level));
        assert(is_uint_option(options, APPLICATION_NAME@, "threads"@, threads));

        match (pulse, discord, level, threads) {
            (Ok(pulse), Ok(discord), Ok(log_level), Ok(threads)) => {
                match validate_thread_count(&threads) {
                    Ok(threads) => Ok(
                        ApplicationConfig {
                            pulse,
                            discord,
                            log_level,
                            driver_name,
                            output_file,
                            threads,
                        },
                    ),
                    Err(e) => Err(e),
                }
            },
            (Err(e), _, _, _)
            | (Ok(_), Err(e), _, _)
            | (Ok(_), Ok(_), Err(e), _)
            | (Ok(_), Ok(_), Ok(_), Err(e)) => Err(e),
        }
    }

    /// Creates an [`ApplicationConfig`] instance from the given commandline
    /// arguments, and the validated volume.
    pub fn from_args(args: Args<V>, volume: Result<Option<V>, String>) -> (r: Result<
        ApplicationConfig<V>,
        String,
    >)
        ensures
            app_specified(args, volume, r),
    {
        let ghost decoded = volume;
        let pulse = PulseDriverConfig::from_args(&args, volume);
        let ghost regex = choose|regex: Result<Option<Regex>, String>| #[trigger]
            is_regex(text::opt_view(args.stream_regex), regex) && pulse_cfg::specified_with(
                args,
                regex,
                decoded,
                pulse,
            );
        assert(is_regex(text::opt_view(args.stream_regex), regex));
        assert(pulse_cfg::specified_with(args, regex, decoded, pulse));
        let discord = DiscordConfig::from_args(&args);
        match pulse {
            Ok(pulse) => Ok(
                ApplicationConfig {
                    pulse,
                    discord,
                    log_level: args.log_level,
                    driver_name: args.driver_name,
                    output_file: args.output_file,
                    threads: args.threads,
                },
            ),
            Err(e) => Err(e),
        }
    }

    /// Merges options from `other` into `self`, overriding options in `self`
    /// with values set in `other` if present.
    pub fn merge(&mut self, other: ApplicationConfig<V>)
        ensures
            *final(self) == old(self).merged(other),
    {
        self.pulse.merge(other.pulse);
        self.discord.merge(other.discord);
        merge_opt(&mut self.log_level, other.log_level);
        merge_opt(&mut self.driver_name, other.driver_name);
        merge_opt(&mut self.output_file, other.output_file);
        merge_opt(&mut self.threads, other.threads);
    }

    /// Performs semantic validation of the configuration, i.e.
    /// misconfigurations that are necessarily correct according to the nature
    /// of the data structure but are semantically incorrect according to the
    /// nature of the underlying code. Typically, such configurations arise from
    /// a combination of configuration parameters, rather than just one.
    ///
    /// The action that the application is to run is provided as an argument, as
    /// that may alter the semantics.
    ///
    /// This will only be called after all config merges are complete.
    pub fn validate_semantics(&self, action: Action) -> (r: Result<(), String>)
        ensures
            match r {
                Ok(()) => self.semantic_error(action) is None,
                Err(e) => self.semantic_error(action) == Some(e@),
            },
    {
        match action {
            Action::Run(consumer) => {
                if self.output_file.is_none() && consumer.needs_output_file() {
                    return Err(
                        "Selected audio consumer requires an output file to be specified".to_owned(),
                    );
                }

                match self.pulse.validate_semantics(action) {
                    Ok(()) => self.discord.validate_semantics(action),
                    Err(e) => Err(e),
                }
            },
            Action::ListServers => self.discord.validate_semantics(action),
            _ => Ok(()),
        }
    }

    /// Determines whether an output file was specified that is ignored by the
    /// consumer that is to be run.
    pub fn output_file_ignored(&self, action: Action) -> (r: bool)
        ensures
            r == (self.output_file is Some && (action matches Action::Run(consumer)
                && !consumer.writes_file())),
    {
        match action {
            Action::Run(consumer) => self.output_file.is_some() && !consumer.needs_output_file(),
            _ => false,
        }
    }

    /// Determines the verbosity level to use.
    pub fn effective_log_level(&self, default_log_level: LevelFilter) -> (r: LevelFilter)
        ensures
            r == (match self.log_level {
                Some(level) => level,
                None => default_log_level,
            }),
    {
        match self.log_level {
            Some(level) => level,
            None => default_log_level,
        }
    }
}

impl LevelFilter {
    /// Determines the verbosity level of chatty dependencies if this is the level
    /// of the application. They are made quieter unless debugging, but never more
    /// verbose than the application itself.
    pub fn dependency_level(&self) -> (r: LevelFilter)
        ensures
            r == (if self is Info {
                LevelFilter::Warn
            } else {
                *self
            }),
    {
        match self {
            LevelFilter::Info => LevelFilter::Warn,
            level => *level,
        }
    }
}

/// Combines the configuration loaded from a file, if any, with that specified by
/// the commandline arguments, and validates the result for the given action.
pub fn build_config<V>(
    from_file: Option<ApplicationConfig<V>>,
    from_args: ApplicationConfig<V>,
    action: Action,
) -> (r: Result<ApplicationConfig<V>, String>)
    ensures
        ({
            let config = match from_file {
                Some(config) => config.merged(from_args),
                None => from_args,
            };
            match config.semantic_error(action) {
                Some(e) => r matches Err(e2) && e2@ == e,
                None => r == Ok::<ApplicationConfig<V>, String>(config),
            }
        }),
{
    let config = match from_file {
        Some(mut config) => {
            config.merge(from_args);
            config
        },
        None => from_args,
    };
    match config.validate_semantics(action) {
        Ok(()) => Ok(config),
        Err(e) => Err(e),
    }
}

// LAWS ************************************************************************

/// Commandline arguments override the corresponding options of the configuration
/// file if both are present, and options without an override keep their values.
pub proof fn law_arguments_override<V>(file: ApplicationConfig<V>, args: ApplicationConfig<V>)
    ensures
        ({
            let config = file.merged(args);
            &&& config.log_level == (if args.log_level is Some {
                args.log_level
            } else {
                file.log_level
            })
            &&& config.driver_name == (if args.driver_name is Some {
                args.driver_name
            } else {
                file.driver_name
            })
            &&& config.output_file == (if args.output_file is Some {
                args.output_file
            } else {
                file.output_file
            })
            &&& config.threads == (if args.threads is Some {
                args.threads
            } else {
                file.threads
            })
            &&& config.discord.token == (if args.discord.token is Some {
                args.discord.token
            } else {
                file.discord.token
            })
            &&& config.discord.server_id == (if args.discord.server_id is Some {
                args.discord.server_id
            } else {
                file.discord.server_id
            })
            &&& config.discord.voice_channel == (if args.discord.voice_channel is Some {
                args.discord.voice_channel
            } else {
                file.discord.voice_channel
            })
            &&& config.discord.metadata_channel == (if args.discord.metadata_channel is Some {
                args.discord.metadata_channel
            } else {
                file.discord.metadata_channel
            })
            &&& config.pulse.intercept_mode == (if args.pulse.intercept_mode is Some {
                args.pulse.intercept_mode
            } else {
                file.pulse.intercept_mode
            })
            &&& config.pulse.stream_regex == (if args.pulse.stream_regex is Some {
                args.pulse.stream_regex
            } else {
                file.pulse.stream_regex
            })
            &&& config.pulse.server == (if args.pulse.server is Some {
                args.pulse.server
            } else {
                file.pulse.server
            })
            &&& config.pulse.volume == (if args.pulse.volume is Some {
                args.pulse.volume
            } else {
                file.pulse.volume
            })
            &&& config.pulse.intercept_limit == (if args.pulse.intercept_limit is Some {
                args.pulse.intercept_limit
            } else {
                file.pulse.intercept_limit
            })
            &&& config.pulse.max_mainloop_interval_usec == (
            if args.pulse.max_mainloop_interval_usec is Some {
                args.pulse.max_mainloop_interval_usec
            } else {
                file.pulse.max_mainloop_interval_usec
            })
            &&& config.pulse.stream_properties == (if args.pulse.stream_properties@.len() > 0 {
                args.pulse.stream_properties
            } else {
                file.pulse.stream_properties
            })
        }),
{
}

/// If the override specifies a sink by its name, then a sink index in the
/// configuration file no longer takes precedence over it.
pub proof fn law_sink_name_overrides_index<V>(
    file: PulseDriverConfig<V>,
    args: PulseDriverConfig<V>,
)
    requires
        args.sink_name is Some,
        args.sink_index is None,
    ensures
        file.merged(args).sink_name == args.sink_name,
        file.merged(args).sink_index is None,
{
}

/// If the override specifies a sink by its index, then that index is used.
pub proof fn law_sink_index_overrides<V>(file: PulseDriverConfig<V>, args: PulseDriverConfig<V>)
    requires
        args.sink_index is Some,
    ensures
        file.merged(args).sink_index == args.sink_index,
{
}

/// A sink that is specified by a commandline argument takes precedence over one
/// in the configuration file, however either of them is specified. If a sink is
/// specified both by its index and its name in the same place, then the index
/// takes precedence.
pub proof fn law_target_sink<'a, V>(
    file: PulseDriverConfig<V>,
    args: PulseDriverConfig<V>,
    sink: Option<stream::SinkId<'a>>,
)
    requires
        stream::SinkId::identifies(file.merged(args).sink_index, file.merged(args).sink_name, sink),
    ensures
        match (args.sink_index, args.sink_name, file.sink_index, file.sink_name) {
            (Some(index), _, _, _) => sink == Some(stream::SinkId::<'a>::Index(index)),
            (None, Some(name), _, _) => sink matches Some(stream::SinkId::Name(n)) && n@ == name@,
            (None, None, Some(index), _) => sink == Some(stream::SinkId::<'a>::Index(index)),
            (None, None, None, Some(name)) => sink matches Some(stream::SinkId::Name(n)) && n@ == name@,
            (None, None, None, None) => sink is None,
        },
{
}

/// Every configuration that passes validation and selects an intercept mode either
/// specifies which applications to intercept, or has the driver monitor a sink.
pub proof fn law_selected_mode_is_possible<V>(
    config: ApplicationConfig<V>,
    consumer: SelectedConsumer,
)
    requires
        config.semantic_error(Action::Run(consumer)) is None,
        config.pulse.intercept_mode is Some,
    ensures
        config.pulse.stream_regex is Some || crate::snd::pulse::effective_mode(config.pulse)
            is Monitor,
{
}

/// Every configuration that passes validation for playing audio in a Discord
/// voice channel specifies what is needed at a minimum: a bot token, a server ID
/// and a voice channel name.
pub proof fn law_discord_minimum<V>(config: ApplicationConfig<V>)
    requires
        config.semantic_error(Action::Run(SelectedConsumer::Discord)) is None,
    ensures
        config.discord.token is Some,
        config.discord.server_id is Some,
        config.discord.voice_channel is Some,
{
}

/// Every configuration that passes validation for writing audio to a file
/// specifies that file.
pub proof fn law_wav_minimum<V>(config: ApplicationConfig<V>)
    requires
        config.semantic_error(Action::Run(SelectedConsumer::Wav)) is None,
    ensures
        config.output_file is Some,
{
}

/// Removing duplicates keeps exactly one of each text.
pub proof fn law_deduplicated(texts: Seq<Seq<char>>, t: Seq<char>)
    ensures
        deduplicated(texts).no_duplicates(),
        deduplicated(texts).contains(t) <==> texts.contains(t),
    decreases texts.len(),
{
    if texts.len() > 0 {
        let rest = texts.drop_last();
        law_deduplicated(rest, t);
        law_deduplicated(rest, texts.last());
        let before = deduplicated(rest);
        let after = deduplicated(texts);
        if rest.contains(t) {
            let i = choose|i: int| 0 <= i < rest.len() && rest[i] == t;
            assert(texts[i] == t);
        }
        if texts.contains(t) && !rest.contains(t) {
            let i = choose|i: int| 0 <= i < texts.len() && texts[i] == t;
            assert(i == texts.len() - 1) by {
                if i < rest.len() {
                    assert(rest[i] == t);
                }
            }
        }
        assert(texts[texts.len() - 1] == texts.last());
        if !before.contains(texts.last()) {
            assert(after[before.len() as int] == texts.last());
            if before.contains(t) {
                let i = choose|i: int| 0 <= i < before.len() && before[i] == t;
                assert(after[i] == t);
            }
            if after.contains(t) {
                let i = choose|i: int| 0 <= i < after.len() && after[i] == t;
                if i < before.len() {
                    assert(before[i] == t);
                }
            }
        }
    }
}

} // verus!
