//! Sound driver for the PulseAudio sound server.

pub mod cfg;
pub mod context;
pub mod error;
pub mod event;
pub mod intercept;
pub mod laws;
pub mod owned;

use regex::Regex;
use vstd::prelude::*;

use crate::cfg::contains_text;
use crate::cfg::InterceptMode;
use crate::cfg as app_cfg;
use crate::snd::types::DriverInitError;
use crate::util::text;

use self::cfg::PulseDriverConfig;
use self::context::stream::SinkId;
use self::error::{Code, ComponentError, PulseDriverError};
use self::event::{AudioEntity, ChangeEvent};
use self::intercept::InterceptorKind;
use self::owned::{OwnedSinkInputInfo, Property};

verus! {

/// The property that holds the name of an application.
pub const PROPERTY_APPLICATION_NAME: &'static str = "application.name";

/// The property that holds the name of the executable of an application.
pub const PROPERTY_PROCESS_BINARY: &'static str = "application.process.binary";

// OUTSIDE FUNCTIONS ***********************************************************

/// Copies a compiled regular expression.
///
/// The implementation of `Clone` for `regex::Regex` is trusted to produce a
/// regular expression that finds matches in the same texts.
pub assume_specification[ <Regex as Clone>::clone ](regex: &Regex) -> (r: Regex)
    ensures
        app_cfg::regex_texts(r) == app_cfg::regex_texts(*regex),
;

// TYPE DEFINITIONS ************************************************************

/// Helper for matching specific properties of an application against a regular
/// expression.
#[derive(Debug)]
pub struct ProplistMatcher {
    props: Vec<String>,
    pattern: Regex,
}

/// Components of the driver.
#[derive(Debug, Clone, Copy, PartialEq, Eq, Structural)]
pub enum DriverComponent {
    Context,
    EventHandler,
    Stream,
    Interceptor,
}

/// How the driver obtains audio samples.
#[derive(Debug)]
pub enum DriverPlan<'a> {
    /// Applications that match a filter are intercepted.
    Intercept {
        matcher: ProplistMatcher,
        interceptor: InterceptorKind,
        sink: Option<SinkId<'a>>,
    },

    /// All audio sent to a sink is monitored. This may cause feedback if the
    /// output stream is being played back on the monitored audio device.
    Monitor { sink: Option<SinkId<'a>> },
}

/// Parts of starting the driver that can fail because of the PulseAudio server.
#[derive(Debug, Clone, Copy, PartialEq, Eq, Structural)]
pub enum StartStage {
    /// Connecting to the server.
    Connect,

    /// Subscribing to events.
    Subscribe,

    /// Intercepting applications.
    Intercept,

    /// Monitoring a sink.
    Monitor,
}

// MODELS **********************************************************************

/// Whether one of the given properties is among those with the given keys, and
/// has a value that is among the given texts.
pub open spec fn proplist_matches(
    keys: Seq<Seq<char>>,
    texts: Set<Seq<char>>,
    proplist: Seq<owned::PropertyView>,
) -> bool {
    exists|i: int| 0 <= i < proplist.len() && property_matches(keys, texts, #[trigger] proplist[i])
}

/// Whether the given property is among those with the given keys, and has a
/// value that is among the given texts.
pub open spec fn property_matches(
    keys: Seq<Seq<char>>,
    texts: Set<Seq<char>>,
    property: owned::PropertyView,
) -> bool {
    keys.contains(property.key) && (property.value matches Some(value) && texts.contains(value))
}

/// The properties that are matched against the regular expression in the given
/// configuration.
pub open spec fn matched_keys<V>(config: PulseDriverConfig<V>) -> Seq<Seq<char>> {
    if config.stream_properties@.len() == 0 {
        seq![PROPERTY_APPLICATION_NAME@, PROPERTY_PROCESS_BINARY@]
    } else {
        text::views(config.stream_properties@)
    }
}

/// The intercept mode that is used with the given configuration.
pub open spec fn effective_mode<V>(config: PulseDriverConfig<V>) -> InterceptMode {
    match config.intercept_mode {
        Some(mode) => mode,
        None => InterceptMode::Peek,
    }
}

impl DriverComponent {
    /// The name of this component.
    pub open spec fn name_spec(self) -> Seq<char> {
        match self {
            DriverComponent::Context => "context"@,
            DriverComponent::EventHandler => "event handler"@,
            DriverComponent::Stream => "record stream"@,
            DriverComponent::Interceptor => "stream interceptor"@,
        }
    }
}

// TYPE IMPLS ******************************************************************

impl ProplistMatcher {
    /// The keys of the properties that are matched.
    pub closed spec fn keys(&self) -> Seq<Seq<char>> {
        text::views(self.props@)
    }

    /// The texts that the regular expression matches.
    pub closed spec fn texts(&self) -> Set<Seq<char>> {
        app_cfg::regex_texts(self.pattern)
    }

    /// Whether events about the given entity pass this filter. Events about
    /// entities without metadata always do.
    pub open spec fn passes(&self, entity: AudioEntity<OwnedSinkInputInfo>) -> bool {
        match entity {
            AudioEntity::Info(info) => proplist_matches(self.keys(), self.texts(), info@.proplist),
            AudioEntity::Index(_) => true,
        }
    }

    /// Creates a new instance against the given properties and regex pattern.
    pub fn new(props: Vec<String>, pattern: Regex) -> (r: Self)
        ensures
            r.keys() == text::views(props@),
            r.texts() == app_cfg::regex_texts(pattern),
    {
        ProplistMatcher { props, pattern }
    }

    /// Tests whether the configured properties in the given proplist match
    /// the regular expression.
    pub fn matches(&self, proplist: &Vec<Property>) -> (r: bool)
        ensures
            r == proplist_matches(self.keys(), self.texts(), owned::properties(proplist@)),
    {
        let ghost views = owned::properties(proplist@);
        let mut i: usize = 0;
        while i < proplist.len()
            invariant
                i <= proplist.len(),
                views == owned::properties(proplist@),
                forall|j: int|
                    0 <= j < i ==> !property_matches(
                        self.keys(),
                        self.texts(),
                        #[trigger] views[j],
                    ),
            decreases proplist.len() - i,
        {
            assert(views[i as int] == proplist@[i as int]@);
            if contains_text(&self.props, proplist[i].key.as_str()) {
                if let Some(value) = &proplist[i].value {
                    if self.pattern.is_match(value.as_str()) {
                        assert(property_matches(self.keys(), self.texts(), views[i as int]));
                        return true;
                    }
                }
            }
            i = i + 1;
        }
        false
    }

    /// Determines whether the given event concerns an application that matches
    /// the regular expression. Events about entities without metadata are not
    /// filtered.
    pub fn accepts(&self, event: &ChangeEvent<AudioEntity<OwnedSinkInputInfo>>) -> (r: bool)
        ensures
            r == self.passes(event.spec_entity()),
    {
        match event.entity() {
            AudioEntity::Info(info) => self.matches(&info.proplist),
            AudioEntity::Index(_) => true,
        }
    }
}

impl ProplistMatcher {
    /// Keeps the given event only if it is accepted.
    pub fn filter(&self, event: ChangeEvent<AudioEntity<OwnedSinkInputInfo>>) -> (r: Option<
        ChangeEvent<AudioEntity<OwnedSinkInputInfo>>,
    >)
        ensures
            r == (if self.passes(event.spec_entity()) {
                Some(event)
            } else {
                None
            }),
    {
        if self.accepts(&event) {
            Some(event)
        } else {
            None
        }
    }
}

impl DriverComponent {
    /// Returns the name of this component.
    pub fn name(&self) -> (r: &'static str)
        ensures
            r@ == self.name_spec(),
    {
        match self {
            DriverComponent::Context => "context",
            DriverComponent::EventHandler => "event handler",
            DriverComponent::Stream => "record stream",
            DriverComponent::Interceptor => "stream interceptor",
        }
    }

    /// Creates an error in this component.
    pub fn to_error(&self, code: Code) -> (r: ComponentError)
        ensures
            r == (ComponentError { component: *self, code }),
    {
        ComponentError::new(*self, code)
    }
}

// FUNCTIONS *******************************************************************

/// Determines how the driver obtains audio samples, pursuant to the provided
/// configuration.
///
/// If there is a regular expression, then matching applications are intercepted.
/// Otherwise, the driver can only monitor a sink.
pub fn plan_driver<'a, V>(config: &'a PulseDriverConfig<V>) -> (r: Result<
    DriverPlan<'a>,
    PulseDriverError,
>)
    ensures
        match config.stream_regex {
            Some(regex) => {
                &&& r matches Ok(DriverPlan::Intercept { matcher, interceptor, sink })
                &&& matcher.keys() == matched_keys(*config)
                &&& matcher.texts() == app_cfg::regex_texts(regex)
                &&& interceptor == InterceptorKind::selected(
                    effective_mode(*config),
                    config.intercept_limit,
                )
                &&& SinkId::identifies(config.sink_index, config.sink_name, sink)
            },
            None => if effective_mode(*config) is Monitor {
                &&& r matches Ok(DriverPlan::Monitor { sink })
                &&& SinkId::identifies(config.sink_index, config.sink_name, sink)
            } else {
                &&& r matches Err(PulseDriverError::BadConfig(reason))
                &&& reason@ == "The `capture' intercept mode requires -E/--stream-regex"@
            },
        },
{
    let mode = match config.intercept_mode {
        Some(mode) => mode,
        None => InterceptMode::Peek,
    };
    let name: Option<&'a str> = match &config.sink_name {
        Some(name) => Some(name.as_str()),
        None => None,
    };
    let sink = SinkId::merged(config.sink_index, name);

    match &config.stream_regex {
        Some(regex) => {
            let props = if config.stream_properties.len() == 0 {
                let mut props: Vec<String> = Vec::new();
                props.push(PROPERTY_APPLICATION_NAME.to_owned());
                props.push(PROPERTY_PROCESS_BINARY.to_owned());
                assert(text::views(props@) =~= matched_keys(*config));
                props
            } else {
                text::clone_all(&config.stream_properties)
            };
            let matcher = ProplistMatcher::new(props, regex.clone());
            let interceptor = InterceptorKind::select(mode, config.intercept_limit);

            Ok(DriverPlan::Intercept { matcher, interceptor, sink })
        },
        None => match mode {
            InterceptMode::Monitor => Ok(DriverPlan::Monitor { sink }),
            _ => Err(
                PulseDriverError::BadConfig(
                    "The `capture' intercept mode requires -E/--stream-regex".to_owned(),
                ),
            ),
        },
    }
}

/// Classifies a failure of the PulseAudio server while starting the driver. Only
/// a failure to connect allows for another driver to be tried.
pub fn start_failure(stage: StartStage, code: Code) -> (r: DriverInitError<PulseDriverError>)
    ensures
        match stage {
            StartStage::Connect => {
                &&& r matches DriverInitError::ConnectionError(PulseDriverError::ComponentError(e))
                &&& e == (ComponentError { component: DriverComponent::Context, code })
            },
            _ => {
                &&& r matches DriverInitError::InitializationError(
                    PulseDriverError::ComponentError(e),
                )
                &&& e.code == code
                &&& e.component == (match stage {
                    StartStage::Subscribe => DriverComponent::EventHandler,
                    StartStage::Intercept => DriverComponent::Interceptor,
                    _ => DriverComponent::Stream,
                })
            },
        },
{
    match stage {
        StartStage::Connect => DriverInitError::ConnectionError(
            PulseDriverError::from(DriverComponent::Context.to_error(code)),
        ),
        StartStage::Subscribe => DriverInitError::InitializationError(
            PulseDriverError::from(DriverComponent::EventHandler.to_error(code)),
        ),
        StartStage::Intercept => DriverInitError::InitializationError(
            PulseDriverError::from(DriverComponent::Interceptor.to_error(code)),
        ),
        StartStage::Monitor => DriverInitError::InitializationError(
            PulseDriverError::from(DriverComponent::Stream.to_error(code)),
        ),
    }
}

// LAWS ************************************************************************

/// An application passes the filter if at least one of its selected properties
/// matches.
pub proof fn law_any_property_matches(
    keys: Seq<Seq<char>>,
    texts: Set<Seq<char>>,
    proplist: Seq<owned::PropertyView>,
    i: int,
)
    requires
        0 <= i < proplist.len(),
        keys.contains(proplist[i].key),
        proplist[i].value is Some,
        texts.contains(proplist[i].value->0),
    ensures
        proplist_matches(keys, texts, proplist),
{
    assert(property_matches(keys, texts, proplist[i]));
}

/// Properties that are not selected do not influence which applications pass the
/// filter.
pub proof fn law_other_properties_ignored(
    keys: Seq<Seq<char>>,
    texts: Set<Seq<char>>,
    proplist: Seq<owned::PropertyView>,
    other: owned::PropertyView,
)
    requires
        !keys.contains(other.key),
    ensures
        proplist_matches(keys, texts, proplist.push(other)) == proplist_matches(
            keys,
            texts,
            proplist,
        ),
{
    let more = proplist.push(other);
    if proplist_matches(keys, texts, proplist) {
        let i = choose|i: int|
            0 <= i < proplist.len() && property_matches(keys, texts, #[trigger] proplist[i]);
        assert(more[i] == proplist[i]);
    }
    if proplist_matches(keys, texts, more) {
        let i = choose|i: int|
            0 <= i < more.len() && property_matches(keys, texts, #[trigger] more[i]);
        assert(i < proplist.len());
        assert(more[i] == proplist[i]);
    }
}

} // verus!
