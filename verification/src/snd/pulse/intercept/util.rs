//! Creation and removal of the virtual sinks that interceptors make use of.
//!
//! As with interceptors, each procedure proceeds in steps, which either request
//! something from the audio server or conclude the procedure.

use vstd::prelude::*;

use crate::cfg::{contains_text, APPLICATION_NAME};
use crate::snd::pulse::context::introspect;
use crate::snd::pulse::error::Code;
use crate::snd::pulse::owned;
use crate::snd::pulse::owned::OwnedSinkInfo;
use crate::util::text;

verus! {

// REQUESTS ********************************************************************

/// Kinds of modules that provide virtual sinks.
#[derive(Debug, Clone, Copy, PartialEq, Eq, Structural)]
pub enum Module {
    /// A sink that discards all audio it receives.
    NullSink,

    /// A sink that duplicates the audio it receives to other sinks.
    CombineSink,
}

impl Module {
    /// The name by which the audio server knows this kind of modules.
    pub open spec fn name_spec(self) -> Seq<char> {
        match self {
            Module::NullSink => "module-null-sink"@,
            Module::CombineSink => "module-combine-sink"@,
        }
    }

    /// Returns the name by which the audio server knows this kind of modules.
    pub fn name(&self) -> (r: &'static str)
        ensures
            r@ == self.name_spec(),
    {
        match self {
            Module::NullSink => "module-null-sink",
            Module::CombineSink => "module-combine-sink",
        }
    }
}

/// Something that has to be done in order to create virtual sinks.
#[derive(Debug)]
pub enum SinkRequest {
    /// Look up all sinks.
    GetSinks,

    /// Load a module with the given arguments.
    LoadModule(Module, String),

    /// Unload the module with the given index.
    UnloadModule(u32),
}

/// The reply to a [`SinkRequest`].
#[derive(Debug)]
pub enum SinkReply {
    /// The sinks that were looked up.
    Sinks(Result<Vec<OwnedSinkInfo>, Code>),

    /// The index of the loaded module.
    Module(Result<u32, Code>),

    /// Whether the request was successful.
    Status(Result<(), Code>),
}

/// A step of the creation of a virtual sink.
#[derive(Debug)]
pub enum SinkStep<T> {
    /// The reply to the given request is needed to proceed.
    Request(SinkRequest),

    /// The procedure is complete.
    Done(Result<T, Code>),
}

/// The contents of a [`SinkRequest`].
pub enum SinkRequestView {
    GetSinks,
    LoadModule(Module, Seq<char>),
    UnloadModule(u32),
}

/// The contents of a [`SinkReply`].
pub enum SinkReplyView {
    Sinks(Result<Seq<owned::SinkView>, Code>),
    Module(Result<u32, Code>),
    Status(Result<(), Code>),
}

/// The contents of a [`SinkStep`] where completed procedures produce values
/// modeled by `V`.
pub enum SinkStepView<V> {
    Request(SinkRequestView),
    Done(Result<V, Code>),
}

impl View for SinkRequest {
    type V = SinkRequestView;

    open spec fn view(&self) -> SinkRequestView {
        match *self {
            SinkRequest::GetSinks => SinkRequestView::GetSinks,
            SinkRequest::LoadModule(module, args) => SinkRequestView::LoadModule(module, args@),
            SinkRequest::UnloadModule(index) => SinkRequestView::UnloadModule(index),
        }
    }
}

impl View for SinkReply {
    type V = SinkReplyView;

    open spec fn view(&self) -> SinkReplyView {
        match *self {
            SinkReply::Sinks(Ok(sinks)) => SinkReplyView::Sinks(
                Ok(introspect::sink_views(sinks@)),
            ),
            SinkReply::Sinks(Err(e)) => SinkReplyView::Sinks(Err(e)),
            SinkReply::Module(r) => SinkReplyView::Module(r),
            SinkReply::Status(r) => SinkReplyView::Status(r),
        }
    }
}

impl<T: View> View for SinkStep<T> {
    type V = SinkStepView<T::V>;

    open spec fn view(&self) -> SinkStepView<T::V> {
        match *self {
            SinkStep::Request(request) => SinkStepView::Request(request@),
            SinkStep::Done(Ok(value)) => SinkStepView::Done(Ok(value@)),
            SinkStep::Done(Err(e)) => SinkStepView::Done(Err(e)),
        }
    }
}

// SINK NAMES ******************************************************************

/// What the names of all virtual sinks of the given type start with.
pub open spec fn name_template(pid: u32, sink_type: Seq<char>) -> Seq<char> {
    APPLICATION_NAME@ + "-"@ + text::decimal(pid as nat) + "_"@ + sink_type
}

/// The name of the virtual sink that follows the given template and has the given
/// number.
pub open spec fn unique_name(template: Seq<char>, number: nat) -> Seq<char> {
    template + "-"@ + text::decimal(number)
}

/// The least number from the given one on for which the corresponding name is not
/// among the given names.
///
/// At most as many numbers as there are names can be taken, so that there is no
/// need to look any further than that.
pub open spec fn free_number(names: Seq<Seq<char>>, template: Seq<char>, from: nat) -> nat
    decreases names.len() - from,
{
    if from < names.len() && names.contains(unique_name(template, from)) {
        free_number(names, template, from + 1)
    } else {
        from
    }
}

/// The number of a new virtual sink: the number of existing sinks with names that
/// start in the same way or, if that is taken, the least number that is not.
pub open spec fn unique_number(sinks: Seq<owned::SinkView>, template: Seq<char>) -> nat {
    let names = sink_names(sinks);
    let count = introspect::with_name_prefix(sinks, template).len();
    if names.contains(unique_name(template, count)) {
        free_number(names, template, 0)
    } else {
        count
    }
}

/// Whether the given sink is the virtual sink that was requested with the given
/// name and is provided by the given module.
///
/// The PulseAudio server can sometimes change the requested name of the sink
/// by appending characters to it.
pub open spec fn is_created(sink: owned::SinkView, name: Seq<char>, module: u32) -> bool {
    &&& sink.name matches Some(actual) && text::contains(actual, name)
    &&& sink.owner_module == Some(module)
}

/// The first of the given sinks that was created with the given name by the
/// given module.
pub open spec fn created_sink(
    sinks: Seq<owned::SinkView>,
    name: Seq<char>,
    module: u32,
) -> Result<owned::SinkView, Code>
    decreases sinks.len(),
{
    if sinks.len() == 0 {
        Err(Code::NoEntity)
    } else if is_created(sinks[0], name, module) {
        Ok(sinks[0])
    } else {
        created_sink(sinks.skip(1), name, module)
    }
}

/// The names of those of the given sinks that have one.
pub open spec fn sink_names(sinks: Seq<owned::SinkView>) -> Seq<Seq<char>>
    decreases sinks.len(),
{
    if sinks.len() == 0 {
        Seq::empty()
    } else {
        let before = sink_names(sinks.drop_last());
        match sinks.last().name {
            Some(name) => before.push(name),
            None => before,
        }
    }
}

/// Determines what the names of all virtual sinks of the given type start with.
pub fn get_name_template(pid: u32, sink_type: &str) -> (r: String)
    ensures
        r@ == name_template(pid, sink_type@),
{
    let mut r = APPLICATION_NAME.to_owned();
    r.append("-");
    r.append(text::decimal_string(pid as u64).as_str());
    r.append("_");
    r.append(sink_type);
    r
}

/// Renders the name of the virtual sink that follows the given template and has
/// the given number.
fn numbered_name(template: &str, number: usize) -> (r: String)
    ensures
        r@ == unique_name(template@, number as nat),
{
    let mut r = template.to_owned();
    r.append("-");
    r.append(text::decimal_string(number as u64).as_str());
    r
}

/// Gets a unique name for a sink based on an abstract notion of type, by
/// combining a template with a unique integer at the end. That is the number of
/// sinks that already follow the template, unless it is taken.
pub fn get_unique_sink_name(template: &str, sinks: &Vec<OwnedSinkInfo>) -> (r: String)
    ensures
        r@ == unique_name(
            template@,
            unique_number(introspect::sink_views(sinks@), template@),
        ),
        forall|i: int|
            0 <= i < sinks@.len() ==> (#[trigger] introspect::sink_views(sinks@)[i]).name != Some(
                r@,
            ),
{
    let ghost views = introspect::sink_views(sinks@);
    proof {
        law_sink_names_are_unique(views, template@);
    }
    let count: usize = introspect::count_sinks_with_name_prefix(sinks, template);
    let name = numbered_name(template, count);
    let names = get_sink_names(sinks);
    if !contains_text(&names, name.as_str()) {
        return name;
    }

    let ghost taken = sink_names(views);
    let mut number: usize = 0;
    loop
        invariant
            number <= names.len(),
            taken == text::views(names@),
            free_number(taken, template@, 0) == free_number(taken, template@, number as nat),
        ensures
            free_number(taken, template@, 0) == number,
        decreases names.len() - number,
    {
        if number == names.len() {
            break;
        }
        let name = numbered_name(template, number);
        if !contains_text(&names, name.as_str()) {
            break;
        }
        number = number + 1;
    }
    numbered_name(template, number)
}

/// Gets the metadata for a virtual sink based on its name and owning module
/// index.
pub fn get_created_virtual_sink(
    sinks: &Vec<OwnedSinkInfo>,
    sink_name: &str,
    mod_idx: u32,
) -> (r: Result<OwnedSinkInfo, Code>)
    ensures
        match r {
            Ok(sink) => created_sink(introspect::sink_views(sinks@), sink_name@, mod_idx) == Ok::<
                owned::SinkView,
                Code,
            >(sink@),
            Err(e) => created_sink(introspect::sink_views(sinks@), sink_name@, mod_idx) == Err::<
                owned::SinkView,
                Code,
            >(e),
        },
{
    let ghost views = introspect::sink_views(sinks@);
    let mut i: usize = 0;
    assert(views.skip(0) =~= views);
    while i < sinks.len()
        invariant
            i <= sinks.len(),
            views == introspect::sink_views(sinks@),
            created_sink(views, sink_name@, mod_idx) == created_sink(
                views.skip(i as int),
                sink_name@,
                mod_idx,
            ),
        decreases sinks.len() - i,
    {
        assert(views.skip(i as int)[0] == sinks@[i as int]@);
        assert(views.skip(i as int).skip(1) =~= views.skip(i + 1));
        if let (Some(name), Some(owner_module)) = (&sinks[i].name, sinks[i].owner_module) {
            if owner_module == mod_idx && text::has_text(name.as_str(), sink_name) {
                return Ok(sinks[i].clone());
            }
        }
        i = i + 1;
    }
    Err(Code::NoEntity)
}

/// Collects the names of those of the given sinks that have one.
fn get_sink_names(sinks: &Vec<OwnedSinkInfo>) -> (r: Vec<String>)
    ensures
        text::views(r@) == sink_names(introspect::sink_views(sinks@)),
{
    let ghost views = introspect::sink_views(sinks@);
    let mut r: Vec<String> = Vec::new();
    let mut i: usize = 0;
    while i < sinks.len()
        invariant
            i <= sinks.len(),
            views == introspect::sink_views(sinks@),
            text::views(r@) =~= sink_names(views.take(i as int)),
        decreases sinks.len() - i,
    {
        assert(views.take(i + 1).drop_last() =~= views.take(i as int));
        assert(views.take(i + 1).last() == sinks@[i as int]@);
        if let Some(name) = &sinks[i].name {
            let ghost before = text::views(r@);
            r.push(name.clone());
            assert(text::views(r@) =~= before.push(name@));
        }
        i = i + 1;
    }
    assert(views.take(i as int) =~= views);
    r
}

// SINK CREATION ***************************************************************

/// Progress of a [`SinkCreation`].
enum CreationProgress {
    Naming,
    Loading(String),
    Finding(String, u32),
    Unloading(Code),
    Finished,
}

/// The creation of a virtual sink.
///
/// If the sink cannot be found after its module has been loaded, then the module
/// is unloaded again.
pub struct SinkCreation {
    module: Module,
    template: String,
    slaves: Vec<String>,
    progress: CreationProgress,
}

/// The contents of a [`CreationProgress`].
pub enum CreationProgressView {
    Naming,
    Loading(Seq<char>),
    Finding(Seq<char>, u32),
    Unloading(Code),
    Finished,
}

/// The state of a [`SinkCreation`].
pub struct CreationState {
    pub module: Module,
    pub template: Seq<char>,
    pub slaves: Seq<Seq<char>>,
    pub progress: CreationProgressView,
}

impl CreationProgress {
    spec fn view(&self) -> CreationProgressView {
        match *self {
            CreationProgress::Naming => CreationProgressView::Naming,
            CreationProgress::Loading(name) => CreationProgressView::Loading(name@),
            CreationProgress::Finding(name, module) => CreationProgressView::Finding(name@, module),
            CreationProgress::Unloading(e) => CreationProgressView::Unloading(e),
            CreationProgress::Finished => CreationProgressView::Finished,
        }
    }
}

impl CreationState {
    /// The state at the beginning of the creation of a sink that is dedicated to
    /// recording.
    pub open spec fn rec(pid: u32) -> CreationState {
        CreationState {
            module: Module::NullSink,
            template: name_template(pid, "rec"@),
            slaves: Seq::empty(),
            progress: CreationProgressView::Naming,
        }
    }

    /// The state at the beginning of the creation of a sink that duplicates
    /// audio to the given sinks.
    pub open spec fn demux(pid: u32, sinks: Seq<owned::SinkView>) -> CreationState {
        CreationState {
            module: Module::CombineSink,
            template: name_template(pid, "demux"@),
            slaves: sink_names(sinks),
            progress: CreationProgressView::Naming,
        }
    }

    /// The arguments that the module is loaded with in order to create a sink
    /// with the given name.
    pub open spec fn args(self, name: Seq<char>) -> Seq<char> {
        match self.module {
            Module::NullSink => "sink_name="@ + name,
            Module::CombineSink => "sink_name="@ + name + ", slaves="@ + text::joined(
                self.slaves,
                ","@,
            ),
        }
    }

    /// Whether `reply` is of the form that is needed to proceed.
    pub open spec fn expects(self, reply: SinkReplyView) -> bool {
        match self.progress {
            CreationProgressView::Naming => reply is Sinks,
            CreationProgressView::Loading(_) => reply is Module,
            CreationProgressView::Finding(..) => reply is Sinks,
            CreationProgressView::Unloading(_) => reply is Status,
            CreationProgressView::Finished => false,
        }
    }

    /// This state at a different point of the procedure.
    pub open spec fn at(self, progress: CreationProgressView) -> CreationState {
        CreationState { progress, ..self }
    }

    /// Completes the procedure with the given result.
    pub open spec fn finish(self, result: Result<owned::SinkView, Code>) -> (
        CreationState,
        SinkStepView<owned::SinkView>,
    ) {
        (self.at(CreationProgressView::Finished), SinkStepView::Done(result))
    }

    /// Unloads the given module because of an error.
    pub open spec fn unload(self, module: u32, e: Code) -> (
        CreationState,
        SinkStepView<owned::SinkView>,
    ) {
        (
            self.at(CreationProgressView::Unloading(e)),
            SinkStepView::Request(SinkRequestView::UnloadModule(module)),
        )
    }

    /// The step that follows the given reply: a unique name is determined, then
    /// the module is loaded, then the sink is looked up among all sinks.
    pub open spec fn resume_next(self, reply: SinkReplyView) -> (
        CreationState,
        SinkStepView<owned::SinkView>,
    ) {
        match self.progress {
            CreationProgressView::Naming => match reply->Sinks_0 {
                Ok(sinks) => {
                    let name = unique_name(self.template, unique_number(sinks, self.template));
                    (
                        self.at(CreationProgressView::Loading(name)),
                        SinkStepView::Request(
                            SinkRequestView::LoadModule(self.module, self.args(name)),
                        ),
                    )
                },
                Err(e) => self.finish(Err(e)),
            },
            CreationProgressView::Loading(name) => match reply->Module_0 {
                Ok(module) => (
                    self.at(CreationProgressView::Finding(name, module)),
                    SinkStepView::Request(SinkRequestView::GetSinks),
                ),
                Err(e) => self.finish(Err(e)),
            },
            CreationProgressView::Finding(name, module) => match reply->Sinks_0 {
                Ok(sinks) => match created_sink(sinks, name, module) {
                    Ok(sink) => self.finish(Ok(sink)),
                    Err(e) => self.unload(module, e),
                },
                Err(e) => self.unload(module, e),
            },
            CreationProgressView::Unloading(e) => match reply->Status_0 {
                Ok(()) => self.finish(Err(e)),
                Err(e2) => self.finish(Err(e2)),
            },
            CreationProgressView::Finished => self.finish(Err(Code::BadState)),
        }
    }
}

impl SinkCreation {
    /// The state of this procedure.
    pub closed spec fn state(&self) -> CreationState {
        CreationState {
            module: self.module,
            template: self.template@,
            slaves: text::views(self.slaves@),
            progress: self.progress.view(),
        }
    }

    /// Begins to create a virtual audio sink dedicated for recording audio. No
    /// audio sent to this sink is sent to any other audio devices on the system.
    ///
    /// All sinks have to be looked up first.
    pub fn create_rec_sink(pid: u32) -> (r: (Self, SinkRequest))
        ensures
            r.0.state() == CreationState::rec(pid),
            r.1@ == SinkRequestView::GetSinks,
    {
        let r = SinkCreation {
            module: Module::NullSink,
            template: get_name_template(pid, "rec"),
            slaves: Vec::new(),
            progress: CreationProgress::Naming,
        };
        assert(r.state().slaves =~= Seq::empty());
        (r, SinkRequest::GetSinks)
    }

    /// Begins to create a sink that duplicates audio routed to it to other
    /// sinks, useful for setting up an audio capture routing that does not
    /// impede that audio ultimately reaching a hardware audio device. Sinks
    /// without a name cannot be attached.
    ///
    /// All sinks have to be looked up first.
    pub fn create_demux_sink(pid: u32, sinks: &Vec<OwnedSinkInfo>) -> (r: (Self, SinkRequest))
        ensures
            r.0.state() == CreationState::demux(pid, introspect::sink_views(sinks@)),
            r.1@ == SinkRequestView::GetSinks,
    {
        let r = SinkCreation {
            module: Module::CombineSink,
            template: get_name_template(pid, "demux"),
            slaves: get_sink_names(sinks),
            progress: CreationProgress::Naming,
        };
        (r, SinkRequest::GetSinks)
    }

    /// Renders the arguments that the module is loaded with in order to create
    /// a sink with the given name.
    fn args(&self, name: &str) -> (r: String)
        ensures
            r@ == self.state().args(name@),
    {
        let mut r = "sink_name=".to_owned();
        r.append(name);
        match self.module {
            Module::NullSink => {},
            Module::CombineSink => {
                r.append(", slaves=");
                r.append(text::join_text(&self.slaves, ",").as_str());
            },
        }
        r
    }

    /// Continues the procedure with the reply to its last request.
    pub fn resume(&mut self, reply: SinkReply) -> (r: SinkStep<OwnedSinkInfo>)
        requires
            old(self).state().expects(reply@),
        ensures
            (final(self).state(), r@) == old(self).state().resume_next(reply@),
    {
        let mut progress = CreationProgress::Finished;
        std::mem::swap(&mut progress, &mut self.progress);

        match (progress, reply) {
            (CreationProgress::Naming, SinkReply::Sinks(Ok(sinks))) => {
                let name = get_unique_sink_name(self.template.as_str(), &sinks);
                let args = self.args(name.as_str());
                self.progress = CreationProgress::Loading(name);
                SinkStep::Request(SinkRequest::LoadModule(self.module, args))
            },
            (CreationProgress::Loading(name), SinkReply::Module(Ok(module))) => {
                self.progress = CreationProgress::Finding(name, module);
                SinkStep::Request(SinkRequest::GetSinks)
            },
            (CreationProgress::Finding(name, module), SinkReply::Sinks(Ok(sinks))) => {
                match get_created_virtual_sink(&sinks, name.as_str(), module) {
                    Ok(sink) => SinkStep::Done(Ok(sink)),
                    Err(e) => {
                        self.progress = CreationProgress::Unloading(e);
                        SinkStep::Request(SinkRequest::UnloadModule(module))
                    },
                }
            },
            (CreationProgress::Finding(_, module), SinkReply::Sinks(Err(e))) => {
                self.progress = CreationProgress::Unloading(e);
                SinkStep::Request(SinkRequest::UnloadModule(module))
            },
            (CreationProgress::Naming, SinkReply::Sinks(Err(e)))
            | (CreationProgress::Loading(_), SinkReply::Module(Err(e)))
            | (CreationProgress::Unloading(e), SinkReply::Status(Ok(())))
            | (CreationProgress::Unloading(_), SinkReply::Status(Err(e))) => {
                SinkStep::Done(Err(e))
            },
            _ => {
                assert(false);
                SinkStep::Done(Err(Code::BadState))
            },
        }
    }
}

// DUPLEX SETUP ****************************************************************

/// The sinks used by a duplexing interceptor.
#[derive(Debug)]
pub struct DuplexSinks {
    pub rec: OwnedSinkInfo,
    pub demux: OwnedSinkInfo,
}

/// The contents of [`DuplexSinks`].
pub struct DuplexSinksView {
    pub rec: owned::SinkView,
    pub demux: owned::SinkView,
}

impl View for DuplexSinks {
    type V = DuplexSinksView;

    open spec fn view(&self) -> DuplexSinksView {
        DuplexSinksView { rec: self.rec@, demux: self.demux@ }
    }
}

/// Progress of a [`DuplexSetup`].
enum DuplexProgress {
    CreatingRec(SinkCreation),
    CreatingDemux(SinkCreation, OwnedSinkInfo),
    Unloading(Code),
    Finished,
}

/// The creation of the sinks used by a duplexing interceptor: a sink dedicated
/// to recording, and one that duplicates audio to that sink and another one.
///
/// If the second sink cannot be created, then the first one is removed again.
pub struct DuplexSetup {
    pid: u32,
    sink: OwnedSinkInfo,
    progress: DuplexProgress,
}

/// The contents of a [`DuplexProgress`].
pub enum DuplexProgressView {
    CreatingRec(CreationState),
    CreatingDemux(CreationState, owned::SinkView),
    Unloading(Code),
    Finished,
}

/// The state of a [`DuplexSetup`].
pub struct DuplexState {
    pub pid: u32,
    pub sink: owned::SinkView,
    pub progress: DuplexProgressView,
}

impl DuplexProgress {
    spec fn view(&self) -> DuplexProgressView {
        match *self {
            DuplexProgress::CreatingRec(c) => DuplexProgressView::CreatingRec(c.state()),
            DuplexProgress::CreatingDemux(c, rec) => DuplexProgressView::CreatingDemux(
                c.state(),
                rec@,
            ),
            DuplexProgress::Unloading(e) => DuplexProgressView::Unloading(e),
            DuplexProgress::Finished => DuplexProgressView::Finished,
        }
    }
}

impl DuplexState {
    /// Whether `reply` is of the form that is needed to proceed.
    pub open spec fn expects(self, reply: SinkReplyView) -> bool {
        match self.progress {
            DuplexProgressView::CreatingRec(c) => c.expects(reply),
            DuplexProgressView::CreatingDemux(c, _) => c.expects(reply),
            DuplexProgressView::Unloading(_) => reply is Status,
            DuplexProgressView::Finished => false,
        }
    }

    /// Proceeds to the given point of the procedure with a request.
    pub open spec fn ask(self, progress: DuplexProgressView, request: SinkRequestView) -> (
        DuplexState,
        SinkStepView<DuplexSinksView>,
    ) {
        (DuplexState { progress, ..self }, SinkStepView::Request(request))
    }

    /// Completes the procedure with the given result.
    pub open spec fn finish(self, result: Result<DuplexSinksView, Code>) -> (
        DuplexState,
        SinkStepView<DuplexSinksView>,
    ) {
        (
            DuplexState { progress: DuplexProgressView::Finished, ..self },
            SinkStepView::Done(result),
        )
    }

    /// The step that follows the given reply.
    pub open spec fn resume_next(self, reply: SinkReplyView) -> (
        DuplexState,
        SinkStepView<DuplexSinksView>,
    ) {
        match self.progress {
            DuplexProgressView::CreatingRec(c) => {
                let (next, step) = c.resume_next(reply);
                match step {
                    SinkStepView::Request(request) => self.ask(
                        DuplexProgressView::CreatingRec(next),
                        request,
                    ),
                    SinkStepView::Done(Ok(rec)) => self.ask(
                        DuplexProgressView::CreatingDemux(
                            CreationState::demux(self.pid, seq![rec, self.sink]),
                            rec,
                        ),
                        SinkRequestView::GetSinks,
                    ),
                    SinkStepView::Done(Err(e)) => self.finish(Err(e)),
                }
            },
            DuplexProgressView::CreatingDemux(c, rec) => {
                let (next, step) = c.resume_next(reply);
                match step {
                    SinkStepView::Request(request) => self.ask(
                        DuplexProgressView::CreatingDemux(next, rec),
                        request,
                    ),
                    SinkStepView::Done(Ok(demux)) => self.finish(
                        Ok(DuplexSinksView { rec, demux }),
                    ),
                    SinkStepView::Done(Err(e)) => match rec.owner_module {
                        Some(module) => self.ask(
                            DuplexProgressView::Unloading(e),
                            SinkRequestView::UnloadModule(module),
                        ),
                        None => self.finish(Err(e)),
                    },
                }
            },
            DuplexProgressView::Unloading(e) => match reply->Status_0 {
                Ok(()) => self.finish(Err(e)),
                Err(e2) => self.finish(Err(e2)),
            },
            DuplexProgressView::Finished => self.finish(Err(Code::BadState)),
        }
    }
}

impl DuplexSetup {
    /// The state of this procedure.
    pub closed spec fn state(&self) -> DuplexState {
        DuplexState { pid: self.pid, sink: self.sink@, progress: self.progress.view() }
    }

    /// Begins to create the sinks used by a duplexing interceptor that lets
    /// audio through to the given sink. All sinks have to be looked up first.
    pub fn new(pid: u32, sink: OwnedSinkInfo) -> (r: (Self, SinkRequest))
        ensures
            r.0.state() == (DuplexState {
                pid,
                sink: sink@,
                progress: DuplexProgressView::CreatingRec(CreationState::rec(pid)),
            }),
            r.1@ == SinkRequestView::GetSinks,
    {
        let (creation, request) = SinkCreation::create_rec_sink(pid);
        (DuplexSetup { pid, sink, progress: DuplexProgress::CreatingRec(creation) }, request)
    }

    /// Returns the sink that audio is let through to.
    pub fn into_sink(self) -> (r: OwnedSinkInfo)
        ensures
            r@ == self.state().sink,
    {
        self.sink
    }

    /// Continues the procedure with the reply to its last request.
    pub fn resume(&mut self, reply: SinkReply) -> (r: SinkStep<DuplexSinks>)
        requires
            old(self).state().expects(reply@),
        ensures
            (final(self).state(), r@) == old(self).state().resume_next(reply@),
    {
        let mut progress = DuplexProgress::Finished;
        std::mem::swap(&mut progress, &mut self.progress);

        match progress {
            DuplexProgress::CreatingRec(mut creation) => match creation.resume(reply) {
                SinkStep::Request(request) => {
                    self.progress = DuplexProgress::CreatingRec(creation);
                    SinkStep::Request(request)
                },
                SinkStep::Done(Ok(rec)) => {
                    let mut sinks: Vec<OwnedSinkInfo> = Vec::new();
                    sinks.push(rec.clone());
                    sinks.push(self.sink.clone());
                    assert(introspect::sink_views(sinks@) =~= seq![rec@, self.sink@]);
                    let (creation, request) = SinkCreation::create_demux_sink(self.pid, &sinks);
                    self.progress = DuplexProgress::CreatingDemux(creation, rec);
                    SinkStep::Request(request)
                },
                SinkStep::Done(Err(e)) => SinkStep::Done(Err(e)),
            },
            DuplexProgress::CreatingDemux(mut creation, rec) => match creation.resume(reply) {
                SinkStep::Request(request) => {
                    self.progress = DuplexProgress::CreatingDemux(creation, rec);
                    SinkStep::Request(request)
                },
                SinkStep::Done(Ok(demux)) => SinkStep::Done(Ok(DuplexSinks { rec, demux })),
                SinkStep::Done(Err(e)) => match rec.owner_module {
                    Some(module) => {
                        self.progress = DuplexProgress::Unloading(e);
                        SinkStep::Request(SinkRequest::UnloadModule(module))
                    },
                    None => SinkStep::Done(Err(e)),
                },
            },
            DuplexProgress::Unloading(e) => match reply {
                SinkReply::Status(Err(e2)) => SinkStep::Done(Err(e2)),
                _ => SinkStep::Done(Err(e)),
            },
            DuplexProgress::Finished => SinkStep::Done(Err(Code::BadState)),
        }
    }
}

// TEARDOWN ********************************************************************

/// Something that has to be done in order to tear down a virtual sink.
#[derive(Debug)]
pub enum TeardownRequest {
    /// Look up the sink inputs attached to the sink with the given index.
    GetInputs(u32),

    /// Look up the default sink of the system.
    GetDefaultSink,

    /// Attach all of the given sink inputs to the sink with the given index.
    MoveInputs(Vec<u32>, u32),

    /// Unload the module with the given index.
    UnloadModule(u32),
}

/// The reply to a [`TeardownRequest`].
#[derive(Debug)]
pub enum TeardownReply {
    /// The indices of the sink inputs that were looked up.
    Inputs(Result<Vec<u32>, Code>),

    /// The index of the sink that was looked up.
    Sink(Result<u32, Code>),

    /// For each of the sink inputs, whether it was moved.
    Moved(Vec<Result<(), Code>>),

    /// Whether the request was successful.
    Status(Result<(), Code>),
}

/// Problems that occurred while tearing down a virtual sink.
#[derive(Debug, Clone, Copy)]
pub struct TeardownReport {
    /// There were unknown applications attached to the sink.
    pub unknown_inputs: bool,

    /// The applications attached to the sink could not be determined.
    pub lookup_error: Option<Code>,

    /// The sink to which to move applications could not be determined.
    pub target_error: Option<Code>,

    /// Not all applications could be moved.
    pub move_failed: bool,

    /// Whether the module that provides the sink was unloaded. This is `None` if
    /// no module provides it.
    pub unloaded: Option<Result<(), Code>>,
}

/// A step of tearing down a virtual sink.
#[derive(Debug)]
pub enum TeardownStep {
    /// The reply to the given request is needed to proceed.
    Request(TeardownRequest),

    /// The procedure is complete.
    Done(TeardownReport),
}

/// The contents of a [`TeardownRequest`].
pub enum TeardownRequestView {
    GetInputs(u32),
    GetDefaultSink,
    MoveInputs(Seq<u32>, u32),
    UnloadModule(u32),
}

/// The contents of a [`TeardownReply`].
pub enum TeardownReplyView {
    Inputs(Result<Seq<u32>, Code>),
    Sink(Result<u32, Code>),
    Moved(Seq<Result<(), Code>>),
    Status(Result<(), Code>),
}

/// The contents of a [`TeardownStep`].
pub enum TeardownStepView {
    Request(TeardownRequestView),
    Done(TeardownReport),
}

impl View for TeardownRequest {
    type V = TeardownRequestView;

    open spec fn view(&self) -> TeardownRequestView {
        match *self {
            TeardownRequest::GetInputs(index) => TeardownRequestView::GetInputs(index),
            TeardownRequest::GetDefaultSink => TeardownRequestView::GetDefaultSink,
            TeardownRequest::MoveInputs(inputs, sink) => TeardownRequestView::MoveInputs(
                inputs@,
                sink,
            ),
            TeardownRequest::UnloadModule(index) => TeardownRequestView::UnloadModule(index),
        }
    }
}

impl View for TeardownReply {
    type V = TeardownReplyView;

    open spec fn view(&self) -> TeardownReplyView {
        match *self {
            TeardownReply::Inputs(Ok(inputs)) => TeardownReplyView::Inputs(Ok(inputs@)),
            TeardownReply::Inputs(Err(e)) => TeardownReplyView::Inputs(Err(e)),
            TeardownReply::Sink(r) => TeardownReplyView::Sink(r),
            TeardownReply::Moved(results) => TeardownReplyView::Moved(results@),
            TeardownReply::Status(r) => TeardownReplyView::Status(r),
        }
    }
}

impl View for TeardownStep {
    type V = TeardownStepView;

    open spec fn view(&self) -> TeardownStepView {
        match *self {
            TeardownStep::Request(request) => TeardownStepView::Request(request@),
            TeardownStep::Done(report) => TeardownStepView::Done(report),
        }
    }
}

/// Progress of a [`SinkTeardown`].
enum TeardownProgress {
    FindingInputs,
    FindingTarget(Vec<u32>),
    Moving,
    Unloading,
    Finished,
}

/// The teardown of a virtual sink.
///
/// Any sink inputs still attached to the sink are moved to another sink, which
/// is the default sink unless specified otherwise. The sink is torn down whether
/// this succeeds or not.
pub struct SinkTeardown {
    index: u32,
    owner_module: Option<u32>,
    move_target: Option<u32>,
    report: TeardownReport,
    progress: TeardownProgress,
}

/// The contents of a [`TeardownProgress`].
pub enum TeardownProgressView {
    FindingInputs,
    FindingTarget(Seq<u32>),
    Moving,
    Unloading,
    Finished,
}

/// The state of a [`SinkTeardown`].
pub struct TeardownState {
    pub index: u32,
    pub owner_module: Option<u32>,
    pub move_target: Option<u32>,
    pub report: TeardownReport,
    pub progress: TeardownProgressView,
}

impl TeardownProgress {
    spec fn view(&self) -> TeardownProgressView {
        match *self {
            TeardownProgress::FindingInputs => TeardownProgressView::FindingInputs,
            TeardownProgress::FindingTarget(inputs) => TeardownProgressView::FindingTarget(inputs@),
            TeardownProgress::Moving => TeardownProgressView::Moving,
            TeardownProgress::Unloading => TeardownProgressView::Unloading,
            TeardownProgress::Finished => TeardownProgressView::Finished,
        }
    }
}

impl TeardownReport {
    /// The report at the beginning of the procedure.
    pub open spec fn clear() -> TeardownReport {
        TeardownReport {
            unknown_inputs: false,
            lookup_error: None,
            target_error: None,
            move_failed: false,
            unloaded: None,
        }
    }
}

/// Whether all of the given results represent success.
pub open spec fn all_ok(results: Seq<Result<(), Code>>) -> bool {
    forall|i: int| 0 <= i < results.len() ==> (#[trigger] results[i]) is Ok
}

impl TeardownState {
    /// Whether `reply` is of the form that is needed to proceed.
    pub open spec fn expects(self, reply: TeardownReplyView) -> bool {
        match self.progress {
            TeardownProgressView::FindingInputs => reply is Inputs,
            TeardownProgressView::FindingTarget(_) => reply is Sink,
            TeardownProgressView::Moving => reply is Moved,
            TeardownProgressView::Unloading => reply is Status,
            TeardownProgressView::Finished => false,
        }
    }

    /// Proceeds to the given point of the procedure with a request.
    pub open spec fn ask(self, progress: TeardownProgressView, request: TeardownRequestView) -> (
        TeardownState,
        TeardownStepView,
    ) {
        (TeardownState { progress, ..self }, TeardownStepView::Request(request))
    }

    /// Completes the procedure.
    pub open spec fn finish(self, report: TeardownReport) -> (TeardownState, TeardownStepView) {
        (
            TeardownState { report, progress: TeardownProgressView::Finished, ..self },
            TeardownStepView::Done(report),
        )
    }

    /// Tears down the sink once it has been dealt with the applications that are
    /// attached to it.
    pub open spec fn unload(self, report: TeardownReport) -> (TeardownState, TeardownStepView) {
        match self.owner_module {
            Some(module) => TeardownState { report, ..self }.ask(
                TeardownProgressView::Unloading,
                TeardownRequestView::UnloadModule(module),
            ),
            None => self.finish(report),
        }
    }

    /// The step that follows the given reply.
    pub open spec fn resume_next(self, reply: TeardownReplyView) -> (
        TeardownState,
        TeardownStepView,
    ) {
        match self.progress {
            TeardownProgressView::FindingInputs => match reply->Inputs_0 {
                Ok(inputs) => {
                    let noted = TeardownState {
                        report: TeardownReport { unknown_inputs: true, ..self.report },
                        ..self
                    };
                    if inputs.len() == 0 {
                        self.unload(self.report)
                    } else {
                        match self.move_target {
                            Some(target) => noted.ask(
                                TeardownProgressView::Moving,
                                TeardownRequestView::MoveInputs(inputs, target),
                            ),
                            None => noted.ask(
                                TeardownProgressView::FindingTarget(inputs),
                                TeardownRequestView::GetDefaultSink,
                            ),
                        }
                    }
                },
                Err(e) => self.unload(TeardownReport { lookup_error: Some(e), ..self.report }),
            },
            TeardownProgressView::FindingTarget(inputs) => match reply->Sink_0 {
                Ok(target) => self.ask(
                    TeardownProgressView::Moving,
                    TeardownRequestView::MoveInputs(inputs, target),
                ),
                Err(e) => self.unload(TeardownReport { target_error: Some(e), ..self.report }),
            },
            TeardownProgressView::Moving => self.unload(
                TeardownReport { move_failed: !all_ok(reply->Moved_0), ..self.report },
            ),
            TeardownProgressView::Unloading => self.finish(
                TeardownReport { unloaded: Some(reply->Status_0), ..self.report },
            ),
            TeardownProgressView::Finished => self.finish(self.report),
        }
    }
}

/// Determines whether all of the given results represent success.
fn check_all_ok(results: &Vec<Result<(), Code>>) -> (r: bool)
    ensures
        r == all_ok(results@),
{
    let mut i: usize = 0;
    while i < results.len()
        invariant
            i <= results.len(),
            forall|j: int| 0 <= j < i ==> (#[trigger] results@[j]) is Ok,
        decreases results.len() - i,
    {
        if results[i].is_err() {
            assert(!(results@[i as int] is Ok));
            return false;
        }
        i = i + 1;
    }
    true
}

impl SinkTeardown {
    /// The state of this procedure.
    pub closed spec fn state(&self) -> TeardownState {
        TeardownState {
            index: self.index,
            owner_module: self.owner_module,
            move_target: self.move_target,
            report: self.report,
            progress: self.progress.view(),
        }
    }

    /// Begins to tear down the virtual sink described by the given metadata.
    ///
    /// Any sink inputs still attached to the sink will be moved to the sink
    /// with the index `move_target`, or the default sink, if no such sink is
    /// provided.
    pub fn tear_down_virtual_sink(sink: &OwnedSinkInfo, move_target: Option<u32>) -> (r: (
        Self,
        TeardownRequest,
    ))
        ensures
            r.0.state() == (TeardownState {
                index: sink.index,
                owner_module: sink.owner_module,
                move_target,
                report: TeardownReport::clear(),
                progress: TeardownProgressView::FindingInputs,
            }),
            r.1@ == TeardownRequestView::GetInputs(sink.index),
    {
        let report = TeardownReport {
            unknown_inputs: false,
            lookup_error: None,
            target_error: None,
            move_failed: false,
            unloaded: None,
        };
        let teardown = SinkTeardown {
            index: sink.index,
            owner_module: sink.owner_module,
            move_target,
            report,
            progress: TeardownProgress::FindingInputs,
        };
        (teardown, TeardownRequest::GetInputs(sink.index))
    }

    /// Unloads the module that provides the sink, if any.
    fn unload(&mut self) -> (r: TeardownStep)
        ensures
            (final(self).state(), r@) == old(self).state().unload(old(self).state().report),
    {
        match self.owner_module {
            Some(module) => {
                self.progress = TeardownProgress::Unloading;
                TeardownStep::Request(TeardownRequest::UnloadModule(module))
            },
            None => {
                self.progress = TeardownProgress::Finished;
                TeardownStep::Done(self.report)
            },
        }
    }

    /// Continues the procedure with the reply to its last request.
    pub fn resume(&mut self, reply: TeardownReply) -> (r: TeardownStep)
        requires
            old(self).state().expects(reply@),
        ensures
            (final(self).state(), r@) == old(self).state().resume_next(reply@),
    {
        let mut progress = TeardownProgress::Finished;
        std::mem::swap(&mut progress, &mut self.progress);

        match (progress, reply) {
            // Move any lingering sink inputs to another sink
            (TeardownProgress::FindingInputs, TeardownReply::Inputs(Ok(inputs))) => {
                if inputs.len() == 0 {
                    return self.unload();
                }

                self.report.unknown_inputs = true;
                match self.move_target {
                    Some(target) => {
                        self.progress = TeardownProgress::Moving;
                        TeardownStep::Request(TeardownRequest::MoveInputs(inputs, target))
                    },
                    None => {
                        self.progress = TeardownProgress::FindingTarget(inputs);
                        TeardownStep::Request(TeardownRequest::GetDefaultSink)
                    },
                }
            },
            (TeardownProgress::FindingInputs, TeardownReply::Inputs(Err(e))) => {
                self.report.lookup_error = Some(e);
                self.unload()
            },
            (TeardownProgress::FindingTarget(inputs), TeardownReply::Sink(Ok(target))) => {
                self.progress = TeardownProgress::Moving;
                TeardownStep::Request(TeardownRequest::MoveInputs(inputs, target))
            },
            (TeardownProgress::FindingTarget(_), TeardownReply::Sink(Err(e))) => {
                self.report.target_error = Some(e);
                self.unload()
            },
            (TeardownProgress::Moving, TeardownReply::Moved(results)) => {
                self.report.move_failed = !check_all_ok(&results);
                self.unload()
            },
            (TeardownProgress::Unloading, TeardownReply::Status(result)) => {
                self.report.unloaded = Some(result);
                TeardownStep::Done(self.report)
            },
            _ => {
                assert(false);
                TeardownStep::Done(self.report)
            },
        }
    }
}

// CLOSING *********************************************************************

/// Keeps track of stopping all intercepts of an interceptor, one after another.
pub struct StopAll {
    remaining: Vec<u32>,
    failed: Vec<(u32, Code)>,
}

impl StopAll {
    /// The applications that still have to be stopped, the next one last.
    pub closed spec fn remaining(&self) -> Seq<u32> {
        self.remaining@
    }

    /// The applications that could not be stopped, and why.
    pub closed spec fn failed(&self) -> Seq<(u32, Code)> {
        self.failed@
    }

    /// Begins to stop the given intercepts.
    pub fn new(inputs: Vec<u32>) -> (r: Self)
        ensures
            r.remaining() == inputs@,
            r.failed() == Seq::<(u32, Code)>::empty(),
    {
        StopAll { remaining: inputs, failed: Vec::new() }
    }

    /// Returns the next application to stop, if there is one left.
    pub fn next_input(&mut self) -> (r: Option<u32>)
        ensures
            final(self).failed() == old(self).failed(),
            match r {
                Some(input) => old(self).remaining() == final(self).remaining().push(input),
                None => old(self).remaining().len() == 0 && final(self).remaining() == old(
                    self,
                ).remaining(),
            },
    {
        let r = self.remaining.pop();
        assert(r is Some ==> old(self).remaining@ =~= self.remaining@.push(r->0));
        r
    }

    /// Records the outcome of stopping an application. Failures do not prevent
    /// the remaining applications from being stopped.
    pub fn stopped(&mut self, input: u32, result: Result<bool, Code>)
        ensures
            final(self).remaining() == old(self).remaining(),
            final(self).failed() == (match result {
                Ok(_) => old(self).failed(),
                Err(e) => old(self).failed().push((input, e)),
            }),
    {
        if let Err(e) = result {
            self.failed.push((input, e));
        }
    }

    /// Returns the applications that could not be stopped.
    pub fn into_failures(self) -> (r: Vec<(u32, Code)>)
        ensures
            r@ == self.failed(),
    {
        self.failed
    }
}

// LAWS ************************************************************************

/// The name that is chosen for a new virtual sink is not the name of any sink
/// that already exists.
pub proof fn law_sink_names_are_unique(sinks: Seq<owned::SinkView>, template: Seq<char>)
    ensures
        forall|i: int|
            0 <= i < sinks.len() ==> (#[trigger] sinks[i]).name != Some(
                unique_name(template, unique_number(sinks, template)),
            ),
{
    let names = sink_names(sinks);
    lemma_free_number(names, template, 0);
    assert forall|i: int| 0 <= i < sinks.len() implies (#[trigger] sinks[i]).name != Some(
        unique_name(template, unique_number(sinks, template)),
    ) by {
        if sinks[i].name is Some {
            lemma_sink_names_contain(sinks, i);
        }
    }
}

/// The names of sinks include the name of each sink that has one.
proof fn lemma_sink_names_contain(sinks: Seq<owned::SinkView>, i: int)
    requires
        0 <= i < sinks.len(),
        sinks[i].name is Some,
    ensures
        sink_names(sinks).contains(sinks[i].name->0),
    decreases sinks.len(),
{
    let before = sink_names(sinks.drop_last());
    if i < sinks.len() - 1 {
        lemma_sink_names_contain(sinks.drop_last(), i);
        let j = choose|j: int| 0 <= j < before.len() && before[j] == sinks[i].name->0;
        assert(sink_names(sinks)[j] == sinks[i].name->0);
    } else {
        assert(sink_names(sinks)[before.len() as int] == sinks[i].name->0);
    }
}

/// The least free number is indeed free, provided that the numbers below the one
/// to start from are taken.
proof fn lemma_free_number(names: Seq<Seq<char>>, template: Seq<char>, from: nat)
    requires
        from <= names.len(),
        forall|n: nat| n < from ==> names.contains(#[trigger] unique_name(template, n)),
    ensures
        !names.contains(unique_name(template, free_number(names, template, from))),
    decreases names.len() - from,
{
    if names.contains(unique_name(template, from)) {
        if from < names.len() {
            lemma_free_number(names, template, from + 1);
        } else {
            // There are more numbers than names.
            let numbered = Seq::new(from + 1, |i: int| unique_name(template, i as nat));
            assert forall|i: int, j: int| 0 <= i < j < numbered.len() implies numbered[i]
                != numbered[j] by {
                lemma_unique_name_injective(template, i as nat, j as nat);
            }
            numbered.unique_seq_to_set();
            names.lemma_cardinality_of_set();
            assert forall|name: Seq<char>| numbered.to_set().contains(name) implies
                names.to_set().contains(name) by {
                let i = choose|i: int| 0 <= i < numbered.len() && numbered[i] == name;
                assert(names.contains(unique_name(template, i as nat)));
            }
            vstd::set_lib::lemma_len_subset(numbered.to_set(), names.to_set());
        }
    }
}

/// Names with different numbers are different.
proof fn lemma_unique_name_injective(template: Seq<char>, m: nat, n: nat)
    requires
        m != n,
    ensures
        unique_name(template, m) != unique_name(template, n),
{
    if unique_name(template, m) == unique_name(template, n) {
        let start = (template + "-"@).len() as int;
        assert(unique_name(template, m).skip(start) =~= text::decimal(m));
        assert(unique_name(template, n).skip(start) =~= text::decimal(n));
        text::lemma_decimal_injective(m, n);
    }
}

/// The sink that is found after its module has been loaded is one of the
/// existing sinks, and is provided by that module.
pub proof fn law_created_sink_is_provided(
    sinks: Seq<owned::SinkView>,
    name: Seq<char>,
    module: u32,
)
    ensures
        match created_sink(sinks, name, module) {
            Ok(sink) => sinks.contains(sink) && is_created(sink, name, module),
            Err(e) => e == Code::NoEntity && forall|i: int|
                0 <= i < sinks.len() ==> !is_created(#[trigger] sinks[i], name, module),
        },
    decreases sinks.len(),
{
    if sinks.len() > 0 {
        let rest = sinks.skip(1);
        law_created_sink_is_provided(rest, name, module);
        if is_created(sinks[0], name, module) {
            assert(sinks.contains(sinks[0]));
        } else {
            match created_sink(rest, name, module) {
                Ok(sink) => {
                    let i = choose|i: int| 0 <= i < rest.len() && rest[i] == sink;
                    assert(sinks[i + 1] == sink);
                },
                Err(_) => {
                    assert forall|i: int| 0 <= i < sinks.len() implies !is_created(
                        #[trigger] sinks[i],
                        name,
                        module,
                    ) by {
                        if i > 0 {
                            assert(rest[i - 1] == sinks[i]);
                        }
                    }
                },
            }
        }
    }
}

/// If a sink cannot be found after its module has been loaded, then the module
/// is unloaded before the failure is reported.
pub proof fn law_failed_creation_unloads(
    state: CreationState,
    name: Seq<char>,
    module: u32,
    reply: SinkReplyView,
    unloaded: Result<(), Code>,
)
    requires
        state.progress == CreationProgressView::Finding(name, module),
        state.expects(reply),
    ensures
        ({
            let (next, step) = state.resume_next(reply);
            let last = next.resume_next(SinkReplyView::Status(unloaded)).1;
            match step {
                SinkStepView::Done(result) => result matches Ok(sink) && is_created(
                    sink,
                    name,
                    module,
                ),
                SinkStepView::Request(request) => {
                    &&& request == SinkRequestView::UnloadModule(module)
                    &&& last matches SinkStepView::Done(result)
                    &&& result is Err
                },
            }
        }),
{
    if let SinkReplyView::Sinks(Ok(sinks)) = reply {
        law_created_sink_is_provided(sinks, name, module);
    }
}

/// If the second sink of a duplexing interceptor cannot be created, then the
/// first one is removed before the failure is reported.
pub proof fn law_failed_duplex_removes_sink(
    state: DuplexState,
    creation: CreationState,
    rec: owned::SinkView,
    module: u32,
    reply: SinkReplyView,
    unloaded: Result<(), Code>,
)
    requires
        state.progress == DuplexProgressView::CreatingDemux(creation, rec),
        rec.owner_module == Some(module),
        state.expects(reply),
        creation.resume_next(reply).1 matches SinkStepView::Done(result) && result is Err,
    ensures
        ({
            let (next, step) = state.resume_next(reply);
            let last = next.resume_next(SinkReplyView::Status(unloaded)).1;
            &&& step == SinkStepView::<DuplexSinksView>::Request(
                SinkRequestView::UnloadModule(module),
            )
            &&& last matches SinkStepView::Done(result)
            &&& result is Err
        }),
{
}

/// A duplexing interceptor lets audio through: the second of its sinks
/// duplicates audio to the first one and to the original one.
pub proof fn law_duplex_reaches_sink(
    state: DuplexState,
    creation: CreationState,
    reply: SinkReplyView,
    rec: owned::SinkView,
    name: Seq<char>,
)
    requires
        state.progress == DuplexProgressView::CreatingRec(creation),
        creation.resume_next(reply).1 == SinkStepView::<owned::SinkView>::Done(Ok(rec)),
        rec.name is Some,
        state.sink.name is Some,
    ensures
        state.resume_next(reply).0.progress matches DuplexProgressView::CreatingDemux(demux, r)
            && r == rec && demux.args(name) == "sink_name="@ + name + ", slaves="@ + text::joined(
            seq![rec.name.unwrap(), state.sink.name.unwrap()],
            ","@,
        ),
{
    let sinks = seq![rec, state.sink];
    assert(sinks.drop_last() =~= seq![rec]);
    assert(sinks.drop_last().drop_last() =~= Seq::empty());
    assert(sink_names(Seq::empty()) =~= Seq::empty());
    assert(sink_names(seq![rec]) =~= seq![rec.name.unwrap()]);
    assert(sink_names(sinks) =~= seq![rec.name.unwrap(), state.sink.name.unwrap()]);
}

/// Whatever else fails, a sink is not considered torn down before its module has
/// been unloaded.
pub proof fn law_teardown_unloads(state: TeardownState, reply: TeardownReplyView, module: u32)
    requires
        state.owner_module == Some(module),
        state.expects(reply),
        !(state.progress is Unloading),
    ensures
        state.resume_next(reply).1 is Request,
        state.resume_next(reply).0.owner_module == Some(module),
        state.resume_next(reply).0.progress is Unloading ==> state.resume_next(reply).1
            == TeardownStepView::Request(TeardownRequestView::UnloadModule(module)),
{
}

/// Applications that are still attached to a sink are moved to the specified
/// sink before it is torn down.
pub proof fn law_teardown_moves_inputs(state: TeardownState, inputs: Seq<u32>, target: u32)
    requires
        state.progress is FindingInputs,
        state.move_target == Some(target),
        inputs.len() > 0,
    ensures
        state.resume_next(TeardownReplyView::Inputs(Ok(inputs))).1 == TeardownStepView::Request(
            TeardownRequestView::MoveInputs(inputs, target),
        ),
{
}

} // verus!
