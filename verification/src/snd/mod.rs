//! Sound drivers.
//!
//! A sound driver consists of a configuration type, an entry point that provides
//! an IEEE 754 32-bit floating point stereo audio stream at 48 kHz, and a unique
//! name. When no driver is specified, the first driver with an available backend
//! is selected.

pub mod laws;
pub mod pulse;
pub mod types;

use vstd::prelude::*;

use crate::util::text;

use self::types::{StartError, StartErrorView};

verus! {

// TYPE DEFINITIONS ************************************************************

/// Sound drivers available in the application.
#[derive(Debug, Clone, Copy, PartialEq, Eq, Structural)]
pub enum DriverName {
    Pulse,
}

/// What follows an attempt to start a driver.
#[derive(Debug)]
pub enum SearchStep<D> {
    /// Attempt to start the given driver.
    TryDriver(DriverName),

    /// The search is complete.
    Done(Result<D, StartError>),
}

/// A search for a driver that can be started.
///
/// If a driver was requested, then only that one is considered. Otherwise, all
/// known drivers are, in order, until one of them successfully connects to its
/// backend.
#[derive(Debug)]
pub struct DriverSearch {
    remaining: Vec<DriverName>,
    autodetect: bool,
}

// MODELS **********************************************************************

/// All sound drivers available in the application, in the order in which they
/// are considered.
pub open spec fn all_drivers() -> Seq<DriverName> {
    seq![DriverName::Pulse]
}

impl DriverName {
    /// The name of this driver.
    pub open spec fn spec_name(self) -> Seq<char> {
        match self {
            DriverName::Pulse => pulse::cfg::DRIVER_NAME@,
        }
    }
}

/// The names of the given drivers.
pub open spec fn driver_names(drivers: Seq<DriverName>) -> Seq<Seq<char>> {
    drivers.map_values(|driver: DriverName| driver.spec_name())
}

/// The state of a [`DriverSearch`].
#[verifier::ext_equal]
pub struct SearchView {
    /// The drivers that have not been tried yet.
    pub remaining: Seq<DriverName>,

    /// Whether all known drivers are considered.
    pub autodetect: bool,
}

/// The contents of a [`SearchStep`].
pub enum SearchStepView<D> {
    TryDriver(DriverName),
    Done(Result<D, StartErrorView>),
}

impl<D> SearchStep<D> {
    /// The contents of this step.
    pub open spec fn view(&self) -> SearchStepView<D> {
        match *self {
            SearchStep::TryDriver(driver) => SearchStepView::TryDriver(driver),
            SearchStep::Done(Ok(driver)) => SearchStepView::Done(Ok(driver)),
            SearchStep::Done(Err(e)) => SearchStepView::Done(Err(e@)),
        }
    }
}

impl SearchView {
    /// The state and the step at the beginning of a search for the driver with
    /// the given name, or for any driver if none is given.
    pub open spec fn begin<D>(name: Option<Seq<char>>) -> (SearchView, SearchStepView<D>) {
        match name {
            Some(name) => {
                let none = SearchView { remaining: Seq::empty(), autodetect: false };
                if driver_names(all_drivers()).contains(name) {
                    let index = driver_names(all_drivers()).index_of(name);
                    (none, SearchStepView::TryDriver(all_drivers()[index]))
                } else {
                    (none, SearchStepView::Done(Err(StartErrorView::UnknownDriver(name))))
                }
            },
            None => SearchView { remaining: all_drivers(), autodetect: true }.try_next(),
        }
    }

    /// Tries the next of the remaining drivers.
    pub open spec fn try_next<D>(self) -> (SearchView, SearchStepView<D>) {
        if self.remaining.len() > 0 {
            (
                SearchView { remaining: self.remaining.skip(1), ..self },
                SearchStepView::TryDriver(self.remaining[0]),
            )
        } else {
            (self, SearchStepView::Done(Err(StartErrorView::NoAvailableBackends)))
        }
    }

    /// The step that follows the given result of starting a driver. The search
    /// only continues if the driver failed to connect to its backend.
    pub open spec fn resume_next<D>(self, result: Result<D, StartErrorView>) -> (
        SearchView,
        SearchStepView<D>,
    ) {
        match result {
            Err(StartErrorView::ConnectionError(_)) if self.autodetect => self.try_next(),
            result => (self, SearchStepView::Done(result)),
        }
    }
}

/// The contents of the result of starting a driver.
pub open spec fn start_result<D>(result: Result<D, StartError>) -> Result<D, StartErrorView> {
    match result {
        Ok(driver) => Ok(driver),
        Err(e) => Err(e@),
    }
}

// TYPE IMPLS ******************************************************************

impl DriverName {
    /// Returns the name of this driver.
    pub fn name(&self) -> (r: &'static str)
        ensures
            r@ == self.spec_name(),
    {
        match self {
            DriverName::Pulse => pulse::cfg::DRIVER_NAME,
        }
    }
}

impl DriverSearch {
    /// The state of this search.
    pub closed spec fn view(&self) -> SearchView {
        SearchView { remaining: self.remaining@, autodetect: self.autodetect }
    }

    /// Starts to search for the driver with the given name, or for any driver if
    /// none is given.
    pub fn new<D>(name: Option<&str>) -> (r: (Self, SearchStep<D>))
        ensures
            (r.0@, r.1@) == SearchView::begin::<D>(
                match name {
                    Some(name) => Some(name@),
                    None => None,
                },
            ),
    {
        let drivers = drivers();
        match name {
            Some(wanted) => {
                let search = DriverSearch { remaining: Vec::new(), autodetect: false };
                let ghost names = driver_names(all_drivers());
                let mut i: usize = 0;
                while i < drivers.len()
                    invariant
                        i <= drivers.len(),
                        name == Some(wanted),
                        drivers@ == all_drivers(),
                        names == driver_names(all_drivers()),
                        search@ == (SearchView { remaining: Seq::empty(), autodetect: false }),
                        forall|j: int| 0 <= j < i ==> #[trigger] names[j] != wanted@,
                    decreases drivers.len() - i,
                {
                    if text::same_text(drivers[i].name(), wanted) {
                        assert(names[i as int] == wanted@);
                        assert(names.contains(wanted@));
                        assert(names.index_of(wanted@) == i);
                        return (search, SearchStep::TryDriver(drivers[i]));
                    }
                    i = i + 1;
                }
                assert(!names.contains(wanted@));
                (search, SearchStep::Done(Err(StartError::UnknownDriver(wanted.to_owned()))))
            },
            None => {
                let mut search = DriverSearch { remaining: drivers, autodetect: true };
                let step = search.try_driver();
                (search, step)
            },
        }
    }

    /// Tries the next of the remaining drivers.
    fn try_driver<D>(&mut self) -> (r: SearchStep<D>)
        ensures
            (final(self)@, r@) == old(self)@.try_next::<D>(),
    {
        if self.remaining.len() > 0 {
            let driver = self.remaining.remove(0);
            assert(self@.remaining =~= old(self)@.remaining.skip(1));
            SearchStep::TryDriver(driver)
        } else {
            SearchStep::Done(Err(StartError::NoAvailableBackends))
        }
    }

    /// Proceeds with the result of starting the driver that was to be tried.
    pub fn resume<D>(&mut self, result: Result<D, StartError>) -> (r: SearchStep<D>)
        ensures
            (final(self)@, r@) == old(self)@.resume_next(start_result(result)),
    {
        match result {
            Err(StartError::ConnectionError(e)) => if self.autodetect {
                self.try_driver()
            } else {
                SearchStep::Done(Err(StartError::ConnectionError(e)))
            },
            result => SearchStep::Done(result),
        }
    }
}

// FUNCTIONS *******************************************************************

/// Returns all sound drivers available in the application, in the order in which
/// they are considered.
pub fn drivers() -> (r: Vec<DriverName>)
    ensures
        r@ == all_drivers(),
{
    let mut r: Vec<DriverName> = Vec::new();
    r.push(DriverName::Pulse);
    r
}

/// Lists the names of all sound drivers available in the application.
pub fn list_drivers() -> (r: Vec<String>)
    ensures
        text::views(r@) == driver_names(all_drivers()),
{
    let drivers = drivers();
    let mut r: Vec<String> = Vec::new();
    let mut i: usize = 0;
    while i < drivers.len()
        invariant
            i <= drivers.len(),
            drivers@ == all_drivers(),
            text::views(r@) =~= driver_names(all_drivers()).take(i as int),
        decreases drivers.len() - i,
    {
        let ghost before = text::views(r@);
        let name = drivers[i].name().to_owned();
        r.push(name);
        assert(text::views(r@) =~= before.push(name@));
        i = i + 1;
    }
    assert(driver_names(all_drivers()).take(i as int) =~= driver_names(all_drivers()));
    r
}

// LAWS ************************************************************************

/// The given search after as many drivers failed to connect to their backends as
/// given.
pub open spec fn after_failures<D>(
    search: SearchView,
    step: SearchStepView<D>,
    failures: Seq<Seq<char>>,
) -> (SearchView, SearchStepView<D>)
    decreases failures.len(),
{
    if failures.len() == 0 {
        (search, step)
    } else {
        let (next, next_step) = search.resume_next(
            Err(StartErrorView::ConnectionError(failures[0])),
        );
        after_failures(next, next_step, failures.skip(1))
    }
}

/// If no driver is requested and all of them fail to connect to their backends,
/// then each of them has been tried, and there is no available backend.
pub proof fn law_autodetect_tries_all<D>(search: SearchView, failures: Seq<Seq<char>>)
    requires
        search.autodetect,
        failures.len() <= search.remaining.len(),
    ensures
        ({
            let (first, step) = search.try_next::<D>();
            let last = after_failures(first, step, failures).1;
            if failures.len() < search.remaining.len() {
                last == SearchStepView::<D>::TryDriver(search.remaining[failures.len() as int])
            } else {
                last == SearchStepView::<D>::Done(Err(StartErrorView::NoAvailableBackends))
            }
        }),
    decreases failures.len(),
{
    let (first, step) = search.try_next::<D>();
    if failures.len() > 0 {
        law_autodetect_tries_all::<D>(first, failures.skip(1));
        assert(failures.len() < search.remaining.len() ==> search.remaining.skip(1)[failures.len()
            - 1] == search.remaining[failures.len() as int]);
    }
}

/// A driver that connects to its backend but fails to initialize ends the
/// search, and its error is reported.
pub proof fn law_initialization_error_ends_search<D>(search: SearchView, e: Seq<char>)
    ensures
        search.resume_next::<D>(Err(StartErrorView::DriverInitializationError(e))).1
            == SearchStepView::<D>::Done(Err(StartErrorView::DriverInitializationError(e))),
{
}

/// If a driver is requested, then no other driver is tried.
pub proof fn law_requested_driver_only<D>(name: Seq<char>, result: Result<D, StartErrorView>)
    ensures
        SearchView::begin::<D>(Some(name)).0.resume_next(result).1 == SearchStepView::Done(result),
        SearchView::begin::<D>(Some(name)).1 matches SearchStepView::TryDriver(driver)
            ==> driver.spec_name() == name,
{
    let names = driver_names(all_drivers());
    if names.contains(name) {
        assert(names[names.index_of(name)] == name);
    }
}

} // verus!
