//! Laws that hold of the selection of a sound driver.

use vstd::prelude::*;

use super::types;
use super::types::{DriverInitError, StartError, StartErrorView};
use super::{DriverName, DriverSearch, SearchStep, SearchStepView};

verus! {

/// A search without a name tries the first driver. One with a name tries the driver
/// with that name, or fails if there is none.
pub proof fn law_search_starts<D>(name: Option<&str>, r: (DriverSearch, SearchStep<D>))
    requires
        call_ensures(DriverSearch::new::<D>, (name,), r),
    ensures
        name is None ==> r.1 == SearchStep::<D>::TryDriver(DriverName::Pulse) && r.0@.autodetect
            && r.0@.remaining.len() == 0,
        name matches Some(name) && name@ == "pulse"@ ==> r.1 == SearchStep::<D>::TryDriver(
            DriverName::Pulse,
        ) && !r.0@.autodetect,
        name matches Some(name) && name@ != "pulse"@ ==> r.1@ == SearchStepView::<D>::Done(
            Err(StartErrorView::UnknownDriver(name->0@)),
        ),
{
    let names = super::driver_names(super::all_drivers());
    assert(names[0] == "pulse"@);
    assert(names.len() == 1);
    if let Some(name) = name {
        if name@ == "pulse"@ {
            assert(names.contains(name@));
            assert(names.index_of(name@) == 0);
        }
    }
}

/// A driver that starts, or that fails for any reason other than its connection,
/// ends the search with that result. So does one that fails to connect if it was
/// requested by its name. Otherwise, the remaining drivers are tried in order, and
/// there is no available backend if there are none left.
pub proof fn law_search_continues<D>(result: Result<D, StartError>)
    ensures
        forall|search: &mut DriverSearch, r: SearchStep<D>| #[trigger]
            call_ensures(DriverSearch::resume::<D>, (search, result), r) ==> {
                let lost = result matches Err(e) && e is ConnectionError;
                &&& !(lost && search@.autodetect) ==> match (result, r) {
                    (Ok(driver), SearchStep::Done(Ok(found))) => found == driver,
                    (Err(e), SearchStep::Done(Err(reported))) => reported@ == e@,
                    _ => false,
                }
                &&& lost && search@.autodetect && search@.remaining.len() == 0
                    ==> (r matches SearchStep::Done(Err(StartError::NoAvailableBackends)))
                &&& lost && search@.autodetect && search@.remaining.len() > 0 ==> r
                    == SearchStep::<D>::TryDriver(search@.remaining[0]) && final(search)@.remaining
                    == search@.remaining.skip(1) && final(search)@.autodetect
            },
{
}

/// A failure to connect to a backend remains one, and a failure to initialize does
/// too, whatever the driver. The explanation is kept.
pub proof fn law_driver_errors<E>(
    e: DriverInitError<E>,
    explanation: String,
    start: StartError,
    message: String,
    text: &str,
    rendered: String,
    source: &E,
)
    requires
        call_ensures(DriverInitError::<E>::into_start_error, (e, explanation), start),
        call_ensures(StartError::message, (&start,), message),
        text@ == explanation@,
        call_ensures(DriverInitError::<E>::message, (&e, text), rendered),
        call_ensures(DriverInitError::<E>::source, (&e,), source),
    ensures
        e is ConnectionError ==> start@ == StartErrorView::ConnectionError(explanation@),
        e is InitializationError ==> start@ == StartErrorView::DriverInitializationError(
            explanation@,
        ),
        rendered@ == message@,
        e is ConnectionError ==> message@ == "Sound driver failed to connect to backend: "@
            + explanation@,
        e is InitializationError ==> message@ == "Sound driver failed to initialize: "@
            + explanation@,
        e == DriverInitError::ConnectionError(*source) || e == DriverInitError::InitializationError(
            *source,
        ),
{
}

/// Errors that do not come from a driver are explained as well.
pub proof fn law_other_start_errors(
    e: StartError,
    message: String,
)
    requires
        call_ensures(StartError::message, (&e,), message),
    ensures
        e is NoAvailableBackends ==> message@ == "No audio backends available"@,
        e matches StartError::UnknownDriver(name) ==> message@ == "No such sound driver '"@ + name@
            + "'"@,
        e matches StartError::ConsumerInitializationError(reason) ==> message@
            == "Audio consumer failed to initialize: "@ + reason@,
{
}

/// Reads time out after the given time, or after a quarter of a second.
pub proof fn law_read_timeout(timeout: Option<u64>, r: u64)
    requires
        call_ensures(types::read_timeout, (timeout,), r),
    ensures
        timeout is Some ==> timeout == Some(r),
        timeout is None ==> 4 * r == 1000,
{
}

/// The drivers that are listed are exactly those that can be requested by name.
pub proof fn law_listed_drivers_are_known(
    listed: Vec<String>,
    wanted: &str,
    r: (DriverSearch, SearchStep<()>),
)
    requires
        call_ensures(super::list_drivers, (), listed),
        call_ensures(DriverSearch::new::<()>, (Some(wanted),), r),
    ensures
        r.1 is TryDriver <==> exists|i: int| 0 <= i < listed@.len() && (#[trigger] listed@[i])@ == wanted@,
{
    let names = super::driver_names(super::all_drivers());
    assert(names.len() == listed@.len());
    assert forall|i: int| 0 <= i < listed@.len() implies names[i] == (#[trigger] listed@[i])@ by {
        assert(crate::util::text::views(listed@)[i] == listed@[i]@);
    }
    if names.contains(wanted@) {
        let i = choose|i: int| 0 <= i < names.len() && names[i] == wanted@;
        assert(listed@[i]@ == wanted@);
    }
    if exists|i: int| 0 <= i < listed@.len() && (#[trigger] listed@[i])@ == wanted@ {
        let i = choose|i: int| 0 <= i < listed@.len() && (#[trigger] listed@[i])@ == wanted@;
        assert(names[i] == wanted@);
    }
}

/// The models of errors and steps tell exactly what they are.
pub proof fn law_searches_are_modeled<D>(
    e: StartError,
    step: SearchStep<D>,
    result: Result<D, StartError>,
)
    ensures
        match e {
            StartError::ConnectionError(text) => e@ == StartErrorView::ConnectionError(text@),
            StartError::ConsumerInitializationError(text) => e@
                == StartErrorView::ConsumerInitializationError(text@),
            StartError::DriverInitializationError(text) => e@
                == StartErrorView::DriverInitializationError(text@),
            StartError::NoAvailableBackends => e@ is NoAvailableBackends,
            StartError::UnknownDriver(name) => e@ == StartErrorView::UnknownDriver(name@),
        },
        match step {
            SearchStep::TryDriver(driver) => step@ == SearchStepView::<D>::TryDriver(driver),
            SearchStep::Done(Ok(driver)) => step@ == SearchStepView::<D>::Done(Ok(driver)),
            SearchStep::Done(Err(e)) => step@ == SearchStepView::<D>::Done(Err(e@)),
        },
        match result {
            Ok(driver) => super::start_result(result) == Ok::<D, StartErrorView>(driver),
            Err(e) => super::start_result(result) == Err::<D, StartErrorView>(e@),
        },
{
}

} // verus!
