use vstd::prelude::*;
use crate::error::ApiError;

verus! {

/// What settled first in the race between a call and its deadline.
pub enum RaceEvent<T> {
    /// The deadline passed before the call completed.
    TimerFired,
    /// The timer for the deadline could not be started.
    TimerFailed,
    /// The call completed first, with this outcome.
    Completed(Result<T, ApiError>),
}

/// The outcome of a call raced against a deadline, by what settled first.
pub open spec fn race_outcome<T>(first: RaceEvent<T>) -> Result<Option<T>, ApiError> {
    match first {
        RaceEvent::TimerFired => Ok(None),
        RaceEvent::TimerFailed => Err(ApiError::Timeout),
        RaceEvent::Completed(Ok(v)) => Ok(Some(v)),
        RaceEvent::Completed(Err(e)) => Err(e),
    }
}

/// Settles a call raced against a deadline: no answer where the deadline
/// came first, the call's own outcome where it came first, and an error
/// where the timer could not be started.
pub fn resolve_race<T>(first: RaceEvent<T>) -> (r: Result<Option<T>, ApiError>)
    ensures
        r == race_outcome(first),
{
    match first {
        RaceEvent::TimerFired => Ok(None),
        RaceEvent::TimerFailed => Err(ApiError::Timeout),
        RaceEvent::Completed(Ok(v)) => Ok(Some(v)),
        RaceEvent::Completed(Err(e)) => Err(e),
    }
}

/// A raced call yields "no answer" exactly when the deadline settled first;
/// when the call settled first its outcome comes through unchanged, wrapped
/// as present. The two cases exclude each other and cover every race.
pub proof fn lemma_absent_iff_deadline_first<T>(first: RaceEvent<T>)
    ensures
        race_outcome(first) == Ok::<Option<T>, ApiError>(None) <==> first is TimerFired,
        first is Completed ==> race_outcome(first) == match first->Completed_0 {
            Ok(v) => Ok(Some(v)),
            Err(e) => Err(e),
        },
{
}

} // verus!
