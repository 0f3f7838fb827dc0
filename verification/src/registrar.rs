//! The process-wide side of the backend: whether it has been handed to the
//! dispatch mechanism.
//!
//! The state goes from `Unregistered` to `Registered` once and never back.

use vstd::prelude::*;

verus! {

/// Whether the process has tried to install the backend.
#[derive(Clone, Copy, PartialEq, Eq, Structural, Debug)]
pub enum Registration {
    Unregistered,
    Registered,
}

/// How an attempt to register ended.
#[derive(Clone, Copy, PartialEq, Eq, Structural, Debug)]
pub enum RegistrationOutcome {
    /// The dispatch mechanism took the sink. The caller raises the ceiling
    /// of the dispatch to the most verbose level: the sink does the filtering.
    Installed,
    /// The process had registered before, or the dispatch mechanism already
    /// had a sink. The sink that was there first keeps all records.
    AlreadyInstalled,
}

impl Registration {
    /// Whether the backend has been registered.
    pub open spec fn is_registered(self) -> bool {
        self == Registration::Registered
    }

    /// How an attempt ends in this state, where the dispatch mechanism
    /// answered `accepted`.
    pub open spec fn outcome(self, accepted: bool) -> RegistrationOutcome {
        if !self.is_registered() && accepted {
            RegistrationOutcome::Installed
        } else {
            RegistrationOutcome::AlreadyInstalled
        }
    }

    /// Records an attempt to install the sink.
    ///
    /// `accepted` says whether the dispatch mechanism took the sink. After
    /// the call the process counts as registered, whatever the answer was.
    pub fn register_once(&mut self, accepted: bool) -> (outcome: RegistrationOutcome)
        ensures
            final(self).is_registered(),
            outcome == old(self).outcome(accepted),
    {
        let outcome = match *self {
            Registration::Unregistered if accepted => RegistrationOutcome::Installed,
            _ => RegistrationOutcome::AlreadyInstalled,
        };
        *self = Registration::Registered;
        outcome
    }
}

impl RegistrationOutcome {
    /// The text of the warning that follows a registration that came late.
    pub open spec fn warning_text() -> Seq<char> {
        "Another logger has been set up before the file-per-thread logger, aborting."@
    }

    /// The warning to emit through the sink that is active, if any is due.
    pub fn warning(&self) -> (text: Option<&'static str>)
        ensures
            text is Some <==> *self == RegistrationOutcome::AlreadyInstalled,
            text matches Some(text) ==> text@ == Self::warning_text(),
    {
        match self {
            RegistrationOutcome::Installed => None,
            RegistrationOutcome::AlreadyInstalled => Some(
                "Another logger has been set up before the file-per-thread logger, aborting.",
            ),
        }
    }
}

/// Whether the backend has been registered in this process. Until then no
/// record is enabled.
pub fn enabled(registration: &Registration) -> (yes: bool)
    ensures
        yes == registration.is_registered(),
{
    match registration {
        Registration::Registered => true,
        Registration::Unregistered => false,
    }
}

/// Registration happens once: in a process that has registered, every
/// further attempt ends as `AlreadyInstalled`, whatever the dispatch
/// mechanism answers, and `register_once` leaves the process registered.
pub proof fn law_second_registration_is_noop(registered: Registration, accepted: bool)
    requires
        registered.is_registered(),
    ensures
        registered.outcome(accepted) == RegistrationOutcome::AlreadyInstalled,
{
}

} // verus!
