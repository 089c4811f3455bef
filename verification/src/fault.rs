//! What can go wrong while supervising, and what is done about each.

use vstd::prelude::*;

verus! {

/// A failure that the supervisor meets.
#[derive(Clone, Copy, Debug, PartialEq, Eq, Structural)]
pub enum Fault {
    /// The watch could not be installed at startup.
    WatchStart,
    /// The watch failed while running; `functional` tells whether it can
    /// still deliver notifications.
    WatchRuntime { functional: bool },
    /// The build collaborator failed.
    Build,
    /// The run collaborator could not spawn the server.
    Run,
    /// A process could not be terminated.
    Kill,
}

/// What is done about a failure.
#[derive(Clone, Copy, Debug, PartialEq, Eq, Structural)]
pub enum Response {
    /// The failure goes to the caller of the supervisor, which does not
    /// start.
    Escalate,
    /// The stream of notifications ends and the supervisor reports a final
    /// error upward.
    Terminate,
    /// The failure is shown to the operator; the supervisor goes on and
    /// waits for the next change.
    Report,
    /// The failure is logged and nothing else happens.
    Log,
}

/// What is done about `fault`.
pub open spec fn response_to(fault: Fault) -> Response {
    match fault {
        Fault::WatchStart => Response::Escalate,
        Fault::WatchRuntime { functional } => if functional {
            Response::Log
        } else {
            Response::Terminate
        },
        Fault::Build => Response::Report,
        Fault::Run => Response::Report,
        Fault::Kill => Response::Log,
    }
}

/// Decides what is done about `fault`.
pub fn respond(fault: Fault) -> (response: Response)
    ensures
        response == response_to(fault),
{
    match fault {
        Fault::WatchStart => Response::Escalate,
        Fault::WatchRuntime { functional } => {
            if functional {
                Response::Log
            } else {
                Response::Terminate
            }
        },
        Fault::Build => Response::Report,
        Fault::Run => Response::Report,
        Fault::Kill => Response::Log,
    }
}

/// Whether the supervisor goes on reacting to changes after `fault`.
pub fn keeps_supervising(fault: Fault) -> (goes_on: bool)
    ensures
        goes_on == (response_to(fault) == Response::Report || response_to(fault) == Response::Log),
{
    match respond(fault) {
        Response::Report => true,
        Response::Log => true,
        _ => false,
    }
}

/// Only a watch that cannot be installed is escalated; a build, a spawn or
/// a kill that fails never stops the supervisor, nor is it retried: it is
/// reported or logged and the next change is waited for.
pub proof fn lemma_steady_state_faults_are_absorbed(fault: Fault)
    ensures
        response_to(fault) == Response::Escalate <==> fault == Fault::WatchStart,
        fault == Fault::Build || fault == Fault::Run ==> response_to(fault) == Response::Report,
        fault == Fault::Kill ==> response_to(fault) == Response::Log,
        response_to(fault) == Response::Terminate <==> fault == (Fault::WatchRuntime {
            functional: false,
        }),
{
}

} // verus!
