//! Whether the service starts serving.

use vstd::prelude::*;

verus! {

/// The port that the service listens on.
pub const LISTEN_PORT: u16 = 2971;

/// The exit status of a process that could not start serving.
pub const EXIT_FAILURE: u8 = 1;

/// How loading the dictionary at startup ended.
#[derive(Clone, Copy, Debug, PartialEq, Eq, Structural)]
pub enum LoadOutcome {
    /// The dictionary is loaded and can be shared by all requests.
    Loaded,
    /// The configuration could not be read.
    ConfigurationFailed,
    /// The dictionary could not be built from the configuration.
    DictionaryFailed,
}

/// What the process does once loading has ended.
pub enum StartupAction {
    /// Bind the listener on this address and serve.
    Serve { host: String, port: u16 },
    /// Report the message and end the process with this exit status. No
    /// listener is bound.
    Abort { message: String, exit_status: u8 },
}

/// The interface that the listener is bound on: the loopback interface.
pub open spec fn listen_host() -> Seq<char> {
    "127.0.0.1"@
}

/// The diagnostic that is reported when the dictionary cannot be had.
pub open spec fn load_failure_text() -> Seq<char> {
    "sudachi dict load err"@
}

/// Decides what the process does once loading has ended: it serves if and
/// only if the dictionary is loaded, and never binds a listener otherwise.
pub fn startup_action(loaded: LoadOutcome) -> (action: StartupAction)
    ensures
        loaded == LoadOutcome::Loaded ==> (action matches StartupAction::Serve { host, port }
            && host@ == listen_host() && port == LISTEN_PORT),
        loaded != LoadOutcome::Loaded ==> (action matches StartupAction::Abort {
            message,
            exit_status,
        } && message@ == load_failure_text() && exit_status == EXIT_FAILURE),
{
    match loaded {
        LoadOutcome::Loaded => StartupAction::Serve {
            host: "127.0.0.1".to_owned(),
            port: LISTEN_PORT,
        },
        _ => StartupAction::Abort {
            message: "sudachi dict load err".to_owned(),
            exit_status: EXIT_FAILURE,
        },
    }
}

} // verus!
