//! A logging backend that gives every thread its own output file.
//!
//! The crate holds the decisions of such a backend: which records a directive
//! string lets through, how a thread's file is named, what a line looks like,
//! and when the backend is handed to the process-wide dispatch. The caller
//! owns the files and the dispatch and carries out what these functions decide.

pub mod directive;
pub mod error;
pub mod level;
pub mod logger;
pub mod naming;
pub mod registrar;
pub mod router;

pub use directive::build_filter;
pub use error::LoggerError;
pub use level::Level;
pub use logger::FilePerThreadLogger;
pub use registrar::{enabled, Registration, RegistrationOutcome};
pub use router::ThreadFileRouter;

use vstd::prelude::*;
use directive::{ordered, parsed_rules};
use naming::{file_name_of, text_of};

verus! {

/// What the caller of [`initialize`] has to do, in this order.
pub struct Setup {
    /// The name of the file to create for the calling thread, truncating what
    /// is there. The caller reports to [`ThreadFileRouter::opened`] whether
    /// it could.
    pub file: Option<String>,
    /// The sink to install into the dispatch mechanism. The caller reports
    /// the answer to [`Registration::register_once`].
    pub sink: Option<FilePerThreadLogger>,
}

/// Whether a call of [`initialize`] asks for the thread's file: there is a
/// configuration and the thread has no file yet.
pub open spec fn opens_file(config: Option<Seq<char>>, router: ThreadFileRouter) -> bool {
    config is Some && !router.is_open()
}

/// Whether a call of [`initialize`] asks to install a sink: there is a
/// configuration and the process has not registered.
pub open spec fn installs_sink(config: Option<Seq<char>>, registration: Registration) -> bool {
    config is Some && !registration.is_registered()
}

/// Decides what prepares the calling thread for logging. To be called on
/// every thread before it logs.
///
/// `config` is the directive string of the process, `None` where the process
/// has none: the backend then does nothing anywhere. `thread_name` and
/// `thread_id` say what the thread is called, `router` is the thread's state
/// and `registration` that of the process.
pub fn initialize(
    filename_prefix: &str,
    config: Option<&str>,
    thread_name: Option<&str>,
    thread_id: &str,
    router: &ThreadFileRouter,
    registration: &Registration,
) -> (setup: Setup)
    ensures
        setup.file is Some <==> opens_file(text_of(config), *router),
        setup.file matches Some(path) ==> path@ == file_name_of(
            filename_prefix@,
            text_of(thread_name),
            thread_id@,
        ),
        setup.sink is Some <==> installs_sink(text_of(config), *registration),
        setup.sink matches Some(sink) ==> {
            &&& sink@ == parsed_rules(text_of(config)->0)
            &&& ordered(sink@)
        },
{
    match config {
        None => Setup { file: None, sink: None },
        Some(directives) => {
            let file = router.ensure_open(filename_prefix, thread_name, thread_id);
            let sink = if enabled(registration) {
                None
            } else {
                Some(FilePerThreadLogger::new(build_filter(directives)))
            };
            Setup { file, sink }
        },
    }
}

/// The message that tells, once a sink has been offered to the dispatch
/// mechanism, under which prefix the files are.
pub fn announcement(filename_prefix: &str) -> (text: String)
    ensures
        text@ == "Set up logging; filename prefix is "@ + filename_prefix@,
{
    "Set up logging; filename prefix is ".to_owned().concat(filename_prefix)
}

/// One file per thread: a first call with a configuration asks for the
/// thread's file, and once that file has been created no later call on the
/// thread asks for a file again.
pub proof fn law_initialize_opens_one_file(
    first: Option<Seq<char>>,
    second: Option<Seq<char>>,
    router: ThreadFileRouter,
)
    requires
        first is Some,
        !router.is_open(),
    ensures
        opens_file(first, router),
        !opens_file(second, router.after_creation(true)),
{
}

/// Without a configuration the backend is inert: a call asks for no file
/// and for no sink, and in a process that has not registered no sink takes
/// any record.
pub proof fn law_inert_without_configuration(
    router: ThreadFileRouter,
    registration: Registration,
    sink: FilePerThreadLogger,
    level: Level,
    target: Seq<char>,
)
    ensures
        !opens_file(None, router),
        !installs_sink(None, registration),
        !sink.takes(Registration::Unregistered, level, target),
{
}

} // verus!
