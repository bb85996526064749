//! Getting hold of the answer document: which source to take it from, as
//! configured or as given on the command line, and the steps of one
//! attempt on that source.

use vstd::prelude::*;

verus! {

/// The sources an answer document can be taken from.
#[derive(Clone, Copy, Debug, PartialEq, Eq, Structural)]
pub enum FetchAnswerFrom {
    /// A file on the installation medium.
    Iso,
    /// An HTTP endpoint.
    Http,
    /// A file on a partition that is found by its label.
    Partition,
}

/// Where the HTTP source finds the answer, and the certificate to expect
/// there.
#[derive(Clone, Debug, PartialEq, Eq)]
pub struct HttpOptions {
    pub url: Option<String>,
    pub cert_fingerprint: Option<String>,
}

/// The configured source of the answer document. The HTTP options count
/// for the HTTP source only.
#[derive(Clone, Debug, PartialEq, Eq)]
pub struct AutoInstSettings {
    pub mode: FetchAnswerFrom,
    pub http: HttpOptions,
}

impl AutoInstSettings {
    /// The HTTP options go with the HTTP source: settings for another
    /// source hold neither a URL nor a fingerprint.
    pub open spec fn consistent(self) -> bool {
        self.mode != FetchAnswerFrom::Http ==> self.http.url is None
            && self.http.cert_fingerprint is None
    }

    /// Whether the settings hold HTTP options for the HTTP source only.
    pub fn is_consistent(&self) -> (consistent: bool)
        ensures
            consistent == self.consistent(),
    {
        match self.mode {
            FetchAnswerFrom::Http => true,
            _ => self.http.url.is_none() && self.http.cert_fingerprint.is_none(),
        }
    }
}

/// Why a command line configures no source.
#[derive(Clone, Copy, Debug, PartialEq, Eq, Structural)]
pub enum CliError {
    /// Help was asked for.
    Usage,
    /// The first argument names no source.
    UnknownMode,
    /// A URL or fingerprint was given for a source other than HTTP.
    UnexpectedArguments,
}

pub const ERR_UNKNOWN_MODE: &'static str =
    "failed to parse fetch-from argument, not one of 'http', 'iso', or 'partition'";

pub const ERR_UNEXPECTED_ARGUMENTS: &'static str =
    "only 'http' fetch-from mode supports additional url and cert-fingerprint mode";

pub const USAGE_HEAD: &'static str = "usage: ";

pub const USAGE_TAIL: &'static str = " <http|iso|partition> [<http-url>] [<tls-cert-fingerprint>]";

impl CliError {
    /// The sentence for the operator; the usage line names the program.
    pub open spec fn text(self, program: Seq<char>) -> Seq<char> {
        match self {
            CliError::Usage => USAGE_HEAD@ + program + USAGE_TAIL@,
            CliError::UnknownMode => ERR_UNKNOWN_MODE@,
            CliError::UnexpectedArguments => ERR_UNEXPECTED_ARGUMENTS@,
        }
    }

    pub fn message(&self, program: &str) -> (text: String)
        ensures
            text@ == self.text(program@),
    {
        match self {
            CliError::Usage => USAGE_HEAD.to_owned().concat(program).concat(USAGE_TAIL),
            CliError::UnknownMode => ERR_UNKNOWN_MODE.to_owned(),
            CliError::UnexpectedArguments => ERR_UNEXPECTED_ARGUMENTS.to_owned(),
        }
    }
}

/// A text with every character that has a lower-case form replaced by it,
/// as Unicode defines the forms.
pub uninterp spec fn lowercase(text: Seq<char>) -> Seq<char>;

/// Calls `str::to_lowercase`, which maps each character to its Unicode
/// lower-case form and depends on nothing but the text.
#[verifier::external_body]
fn to_lowercase(text: &str) -> (lowered: String)
    ensures
        lowered@ == lowercase(text@),
{
    text.to_lowercase()
}

/// Whether a text is the given word.
fn is_word(text: &str, word: &str) -> (same: bool)
    ensures
        same == (text@ == word@),
{
    text.to_owned() == word.to_owned()
}

impl FetchAnswerFrom {
    /// The source that a keyword names.
    pub open spec fn of_keyword(keyword: Seq<char>) -> Option<FetchAnswerFrom> {
        if keyword == "iso"@ {
            Some(FetchAnswerFrom::Iso)
        } else if keyword == "http"@ {
            Some(FetchAnswerFrom::Http)
        } else if keyword == "partition"@ {
            Some(FetchAnswerFrom::Partition)
        } else {
            None
        }
    }

    /// Reads a keyword, which has to be in lower case.
    pub fn from_keyword(keyword: &str) -> (mode: Option<FetchAnswerFrom>)
        ensures
            mode == FetchAnswerFrom::of_keyword(keyword@),
    {
        if is_word(keyword, "iso") {
            Some(FetchAnswerFrom::Iso)
        } else if is_word(keyword, "http") {
            Some(FetchAnswerFrom::Http)
        } else if is_word(keyword, "partition") {
            Some(FetchAnswerFrom::Partition)
        } else {
            None
        }
    }
}

/// The argument at a position, if the command line is that long.
pub open spec fn argument(args: Seq<String>, position: int) -> Option<String> {
    if 0 <= position < args.len() {
        Some(args[position])
    } else {
        None
    }
}

/// What a command line configures, given its first argument in lower case.
/// A request for help and an unknown keyword are told apart first. Then a
/// source other than HTTP takes no further argument. Otherwise the source
/// is the one named, with the second argument as URL and the third as
/// fingerprint, as far as they are there; further arguments are not looked
/// at.
pub open spec fn settings_of(keyword: Seq<char>, args: Seq<String>) -> Result<
    AutoInstSettings,
    CliError,
> {
    match FetchAnswerFrom::of_keyword(keyword) {
        None => if keyword == "-h"@ || keyword == "--help"@ {
            Err(CliError::Usage)
        } else {
            Err(CliError::UnknownMode)
        },
        Some(mode) => if args.len() > 2 && mode != FetchAnswerFrom::Http {
            Err(CliError::UnexpectedArguments)
        } else {
            Ok(
                AutoInstSettings {
                    mode,
                    http: HttpOptions {
                        url: argument(args, 2),
                        cert_fingerprint: argument(args, 3),
                    },
                },
            )
        },
    }
}

/// Whatever a command line configures holds HTTP options for the HTTP
/// source only.
pub proof fn cli_settings_are_consistent(keyword: Seq<char>, args: Seq<String>)
    ensures
        settings_of(keyword, args) matches Ok(settings) ==> settings.consistent(),
{
}

/// Reads the settings off a command line whose first argument, the
/// keyword, is handed in already in lower case.
pub fn settings_from_keyword(keyword: &str, args: &[String]) -> (settings: Result<
    AutoInstSettings,
    CliError,
>)
    ensures
        settings == settings_of(keyword@, args@),
{
    let mode = match FetchAnswerFrom::from_keyword(keyword) {
        Some(mode) => mode,
        None => {
            if is_word(keyword, "-h") || is_word(keyword, "--help") {
                return Err(CliError::Usage);
            }
            return Err(CliError::UnknownMode);
        },
    };
    if args.len() > 2 && mode != FetchAnswerFrom::Http {
        return Err(CliError::UnexpectedArguments);
    }
    let url = if args.len() > 2 {
        Some(args[2].clone())
    } else {
        None
    };
    let cert_fingerprint = if args.len() > 3 {
        Some(args[3].clone())
    } else {
        None
    };
    Ok(AutoInstSettings { mode, http: HttpOptions { url, cert_fingerprint } })
}

/// Reads the settings off the command line `<program> <iso|http|partition>
/// [url] [fingerprint]`. The keyword may be written in any case.
pub fn settings_from_cli_args(args: &[String]) -> (settings: Result<AutoInstSettings, CliError>)
    requires
        args.len() >= 2,
    ensures
        settings == settings_of(lowercase(args[1]@), args@),
{
    let keyword = to_lowercase(args[1].as_str());
    settings_from_keyword(keyword.as_str(), args)
}

/// Why an attempt to fetch the answer document failed. Failures of the
/// system carry the cause as the system reported it.
#[derive(Clone, Debug, PartialEq, Eq)]
pub enum FetchError {
    /// The HTTP source is configured without a URL.
    MissingUrl,
    /// The file on the installation medium could not be read.
    Iso(String),
    /// No partition carries the label.
    LabelNotFound,
    /// The partition was found and could not be mounted.
    Mount(String),
    /// The partition was mounted and the file on it could not be read.
    PartitionFile(String),
    /// The request failed.
    Http(String),
}

pub const ERR_MISSING_URL: &'static str = "no URL is configured for the HTTP source";

pub const ERR_LABEL_NOT_FOUND: &'static str = "no partition carries the label of the answer medium";

pub const FAILED_ISO: &'static str = "Fetching answer file from ISO failed: ";

pub const FAILED_PARTITION: &'static str = "Fetching answer file from partition failed: ";

pub const FAILED_HTTP: &'static str = "Fetching answer file via HTTP failed: ";

impl FetchError {
    /// The source on which the attempt failed.
    pub open spec fn source(self) -> FetchAnswerFrom {
        match self {
            FetchError::Iso(_) => FetchAnswerFrom::Iso,
            FetchError::LabelNotFound | FetchError::Mount(_) | FetchError::PartitionFile(_) => {
                FetchAnswerFrom::Partition
            },
            FetchError::MissingUrl | FetchError::Http(_) => FetchAnswerFrom::Http,
        }
    }

    /// The cause of the failure in words.
    pub open spec fn cause(self) -> Seq<char> {
        match self {
            FetchError::MissingUrl => ERR_MISSING_URL@,
            FetchError::LabelNotFound => ERR_LABEL_NOT_FOUND@,
            FetchError::Iso(cause) => cause@,
            FetchError::Mount(cause) => cause@,
            FetchError::PartitionFile(cause) => cause@,
            FetchError::Http(cause) => cause@,
        }
    }

    /// The line for the log: the source that failed, then the cause.
    pub open spec fn log_text(self) -> Seq<char> {
        (match self.source() {
            FetchAnswerFrom::Iso => FAILED_ISO@,
            FetchAnswerFrom::Partition => FAILED_PARTITION@,
            FetchAnswerFrom::Http => FAILED_HTTP@,
        }) + self.cause()
    }

    /// Says for the log on which source the attempt failed, and why. The
    /// run itself ends with [`ERR_NO_ANSWER`], whatever the cause.
    pub fn log_line(&self) -> (line: String)
        ensures
            line@ == self.log_text(),
    {
        match self {
            FetchError::MissingUrl => FAILED_HTTP.to_owned().concat(ERR_MISSING_URL),
            FetchError::LabelNotFound => FAILED_PARTITION.to_owned().concat(ERR_LABEL_NOT_FOUND),
            FetchError::Iso(cause) => FAILED_ISO.to_owned().concat(cause.as_str()),
            FetchError::Mount(cause) => FAILED_PARTITION.to_owned().concat(cause.as_str()),
            FetchError::PartitionFile(cause) => FAILED_PARTITION.to_owned().concat(cause.as_str()),
            FetchError::Http(cause) => FAILED_HTTP.to_owned().concat(cause.as_str()),
        }
    }
}

/// What the run reports, whatever the cause.
pub const ERR_NO_ANSWER: &'static str = "Could not find any answer file!";

/// One step of an attempt: what is to be done next for the configured
/// source, or how the attempt ended. The caller does what the step says
/// and reports what came of it with [`FetchStep::after`].
#[derive(Debug, PartialEq, Eq)]
pub enum FetchStep {
    /// Read the answer file on the installation medium.
    ReadIso,
    /// Look for the partition that carries the label.
    FindPartition,
    /// Mount the partition found, read-only, at a temporary mount point.
    Mount { device: String },
    /// Read the answer file on the mounted partition.
    ReadPartition,
    /// Unmount the partition, whatever reading gave.
    Unmount { answer: Result<String, FetchError> },
    /// Send a GET request for the answer.
    Request { url: String, cert_fingerprint: Option<String> },
    /// The attempt is over.
    Done(Result<String, FetchError>),
}

/// What came of a step.
#[derive(Debug, PartialEq, Eq)]
pub enum FetchEvent {
    /// A file was read, or could not be.
    Read(Result<String, String>),
    /// The partition with the label, or none.
    Found(Option<String>),
    /// The partition was mounted, or could not be.
    Mounted(Result<(), String>),
    /// The partition is no longer mounted.
    Unmounted,
    /// The response's body, or why there is none.
    Response(Result<String, String>),
}

impl FetchStep {
    /// The first step for the configured source. An HTTP source without a
    /// URL is over before it starts.
    pub open spec fn first_of(settings: AutoInstSettings) -> FetchStep {
        match settings.mode {
            FetchAnswerFrom::Iso => FetchStep::ReadIso,
            FetchAnswerFrom::Partition => FetchStep::FindPartition,
            FetchAnswerFrom::Http => match settings.http.url {
                Some(url) => FetchStep::Request {
                    url,
                    cert_fingerprint: settings.http.cert_fingerprint,
                },
                None => FetchStep::Done(Err(FetchError::MissingUrl)),
            },
        }
    }

    /// The step that follows when a step has come to the given event. An
    /// event that the step does not wait for changes nothing.
    pub open spec fn next(self, event: FetchEvent) -> FetchStep {
        match (self, event) {
            (FetchStep::ReadIso, FetchEvent::Read(Ok(answer))) => FetchStep::Done(Ok(answer)),
            (FetchStep::ReadIso, FetchEvent::Read(Err(cause))) => FetchStep::Done(
                Err(FetchError::Iso(cause)),
            ),
            (FetchStep::FindPartition, FetchEvent::Found(Some(device))) => FetchStep::Mount {
                device,
            },
            (FetchStep::FindPartition, FetchEvent::Found(None)) => FetchStep::Done(
                Err(FetchError::LabelNotFound),
            ),
            (FetchStep::Mount { .. }, FetchEvent::Mounted(Ok(_))) => FetchStep::ReadPartition,
            (FetchStep::Mount { .. }, FetchEvent::Mounted(Err(cause))) => FetchStep::Done(
                Err(FetchError::Mount(cause)),
            ),
            (FetchStep::ReadPartition, FetchEvent::Read(Ok(answer))) => FetchStep::Unmount {
                answer: Ok(answer),
            },
            (FetchStep::ReadPartition, FetchEvent::Read(Err(cause))) => FetchStep::Unmount {
                answer: Err(FetchError::PartitionFile(cause)),
            },
            (FetchStep::Unmount { answer }, FetchEvent::Unmounted) => FetchStep::Done(answer),
            (FetchStep::Request { .. }, FetchEvent::Response(Ok(answer))) => FetchStep::Done(
                Ok(answer),
            ),
            (FetchStep::Request { .. }, FetchEvent::Response(Err(cause))) => FetchStep::Done(
                Err(FetchError::Http(cause)),
            ),
            (step, _) => step,
        }
    }

    /// Where a run stands that started at a step and has seen the given
    /// events, one after the other.
    pub open spec fn run(self, events: Seq<FetchEvent>) -> FetchStep
        decreases events.len(),
    {
        if events.len() == 0 {
            self
        } else {
            self.next(events[0]).run(events.drop_first())
        }
    }

    /// Whether the partition is mounted while the run stands at a step.
    pub open spec fn holds_mount(self) -> bool {
        self is ReadPartition || self is Unmount
    }

    /// The source that a step works on; a run that is over works on none.
    pub open spec fn source(self) -> Option<FetchAnswerFrom> {
        match self {
            FetchStep::ReadIso => Some(FetchAnswerFrom::Iso),
            FetchStep::FindPartition => Some(FetchAnswerFrom::Partition),
            FetchStep::Mount { .. } => Some(FetchAnswerFrom::Partition),
            FetchStep::ReadPartition => Some(FetchAnswerFrom::Partition),
            FetchStep::Unmount { .. } => Some(FetchAnswerFrom::Partition),
            FetchStep::Request { .. } => Some(FetchAnswerFrom::Http),
            FetchStep::Done(_) => None,
        }
    }

    /// The most steps that can still follow a step.
    pub open spec fn steps_left(self) -> nat {
        match self {
            FetchStep::FindPartition => 4,
            FetchStep::Mount { .. } => 3,
            FetchStep::ReadPartition => 2,
            FetchStep::Unmount { .. } => 1,
            FetchStep::ReadIso => 1,
            FetchStep::Request { .. } => 1,
            FetchStep::Done(_) => 0,
        }
    }

    /// The number of mounts that a run makes, less the number it undoes: a
    /// mount is made where the step to mount comes to a mounted partition,
    /// and undone where the step to unmount comes to its end.
    pub open spec fn mounts_left(self, events: Seq<FetchEvent>) -> int
        decreases events.len(),
    {
        if events.len() == 0 {
            0
        } else {
            let change: int = if self is Mount && events[0] matches FetchEvent::Mounted(Ok(_)) {
                1
            } else if self is Unmount && events[0] is Unmounted {
                -1
            } else {
                0
            };
            change + self.next(events[0]).mounts_left(events.drop_first())
        }
    }

    /// Starts an attempt on the configured source.
    pub fn first(settings: &AutoInstSettings) -> (step: FetchStep)
        ensures
            step == FetchStep::first_of(*settings),
    {
        match settings.mode {
            FetchAnswerFrom::Iso => FetchStep::ReadIso,
            FetchAnswerFrom::Partition => FetchStep::FindPartition,
            FetchAnswerFrom::Http => match &settings.http.url {
                Some(url) => FetchStep::Request {
                    url: url.clone(),
                    cert_fingerprint: settings.http.cert_fingerprint.clone(),
                },
                None => FetchStep::Done(Err(FetchError::MissingUrl)),
            },
        }
    }

    /// Takes the attempt one step further, by what came of the last step.
    pub fn after(self, event: FetchEvent) -> (step: FetchStep)
        ensures
            step == self.next(event),
    {
        match self {
            FetchStep::ReadIso => match event {
                FetchEvent::Read(Ok(answer)) => FetchStep::Done(Ok(answer)),
                FetchEvent::Read(Err(cause)) => FetchStep::Done(Err(FetchError::Iso(cause))),
                _ => FetchStep::ReadIso,
            },
            FetchStep::FindPartition => match event {
                FetchEvent::Found(Some(device)) => FetchStep::Mount { device },
                FetchEvent::Found(None) => FetchStep::Done(Err(FetchError::LabelNotFound)),
                _ => FetchStep::FindPartition,
            },
            FetchStep::Mount { device } => match event {
                FetchEvent::Mounted(Ok(_)) => FetchStep::ReadPartition,
                FetchEvent::Mounted(Err(cause)) => FetchStep::Done(Err(FetchError::Mount(cause))),
                _ => FetchStep::Mount { device },
            },
            FetchStep::ReadPartition => match event {
                FetchEvent::Read(Ok(answer)) => FetchStep::Unmount { answer: Ok(answer) },
                FetchEvent::Read(Err(cause)) => FetchStep::Unmount {
                    answer: Err(FetchError::PartitionFile(cause)),
                },
                _ => FetchStep::ReadPartition,
            },
            FetchStep::Unmount { answer } => match event {
                FetchEvent::Unmounted => FetchStep::Done(answer),
                _ => FetchStep::Unmount { answer },
            },
            FetchStep::Request { url, cert_fingerprint } => match event {
                FetchEvent::Response(Ok(answer)) => FetchStep::Done(Ok(answer)),
                FetchEvent::Response(Err(cause)) => FetchStep::Done(Err(FetchError::Http(cause))),
                _ => FetchStep::Request { url, cert_fingerprint },
            },
            FetchStep::Done(outcome) => FetchStep::Done(outcome),
        }
    }

    /// Whether the attempt is over.
    pub fn is_done(&self) -> (done: bool)
        ensures
            done == (*self is Done),
    {
        match self {
            FetchStep::Done(_) => true,
            _ => false,
        }
    }
}

/// A run that is over stays as it is, whatever is reported to it.
pub proof fn finished_run_stays_finished(step: FetchStep, events: Seq<FetchEvent>)
    requires
        step is Done,
    ensures
        step.run(events) == step,
    decreases events.len(),
{
    if events.len() > 0 {
        finished_run_stays_finished(step, events.drop_first());
    }
}

/// With the HTTP source configured and no URL, the attempt ends in the
/// configuration error at once: no run ever comes to the step that sends a
/// request.
pub proof fn http_without_url_sends_nothing(settings: AutoInstSettings, events: Seq<FetchEvent>)
    requires
        settings.mode == FetchAnswerFrom::Http,
        settings.http.url is None,
    ensures
        FetchStep::first_of(settings) == FetchStep::Done(Err(FetchError::MissingUrl)),
        FetchStep::first_of(settings).run(events) == FetchStep::Done(Err(FetchError::MissingUrl)),
{
    finished_run_stays_finished(FetchStep::first_of(settings), events);
}

/// An attempt stays with its source: the first step works on the
/// configured source or is the end, and whatever is reported, the step
/// that follows works on the same source as the step before, or is the
/// end.
pub proof fn attempt_stays_with_its_source(
    settings: AutoInstSettings,
    step: FetchStep,
    event: FetchEvent,
)
    ensures
        FetchStep::first_of(settings) is Done || FetchStep::first_of(settings).source() == Some(
            settings.mode,
        ),
        step.next(event) is Done || step.next(event).source() == step.source(),
{
}

/// An attempt never goes back: what is reported to a step either leaves
/// the attempt where it is or takes it closer to its end. So no step is
/// done a second time, and the source is asked once.
pub proof fn attempt_never_goes_back(step: FetchStep, event: FetchEvent)
    ensures
        step.next(event) == step || step.next(event).steps_left() < step.steps_left(),
{
}

/// Along any run, the mounts made and not yet undone are one while the run
/// stands at reading from the partition or at unmounting it, and none at
/// any other step.
pub proof fn mounts_follow_the_steps(step: FetchStep, events: Seq<FetchEvent>)
    ensures
        (if step.holds_mount() {
            1int
        } else {
            0int
        }) + step.mounts_left(events) == (if step.run(events).holds_mount() {
            1int
        } else {
            0int
        }),
    decreases events.len(),
{
    if events.len() > 0 {
        mounts_follow_the_steps(step.next(events[0]), events.drop_first());
    }
}

/// No mount is left behind: when an attempt is over, however it went, it
/// has undone every mount it made.
pub proof fn finished_attempt_leaves_no_mount(settings: AutoInstSettings, events: Seq<FetchEvent>)
    requires
        FetchStep::first_of(settings).run(events) is Done,
    ensures
        FetchStep::first_of(settings).mounts_left(events) == 0,
{
    mounts_follow_the_steps(FetchStep::first_of(settings), events);
}

/// With the partition source configured and no partition carrying the
/// label, the attempt ends in the label-not-found error, and has mounted
/// nothing.
pub proof fn missing_label_ends_the_attempt(settings: AutoInstSettings)
    requires
        settings.mode == FetchAnswerFrom::Partition,
    ensures
        FetchStep::first_of(settings).run(seq![FetchEvent::Found(None)]) == FetchStep::Done(
            Err(FetchError::LabelNotFound),
        ),
        FetchStep::first_of(settings).mounts_left(seq![FetchEvent::Found(None)]) == 0,
{
    let events = seq![FetchEvent::Found(None)];
    let first = FetchStep::first_of(settings);
    assert(events.drop_first() =~= Seq::<FetchEvent>::empty());
    assert(first.next(events[0]).run(events.drop_first()) == first.next(events[0]));
    assert(first.next(events[0]).mounts_left(events.drop_first()) == 0);
}

} // verus!
