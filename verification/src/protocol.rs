//! The steps by which a registration is made, removed or looked up.
//!
//! The library never touches the registry or the file system. It says which
//! single action on the store comes next; the caller performs it and reports
//! how it went, until the library names the outcome. Each request is a short
//! conversation of this kind, and the rules of the conversation are the
//! functions [`first_step`] and [`next_step`].
//!
//! Types that carry text take the kind of text as a parameter: `String` in
//! running code, a sequence of characters in statements about it.

use crate::autostart::{
    artifact_content, artifact_directory, artifact_path, file_artifact_of, AutostartTarget,
    FileArtifact, RUN_KEY, RUN_VALUE_NAME,
};
use crate::text::followed_by;
use vstd::prelude::*;
use vstd::string::StringExecFns;

verus! {

/// What the user asks for.
#[derive(Clone, Copy, Debug, PartialEq, Eq, Structural)]
pub enum AutostartRequest {
    Enable,
    Disable,
    Status,
}

/// The request behind the user's switch: on enables, off disables.
pub fn request_for_switch(enable: bool) -> (request: AutostartRequest)
    ensures
        request == if enable {
            AutostartRequest::Enable
        } else {
            AutostartRequest::Disable
        },
{
    if enable {
        AutostartRequest::Enable
    } else {
        AutostartRequest::Disable
    }
}

#[derive(Clone, Copy, Debug, PartialEq, Eq, Structural)]
pub enum RegistryOperation {
    OpenKey,
    SetValue,
    DeleteValue,
}

#[derive(Clone, Copy, Debug, PartialEq, Eq, Structural)]
pub enum FileOperation {
    CreateDirectory,
    Write,
    Remove,
}

/// Why a request failed. `cause` is the system's own description.
#[derive(Debug, PartialEq, Eq)]
pub enum AutostartError<T> {
    /// The registry refused an operation.
    Registry { operation: RegistryOperation, cause: T },
    /// The file system refused an operation on the registration file or its directory.
    File { task: FileOperation, artifact: FileArtifact, cause: T },
    /// The path of the running executable could not be found out.
    ExecutablePath { cause: T },
    /// The user's home directory is not known.
    HomeDirectory,
    /// The system has no store for registrations.
    UnsupportedPlatform,
}

/// One action on the store of registrations, for the caller to perform.
#[derive(Debug, PartialEq, Eq)]
pub enum StoreAction<T> {
    /// Read the `HOME` variable of the environment.
    ReadHome,
    /// Find the path of the running executable.
    ResolveExecutable,
    /// Open a subkey of `HKEY_CURRENT_USER`, for reading or with full access.
    OpenRunKey { subkey: T, writable: bool },
    /// Find out whether anything exists at a path.
    Probe { path: T },
    /// Create a directory and its missing parents.
    CreateDirectory { path: T },
    /// Write a file, replacing what was there.
    WriteFile { path: T, content: T },
    RemoveFile { path: T },
    /// Set a string value under the opened key.
    SetRunValue { name: T, data: T },
    DeleteRunValue { name: T },
    /// Read a string value under the opened key.
    QueryRunValue { name: T },
}

/// How an action went. `Success` carries what was read, or nothing; to a
/// probe or a query it says that the thing is there, and `Failure` that it is not.
#[derive(Debug, PartialEq, Eq)]
pub enum StoreReply<T> {
    Success { value: T },
    Failure { not_found: bool, cause: T },
}

/// A request under way: the action that the caller now performs, and what
/// the later steps need to remember.
#[derive(Debug, PartialEq, Eq)]
pub struct AutostartSession<T> {
    pub target: AutostartTarget,
    pub request: AutostartRequest,
    /// Path of the registration file, once the home directory is known.
    pub artifact_path: T,
    pub pending: StoreAction<T>,
}

#[derive(Debug, PartialEq, Eq)]
pub enum AutostartStep<T> {
    /// Perform `session.pending`, then hand the reply to [`AutostartSession::resume`].
    Perform { session: AutostartSession<T> },
    /// The request is over.
    Finished { outcome: Result<bool, AutostartError<T>> },
}

impl<T: View> View for AutostartError<T> {
    type V = AutostartError<T::V>;

    open spec fn view(&self) -> AutostartError<T::V> {
        match *self {
            AutostartError::Registry { operation, cause } => AutostartError::Registry {
                operation,
                cause: cause@,
            },
            AutostartError::File { task, artifact, cause } => AutostartError::File {
                task,
                artifact,
                cause: cause@,
            },
            AutostartError::ExecutablePath { cause } => AutostartError::ExecutablePath {
                cause: cause@,
            },
            AutostartError::HomeDirectory => AutostartError::HomeDirectory,
            AutostartError::UnsupportedPlatform => AutostartError::UnsupportedPlatform,
        }
    }
}

impl<T: View> View for StoreAction<T> {
    type V = StoreAction<T::V>;

    open spec fn view(&self) -> StoreAction<T::V> {
        match *self {
            StoreAction::ReadHome => StoreAction::ReadHome,
            StoreAction::ResolveExecutable => StoreAction::ResolveExecutable,
            StoreAction::OpenRunKey { subkey, writable } => StoreAction::OpenRunKey {
                subkey: subkey@,
                writable,
            },
            StoreAction::Probe { path } => StoreAction::Probe { path: path@ },
            StoreAction::CreateDirectory { path } => StoreAction::CreateDirectory { path: path@ },
            StoreAction::WriteFile { path, content } => StoreAction::WriteFile {
                path: path@,
                content: content@,
            },
            StoreAction::RemoveFile { path } => StoreAction::RemoveFile { path: path@ },
            StoreAction::SetRunValue { name, data } => StoreAction::SetRunValue {
                name: name@,
                data: data@,
            },
            StoreAction::DeleteRunValue { name } => StoreAction::DeleteRunValue { name: name@ },
            StoreAction::QueryRunValue { name } => StoreAction::QueryRunValue { name: name@ },
        }
    }
}

impl<T: View> View for StoreReply<T> {
    type V = StoreReply<T::V>;

    open spec fn view(&self) -> StoreReply<T::V> {
        match *self {
            StoreReply::Success { value } => StoreReply::Success { value: value@ },
            StoreReply::Failure { not_found, cause } => StoreReply::Failure {
                not_found,
                cause: cause@,
            },
        }
    }
}

impl<T: View> View for AutostartSession<T> {
    type V = AutostartSession<T::V>;

    open spec fn view(&self) -> AutostartSession<T::V> {
        AutostartSession {
            target: self.target,
            request: self.request,
            artifact_path: self.artifact_path@,
            pending: self.pending@,
        }
    }
}

/// The outcome of a request, its error taken by its view.
pub open spec fn outcome_view<T: View>(outcome: Result<bool, AutostartError<T>>) -> Result<
    bool,
    AutostartError<T::V>,
> {
    match outcome {
        Ok(enabled) => Ok(enabled),
        Err(error) => Err(error@),
    }
}

impl<T: View> View for AutostartStep<T> {
    type V = AutostartStep<T::V>;

    open spec fn view(&self) -> AutostartStep<T::V> {
        match *self {
            AutostartStep::Perform { session } => AutostartStep::Perform { session: session@ },
            AutostartStep::Finished { outcome } => AutostartStep::Finished {
                outcome: outcome_view(outcome),
            },
        }
    }
}

/// The step that asks for `pending` and keeps the rest of `session`.
pub open spec fn proceed(
    session: AutostartSession<Seq<char>>,
    pending: StoreAction<Seq<char>>,
) -> AutostartStep<Seq<char>> {
    AutostartStep::Perform { session: AutostartSession { pending, ..session } }
}

pub open spec fn finish(outcome: Result<bool, AutostartError<Seq<char>>>) -> AutostartStep<
    Seq<char>,
> {
    AutostartStep::Finished { outcome }
}

/// How a request begins.
///
/// A system without a store refuses to enable or disable, and reports for the
/// status that nothing is registered. Windows opens the `Run` key, for reading
/// when only the status is asked. The others first need the home directory.
pub open spec fn first_step(target: AutostartTarget, request: AutostartRequest) -> AutostartStep<
    Seq<char>,
> {
    let session = AutostartSession {
        target,
        request,
        artifact_path: Seq::<char>::empty(),
        pending: StoreAction::ReadHome,
    };
    match target {
        AutostartTarget::Unsupported => match request {
            AutostartRequest::Status => finish(Ok(false)),
            _ => finish(Err(AutostartError::UnsupportedPlatform)),
        },
        AutostartTarget::WindowsRegistryRun => proceed(
            session,
            StoreAction::OpenRunKey {
                subkey: RUN_KEY@,
                writable: request != AutostartRequest::Status,
            },
        ),
        _ => proceed(session, StoreAction::ReadHome),
    }
}

/// With the home directory known: look at the directory before enabling (it
/// may have to be made), at the registration file itself otherwise.
pub open spec fn after_home(
    session: AutostartSession<Seq<char>>,
    artifact: FileArtifact,
    home: Seq<char>,
) -> AutostartStep<Seq<char>> {
    let located = AutostartSession { artifact_path: artifact_path(artifact, home), ..session };
    match session.request {
        AutostartRequest::Enable => proceed(
            located,
            StoreAction::Probe { path: artifact_directory(artifact, home) },
        ),
        _ => proceed(located, StoreAction::Probe { path: artifact_path(artifact, home) }),
    }
}

/// With the executable known: write the registration.
pub open spec fn after_executable(
    session: AutostartSession<Seq<char>>,
    executable: Seq<char>,
) -> AutostartStep<Seq<char>> {
    match session.target {
        AutostartTarget::WindowsRegistryRun => proceed(
            session,
            StoreAction::SetRunValue { name: RUN_VALUE_NAME@, data: executable },
        ),
        target => match file_artifact_of(target) {
            Some(artifact) => proceed(
                session,
                StoreAction::WriteFile {
                    path: session.artifact_path,
                    content: artifact_content(artifact, executable),
                },
            ),
            None => finish(Err(AutostartError::UnsupportedPlatform)),
        },
    }
}

/// The failure of a file operation, or the plain refusal where the target has no files.
pub open spec fn file_failure(
    session: AutostartSession<Seq<char>>,
    task: FileOperation,
    cause: Seq<char>,
) -> AutostartStep<Seq<char>> {
    match file_artifact_of(session.target) {
        Some(artifact) => finish(Err(AutostartError::File { task, artifact, cause })),
        None => finish(Err(AutostartError::UnsupportedPlatform)),
    }
}

/// How a request goes on, by the action that was pending and the reply to it.
///
/// A missing registration is no failure: disabling it succeeds, and so does
/// deleting a registry value that the registry reports as not found. A status
/// never changes the store. Every other failure ends the request with its cause.
pub open spec fn next_step(
    session: AutostartSession<Seq<char>>,
    reply: StoreReply<Seq<char>>,
) -> AutostartStep<Seq<char>> {
    match session.pending {
        StoreAction::ReadHome => match reply {
            StoreReply::Success { value } => match file_artifact_of(session.target) {
                Some(artifact) => after_home(session, artifact, value),
                None => finish(Err(AutostartError::UnsupportedPlatform)),
            },
            StoreReply::Failure { .. } => finish(Err(AutostartError::HomeDirectory)),
        },
        StoreAction::Probe { path } => match session.request {
            AutostartRequest::Enable => match reply {
                StoreReply::Success { .. } => proceed(session, StoreAction::ResolveExecutable),
                StoreReply::Failure { .. } => proceed(session, StoreAction::CreateDirectory { path }),
            },
            AutostartRequest::Disable => match reply {
                StoreReply::Success { .. } => proceed(
                    session,
                    StoreAction::RemoveFile { path: session.artifact_path },
                ),
                StoreReply::Failure { .. } => finish(Ok(true)),
            },
            AutostartRequest::Status => finish(Ok(reply is Success)),
        },
        StoreAction::CreateDirectory { .. } => match reply {
            StoreReply::Success { .. } => proceed(session, StoreAction::ResolveExecutable),
            StoreReply::Failure { cause, .. } => file_failure(
                session,
                FileOperation::CreateDirectory,
                cause,
            ),
        },
        StoreAction::ResolveExecutable => match reply {
            StoreReply::Success { value } => after_executable(session, value),
            StoreReply::Failure { cause, .. } => finish(
                Err(AutostartError::ExecutablePath { cause }),
            ),
        },
        StoreAction::WriteFile { .. } => match reply {
            StoreReply::Success { .. } => finish(Ok(true)),
            StoreReply::Failure { cause, .. } => file_failure(session, FileOperation::Write, cause),
        },
        StoreAction::RemoveFile { .. } => match reply {
            StoreReply::Success { .. } => finish(Ok(true)),
            StoreReply::Failure { cause, .. } => file_failure(
                session,
                FileOperation::Remove,
                cause,
            ),
        },
        StoreAction::OpenRunKey { .. } => match reply {
            StoreReply::Success { .. } => match session.request {
                AutostartRequest::Enable => proceed(session, StoreAction::ResolveExecutable),
                AutostartRequest::Disable => proceed(
                    session,
                    StoreAction::DeleteRunValue { name: RUN_VALUE_NAME@ },
                ),
                AutostartRequest::Status => proceed(
                    session,
                    StoreAction::QueryRunValue { name: RUN_VALUE_NAME@ },
                ),
            },
            StoreReply::Failure { cause, .. } => finish(
                Err(AutostartError::Registry { operation: RegistryOperation::OpenKey, cause }),
            ),
        },
        StoreAction::SetRunValue { .. } => match reply {
            StoreReply::Success { .. } => finish(Ok(true)),
            StoreReply::Failure { cause, .. } => finish(
                Err(AutostartError::Registry { operation: RegistryOperation::SetValue, cause }),
            ),
        },
        StoreAction::DeleteRunValue { .. } => match reply {
            StoreReply::Success { .. } => finish(Ok(true)),
            StoreReply::Failure { not_found, cause } => if not_found {
                finish(Ok(true))
            } else {
                finish(
                    Err(
                        AutostartError::Registry {
                            operation: RegistryOperation::DeleteValue,
                            cause,
                        },
                    ),
                )
            },
        },
        StoreAction::QueryRunValue { .. } => finish(Ok(reply is Success)),
    }
}

/// How many actions a request may still ask for, the pending one included.
pub open spec fn actions_left(action: StoreAction<Seq<char>>) -> nat {
    match action {
        StoreAction::ReadHome => 5,
        StoreAction::Probe { .. } => 4,
        StoreAction::CreateDirectory { .. } => 3,
        StoreAction::OpenRunKey { .. } => 3,
        StoreAction::ResolveExecutable => 2,
        _ => 1,
    }
}

/// Every reply brings a request closer to its outcome, whatever the reply
/// is: no request asks for more than five actions.
pub proof fn every_step_makes_progress(
    session: AutostartSession<Seq<char>>,
    reply: StoreReply<Seq<char>>,
)
    ensures
        1 <= actions_left(session.pending) <= 5,
        next_step(session, reply) matches AutostartStep::Perform { session: later }
            ==> actions_left(later.pending) < actions_left(session.pending),
{
}

/// An action that leaves the store as it is: reading the environment, probing
/// a path, opening the key for reading, reading a value.
pub open spec fn only_looks(action: StoreAction<Seq<char>>) -> bool {
    match action {
        StoreAction::ReadHome => true,
        StoreAction::Probe { .. } => true,
        StoreAction::QueryRunValue { .. } => true,
        StoreAction::OpenRunKey { writable, .. } => !writable,
        _ => false,
    }
}

/// An action that adds nothing to the store.
pub open spec fn only_looks_or_removes(action: StoreAction<Seq<char>>) -> bool {
    match action {
        StoreAction::RemoveFile { .. } => true,
        StoreAction::DeleteRunValue { .. } => true,
        StoreAction::OpenRunKey { .. } => true,
        _ => only_looks(action),
    }
}

/// A status under way that has not asked for anything but a look.
pub open spec fn looking(session: AutostartSession<Seq<char>>) -> bool {
    session.request == AutostartRequest::Status && only_looks(session.pending)
}

/// A disabling under way that has not asked to add anything.
pub open spec fn removing(session: AutostartSession<Seq<char>>) -> bool {
    session.request == AutostartRequest::Disable && only_looks_or_removes(session.pending)
}

/// A status never asks for a change to the store, whatever the system replies:
/// its first action only looks, and so does every action that follows one.
pub proof fn status_only_looks(
    target: AutostartTarget,
    session: AutostartSession<Seq<char>>,
    reply: StoreReply<Seq<char>>,
)
    ensures
        first_step(target, AutostartRequest::Status) matches AutostartStep::Perform {
            session: first,
        } ==> looking(first),
        looking(session) ==> (next_step(session, reply) matches AutostartStep::Perform {
            session: later,
        } ==> looking(later)),
{
}

/// Disabling never asks to create or write anything, whatever the system replies.
pub proof fn disabling_adds_nothing(
    target: AutostartTarget,
    session: AutostartSession<Seq<char>>,
    reply: StoreReply<Seq<char>>,
)
    ensures
        first_step(target, AutostartRequest::Disable) matches AutostartStep::Perform {
            session: first,
        } ==> removing(first),
        removing(session) ==> (next_step(session, reply) matches AutostartStep::Perform {
            session: later,
        } ==> removing(later)),
{
}

/// The action touches nothing but the application's own registration: the
/// `Run` key and the application's value in it, or, for a user whose home
/// directory is `home`, the registration file and its directory.
pub open spec fn concerns_own_registration(
    session: AutostartSession<Seq<char>>,
    home: Seq<char>,
) -> bool {
    match session.pending {
        StoreAction::ReadHome => true,
        StoreAction::ResolveExecutable => true,
        StoreAction::OpenRunKey { subkey, .. } => subkey == RUN_KEY@,
        StoreAction::SetRunValue { name, .. } => name == RUN_VALUE_NAME@,
        StoreAction::DeleteRunValue { name } => name == RUN_VALUE_NAME@,
        StoreAction::QueryRunValue { name } => name == RUN_VALUE_NAME@,
        StoreAction::Probe { path } => match file_artifact_of(session.target) {
            Some(artifact) => path == if session.request == AutostartRequest::Enable {
                artifact_directory(artifact, home)
            } else {
                artifact_path(artifact, home)
            },
            None => false,
        },
        StoreAction::CreateDirectory { path } => match file_artifact_of(session.target) {
            Some(artifact) => path == artifact_directory(artifact, home),
            None => false,
        },
        StoreAction::WriteFile { path, .. } => match file_artifact_of(session.target) {
            Some(artifact) => path == artifact_path(artifact, home),
            None => false,
        },
        StoreAction::RemoveFile { path } => match file_artifact_of(session.target) {
            Some(artifact) => path == artifact_path(artifact, home),
            None => false,
        },
    }
}

/// A request under way that has kept to the application's own registration
/// and remembers where it is.
pub open spec fn on_own_ground(session: AutostartSession<Seq<char>>, home: Seq<char>) -> bool {
    &&& concerns_own_registration(session, home)
    &&& match file_artifact_of(session.target) {
        Some(artifact) => session.pending is ReadHome || session.artifact_path == artifact_path(
            artifact,
            home,
        ),
        None => true,
    }
}

/// No request touches anything but the application's own registration. With
/// `home` the home directory that the system reports, the first action keeps
/// to it, and so does every action that follows one.
pub proof fn requests_keep_to_own_registration(
    target: AutostartTarget,
    request: AutostartRequest,
    session: AutostartSession<Seq<char>>,
    reply: StoreReply<Seq<char>>,
    home: Seq<char>,
)
    ensures
        first_step(target, request) matches AutostartStep::Perform { session: first }
            ==> on_own_ground(first, home),
        on_own_ground(session, home) && (session.pending is ReadHome && reply is Success
            ==> reply->value == home) ==> (next_step(session, reply) matches AutostartStep::Perform {
            session: later,
        } ==> on_own_ground(later, home)),
{
}

/// Begins a request on `target`.
pub fn begin(target: AutostartTarget, request: AutostartRequest) -> (step: AutostartStep<String>)
    ensures
        step@ == first_step(target, request),
{
    match target {
        AutostartTarget::Unsupported => match request {
            AutostartRequest::Status => AutostartStep::Finished { outcome: Ok(false) },
            _ => AutostartStep::Finished { outcome: Err(AutostartError::UnsupportedPlatform) },
        },
        AutostartTarget::WindowsRegistryRun => {
            let writable = match request {
                AutostartRequest::Status => false,
                _ => true,
            };
            AutostartStep::Perform {
                session: AutostartSession {
                    target,
                    request,
                    artifact_path: String::new(),
                    pending: StoreAction::OpenRunKey {
                        subkey: String::from_str(RUN_KEY),
                        writable,
                    },
                },
            }
        },
        _ => AutostartStep::Perform {
            session: AutostartSession {
                target,
                request,
                artifact_path: String::new(),
                pending: StoreAction::ReadHome,
            },
        },
    }
}

fn refuse() -> (step: AutostartStep<String>)
    ensures
        step@ == finish(Err(AutostartError::UnsupportedPlatform)),
{
    AutostartStep::Finished { outcome: Err(AutostartError::UnsupportedPlatform) }
}

fn succeed(enabled: bool) -> (step: AutostartStep<String>)
    ensures
        step@ == finish(Ok(enabled)),
{
    AutostartStep::Finished { outcome: Ok(enabled) }
}

fn fail_registry(operation: RegistryOperation, cause: String) -> (step: AutostartStep<String>)
    ensures
        step@ == finish(Err(AutostartError::Registry { operation, cause: cause@ })),
{
    AutostartStep::Finished { outcome: Err(AutostartError::Registry { operation, cause }) }
}

fn fail_file(target: AutostartTarget, task: FileOperation, cause: String) -> (step:
    AutostartStep<String>)
    ensures
        step@ == match file_artifact_of(target) {
            Some(artifact) => finish(Err(AutostartError::File { task, artifact, cause: cause@ })),
            None => finish(Err(AutostartError::UnsupportedPlatform)),
        },
{
    match target.file_artifact() {
        Some(artifact) => AutostartStep::Finished {
            outcome: Err(AutostartError::File { task, artifact, cause }),
        },
        None => refuse(),
    }
}

impl AutostartSession<String> {
    fn go_on(
        target: AutostartTarget,
        request: AutostartRequest,
        artifact_path: String,
        pending: StoreAction<String>,
    ) -> (step: AutostartStep<String>)
        ensures
            step@ == (AutostartStep::Perform {
                session: AutostartSession {
                    target,
                    request,
                    artifact_path: artifact_path@,
                    pending: pending@,
                },
            }),
    {
        AutostartStep::Perform {
            session: AutostartSession { target, request, artifact_path, pending },
        }
    }

    /// Takes the reply to the pending action and names the next step.
    pub fn resume(self, reply: StoreReply<String>) -> (step: AutostartStep<String>)
        ensures
            step@ == next_step(self@, reply@),
    {
        let AutostartSession { target, request, artifact_path, pending } = self;
        match pending {
            StoreAction::ReadHome => match reply {
                StoreReply::Success { value } => match target.file_artifact() {
                    Some(artifact) => {
                        let file = artifact.path(value.as_str());
                        let probed = match request {
                            AutostartRequest::Enable => artifact.directory(value.as_str()),
                            _ => artifact.path(value.as_str()),
                        };
                        Self::go_on(target, request, file, StoreAction::Probe { path: probed })
                    },
                    None => refuse(),
                },
                StoreReply::Failure { .. } => AutostartStep::Finished {
                    outcome: Err(AutostartError::HomeDirectory),
                },
            },
            StoreAction::Probe { path } => match request {
                AutostartRequest::Enable => match reply {
                    StoreReply::Success { .. } => Self::go_on(
                        target,
                        request,
                        artifact_path,
                        StoreAction::ResolveExecutable,
                    ),
                    StoreReply::Failure { .. } => Self::go_on(
                        target,
                        request,
                        artifact_path,
                        StoreAction::CreateDirectory { path },
                    ),
                },
                AutostartRequest::Disable => match reply {
                    StoreReply::Success { .. } => {
                        let file = artifact_path.clone();
                        Self::go_on(
                            target,
                            request,
                            artifact_path,
                            StoreAction::RemoveFile { path: file },
                        )
                    },
                    StoreReply::Failure { .. } => succeed(true),
                },
                AutostartRequest::Status => match reply {
                    StoreReply::Success { .. } => succeed(true),
                    StoreReply::Failure { .. } => succeed(false),
                },
            },
            StoreAction::CreateDirectory { .. } => match reply {
                StoreReply::Success { .. } => Self::go_on(
                    target,
                    request,
                    artifact_path,
                    StoreAction::ResolveExecutable,
                ),
                StoreReply::Failure { cause, .. } => fail_file(
                    target,
                    FileOperation::CreateDirectory,
                    cause,
                ),
            },
            StoreAction::ResolveExecutable => match reply {
                StoreReply::Success { value } => match target {
                    AutostartTarget::WindowsRegistryRun => Self::go_on(
                        target,
                        request,
                        artifact_path,
                        StoreAction::SetRunValue {
                            name: String::from_str(RUN_VALUE_NAME),
                            data: value,
                        },
                    ),
                    _ => match target.file_artifact() {
                        Some(artifact) => {
                            let file = artifact_path.clone();
                            let content = artifact.content(value.as_str());
                            Self::go_on(
                                target,
                                request,
                                artifact_path,
                                StoreAction::WriteFile { path: file, content },
                            )
                        },
                        None => refuse(),
                    },
                },
                StoreReply::Failure { cause, .. } => AutostartStep::Finished {
                    outcome: Err(AutostartError::ExecutablePath { cause }),
                },
            },
            StoreAction::WriteFile { .. } => match reply {
                StoreReply::Success { .. } => succeed(true),
                StoreReply::Failure { cause, .. } => fail_file(target, FileOperation::Write, cause),
            },
            StoreAction::RemoveFile { .. } => match reply {
                StoreReply::Success { .. } => succeed(true),
                StoreReply::Failure { cause, .. } => fail_file(
                    target,
                    FileOperation::Remove,
                    cause,
                ),
            },
            StoreAction::OpenRunKey { .. } => match reply {
                StoreReply::Success { .. } => {
                    let action = match request {
                        AutostartRequest::Enable => StoreAction::ResolveExecutable,
                        AutostartRequest::Disable => StoreAction::DeleteRunValue {
                            name: String::from_str(RUN_VALUE_NAME),
                        },
                        AutostartRequest::Status => StoreAction::QueryRunValue {
                            name: String::from_str(RUN_VALUE_NAME),
                        },
                    };
                    Self::go_on(target, request, artifact_path, action)
                },
                StoreReply::Failure { cause, .. } => fail_registry(
                    RegistryOperation::OpenKey,
                    cause,
                ),
            },
            StoreAction::SetRunValue { .. } => match reply {
                StoreReply::Success { .. } => succeed(true),
                StoreReply::Failure { cause, .. } => fail_registry(
                    RegistryOperation::SetValue,
                    cause,
                ),
            },
            StoreAction::DeleteRunValue { .. } => match reply {
                StoreReply::Success { .. } => succeed(true),
                StoreReply::Failure { not_found, cause } => if not_found {
                    succeed(true)
                } else {
                    fail_registry(RegistryOperation::DeleteValue, cause)
                },
            },
            StoreAction::QueryRunValue { .. } => match reply {
                StoreReply::Success { .. } => succeed(true),
                StoreReply::Failure { .. } => succeed(false),
            },
        }
    }
}

/// The words that go before the cause when the registry refused `operation`.
pub open spec fn registry_failure_label(operation: RegistryOperation) -> Seq<char> {
    match operation {
        RegistryOperation::OpenKey => "无法打开注册表: "@,
        RegistryOperation::SetValue => "无法设置启动项: "@,
        RegistryOperation::DeleteValue => "无法删除启动项: "@,
    }
}

/// The words that go before the cause when the file system refused `operation`.
pub open spec fn file_failure_label(operation: FileOperation, artifact: FileArtifact) -> Seq<
    char,
> {
    match (operation, artifact) {
        (FileOperation::CreateDirectory, FileArtifact::DesktopEntry) => "无法创建 autostart 目录: "@,
        (FileOperation::CreateDirectory, FileArtifact::LaunchAgent) => "无法创建 LaunchAgents 目录: "@,
        (FileOperation::Write, FileArtifact::DesktopEntry) => "无法写入 desktop 文件: "@,
        (FileOperation::Write, FileArtifact::LaunchAgent) => "无法写入 plist 文件: "@,
        (FileOperation::Remove, FileArtifact::DesktopEntry) => "无法删除 desktop 文件: "@,
        (FileOperation::Remove, FileArtifact::LaunchAgent) => "无法删除 plist 文件: "@,
    }
}

/// The one line that tells the user what went wrong.
pub open spec fn error_text(error: AutostartError<Seq<char>>) -> Seq<char> {
    match error {
        AutostartError::Registry { operation, cause } => registry_failure_label(operation)
            + cause,
        AutostartError::File { task, artifact, cause } => file_failure_label(task, artifact)
            + cause,
        AutostartError::ExecutablePath { cause } => "无法获取程序路径: "@ + cause,
        AutostartError::HomeDirectory => "无法获取 HOME 目录"@,
        AutostartError::UnsupportedPlatform => "当前平台不支持自启动功能"@,
    }
}

fn registry_label(operation: RegistryOperation) -> (label: &'static str)
    ensures
        label@ == registry_failure_label(operation),
{
    match operation {
        RegistryOperation::OpenKey => "无法打开注册表: ",
        RegistryOperation::SetValue => "无法设置启动项: ",
        RegistryOperation::DeleteValue => "无法删除启动项: ",
    }
}

fn file_label(operation: FileOperation, artifact: FileArtifact) -> (label: &'static str)
    ensures
        label@ == file_failure_label(operation, artifact),
{
    match (operation, artifact) {
        (FileOperation::CreateDirectory, FileArtifact::DesktopEntry) => "无法创建 autostart 目录: ",
        (FileOperation::CreateDirectory, FileArtifact::LaunchAgent) => "无法创建 LaunchAgents 目录: ",
        (FileOperation::Write, FileArtifact::DesktopEntry) => "无法写入 desktop 文件: ",
        (FileOperation::Write, FileArtifact::LaunchAgent) => "无法写入 plist 文件: ",
        (FileOperation::Remove, FileArtifact::DesktopEntry) => "无法删除 desktop 文件: ",
        (FileOperation::Remove, FileArtifact::LaunchAgent) => "无法删除 plist 文件: ",
    }
}

impl AutostartError<String> {
    /// The one line that tells the user what went wrong.
    pub fn message(&self) -> (text: String)
        ensures
            text@ == error_text(self@),
    {
        match self {
            AutostartError::Registry { operation, cause } => followed_by(
                registry_label(*operation),
                cause.as_str(),
            ),
            AutostartError::File { task, artifact, cause } => followed_by(
                file_label(*task, *artifact),
                cause.as_str(),
            ),
            AutostartError::ExecutablePath { cause } => followed_by("无法获取程序路径: ", cause.as_str()),
            AutostartError::HomeDirectory => String::from_str("无法获取 HOME 目录"),
            AutostartError::UnsupportedPlatform => String::from_str("当前平台不支持自启动功能"),
        }
    }
}

} // verus!
