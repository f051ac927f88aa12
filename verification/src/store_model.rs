//! A model of the stores, and what the registration protocol achieves in it.
//!
//! The model is a registry key with string values and a file system with
//! directories and files, as far as the protocol can tell them apart. It
//! answers every action the way a healthy system does: nothing fails but for
//! the reasons that the model itself gives (a missing file, a directory in the
//! way, a parent that is no directory). The statements below say what a whole
//! request does to such a store.

use crate::autostart::{
    artifact_content, artifact_directory, artifact_file_name, artifact_path, file_artifact_of,
    path_join, AutostartTarget, FileArtifact, RUN_VALUE_NAME,
};
use crate::protocol::{
    first_step, next_step, AutostartError, AutostartRequest, AutostartStep, StoreAction,
    StoreReply,
};
use vstd::prelude::*;

verus! {

/// What the protocol can observe of the system.
pub struct StoreModel {
    /// The user's home directory, where the environment names one.
    pub home: Option<Seq<char>>,
    /// The path of the running executable, where it can be found out.
    pub executable: Option<Seq<char>>,
    pub directories: Set<Seq<char>>,
    /// The files, each with what it holds.
    pub files: Map<Seq<char>, Seq<char>>,
    /// The string values under the `Run` key.
    pub run_values: Map<Seq<char>, Seq<char>>,
}

pub open spec fn exists_at(store: StoreModel, path: Seq<char>) -> bool {
    store.files.contains_key(path) || store.directories.contains(path)
}

/// The directory that must exist for a file to be written at `path`: what
/// stands before the last `/`.
pub open spec fn parent_of(path: Seq<char>) -> Seq<char>
    decreases path.len(),
{
    if path.len() == 0 {
        path
    } else if path.last() == '/' {
        path.drop_last()
    } else {
        parent_of(path.drop_last())
    }
}

pub open spec fn succeeded(value: Seq<char>) -> StoreReply<Seq<char>> {
    StoreReply::Success { value }
}

pub open spec fn failed(not_found: bool) -> StoreReply<Seq<char>> {
    StoreReply::Failure { not_found, cause: Seq::empty() }
}

/// The reply of the modelled system to `action`, and the store after it.
pub open spec fn answer(store: StoreModel, action: StoreAction<Seq<char>>) -> (
    StoreReply<Seq<char>>,
    StoreModel,
) {
    match action {
        StoreAction::ReadHome => match store.home {
            Some(home) => (succeeded(home), store),
            None => (failed(true), store),
        },
        StoreAction::ResolveExecutable => match store.executable {
            Some(path) => (succeeded(path), store),
            None => (failed(false), store),
        },
        StoreAction::OpenRunKey { .. } => (succeeded(Seq::empty()), store),
        StoreAction::Probe { path } => if exists_at(store, path) {
            (succeeded(Seq::empty()), store)
        } else {
            (failed(true), store)
        },
        StoreAction::CreateDirectory { path } => if store.files.contains_key(path) {
            (failed(false), store)
        } else {
            (
                succeeded(Seq::empty()),
                StoreModel { directories: store.directories.insert(path), ..store },
            )
        },
        StoreAction::WriteFile { path, content } => if store.directories.contains(parent_of(path))
            && !store.directories.contains(path) {
            (succeeded(Seq::empty()), StoreModel { files: store.files.insert(path, content), ..store })
        } else {
            (failed(false), store)
        },
        StoreAction::RemoveFile { path } => if store.files.contains_key(path) {
            (succeeded(Seq::empty()), StoreModel { files: store.files.remove(path), ..store })
        } else {
            (failed(!store.directories.contains(path)), store)
        },
        StoreAction::SetRunValue { name, data } => (
            succeeded(Seq::empty()),
            StoreModel { run_values: store.run_values.insert(name, data), ..store },
        ),
        StoreAction::DeleteRunValue { name } => if store.run_values.contains_key(name) {
            (
                succeeded(Seq::empty()),
                StoreModel { run_values: store.run_values.remove(name), ..store },
            )
        } else {
            (failed(true), store)
        },
        StoreAction::QueryRunValue { name } => if store.run_values.contains_key(name) {
            (succeeded(store.run_values[name]), store)
        } else {
            (failed(true), store)
        },
    }
}

/// Carries a request on from `step` against the modelled system, for at most
/// `patience` actions. Gives the outcome, if the request got that far, and the
/// store as the request left it.
pub open spec fn carry_out(step: AutostartStep<Seq<char>>, store: StoreModel, patience: nat) -> (
    Option<Result<bool, AutostartError<Seq<char>>>>,
    StoreModel,
)
    decreases patience,
{
    match step {
        AutostartStep::Finished { outcome } => (Some(outcome), store),
        AutostartStep::Perform { session } => if patience == 0 {
            (None, store)
        } else {
            let (reply, after) = answer(store, session.pending);
            carry_out(next_step(session, reply), after, (patience - 1) as nat)
        },
    }
}

/// A whole request against the modelled system. No request takes more than
/// five actions (see [`every_request_ends`]).
pub open spec fn serve(target: AutostartTarget, request: AutostartRequest, store: StoreModel) -> (
    Option<Result<bool, AutostartError<Seq<char>>>>,
    StoreModel,
) {
    carry_out(first_step(target, request), store, 5)
}

/// The registration exists in `store`.
pub open spec fn registered(target: AutostartTarget, store: StoreModel) -> bool {
    match target {
        AutostartTarget::WindowsRegistryRun => store.run_values.contains_key(RUN_VALUE_NAME@),
        AutostartTarget::Unsupported => false,
        _ => match (file_artifact_of(target), store.home) {
            (Some(artifact), Some(home)) => exists_at(store, artifact_path(artifact, home)),
            _ => false,
        },
    }
}

/// The store lets the protocol find its place: a target with files needs the
/// home directory.
pub open spec fn locatable(target: AutostartTarget, store: StoreModel) -> bool {
    file_artifact_of(target) is Some ==> store.home is Some
}

/// Nothing of the wrong kind stands where the registration belongs: no file
/// in place of its directory, and no directory in place of the file.
pub open spec fn orderly(target: AutostartTarget, store: StoreModel) -> bool {
    match (file_artifact_of(target), store.home) {
        (Some(artifact), Some(home)) => {
            &&& !store.files.contains_key(artifact_directory(artifact, home))
            &&& !store.directories.contains(artifact_path(artifact, home))
        },
        _ => true,
    }
}

/// The store as enabling leaves it: the one registration added or replaced,
/// its directory made, and nothing else touched.
pub open spec fn enabled_store(target: AutostartTarget, store: StoreModel) -> StoreModel {
    match (target, store.executable) {
        (AutostartTarget::WindowsRegistryRun, Some(executable)) => StoreModel {
            run_values: store.run_values.insert(RUN_VALUE_NAME@, executable),
            ..store
        },
        (_, Some(executable)) => match (file_artifact_of(target), store.home) {
            (Some(artifact), Some(home)) => StoreModel {
                directories: store.directories.insert(artifact_directory(artifact, home)),
                files: store.files.insert(
                    artifact_path(artifact, home),
                    artifact_content(artifact, executable),
                ),
                ..store
            },
            _ => store,
        },
        _ => store,
    }
}

/// The store as disabling leaves it: the registration gone, nothing else touched.
pub open spec fn disabled_store(target: AutostartTarget, store: StoreModel) -> StoreModel {
    match target {
        AutostartTarget::WindowsRegistryRun => StoreModel {
            run_values: store.run_values.remove(RUN_VALUE_NAME@),
            ..store
        },
        _ => match (file_artifact_of(target), store.home) {
            (Some(artifact), Some(home)) => StoreModel {
                files: store.files.remove(artifact_path(artifact, home)),
                ..store
            },
            _ => store,
        },
    }
}

proof fn lemma_parent_of_joined(directory: Seq<char>, name: Seq<char>)
    requires
        forall|i: int| 0 <= i < name.len() ==> name[i] != '/',
    ensures
        parent_of(directory + seq!['/'] + name) == directory,
    decreases name.len(),
{
    let path = directory + seq!['/'] + name;
    if name.len() == 0 {
        assert(path.drop_last() =~= directory);
    } else {
        assert(path.last() == name.last());
        assert(path.drop_last() =~= directory + seq!['/'] + name.drop_last());
        lemma_parent_of_joined(directory, name.drop_last());
    }
}

proof fn lemma_join_keeps_end(base: Seq<char>, name: Seq<char>)
    requires
        name.len() > 0,
    ensures
        path_join(base, name).len() > 0,
        path_join(base, name).last() == name.last(),
{
}

/// The registration file lies directly in its directory, under a name of its own.
pub proof fn registration_lies_in_its_directory(artifact: FileArtifact, home: Seq<char>)
    ensures
        parent_of(artifact_path(artifact, home)) == artifact_directory(artifact, home),
        artifact_path(artifact, home) != artifact_directory(artifact, home),
{
    reveal_strlit("/");
    reveal_strlit("autostart");
    reveal_strlit("LaunchAgents");
    reveal_strlit("workplan.desktop");
    reveal_strlit("com.makotoarai.workplan.plist");
    let directory = artifact_directory(artifact, home);
    let name = artifact_file_name(artifact);
    match artifact {
        FileArtifact::DesktopEntry => {
            lemma_join_keeps_end(path_join(home, ".config"@), "autostart"@);
        },
        FileArtifact::LaunchAgent => {
            lemma_join_keeps_end(path_join(home, "Library"@), "LaunchAgents"@);
        },
    }
    assert(directory.len() > 0 && directory.last() != '/');
    assert("/"@ =~= seq!['/']);
    assert(artifact_path(artifact, home) == directory + seq!['/'] + name);
    assert(forall|i: int| 0 <= i < name.len() ==> name[i] != '/');
    lemma_parent_of_joined(directory, name);
    assert(artifact_path(artifact, home).len() > directory.len());
}

/// Every request comes to its outcome within five actions, whatever the store.
pub proof fn every_request_ends(
    target: AutostartTarget,
    request: AutostartRequest,
    store: StoreModel,
)
    ensures
        serve(target, request, store).0 is Some,
{
    reveal_with_fuel(carry_out, 6);
}

/// A status is the truth about the store and leaves it as it was.
pub proof fn status_reports_the_store(target: AutostartTarget, store: StoreModel)
    requires
        locatable(target, store),
    ensures
        serve(target, AutostartRequest::Status, store) == (
            Some(Ok::<bool, AutostartError<Seq<char>>>(registered(target, store))),
            store,
        ),
{
    reveal_with_fuel(carry_out, 6);
}

/// No status, whatever its outcome, changes the store.
pub proof fn status_changes_nothing(target: AutostartTarget, store: StoreModel)
    ensures
        serve(target, AutostartRequest::Status, store).1 == store,
{
    reveal_with_fuel(carry_out, 6);
}

/// Enabling succeeds wherever the home directory and the executable are known
/// and nothing of the wrong kind is in the way. It leaves the registration
/// for the running executable, and changes nothing else.
pub proof fn enabling_registers(target: AutostartTarget, store: StoreModel)
    requires
        target != AutostartTarget::Unsupported,
        locatable(target, store),
        orderly(target, store),
        store.executable is Some,
    ensures
        serve(target, AutostartRequest::Enable, store) == (
            Some(Ok::<bool, AutostartError<Seq<char>>>(true)),
            enabled_store(target, store),
        ),
        registered(target, enabled_store(target, store)),
        orderly(target, enabled_store(target, store)),
{
    reveal_with_fuel(carry_out, 6);
    match file_artifact_of(target) {
        Some(artifact) => {
            let home = store.home->0;
            registration_lies_in_its_directory(artifact, home);
            let directory = artifact_directory(artifact, home);
            if store.directories.contains(directory) {
                assert(store.directories.insert(directory) =~= store.directories);
            }
        },
        None => {},
    }
}

/// Enabling twice is enabling once: both requests succeed, and the second
/// leaves the store exactly as the first left it, with its one registration.
pub proof fn enabling_again_changes_nothing(target: AutostartTarget, store: StoreModel)
    requires
        target != AutostartTarget::Unsupported,
        locatable(target, store),
        orderly(target, store),
        store.executable is Some,
    ensures
        ({
            let (first, once) = serve(target, AutostartRequest::Enable, store);
            let (second, twice) = serve(target, AutostartRequest::Enable, once);
            &&& first == Some(Ok::<bool, AutostartError<Seq<char>>>(true))
            &&& second == Some(Ok::<bool, AutostartError<Seq<char>>>(true))
            &&& twice == once
            &&& registered(target, once)
        }),
{
    let once = enabled_store(target, store);
    enabling_registers(target, store);
    enabling_registers(target, once);
    let twice = enabled_store(target, once);
    assert(twice.directories =~= once.directories);
    assert(twice.files =~= once.files);
    assert(twice.run_values =~= once.run_values);
}

/// Disabling removes the registration and nothing else.
pub proof fn disabling_unregisters(target: AutostartTarget, store: StoreModel)
    requires
        target != AutostartTarget::Unsupported,
        locatable(target, store),
        orderly(target, store),
    ensures
        serve(target, AutostartRequest::Disable, store) == (
            Some(Ok::<bool, AutostartError<Seq<char>>>(true)),
            disabled_store(target, store),
        ),
        !registered(target, disabled_store(target, store)),
        orderly(target, disabled_store(target, store)),
{
    reveal_with_fuel(carry_out, 6);
    match target {
        AutostartTarget::WindowsRegistryRun => {
            if !store.run_values.contains_key(RUN_VALUE_NAME@) {
                assert(store.run_values.remove(RUN_VALUE_NAME@) =~= store.run_values);
            }
        },
        _ => {
            let path = artifact_path(file_artifact_of(target)->0, store.home->0);
            if !store.files.contains_key(path) {
                assert(store.files.remove(path) =~= store.files);
            }
        },
    }
}

/// Disabling what was never enabled succeeds and changes nothing.
pub proof fn disabling_the_unregistered_changes_nothing(
    target: AutostartTarget,
    store: StoreModel,
)
    requires
        target != AutostartTarget::Unsupported,
        locatable(target, store),
        !registered(target, store),
    ensures
        serve(target, AutostartRequest::Disable, store) == (
            Some(Ok::<bool, AutostartError<Seq<char>>>(true)),
            store,
        ),
{
    reveal_with_fuel(carry_out, 6);
}

/// After enabling, the status is `true`; after disabling, it is `false`.
pub proof fn status_follows_the_last_request(target: AutostartTarget, store: StoreModel)
    requires
        target != AutostartTarget::Unsupported,
        locatable(target, store),
        orderly(target, store),
        store.executable is Some,
    ensures
        ({
            let enabled = serve(target, AutostartRequest::Enable, store).1;
            let disabled = serve(target, AutostartRequest::Disable, enabled).1;
            &&& serve(target, AutostartRequest::Status, enabled).0 == Some(
                Ok::<bool, AutostartError<Seq<char>>>(true),
            )
            &&& serve(target, AutostartRequest::Status, disabled).0 == Some(
                Ok::<bool, AutostartError<Seq<char>>>(false),
            )
        }),
{
    enabling_registers(target, store);
    let enabled = enabled_store(target, store);
    status_reports_the_store(target, enabled);
    disabling_unregisters(target, enabled);
    status_reports_the_store(target, disabled_store(target, enabled));
}

/// Where the system has no store, enabling and disabling are refused with an
/// error of their own, the status is `false` without error, and no action is
/// asked of the caller.
pub proof fn unsupported_platform_is_refused(request: AutostartRequest, store: StoreModel)
    ensures
        first_step(AutostartTarget::Unsupported, request) is Finished,
        serve(AutostartTarget::Unsupported, request, store) == (
            Some(
                if request == AutostartRequest::Status {
                    Ok::<bool, AutostartError<Seq<char>>>(false)
                } else {
                    Err(AutostartError::UnsupportedPlatform)
                },
            ),
            store,
        ),
{
    reveal_with_fuel(carry_out, 2);
}

} // verus!
