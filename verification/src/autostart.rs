//! What it takes to have the application started at login.
//!
//! Each platform keeps the registration in a store of its own: a value under
//! the current user's `Run` key of the Windows registry, a desktop entry in the
//! user's XDG autostart directory, or a launch agent in the user's library.
//! Whether the registration exists there is the only truth; nothing is cached.
//! This module names the stores, the places in them and what is written there.

use crate::text::{characters, followed_by, same_text};
use vstd::prelude::*;
use vstd::string::StringExecFns;

verus! {

/// The store that holds the registration on the running system.
#[derive(Clone, Copy, Debug, PartialEq, Eq, Structural)]
pub enum AutostartTarget {
    WindowsRegistryRun,
    LinuxDesktopEntry,
    MacLaunchAgent,
    Unsupported,
}

/// The two registrations that are files below the user's home directory.
#[derive(Clone, Copy, Debug, PartialEq, Eq, Structural)]
pub enum FileArtifact {
    DesktopEntry,
    LaunchAgent,
}

/// Subkey of `HKEY_CURRENT_USER` whose values Windows starts at login.
pub const RUN_KEY: &'static str = "Software\\Microsoft\\Windows\\CurrentVersion\\Run";

/// Name of the application's value under [`RUN_KEY`].
pub const RUN_VALUE_NAME: &'static str = "WorkPlanwithAI";

pub const DESKTOP_ENTRY_NAME: &'static str = "workplan.desktop";

pub const LAUNCH_AGENT_NAME: &'static str = "com.makotoarai.workplan.plist";

pub const DESKTOP_ENTRY_HEAD: &'static str =
    "[Desktop Entry]\nType=Application\nName=WorkPlan\nExec=";

pub const DESKTOP_ENTRY_TAIL: &'static str =
    "\nTerminal=false\nStartupNotify=false\nX-GNOME-Autostart-enabled=true\n";

pub const LAUNCH_AGENT_HEAD: &'static str =
    "<?xml version=\"1.0\" encoding=\"UTF-8\"?>\n<!DOCTYPE plist PUBLIC \"-//Apple//DTD PLIST 1.0//EN\" \"http://www.apple.com/DTDs/PropertyList-1.0.dtd\">\n<plist version=\"1.0\">\n<dict>\n    <key>Label</key>\n    <string>com.makotoarai.workplan</string>\n    <key>ProgramArguments</key>\n    <array>\n        <string>";

pub const LAUNCH_AGENT_TAIL: &'static str =
    "</string>\n    </array>\n    <key>RunAtLoad</key>\n    <true/>\n    <key>KeepAlive</key>\n    <false/>\n</dict>\n</plist>";

/// The file that registers the application on `target`, if its store is one of files.
pub open spec fn file_artifact_of(target: AutostartTarget) -> Option<FileArtifact> {
    match target {
        AutostartTarget::LinuxDesktopEntry => Some(FileArtifact::DesktopEntry),
        AutostartTarget::MacLaunchAgent => Some(FileArtifact::LaunchAgent),
        _ => None,
    }
}

/// `base` continued by the relative `name`, with one `/` between them unless
/// `base` is empty or ends in one already.
pub open spec fn path_join(base: Seq<char>, name: Seq<char>) -> Seq<char> {
    if base.len() == 0 || base.last() == '/' {
        base + name
    } else {
        base + "/"@ + name
    }
}

/// The directory below `home` that holds the registration file.
pub open spec fn artifact_directory(artifact: FileArtifact, home: Seq<char>) -> Seq<char> {
    match artifact {
        FileArtifact::DesktopEntry => path_join(path_join(home, ".config"@), "autostart"@),
        FileArtifact::LaunchAgent => path_join(path_join(home, "Library"@), "LaunchAgents"@),
    }
}

pub open spec fn artifact_file_name(artifact: FileArtifact) -> Seq<char> {
    match artifact {
        FileArtifact::DesktopEntry => DESKTOP_ENTRY_NAME@,
        FileArtifact::LaunchAgent => LAUNCH_AGENT_NAME@,
    }
}

/// The registration file of a user whose home directory is `home`.
pub open spec fn artifact_path(artifact: FileArtifact, home: Seq<char>) -> Seq<char> {
    path_join(artifact_directory(artifact, home), artifact_file_name(artifact))
}

/// What the registration file holds to start `executable`. The path is set in
/// as it is, without quoting.
pub open spec fn artifact_content(artifact: FileArtifact, executable: Seq<char>) -> Seq<char> {
    match artifact {
        FileArtifact::DesktopEntry => DESKTOP_ENTRY_HEAD@ + executable + DESKTOP_ENTRY_TAIL@,
        FileArtifact::LaunchAgent => LAUNCH_AGENT_HEAD@ + executable + LAUNCH_AGENT_TAIL@,
    }
}

impl AutostartTarget {
    /// Picks the store by the operating system's name as Rust reports it
    /// (`windows`, `linux`, `macos`); any other system has none.
    pub fn for_system(os: &str) -> (target: AutostartTarget)
        ensures
            target == if os@ == "windows"@ {
                AutostartTarget::WindowsRegistryRun
            } else if os@ == "linux"@ {
                AutostartTarget::LinuxDesktopEntry
            } else if os@ == "macos"@ {
                AutostartTarget::MacLaunchAgent
            } else {
                AutostartTarget::Unsupported
            },
    {
        if same_text(os, "windows") {
            AutostartTarget::WindowsRegistryRun
        } else if same_text(os, "linux") {
            AutostartTarget::LinuxDesktopEntry
        } else if same_text(os, "macos") {
            AutostartTarget::MacLaunchAgent
        } else {
            AutostartTarget::Unsupported
        }
    }

    pub fn file_artifact(self) -> (artifact: Option<FileArtifact>)
        ensures
            artifact == file_artifact_of(self),
    {
        match self {
            AutostartTarget::LinuxDesktopEntry => Some(FileArtifact::DesktopEntry),
            AutostartTarget::MacLaunchAgent => Some(FileArtifact::LaunchAgent),
            _ => None,
        }
    }
}

/// Continues the path `base` by the relative `name`.
pub fn join_path(base: &str, name: &str) -> (path: String)
    ensures
        path@ == path_join(base@, name@),
{
    let chars = characters(base);
    let len = chars.len();
    if len == 0 || chars[len - 1] == '/' {
        followed_by(base, name)
    } else {
        let mut path = followed_by(base, "/");
        path.append(name);
        path
    }
}

impl FileArtifact {
    pub fn file_name(self) -> (name: &'static str)
        ensures
            name@ == artifact_file_name(self),
    {
        match self {
            FileArtifact::DesktopEntry => DESKTOP_ENTRY_NAME,
            FileArtifact::LaunchAgent => LAUNCH_AGENT_NAME,
        }
    }

    /// The directory below `home` in which the registration file lives.
    pub fn directory(self, home: &str) -> (path: String)
        ensures
            path@ == artifact_directory(self, home@),
    {
        match self {
            FileArtifact::DesktopEntry => {
                let config = join_path(home, ".config");
                join_path(config.as_str(), "autostart")
            },
            FileArtifact::LaunchAgent => {
                let library = join_path(home, "Library");
                join_path(library.as_str(), "LaunchAgents")
            },
        }
    }

    /// The registration file of a user whose home directory is `home`.
    pub fn path(self, home: &str) -> (path: String)
        ensures
            path@ == artifact_path(self, home@),
    {
        let directory = self.directory(home);
        join_path(directory.as_str(), self.file_name())
    }

    /// The text of the registration file that starts `executable`.
    pub fn content(self, executable: &str) -> (content: String)
        ensures
            content@ == artifact_content(self, executable@),
    {
        let (head, tail) = match self {
            FileArtifact::DesktopEntry => (DESKTOP_ENTRY_HEAD, DESKTOP_ENTRY_TAIL),
            FileArtifact::LaunchAgent => (LAUNCH_AGENT_HEAD, LAUNCH_AGENT_TAIL),
        };
        let mut content = followed_by(head, executable);
        content.append(tail);
        content
    }
}

} // verus!
