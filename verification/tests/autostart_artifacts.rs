use workplan_core::autostart::{
    join_path, AutostartTarget, FileArtifact, DESKTOP_ENTRY_NAME, LAUNCH_AGENT_NAME, RUN_KEY,
    RUN_VALUE_NAME,
};

#[test]
fn store_is_picked_by_the_system() {
    assert_eq!(AutostartTarget::for_system("windows"), AutostartTarget::WindowsRegistryRun);
    assert_eq!(AutostartTarget::for_system("linux"), AutostartTarget::LinuxDesktopEntry);
    assert_eq!(AutostartTarget::for_system("macos"), AutostartTarget::MacLaunchAgent);
    assert_eq!(AutostartTarget::for_system("freebsd"), AutostartTarget::Unsupported);
    assert_eq!(AutostartTarget::for_system("android"), AutostartTarget::Unsupported);
    assert_eq!(AutostartTarget::for_system("ios"), AutostartTarget::Unsupported);
    assert_eq!(AutostartTarget::for_system(""), AutostartTarget::Unsupported);
    assert_eq!(AutostartTarget::for_system("Linux"), AutostartTarget::Unsupported);
    assert_eq!(AutostartTarget::for_system("linux "), AutostartTarget::Unsupported);
}

#[test]
fn only_two_stores_are_files() {
    assert_eq!(AutostartTarget::WindowsRegistryRun.file_artifact(), None);
    assert_eq!(
        AutostartTarget::LinuxDesktopEntry.file_artifact(),
        Some(FileArtifact::DesktopEntry)
    );
    assert_eq!(AutostartTarget::MacLaunchAgent.file_artifact(), Some(FileArtifact::LaunchAgent));
    assert_eq!(AutostartTarget::Unsupported.file_artifact(), None);
}

#[test]
fn registry_place_is_the_run_key() {
    assert_eq!(RUN_KEY, r"Software\Microsoft\Windows\CurrentVersion\Run");
    assert_eq!(RUN_VALUE_NAME, "WorkPlanwithAI");
}

#[test]
fn paths_are_joined_with_one_slash() {
    assert_eq!(join_path("/home/ada", ".config"), "/home/ada/.config");
    assert_eq!(join_path("/home/ada/", ".config"), "/home/ada/.config");
    assert_eq!(join_path("/", ".config"), "/.config");
    assert_eq!(join_path("", ".config"), ".config");
    assert_eq!(join_path("relative", "autostart"), "relative/autostart");
    assert_eq!(join_path("/home//", "x"), "/home//x");
    assert_eq!(join_path("/home/ädä", "x"), "/home/ädä/x");
}

#[test]
fn joining_agrees_with_the_standard_library() {
    for base in ["/home/ada", "/home/ada/", "/", "", "relative", "a/b/", "/home/ädä", "//"] {
        for name in [".config", "autostart", "Library", DESKTOP_ENTRY_NAME, LAUNCH_AGENT_NAME] {
            let expected = std::path::PathBuf::from(base).join(name);
            assert_eq!(join_path(base, name), expected.to_string_lossy(), "{:?} {:?}", base, name);
        }
    }
}

#[test]
fn desktop_entry_lies_in_the_autostart_directory() {
    let entry = FileArtifact::DesktopEntry;
    assert_eq!(entry.file_name(), "workplan.desktop");
    assert_eq!(entry.directory("/home/ada"), "/home/ada/.config/autostart");
    assert_eq!(entry.path("/home/ada"), "/home/ada/.config/autostart/workplan.desktop");
    assert_eq!(entry.path("/home/ada/"), "/home/ada/.config/autostart/workplan.desktop");
    assert_eq!(entry.path("/"), "/.config/autostart/workplan.desktop");
    assert_eq!(entry.path(""), ".config/autostart/workplan.desktop");
}

#[test]
fn launch_agent_lies_in_the_library() {
    let agent = FileArtifact::LaunchAgent;
    assert_eq!(agent.file_name(), "com.makotoarai.workplan.plist");
    assert_eq!(agent.directory("/Users/ada"), "/Users/ada/Library/LaunchAgents");
    assert_eq!(
        agent.path("/Users/ada"),
        "/Users/ada/Library/LaunchAgents/com.makotoarai.workplan.plist"
    );
    assert_eq!(agent.path(""), "Library/LaunchAgents/com.makotoarai.workplan.plist");
}

#[test]
fn desktop_entry_starts_the_executable() {
    let content = FileArtifact::DesktopEntry.content("/opt/workplan/workplan");
    assert_eq!(
        content,
        "[Desktop Entry]\n\
         Type=Application\n\
         Name=WorkPlan\n\
         Exec=/opt/workplan/workplan\n\
         Terminal=false\n\
         StartupNotify=false\n\
         X-GNOME-Autostart-enabled=true\n"
    );
    let lines: Vec<&str> = content.lines().collect();
    assert_eq!(lines.len(), 7);
    assert_eq!(lines[0], "[Desktop Entry]");
}

#[test]
fn launch_agent_starts_the_executable() {
    let content = FileArtifact::LaunchAgent.content("/Applications/WorkPlan.app/Contents/MacOS/workplan");
    let expected = format!(
        r#"<?xml version="1.0" encoding="UTF-8"?>
<!DOCTYPE plist PUBLIC "-//Apple//DTD PLIST 1.0//EN" "http://www.apple.com/DTDs/PropertyList-1.0.dtd">
<plist version="1.0">
<dict>
    <key>Label</key>
    <string>com.makotoarai.workplan</string>
    <key>ProgramArguments</key>
    <array>
        <string>{}</string>
    </array>
    <key>RunAtLoad</key>
    <true/>
    <key>KeepAlive</key>
    <false/>
</dict>
</plist>"#,
        "/Applications/WorkPlan.app/Contents/MacOS/workplan"
    );
    assert_eq!(content, expected);
}

#[test]
fn executable_path_is_set_in_unchanged() {
    let odd = "/opt/my apps/<work & plan>/ワーク";
    assert!(FileArtifact::DesktopEntry.content(odd).contains("\nExec=/opt/my apps/<work & plan>/ワーク\n"));
    assert!(FileArtifact::LaunchAgent
        .content(odd)
        .contains("<string>/opt/my apps/<work & plan>/ワーク</string>"));
    assert!(FileArtifact::DesktopEntry.content("").contains("\nExec=\n"));
}
