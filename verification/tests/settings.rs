use nowarp::settings::{
    EnableSshWarpification, EnableSshWrapper, SshExtensionInstallMode,
    SshExtensionInstallModeSetting, WarpifySettings,
};

#[test]
fn legacy_ssh_wrapper_is_enabled_by_default() {
    assert!(EnableSshWrapper::default_value());
}

#[test]
fn ssh_warpification_is_disabled_by_default() {
    assert!(!EnableSshWarpification::default_value());
}

#[test]
fn ssh_extension_is_always_installed_by_default() {
    assert_eq!(
        SshExtensionInstallMode::default(),
        SshExtensionInstallMode::AlwaysInstall
    );
    assert_eq!(
        SshExtensionInstallModeSetting::default_value(),
        SshExtensionInstallMode::AlwaysInstall
    );
}

#[test]
fn test_wsl_subshell_detection_success() {
    [
        "wsl",
        "wsl.exe",
        "wsl -d Ubuntu",
        "wsl --distribution Ubuntu",
        "wsl -u user",
        "wsl --cd /home/user",
        "wsl --system",
        "wsl --shell-type login",
        "wsl -d Ubuntu --cd /home/user -u username",
        "wsl.exe -d Ubuntu --cd /home/user -u username",
    ]
    .iter()
    .for_each(|cmd| {
        assert!(
            WarpifySettings::is_built_in_subshell_match(cmd),
            "{} failed to match",
            *cmd
        )
    });
}

#[test]
fn test_wsl_subshell_detection_fail() {
    [
        "wsl --install",
        "wsl --status",
        "wsl --list",
        "wsl --export Ubuntu file.tar",
        "wsl --uninstall",
        "wsl --shutdown",
        "wslfetch",
        "nowsl",
        "wsl --help",
        "wsl --version",
        "wsl --terminate Ubuntu",
        "wsl --unregister Ubuntu",
        "wsl --update",
        "wsl --import-in-place Ubuntu",
        "wsl --default-user root",
        "wsl --mount \\device",
    ]
    .iter()
    .for_each(|cmd| {
        assert!(
            !WarpifySettings::is_built_in_subshell_match(cmd),
            "{} accidentally matched",
            *cmd
        )
    });
}

#[test]
fn warpify_settings_start_from_defaults() {
    let settings = WarpifySettings::new_with_defaults();
    assert!(!settings.enable_ssh_warpification);
    assert_eq!(
        settings.ssh_extension_install_mode,
        SshExtensionInstallMode::AlwaysInstall
    );
}

#[test]
fn wsl_detection_tolerates_surrounding_whitespace() {
    assert!(WarpifySettings::is_built_in_subshell_match("  wsl   -d  Ubuntu \t"));
    assert!(WarpifySettings::is_built_in_subshell_match("wsl\u{3000}--system"));
}

#[test]
fn wsl_detection_rejects_empty_and_dangling_options() {
    assert!(!WarpifySettings::is_built_in_subshell_match(""));
    assert!(!WarpifySettings::is_built_in_subshell_match("   "));
    assert!(!WarpifySettings::is_built_in_subshell_match("wsl -d"));
    assert!(!WarpifySettings::is_built_in_subshell_match("wsl --cd"));
    assert!(!WarpifySettings::is_built_in_subshell_match("ssh host"));
    assert!(!WarpifySettings::is_built_in_subshell_match("wsl -d Ubuntu --install"));
}
