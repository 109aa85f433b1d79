use vstd::prelude::*;

use crate::text::{chars_equal, chars_of, split_words, words};

verus! {

/// The setting that turns on the legacy SSH wrapper.
pub struct EnableSshWrapper;

impl EnableSshWrapper {
    /// The legacy SSH wrapper is on unless turned off.
    pub fn default_value() -> (enabled: bool)
        ensures
            enabled,
    {
        true
    }
}

/// The setting that turns on warpification of SSH sessions.
pub struct EnableSshWarpification;

impl EnableSshWarpification {
    /// SSH warpification is off unless turned on.
    pub fn default_value() -> (enabled: bool)
        ensures
            !enabled,
    {
        false
    }
}

/// Whether the SSH extension is installed on remote hosts.
#[derive(Clone, Copy, Debug, PartialEq, Eq, Structural)]
pub enum SshExtensionInstallMode {
    AlwaysInstall,
    NeverInstall,
}

impl Default for SshExtensionInstallMode {
    /// The extension is always installed unless that is turned off.
    fn default() -> (mode: Self)
        ensures
            mode == SshExtensionInstallMode::AlwaysInstall,
    {
        SshExtensionInstallMode::AlwaysInstall
    }
}

/// The setting that holds the SSH extension install mode.
pub struct SshExtensionInstallModeSetting;

impl SshExtensionInstallModeSetting {
    /// The setting starts at the mode's own default.
    pub fn default_value() -> (mode: SshExtensionInstallMode)
        ensures
            mode == SshExtensionInstallMode::AlwaysInstall,
    {
        SshExtensionInstallMode::default()
    }
}

/// The settings that govern warpifying subshells and SSH sessions.
#[derive(Clone, Copy, Debug, PartialEq, Eq, Structural)]
pub struct WarpifySettings {
    pub enable_ssh_warpification: bool,
    pub ssh_extension_install_mode: SshExtensionInstallMode,
}

/// The name of the program that opens a WSL shell.
pub open spec fn is_wsl_program(word: Seq<char>) -> bool {
    word == "wsl"@ || word == "wsl.exe"@
}

/// A WSL option that takes a value and still opens a shell.
pub open spec fn is_wsl_valued_option(word: Seq<char>) -> bool {
    ||| word == "-d"@
    ||| word == "--distribution"@
    ||| word == "-u"@
    ||| word == "--user"@
    ||| word == "--cd"@
    ||| word == "--shell-type"@
}

/// A WSL option without a value that still opens a shell.
pub open spec fn is_wsl_flag_option(word: Seq<char>) -> bool {
    word == "--system"@
}

/// `args` is a run of shell-opening options, each valued option followed by
/// its value.
pub open spec fn wsl_session_args(args: Seq<Seq<char>>) -> bool
    decreases args.len(),
{
    if args.len() == 0 {
        true
    } else if is_wsl_flag_option(args[0]) {
        wsl_session_args(args.drop_first())
    } else if is_wsl_valued_option(args[0]) && args.len() >= 2 {
        wsl_session_args(args.subrange(2, args.len() as int))
    } else {
        false
    }
}

/// `command` opens an interactive WSL shell: the program is `wsl` or
/// `wsl.exe`, and every argument selects where or as whom the shell runs;
/// management commands such as `--install` or `--list` do not open one.
pub open spec fn is_wsl_shell_command(command: Seq<char>) -> bool {
    let ws = words(command);
    ws.len() > 0 && is_wsl_program(ws[0]) && wsl_session_args(ws.drop_first())
}

fn word_is(word: &Vec<char>, literal: &str) -> (same: bool)
    ensures
        same == (word@ == literal@),
{
    let lit = chars_of(literal);
    chars_equal(word, &lit)
}

impl WarpifySettings {
    /// The settings as they stand before the user changes any.
    pub fn new_with_defaults() -> (settings: Self)
        ensures
            settings.enable_ssh_warpification == false,
            settings.ssh_extension_install_mode == SshExtensionInstallMode::AlwaysInstall,
    {
        WarpifySettings {
            enable_ssh_warpification: EnableSshWarpification::default_value(),
            ssh_extension_install_mode: SshExtensionInstallModeSetting::default_value(),
        }
    }

    /// Whether `command` starts one of the subshells that are warpified
    /// without being configured: an interactive WSL shell.
    pub fn is_built_in_subshell_match(command: &str) -> (matched: bool)
        ensures
            matched == is_wsl_shell_command(command@),
    {
        let chars = chars_of(command);
        let ws = split_words(&chars);
        let ghost w = ws.deep_view();
        assert(forall|k: int| 0 <= k < ws.len() ==> #[trigger] w[k] == ws@[k]@);
        if ws.len() == 0 {
            return false;
        }
        if !(word_is(&ws[0], "wsl") || word_is(&ws[0], "wsl.exe")) {
            return false;
        }
        let n = ws.len();
        let mut k: usize = 1;
        assert(w.drop_first() =~= w.subrange(1, n as int));
        while k < n
            invariant
                n == ws.len(),
                w == ws.deep_view(),
                w == words(command@),
                forall|j: int| 0 <= j < n ==> #[trigger] w[j] == ws@[j]@,
                1 <= k <= n,
                wsl_session_args(w.drop_first()) == wsl_session_args(w.subrange(k as int, n as int)),
            decreases n - k,
        {
            let ghost rest = w.subrange(k as int, n as int);
            let word = &ws[k];
            assert(rest[0] == word@);
            if word_is(word, "--system") {
                assert(rest.drop_first() =~= w.subrange(k + 1, n as int));
                k = k + 1;
            } else if (word_is(word, "-d") || word_is(word, "--distribution") || word_is(word, "-u")
                || word_is(word, "--user") || word_is(word, "--cd") || word_is(word, "--shell-type"))
                && k + 1 < n {
                assert(rest.subrange(2, rest.len() as int) =~= w.subrange(k + 2, n as int));
                k = k + 2;
            } else {
                return false;
            }
        }
        assert(w.subrange(k as int, n as int) =~= Seq::<Seq<char>>::empty());
        true
    }
}

} // verus!
