//! What the terminal interface shows: menus, the host platform's names,
//! TOML highlighting, and a progress indicator that draws nothing.
use vstd::prelude::*;

use crate::builder::{CommandModel, CommandSpec};
use crate::text::{cat, chars_of, concat, has_prefix, owned, string_of, strings_of};

verus! {

/// A progress indicator that draws nothing, for plain terminals.
pub struct ProgressBarMock;

impl ProgressBarMock {
    /// Advances the progress; nothing is drawn.
    pub fn inc(&self, _n: u64) {
    }

    /// Ends the progress with a message; nothing is drawn.
    pub fn finish_with_message(&self, _msg: &str) {
    }

    /// Ends the progress and clears it; nothing is drawn.
    pub fn finish_and_clear(&self) {
    }
}

/// A menu: its title and its options in order.
pub struct Menu {
    pub title: String,
    pub options: Vec<String>,
}

/// The options of the main menu of `refinery edit`.
pub open spec fn main_menu_options() -> Seq<Seq<char>> {
    seq!["Binaries"@, "Libraries"@, "Targets"@, "Review & Save"@, "Exit"@]
}

/// The options of the menu of `refinery init`.
pub open spec fn init_menu_options() -> Seq<Seq<char>> {
    seq!["Add Binaries"@, "Add Libraries"@, "Configure Targets"@, "Review & Save"@]
}

/// The main menu.
pub fn main_menu() -> (r: Menu)
    ensures
        r.title@ == "Main Menu"@,
        r.options.deep_view() == main_menu_options(),
{
    let options = strings_of(&["Binaries", "Libraries", "Targets", "Review & Save", "Exit"]);
    Menu { title: owned("Main Menu"), options }
}

/// The menu of the init wizard.
pub fn init_menu() -> (r: Menu)
    ensures
        r.title@ == "Main Menu:"@,
        r.options.deep_view() == init_menu_options(),
{
    let options = strings_of(
        &["Add Binaries", "Add Libraries", "Configure Targets", "Review & Save"],
    );
    Menu { title: owned("Main Menu:"), options }
}

fn pick(options: Vec<String>, picked: usize) -> (r: Option<String>)
    ensures
        picked < options@.len() ==> (r matches Some(s) && s@ == options@[picked as int]@),
        picked >= options@.len() ==> r is None,
{
    if picked < options.len() {
        Some(options[picked].clone())
    } else {
        None
    }
}

/// The main-menu action at the position the user picked.
pub fn select_main_action(picked: usize) -> (r: Option<String>)
    ensures
        picked < 5 ==> (r matches Some(s) && s@ == main_menu_options()[picked as int]),
        picked >= 5 ==> r is None,
{
    let m = main_menu();
    assert(m.options@.len() == m.options.deep_view().len());
    assert(picked < 5 ==> m.options@[picked as int]@ == m.options.deep_view()[picked as int]);
    pick(m.options, picked)
}

/// The init-wizard action at the position the user picked.
pub fn select_init_action(picked: usize) -> (r: Option<String>)
    ensures
        picked < 4 ==> (r matches Some(s) && s@ == init_menu_options()[picked as int]),
        picked >= 4 ==> r is None,
{
    let m = init_menu();
    assert(m.options@.len() == m.options.deep_view().len());
    assert(picked < 4 ==> m.options@[picked as int]@ == m.options.deep_view()[picked as int]);
    pick(m.options, picked)
}

/// The name of an operating system as Refinery reports it: `linux`,
/// `windows` or `macos`, otherwise `unknown`.
pub open spec fn os_report(target_os: Seq<char>) -> Seq<char> {
    if target_os == "linux"@ || target_os == "windows"@ || target_os == "macos"@ {
        target_os
    } else {
        "unknown"@
    }
}

/// The name of an architecture as Refinery reports it: `x86_64` or
/// `aarch64`, otherwise `unknown`.
pub open spec fn arch_report(target_arch: Seq<char>) -> Seq<char> {
    if target_arch == "x86_64"@ || target_arch == "aarch64"@ {
        target_arch
    } else {
        "unknown"@
    }
}

/// The reported name of the operating system the program was built for,
/// given as Rust names it (`std::env::consts::OS`).
pub fn get_current_os(target_os: &str) -> (r: &'static str)
    ensures
        r@ == os_report(target_os@),
{
    if crate::text::str_eq(target_os, "linux") {
        "linux"
    } else if crate::text::str_eq(target_os, "windows") {
        "windows"
    } else if crate::text::str_eq(target_os, "macos") {
        "macos"
    } else {
        "unknown"
    }
}

/// The reported name of the architecture the program was built for, given
/// as Rust names it (`std::env::consts::ARCH`).
pub fn get_current_arch(target_arch: &str) -> (r: &'static str)
    ensures
        r@ == arch_report(target_arch@),
{
    if crate::text::str_eq(target_arch, "x86_64") {
        "x86_64"
    } else if crate::text::str_eq(target_arch, "aarch64") {
        "aarch64"
    } else {
        "unknown"
    }
}

/// The position of the first `c` in `s`, if any.
pub open spec fn first_index_of(s: Seq<char>, c: char) -> Option<int> {
    if exists|i: int| 0 <= i < s.len() && s[i] == c {
        Some(choose|i: int| 0 <= i < s.len() && s[i] == c && forall|j: int| 0 <= j < i ==> s[j] != c)
    } else {
        None
    }
}

/// A line of TOML as the preview shows it: table headers in orange, and
/// `key = value` lines with the key in cyan and the value in green.
pub open spec fn highlighted(line: Seq<char>) -> Seq<char> {
    if has_prefix(line, "["@) {
        "\x1b[38;5;208m"@ + line + "\x1b[0m"@
    } else {
        match first_index_of(line, '=') {
            Some(i) => "\x1b[36m"@ + line.take(i) + "\x1b[0m=\x1b[32m"@ + line.skip(i + 1)
                + "\x1b[0m"@,
            None => line,
        }
    }
}

/// Highlights one line of TOML for the preview.
pub fn highlight_toml_line(line: &str) -> (r: String)
    ensures
        r@ == highlighted(line@),
{
    let cs = chars_of(line);
    proof {
        reveal_strlit("[");
        assert("["@.len() == 1 && "["@[0] == '[');
    }
    if cs.len() > 0 && cs[0] == '[' {
        assert(line@.subrange(0, 1) =~= "["@);
        let a = concat("\x1b[38;5;208m", line);
        return concat(a.as_str(), "\x1b[0m");
    }
    assert(!has_prefix(line@, "["@)) by {
        if has_prefix(line@, "["@) {
            assert(line@.subrange(0, 1)[0] == line@[0]);
        }
    }
    let mut i: usize = 0;
    while i < cs.len()
        invariant
            i <= cs@.len(),
            cs@ == line@,
            !has_prefix(line@, "["@),
            forall|j: int| 0 <= j < i ==> cs@[j] != '=',
        decreases cs@.len() - i,
    {
        if cs[i] == '=' {
            let key = string_of(&cs[0..i]);
            let mut rest: Vec<char> = Vec::new();
            let mut k: usize = i + 1;
            while k < cs.len()
                invariant
                    i < k <= cs@.len(),
                    rest@ == cs@.subrange(i + 1, k as int),
                decreases cs@.len() - k,
            {
                rest.push(cs[k]);
                k = k + 1;
                assert(rest@ =~= cs@.subrange(i + 1, k as int));
            }
            let val = string_of(rest.as_slice());
            proof {
                assert(forall|j: int| 0 <= j < i ==> line@[j] != '=');
                assert(line@[i as int] == '=');
                let w = first_index_of(line@, '=');
                assert(w == Some(i as int)) by {
                    let c = choose|x: int|
                        0 <= x < line@.len() && line@[x] == '=' && forall|j: int|
                            0 <= j < x ==> line@[j] != '=';
                    assert(exists|x: int|
                        0 <= x < line@.len() && line@[x] == '=' && forall|j: int|
                            0 <= j < x ==> line@[j] != '=');
                    assert(c == i as int);
                }
                assert(key@ =~= line@.take(i as int));
                assert(val@ =~= line@.skip(i as int + 1));
            }
            let a = concat("\x1b[36m", key.as_str());
            let b = concat(a.as_str(), "\x1b[0m=\x1b[32m");
            let c = concat(b.as_str(), val.as_str());
            return concat(c.as_str(), "\x1b[0m");
        }
        i = i + 1;
    }
    proof {
        assert(first_index_of(line@, '=') is None);
    }
    owned(line)
}

/// Where the check for an installed cargo tool stands.
#[derive(Clone, Copy, Debug, PartialEq, Eq, Structural)]
pub enum InstallState {
    /// `cargo <tool> --version` runs.
    CargoProbe,
    /// The tool is looked for on the `PATH`.
    PathProbe,
    /// The user is asked whether to install the crate.
    Asked,
    /// `cargo install <crate>` runs.
    Installing,
    /// The check is over: whether the tool is there.
    Finished(bool),
}

/// What the program does next while checking for a tool.
pub enum InstallAction {
    /// Runs a command with its output silenced; whether it succeeded is the
    /// next event.
    Probe(CommandSpec),
    /// Warns that the tool is missing and asks the question (default yes);
    /// the answer is the next event.
    Ask { notice: String, question: String },
    /// Runs the installation behind a progress indicator showing
    /// `progress`; whether it succeeded is the next event.
    Install { command: CommandSpec, progress: String },
    /// Ends the check with its result, showing a success message or a
    /// warning where there is one.
    Finish { installed: bool, success: Option<String>, warning: Option<String> },
}

/// The action ends the check with this result and these messages.
pub open spec fn finishes(
    a: InstallAction,
    installed: bool,
    success: Option<Seq<char>>,
    warning: Option<Seq<char>>,
) -> bool {
    match a {
        InstallAction::Finish { installed: i, success: s, warning: w } => i == installed
            && s.deep_view() == success && w.deep_view() == warning,
        _ => false,
    }
}

/// The action runs this probe.
pub open spec fn probes(a: InstallAction, c: CommandModel) -> bool {
    match a {
        InstallAction::Probe(x) => x@ == c,
        _ => false,
    }
}

/// The action warns and asks this.
pub open spec fn asks(a: InstallAction, warning: Seq<char>, question: Seq<char>) -> bool {
    match a {
        InstallAction::Ask { notice: w, question: q } => w@ == warning && q@ == question,
        _ => false,
    }
}

/// The action runs this installation behind this progress message.
pub open spec fn installs(a: InstallAction, c: CommandModel, progress: Seq<char>) -> bool {
    match a {
        InstallAction::Install { command: x, progress: p } => x@ == c && p@ == progress,
        _ => false,
    }
}

/// `cargo <tool> --version`.
pub open spec fn cargo_probe(tool: Seq<char>) -> CommandModel {
    CommandModel { program: "cargo"@, args: seq![tool, "--version"@], cwd: None, failure: Seq::empty() }
}

/// `which <tool>`, the tool's file name taking `.exe` on Windows.
pub open spec fn path_probe(tool: Seq<char>, windows: bool) -> CommandModel {
    CommandModel {
        program: "which"@,
        args: seq![if windows { tool + ".exe"@ } else { tool }],
        cwd: None,
        failure: Seq::empty(),
    }
}

/// `cargo install <crate>`.
pub open spec fn install_command(crate_name: Seq<char>) -> CommandModel {
    CommandModel {
        program: "cargo"@,
        args: seq!["install"@, crate_name],
        cwd: None,
        failure: Seq::empty(),
    }
}

fn command(program: &str, args: Vec<String>) -> (r: CommandSpec)
    ensures
        r@.program == program@,
        r@.args == args.deep_view(),
        r@.cwd is None,
        r@.failure == Seq::<char>::empty(),
{
    let r = CommandSpec { program: owned(program), args, cwd: None, failure: String::new() };
    r
}

/// The first step of checking for `tool`: probe it through cargo.
pub fn install_start(tool: &str) -> (r: (InstallState, InstallAction))
    ensures
        r.0 == InstallState::CargoProbe,
        probes(r.1, cargo_probe(tool@)),
{
    let mut args: Vec<String> = Vec::new();
    args.push(owned(tool));
    args.push(owned("--version"));
    let c = command("cargo", args);
    assert(c@.args =~= seq![tool@, "--version"@]);
    (InstallState::CargoProbe, InstallAction::Probe(c))
}

/// The next step of checking for `tool`, provided by crate `crate_name`,
/// once the current step's event `ok` (a command succeeded, or the user
/// agreed) is known. The tool counts as installed when either probe
/// succeeds; otherwise the user is asked, and the installation's outcome
/// decides.
pub fn install_step(state: InstallState, ok: bool, tool: &str, crate_name: &str, windows: bool) -> (r: (
    InstallState,
    InstallAction,
))
    ensures
        match state {
            InstallState::CargoProbe => if ok {
                r.0 == InstallState::Finished(true) && finishes(r.1, true, None, None)
            } else {
                r.0 == InstallState::PathProbe && probes(r.1, path_probe(tool@, windows))
            },
            InstallState::PathProbe => if ok {
                r.0 == InstallState::Finished(true) && finishes(r.1, true, None, None)
            } else {
                r.0 == InstallState::Asked && asks(
                    r.1,
                    tool@ + " is not installed."@,
                    "Would you like to install "@ + crate_name@ + "?"@,
                )
            },
            InstallState::Asked => if ok {
                r.0 == InstallState::Installing && installs(
                    r.1,
                    install_command(crate_name@),
                    "Installing "@ + crate_name@ + "..."@,
                )
            } else {
                r.0 == InstallState::Finished(false) && finishes(r.1, false, None, None)
            },
            InstallState::Installing => if ok {
                r.0 == InstallState::Finished(true) && finishes(
                    r.1,
                    true,
                    Some(crate_name@ + " installed successfully."@),
                    None,
                )
            } else {
                r.0 == InstallState::Finished(false) && finishes(
                    r.1,
                    false,
                    None,
                    Some("Failed to install "@ + crate_name@ + "."@),
                )
            },
            InstallState::Finished(b) => r.0 == state && finishes(r.1, b, None, None),
        },
{
    match state {
        InstallState::CargoProbe => {
            if ok {
                (InstallState::Finished(true), InstallAction::Finish { installed: true, success: None, warning: None })
            } else {
                let name = if windows { concat(tool, ".exe") } else { owned(tool) };
                let mut args: Vec<String> = Vec::new();
                args.push(name);
                let c = command("which", args);
                assert(c@.args =~= path_probe(tool@, windows).args);
                (InstallState::PathProbe, InstallAction::Probe(c))
            }
        },
        InstallState::PathProbe => {
            if ok {
                (InstallState::Finished(true), InstallAction::Finish { installed: true, success: None, warning: None })
            } else {
                (
                    InstallState::Asked,
                    InstallAction::Ask {
                        notice: concat(tool, " is not installed."),
                        question: cat(concat("Would you like to install ", crate_name), "?"),
                    },
                )
            }
        },
        InstallState::Asked => {
            if ok {
                let mut args: Vec<String> = Vec::new();
                args.push(owned("install"));
                args.push(owned(crate_name));
                let c = command("cargo", args);
                assert(c@.args =~= seq!["install"@, crate_name@]);
                (
                    InstallState::Installing,
                    InstallAction::Install {
                        command: c,
                        progress: cat(concat("Installing ", crate_name), "..."),
                    },
                )
            } else {
                (InstallState::Finished(false), InstallAction::Finish { installed: false, success: None, warning: None })
            }
        },
        InstallState::Installing => {
            if ok {
                (
                    InstallState::Finished(true),
                    InstallAction::Finish {
                        installed: true,
                        success: Some(concat(crate_name, " installed successfully.")),
                        warning: None,
                    },
                )
            } else {
                (
                    InstallState::Finished(false),
                    InstallAction::Finish {
                        installed: false,
                        success: None,
                        warning: Some(cat(concat("Failed to install ", crate_name), ".")),
                    },
                )
            }
        },
        InstallState::Finished(b) => {
            (InstallState::Finished(b), InstallAction::Finish { installed: b, success: None, warning: None })
        },
    }
}

} // verus!
