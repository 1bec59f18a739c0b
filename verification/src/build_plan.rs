//! The commands that prepare the engine's generated sources.
//!
//! Before the engine is compiled, the original game files are checked and a
//! handful of generator scripts turn them into sources in an output directory.
//! This module says which commands those are, with which arguments and in which
//! order. Each command is the argument list handed to the Python interpreter:
//! the script's path first, then what the script takes. Running them is left to
//! the caller.

use vstd::prelude::*;

verus! {

/// Where the original game files are looked for when no directory is configured.
pub const DEFAULT_ORIGINAL_DIR: &'static str = "../original";

/// The script that checks the original game files before anything is generated.
pub const CHECK_SCRIPT: &'static str = "scripts/check-originals.py";

/// The directory that holds the generator scripts, with its trailing separator.
pub const SCRIPT_DIR: &'static str = "scripts/";

/// The generator scripts, in the order in which they run.
pub const GAME_SCRIPTS: [&'static str; 5] = [
    "bt_game.py",
    "bt_lab.py",
    "bt_tutorial.py",
    "bt_menu.py",
    "bt_renderer.py",
];

/// The directory of the original game files: the configured one, or the default.
pub open spec fn resolved_original_dir(configured: Option<Seq<char>>) -> Seq<char> {
    match configured {
        Some(dir) => dir,
        None => DEFAULT_ORIGINAL_DIR@,
    }
}

/// The command that checks the original game files.
pub open spec fn check_command(original_dir: Seq<char>, out_dir: Seq<char>) -> Seq<Seq<char>> {
    seq![CHECK_SCRIPT@, original_dir, out_dir]
}

/// The path of a generator script, from its file name.
pub open spec fn script_path(script: Seq<char>) -> Seq<char> {
    SCRIPT_DIR@ + script
}

/// The command that runs one generator script.
pub open spec fn script_command(script: Seq<char>, out_dir: Seq<char>) -> Seq<Seq<char>> {
    seq![script_path(script), out_dir]
}

/// The whole plan: the check first, then every generator script in order.
pub open spec fn plan(configured: Option<Seq<char>>, out_dir: Seq<char>) -> Seq<Seq<Seq<char>>> {
    Seq::new(
        1 + GAME_SCRIPTS@.len(),
        |i: int|
            if i == 0 {
                check_command(resolved_original_dir(configured), out_dir)
            } else {
                script_command(GAME_SCRIPTS@[i - 1]@, out_dir)
            },
    )
}

/// Returns the configured directory of the original game files, or
/// [`DEFAULT_ORIGINAL_DIR`] where none is configured.
pub fn original_dir_or_default(configured: Option<String>) -> (dir: String)
    ensures
        dir@ == resolved_original_dir(configured.deep_view()),
{
    match configured {
        Some(dir) => dir,
        None => String::from_str(DEFAULT_ORIGINAL_DIR),
    }
}

/// Returns the arguments of the command that checks the original game files in
/// `original_dir`, working in `out_dir`.
pub fn check_originals_args(original_dir: &str, out_dir: &str) -> (args: Vec<String>)
    ensures
        args.deep_view() == check_command(original_dir@, out_dir@),
{
    let mut args: Vec<String> = Vec::new();
    args.push(String::from_str(CHECK_SCRIPT));
    args.push(String::from_str(original_dir));
    args.push(String::from_str(out_dir));
    assert(args.deep_view() =~= check_command(original_dir@, out_dir@));
    args
}

/// Returns the arguments of the command that runs the generator script named
/// `script`, writing to `out_dir`.
pub fn game_script_args(script: &str, out_dir: &str) -> (args: Vec<String>)
    ensures
        args.deep_view() == script_command(script@, out_dir@),
{
    let mut path = String::from_str(SCRIPT_DIR);
    path.append(script);
    let mut args: Vec<String> = Vec::new();
    args.push(path);
    args.push(String::from_str(out_dir));
    assert(args.deep_view() =~= script_command(script@, out_dir@));
    args
}

/// Returns every command of the build, in the order in which they must run:
/// the check of the original game files, then one command per generator script.
///
/// `configured_original_dir` is the directory of the original game files, if
/// one is configured; `out_dir` is where the generated sources go.
pub fn build_commands(configured_original_dir: Option<String>, out_dir: &str) -> (commands: Vec<
    Vec<String>,
>)
    ensures
        commands.deep_view() == plan(configured_original_dir.deep_view(), out_dir@),
{
    let ghost configured = configured_original_dir.deep_view();
    let original_dir = original_dir_or_default(configured_original_dir);
    let mut commands: Vec<Vec<String>> = Vec::new();
    commands.push(check_originals_args(original_dir.as_str(), out_dir));
    let mut done: usize = 0;
    while done < GAME_SCRIPTS.len()
        invariant
            done <= GAME_SCRIPTS@.len(),
            commands@.len() == done + 1,
            forall|i: int|
                0 <= i < commands@.len() ==> #[trigger] commands@[i].deep_view() == plan(
                    configured,
                    out_dir@,
                )[i],
        decreases GAME_SCRIPTS@.len() - done,
    {
        commands.push(game_script_args(GAME_SCRIPTS[done], out_dir));
        done += 1;
    }
    assert(commands.deep_view() =~= plan(configured, out_dir@));
    commands
}

} // verus!
