//! Building a worker with the wranglerjs bundler: the command line handed to
//! the bundler, the npm invocation, tool checks, the name of the file the
//! bundler reports through, and the watch loop's decisions.

use crate::text::{push_char, views};
use rand::{Rng, SeedableRng};
use vstd::prelude::*;

verus! {

/// The source directory as the build environment gives it, that is without
/// the quote that encloses it on either side.
pub open spec fn unquoted(s: Seq<char>) -> Seq<char> {
    s.subrange(1, s.len() - 1)
}

/// A text enclosed in double quotes.
pub open spec fn quoted(s: Seq<char>) -> Seq<char> {
    seq!['"'] + s + seq!['"']
}

/// Removing the quotes gives back what was quoted.
pub proof fn law_unquoted_undoes_quoted(s: Seq<char>)
    ensures
        unquoted(quoted(s)) == s,
{
    assert(unquoted(quoted(s)) =~= s);
}

/// Removes the first and the last character of the configured source
/// directory, which arrives wrapped in quotes. The text must hold at least
/// those two characters, and its last one must take a single byte, since it
/// is removed at the last byte index.
pub fn get_source_dir(source_dir: &str) -> (dir: String)
    requires
        source_dir@.len() >= 2,
        (source_dir@.last() as u32) < 0x80,
    ensures
        dir@ == unquoted(source_dir@),
{
    let n = source_dir.unicode_len();
    source_dir.substring_char(1, n - 1).to_owned()
}

/// The standard generator of `rand` (ChaCha), seeded once.
#[verifier::external_type_specification]
#[verifier::external_body]
pub struct ExStdRng(rand::rngs::StdRng);

/// `SeedableRng::from_rng(OsRng)` for `StdRng`: a generator seeded from the
/// operating system's entropy source, or `None` where that source fails.
/// The seeding reports failure as an error and does not panic; whether it
/// fails depends on the machine, so nothing is stated of it.
#[verifier::external_body]
fn seeded_rng() -> Option<rand::rngs::StdRng> {
    rand::rngs::StdRng::from_rng(rand::rngs::OsRng).ok()
}

/// The characters that `rand::distributions::Alphanumeric` draws from:
/// ASCII capital letters, small letters and digits.
pub open spec fn is_alphanumeric(c: char) -> bool {
    ||| ('A' as u32) <= (c as u32) <= ('Z' as u32)
    ||| ('a' as u32) <= (c as u32) <= ('z' as u32)
    ||| ('0' as u32) <= (c as u32) <= ('9' as u32)
}

/// `Rng::sample` with the `Alphanumeric` distribution (rand 0.7): one
/// character picked by chance from the 62 letters and digits of
/// `is_alphanumeric`. Which one it is, is not stated.
#[verifier::external_body]
fn sample_alphanumeric(rng: &mut rand::rngs::StdRng) -> (c: char)
    ensures
        is_alphanumeric(c),
{
    rng.sample(rand::distributions::Alphanumeric)
}

/// Whether every character of `s` is an ASCII letter or digit.
pub open spec fn all_alphanumeric(s: Seq<char>) -> bool {
    forall|i: int| 0 <= i < s.len() ==> is_alphanumeric(#[trigger] s[i])
}

/// `n` characters drawn from `rng`, each an ASCII letter or digit.
pub fn random_chars_from(rng: &mut rand::rngs::StdRng, n: usize) -> (s: String)
    ensures
        s@.len() == n,
        all_alphanumeric(s@),
{
    let mut s = String::new();
    let mut k: usize = 0;
    while k < n
        invariant
            k <= n,
            s@.len() == k,
            all_alphanumeric(s@),
        decreases n - k,
    {
        let c = sample_alphanumeric(rng);
        push_char(&mut s, c);
        k = k + 1;
    }
    s
}

/// `n` characters drawn at random from the ASCII letters and digits, from a
/// generator that the operating system seeds; `None` where it cannot seed it.
pub fn random_chars(n: usize) -> (r: Option<String>)
    ensures
        r matches Some(s) ==> s@.len() == n && all_alphanumeric(s@),
{
    match seeded_rng() {
        Some(mut rng) => Some(random_chars_from(&mut rng, n)),
        None => None,
    }
}

/// The name that the bundler's report file starts with.
pub open spec fn output_file_prefix() -> Seq<char> {
    ".wranglerjs_output"@
}

/// The name of the file through which the bundler reports: the fixed
/// prefix followed by `suffix`.
pub fn output_file_name(suffix: &str) -> (name: String)
    ensures
        name@ == output_file_prefix() + suffix@,
{
    String::from_str(".wranglerjs_output").concat(suffix)
}

/// Whether `name` is a report file name: the fixed prefix followed by five
/// ASCII letters or digits.
pub open spec fn is_report_file_name(name: Seq<char>) -> bool {
    &&& name.len() == output_file_prefix().len() + 5
    &&& name.subrange(0, output_file_prefix().len() as int) == output_file_prefix()
    &&& forall|i: int|
        output_file_prefix().len() <= i < name.len() ==> is_alphanumeric(#[trigger] name[i])
}

/// A fresh report file name: the fixed prefix and five random letters or
/// digits; `None` where the random generator cannot be seeded.
pub fn random_output_file_name() -> (r: Option<String>)
    ensures
        r matches Some(name) ==> is_report_file_name(name@),
{
    let suffix = match random_chars(5) {
        Some(s) => s,
        None => return None,
    };
    let name = output_file_name(suffix.as_str());
    assert(name@.subrange(0, output_file_prefix().len() as int) =~= output_file_prefix());
    assert forall|i: int|
        output_file_prefix().len() <= i < name@.len() implies is_alphanumeric(#[trigger] name@[i]) by {
        assert(name@[i] == suffix@[i - output_file_prefix().len()]);
    }
    Some(name)
}

/// `which::which(tool)`: whether an executable of that name is found on the
/// search path. The answer depends on the machine, so nothing is stated of it.
#[verifier::external_body]
fn tool_on_path(tool: &str) -> (found: bool) {
    which::which(tool).is_ok()
}

/// The message that names a tool the build needs and cannot find.
pub open spec fn missing_tool_message(tool: Seq<char>) -> Seq<char> {
    "You need to install "@ + tool
}

/// The verdict on one required tool, given whether it was found.
pub fn dep_check(tool: &str, found: bool) -> (r: Result<(), String>)
    ensures
        found ==> r is Ok,
        !found ==> (r matches Err(m) && m@ == missing_tool_message(tool@)),
{
    if found {
        Ok(())
    } else {
        Err(String::from_str("You need to install ").concat(tool))
    }
}

/// Ensures the specified tool is available: looks it up on the search path
/// and refuses with `missing_tool_message` when it is absent.
pub fn env_dep_installed(tool: &str) -> (r: Result<(), String>)
    ensures
        r matches Err(m) ==> m@ == missing_tool_message(tool@),
{
    let found = tool_on_path(tool);
    dep_check(tool, found)
}

/// The verdict on the tools a build needs, `node` and then `npm`, given
/// whether each was found: the first missing one is named.
pub open spec fn tools_verdict(found_node: bool, found_npm: bool) -> Result<(), Seq<char>> {
    if !found_node {
        Err(missing_tool_message("node"@))
    } else if !found_npm {
        Err(missing_tool_message("npm"@))
    } else {
        Ok(())
    }
}

/// The verdict on the tools a build needs, given whether each was found.
pub fn tools_check(found_node: bool, found_npm: bool) -> (r: Result<(), String>)
    ensures
        match (r, tools_verdict(found_node, found_npm)) {
            (Ok(_), Ok(_)) => true,
            (Err(a), Err(b)) => a@ == b,
            _ => false,
        },
{
    dep_check("node", found_node)?;
    dep_check("npm", found_npm)?;
    Ok(())
}

/// Checks that `node` and `npm` are on the search path; where one is
/// missing, the first of them that is missing is named.
pub fn check_build_tools() -> (r: Result<(), String>)
    ensures
        r matches Err(m) ==> (m@ == missing_tool_message("node"@) || m@
            == missing_tool_message("npm"@)),
{
    let found_node = tool_on_path("node");
    let found_npm = tool_on_path("npm");
    tools_check(found_node, found_npm)
}

/// The webpack configuration that the project names, or the conventional
/// `webpack.config.js` where it names none.
pub open spec fn webpack_config_spec(configured: Option<Seq<char>>) -> Seq<char> {
    match configured {
        Some(p) => p,
        None => "webpack.config.js"@,
    }
}

/// The path of the webpack configuration to use.
pub fn webpack_config_path(configured: Option<String>) -> (p: String)
    ensures
        p@ == webpack_config_spec(
            match configured {
                Some(c) => Some(c@),
                None => None,
            },
        ),
{
    match configured {
        Some(c) => c,
        None => String::from_str("webpack.config.js"),
    }
}

/// How the bundler finds the worker's entry point.
pub enum Entry {
    /// A webpack configuration file, by its path.
    WebpackConfig(String),
    /// No webpack configuration: the `main` file of `package.json`, by its path.
    PackageMain(String),
}

/// The entry to use: the webpack configuration where the project has one,
/// else the package's `main` file, which the caller must then have read.
pub fn choose_entry(config_path: String, has_webpack_config: bool, package_main: Option<String>) -> (e: Entry)
    requires
        has_webpack_config || package_main is Some,
    ensures
        has_webpack_config ==> (e matches Entry::WebpackConfig(p) && p@ == config_path@),
        !has_webpack_config ==> (e matches Entry::PackageMain(m) && m@ == package_main->0@),
{
    if has_webpack_config {
        Entry::WebpackConfig(config_path)
    } else {
        match package_main {
            Some(m) => Entry::PackageMain(m),
            None => Entry::WebpackConfig(config_path),
        }
    }
}

/// The arguments that select the entry point.
pub open spec fn entry_args(entry: Entry) -> Seq<Seq<char>> {
    match entry {
        Entry::WebpackConfig(p) => seq!["--webpack-config="@ + p@],
        Entry::PackageMain(m) => seq!["--no-webpack-config=1"@, "--use-entry="@ + m@],
    }
}

/// A program to run, with its arguments and the environment it is given on
/// top of the inherited one.
pub struct BuildCommand {
    pub program: String,
    pub args: Vec<String>,
    pub env: Vec<(String, String)>,
}

/// The arguments of the bundler run, in order.
pub open spec fn wranglerjs_args_spec(
    wranglerjs_path: Seq<char>,
    output_file: Seq<char>,
    wasm_binding: Seq<char>,
    entry: Entry,
) -> Seq<Seq<char>> {
    seq![wranglerjs_path, "--output-file="@ + output_file, "--wasm-binding="@ + wasm_binding]
        + entry_args(entry)
}

/// The command that runs the bundler under `node`: the bundler script, the
/// report file, the wasm binding name and the entry, with the path of
/// wasm-pack in `WASM_PACK_PATH`.
pub fn wranglerjs_command(
    node: String,
    wranglerjs_path: String,
    wasm_pack_path: String,
    output_file: &str,
    wasm_binding: &str,
    entry: Entry,
) -> (cmd: BuildCommand)
    ensures
        cmd.program@ == node@,
        views(cmd.args@) == wranglerjs_args_spec(wranglerjs_path@, output_file@, wasm_binding@, entry),
        cmd.env@.len() == 1,
        cmd.env@[0].0@ == "WASM_PACK_PATH"@,
        cmd.env@[0].1@ == wasm_pack_path@,
{
    let ghost wp = wranglerjs_path@;
    let ghost e = entry;
    let mut args: Vec<String> = Vec::new();
    args.push(wranglerjs_path);
    args.push(String::from_str("--output-file=").concat(output_file));
    args.push(String::from_str("--wasm-binding=").concat(wasm_binding));
    match entry {
        Entry::WebpackConfig(p) => {
            args.push(String::from_str("--webpack-config=").concat(p.as_str()));
        },
        Entry::PackageMain(m) => {
            args.push(String::from_str("--no-webpack-config=1"));
            args.push(String::from_str("--use-entry=").concat(m.as_str()));
        },
    }
    assert(views(args@) =~= wranglerjs_args_spec(wp, output_file@, wasm_binding@, e));
    let mut env: Vec<(String, String)> = Vec::new();
    env.push((String::from_str("WASM_PACK_PATH"), wasm_pack_path));
    BuildCommand { program: node, args, env }
}

/// The same command in watch mode: `--watch=1` is added after the other
/// arguments.
pub fn watch_mode(cmd: BuildCommand) -> (w: BuildCommand)
    ensures
        w.program@ == cmd.program@,
        views(w.args@) == views(cmd.args@).push("--watch=1"@),
        w.env@ == cmd.env@,
{
    let BuildCommand { program, mut args, env } = cmd;
    let ghost before = args@;
    args.push(String::from_str("--watch=1"));
    assert(views(args@) =~= views(before).push("--watch=1"@));
    BuildCommand { program, args, env }
}

/// `npm install` as a program and its arguments. On Windows npm is a shell
/// script, so it runs within `cmd /C`.
pub open spec fn npm_install_spec(windows: bool) -> (Seq<char>, Seq<Seq<char>>) {
    if windows {
        ("cmd"@, seq!["/C"@, "npm"@, "install"@])
    } else {
        ("npm"@, seq!["install"@])
    }
}

/// The command line of `npm install` on the platform at hand.
pub fn npm_install_command(windows: bool) -> (r: (String, Vec<String>))
    ensures
        (r.0@, views(r.1@)) == npm_install_spec(windows),
{
    let mut args: Vec<String> = Vec::new();
    let program = if windows {
        args.push(String::from_str("/C"));
        args.push(String::from_str("npm"));
        String::from_str("cmd")
    } else {
        String::from_str("npm")
    };
    args.push(String::from_str("install"));
    assert(views(args@) =~= npm_install_spec(windows).1);
    (program, args)
}

/// `npm install` is run in a directory only where it has no `node_modules`
/// yet; the command line is then that of `npm_install_spec`.
pub fn npm_install_plan(node_modules_exists: bool, windows: bool) -> (r: Option<(String, Vec<String>)>)
    ensures
        node_modules_exists <==> r is None,
        r matches Some(c) ==> (c.0@, views(c.1@)) == npm_install_spec(windows),
{
    if node_modules_exists {
        None
    } else {
        Some(npm_install_command(windows))
    }
}

/// The message for a command that ran and exited unsuccessfully.
pub open spec fn failed_command_message(command: Seq<char>, status: Seq<char>) -> Seq<char> {
    "failed to execute `"@ + command + "`: exited with "@ + status
}

/// The verdict on a finished command, given whether it exited successfully,
/// how the command reads and how its exit status reads.
pub fn command_outcome(success: bool, command: &str, status: &str) -> (r: Result<(), String>)
    ensures
        success ==> r is Ok,
        !success ==> (r matches Err(m) && m@ == failed_command_message(command@, status@)),
{
    if success {
        Ok(())
    } else {
        Err(String::from_str("failed to execute `").concat(command).concat("`: exited with ").concat(status))
    }
}

/// The report after the bundler's output was read: refused where the bundler
/// reported errors, else the success message with the project's size.
pub open spec fn output_outcome_spec(has_errors: bool, project_size: Seq<char>) -> Result<Seq<char>, Seq<char>> {
    if has_errors {
        Err("Webpack returned an error"@)
    } else {
        Ok("Built successfully, built project size is "@ + project_size)
    }
}

/// Decides what becomes of the bundler's output: an error where it reports
/// errors, else the message to show once the bundle is written.
pub fn wranglerjs_output_outcome(has_errors: bool, project_size: &str) -> (r: Result<String, String>)
    ensures
        match (r, output_outcome_spec(has_errors, project_size@)) {
            (Ok(a), Ok(b)) => a@ == b,
            (Err(a), Err(b)) => a@ == b,
            _ => false,
        },
{
    if has_errors {
        Err(String::from_str("Webpack returned an error"))
    } else {
        Ok(String::from_str("Built successfully, built project size is ").concat(project_size))
    }
}

/// What the watcher of the report file delivered.
#[derive(PartialEq, Eq, Structural, Clone, Copy, Debug)]
pub enum WatchEvent {
    /// The report file changed.
    Changed,
    /// Waiting for a change failed.
    Failed,
}

/// What the watch loop does on an event.
#[derive(PartialEq, Eq, Structural, Clone, Copy, Debug)]
pub enum WatchAction {
    /// Skip the change: it is the stale one that starting the bundler causes.
    IgnoreStale,
    /// Read the new report and write the bundle.
    Rebuild,
    /// Tell the user that watching went wrong, and keep watching.
    ReportFailure,
}

/// One step of the watch loop: the first change is skipped, each later one
/// rebuilds, and a failure is reported without touching that state.
pub open spec fn watch_step_spec(is_first: bool, event: WatchEvent) -> (bool, WatchAction) {
    match event {
        WatchEvent::Changed => if is_first {
            (false, WatchAction::IgnoreStale)
        } else {
            (false, WatchAction::Rebuild)
        },
        WatchEvent::Failed => (is_first, WatchAction::ReportFailure),
    }
}

/// The watch loop's decision on one event, and whether the next change is
/// still the first one.
pub fn watch_step(is_first: bool, event: WatchEvent) -> (r: (bool, WatchAction))
    ensures
        r == watch_step_spec(is_first, event),
{
    match event {
        WatchEvent::Changed => if is_first {
            (false, WatchAction::IgnoreStale)
        } else {
            (false, WatchAction::Rebuild)
        },
        WatchEvent::Failed => (is_first, WatchAction::ReportFailure),
    }
}

/// The text that the watch loop shows for an action, if any.
pub open spec fn watch_notice_spec(action: WatchAction) -> Option<Seq<char>> {
    match action {
        WatchAction::IgnoreStale => Some("Ignoring stale first change"@),
        WatchAction::Rebuild => None,
        WatchAction::ReportFailure => Some("Something went wrong while watching."@),
    }
}

/// The text to show for an action of the watch loop.
pub fn watch_notice(action: WatchAction) -> (n: Option<String>)
    ensures
        match (n, watch_notice_spec(action)) {
            (Some(a), Some(b)) => a@ == b,
            (None, None) => true,
            _ => false,
        },
{
    match action {
        WatchAction::IgnoreStale => Some(String::from_str("Ignoring stale first change")),
        WatchAction::Rebuild => None,
        WatchAction::ReportFailure => Some(String::from_str("Something went wrong while watching.")),
    }
}

/// The actions that the watch loop takes on a sequence of events.
pub open spec fn watch_actions(is_first: bool, events: Seq<WatchEvent>) -> Seq<WatchAction>
    decreases events.len(),
{
    if events.len() == 0 {
        seq![]
    } else {
        let (next, action) = watch_step_spec(is_first, events[0]);
        seq![action] + watch_actions(next, events.drop_first())
    }
}

/// How many of the events are changes.
pub open spec fn count_changes(events: Seq<WatchEvent>) -> nat
    decreases events.len(),
{
    if events.len() == 0 {
        0
    } else {
        (if events[0] == WatchEvent::Changed { 1nat } else { 0nat }) + count_changes(events.drop_first())
    }
}

/// How many of the events are failures.
pub open spec fn count_failures(events: Seq<WatchEvent>) -> nat
    decreases events.len(),
{
    if events.len() == 0 {
        0
    } else {
        (if events[0] == WatchEvent::Failed { 1nat } else { 0nat }) + count_failures(events.drop_first())
    }
}

/// How many times the given action occurs.
pub open spec fn count_action(actions: Seq<WatchAction>, a: WatchAction) -> nat
    decreases actions.len(),
{
    if actions.len() == 0 {
        0
    } else {
        (if actions[0] == a { 1nat } else { 0nat }) + count_action(actions.drop_first(), a)
    }
}

proof fn lemma_count_action_cons(x: WatchAction, rest: Seq<WatchAction>, a: WatchAction)
    ensures
        count_action(seq![x] + rest, a) == (if x == a { 1nat } else { 0nat }) + count_action(rest, a),
{
    assert((seq![x] + rest).drop_first() =~= rest);
}

proof fn lemma_watch_counts_after_first(events: Seq<WatchEvent>)
    ensures
        count_action(watch_actions(false, events), WatchAction::Rebuild) == count_changes(events),
        count_action(watch_actions(false, events), WatchAction::IgnoreStale) == 0,
        count_action(watch_actions(false, events), WatchAction::ReportFailure) == count_failures(events),
        watch_actions(false, events).len() == events.len(),
    decreases events.len(),
{
    if events.len() > 0 {
        let (next, action) = watch_step_spec(false, events[0]);
        lemma_watch_counts_after_first(events.drop_first());
        lemma_count_action_cons(action, watch_actions(next, events.drop_first()), WatchAction::Rebuild);
        lemma_count_action_cons(action, watch_actions(next, events.drop_first()), WatchAction::IgnoreStale);
        lemma_count_action_cons(action, watch_actions(next, events.drop_first()), WatchAction::ReportFailure);
    }
}

/// Over any run of the watch loop from its start, exactly one change is
/// skipped when there is at least one, every other change rebuilds once,
/// every failure is reported once, and each event gets one action.
pub proof fn law_watch_rebuilds_all_but_first_change(events: Seq<WatchEvent>)
    ensures
        watch_actions(true, events).len() == events.len(),
        count_action(watch_actions(true, events), WatchAction::Rebuild) == (if count_changes(events) == 0 {
            0
        } else {
            (count_changes(events) - 1) as nat
        }),
        count_action(watch_actions(true, events), WatchAction::IgnoreStale) == (if count_changes(events) == 0 {
            0nat
        } else {
            1nat
        }),
        count_action(watch_actions(true, events), WatchAction::ReportFailure) == count_failures(events),
    decreases events.len(),
{
    if events.len() > 0 {
        let (next, action) = watch_step_spec(true, events[0]);
        let rest = watch_actions(next, events.drop_first());
        lemma_count_action_cons(action, rest, WatchAction::Rebuild);
        lemma_count_action_cons(action, rest, WatchAction::IgnoreStale);
        lemma_count_action_cons(action, rest, WatchAction::ReportFailure);
        if events[0] == WatchEvent::Changed {
            lemma_watch_counts_after_first(events.drop_first());
        } else {
            law_watch_rebuilds_all_but_first_change(events.drop_first());
        }
    }
}

/// Whether a change came among the first `i` events.
pub open spec fn change_before(events: Seq<WatchEvent>, i: int) -> bool {
    exists|j: int| 0 <= j < i && events[j] == WatchEvent::Changed
}

/// The action on event `i` of a run that starts with `is_first`: failures
/// are reported; a change is skipped while it is the first one, and
/// rebuilds otherwise.
pub open spec fn action_at(is_first: bool, events: Seq<WatchEvent>, i: int) -> WatchAction {
    if events[i] == WatchEvent::Failed {
        WatchAction::ReportFailure
    } else if is_first && !change_before(events, i) {
        WatchAction::IgnoreStale
    } else {
        WatchAction::Rebuild
    }
}

proof fn lemma_watch_action_at(is_first: bool, events: Seq<WatchEvent>, i: int)
    requires
        0 <= i < events.len(),
    ensures
        watch_actions(is_first, events).len() == events.len(),
        watch_actions(is_first, events)[i] == action_at(is_first, events, i),
    decreases events.len(),
{
    let (next, action) = watch_step_spec(is_first, events[0]);
    let rest = events.drop_first();
    if i == 0 {
        if rest.len() > 0 {
            lemma_watch_action_at(next, rest, 0);
        }
        assert(!change_before(events, 0));
    } else {
        lemma_watch_action_at(next, rest, i - 1);
        assert(watch_actions(is_first, events)[i] == watch_actions(next, rest)[i - 1]);
        if change_before(rest, i - 1) {
            let j = choose|j: int| 0 <= j < i - 1 && rest[j] == WatchEvent::Changed;
            assert(events[j + 1] == WatchEvent::Changed);
            assert(change_before(events, i));
        }
        if events[0] == WatchEvent::Changed {
            assert(change_before(events, i));
        } else if change_before(events, i) {
            let j = choose|j: int| 0 <= j < i && events[j] == WatchEvent::Changed;
            assert(rest[j - 1] == WatchEvent::Changed);
            assert(change_before(rest, i - 1));
        }
        assert(events[i] == rest[i - 1]);
    }
}

/// Whether the watch loop announces a rebuild: only after the bundle was
/// written, and only where someone listens.
pub open spec fn announces(write_ok: bool, has_sender: bool) -> bool {
    write_ok && has_sender
}

/// Decides whether a rebuild is announced, given whether writing the bundle
/// succeeded and whether there is a listener.
pub fn notify_after_rebuild(write_ok: bool, has_sender: bool) -> (send: bool)
    ensures
        send == announces(write_ok, has_sender),
{
    write_ok && has_sender
}

/// Over any run of the watch loop from its start, event by event: a failure
/// is reported; the first change is skipped, so that the bundle is neither
/// read nor written nor announced for it; every later change rebuilds (and
/// is then announced as `notify_after_rebuild` decides).
pub proof fn law_watch_each_change(events: Seq<WatchEvent>, i: int)
    requires
        0 <= i < events.len(),
    ensures
        watch_actions(true, events)[i] == action_at(true, events, i),
        events[i] == WatchEvent::Changed && !change_before(events, i) ==> watch_actions(true, events)[i]
            == WatchAction::IgnoreStale,
        events[i] == WatchEvent::Changed && change_before(events, i) ==> watch_actions(true, events)[i]
            == WatchAction::Rebuild,
{
    lemma_watch_action_at(true, events, i);
}

/// With a webpack configuration, whatever its path, the bundler gets four
/// arguments, the last naming that configuration, and is never told that
/// there is none; with the package's `main` instead, it gets five, told that
/// there is no configuration and given that entry.
pub proof fn law_entry_arguments(w: Seq<char>, out: Seq<char>, binding: Seq<char>, p: String, m: String)
    ensures
        ({
            let a = wranglerjs_args_spec(w, out, binding, Entry::WebpackConfig(p));
            &&& a.len() == 4
            &&& a[0] == w
            &&& a[1] == "--output-file="@ + out
            &&& a[2] == "--wasm-binding="@ + binding
            &&& a[3] == "--webpack-config="@ + p@
            &&& forall|i: int| 1 <= i < 4 ==> a[i] != "--no-webpack-config=1"@
        }),
        ({
            let a = wranglerjs_args_spec(w, out, binding, Entry::PackageMain(m));
            &&& a.len() == 5
            &&& a[0] == w
            &&& a[3] == "--no-webpack-config=1"@
            &&& a[4] == "--use-entry="@ + m@
        }),
{
    reveal_strlit("--no-webpack-config=1");
    reveal_strlit("--output-file=");
    reveal_strlit("--wasm-binding=");
    reveal_strlit("--webpack-config=");
    let a = wranglerjs_args_spec(w, out, binding, Entry::WebpackConfig(p));
    assert(a[1][2] != "--no-webpack-config=1"@[2]);
    assert(a[2][2] != "--no-webpack-config=1"@[2]);
    assert(a[3][2] != "--no-webpack-config=1"@[2]);
}

/// The verdict on the tools: the build proceeds exactly when both node and
/// npm were found; otherwise node is named where it is missing, else npm.
pub proof fn law_tools_verdict(found_node: bool, found_npm: bool)
    ensures
        tools_verdict(found_node, found_npm) is Ok <==> found_node && found_npm,
        !found_node ==> tools_verdict(found_node, found_npm) == Err::<(), Seq<char>>(
            "You need to install node"@,
        ),
        found_node && !found_npm ==> tools_verdict(found_node, found_npm) == Err::<(), Seq<char>>(
            "You need to install npm"@,
        ),
{
    reveal_strlit("You need to install ");
    reveal_strlit("You need to install node");
    reveal_strlit("You need to install npm");
    reveal_strlit("node");
    reveal_strlit("npm");
    assert(missing_tool_message("node"@) =~= "You need to install node"@);
    assert(missing_tool_message("npm"@) =~= "You need to install npm"@);
}

} // verus!
