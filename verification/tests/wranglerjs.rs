use wrangler::wranglerjs::{
    check_build_tools, choose_entry, command_outcome, dep_check, env_dep_installed, get_source_dir,
    notify_after_rebuild, npm_install_command, npm_install_plan, tools_check, output_file_name, random_chars, random_output_file_name,
    watch_mode, watch_notice, watch_step, webpack_config_path, wranglerjs_command,
    wranglerjs_output_outcome, Entry, WatchAction, WatchEvent,
};

fn strings(v: &[&str]) -> Vec<String> {
    v.iter().map(|s| s.to_string()).collect()
}

#[test]
fn source_dir_loses_its_quotes() {
    assert_eq!(get_source_dir("\"/home/me/wrangler\""), "/home/me/wrangler");
    assert_eq!(get_source_dir("\"\""), "");
    assert_eq!(get_source_dir("\"é\""), "é");
}

#[test]
fn random_chars_are_letters_and_digits() {
    let s = random_chars(64).expect("the generator is seeded");
    assert_eq!(s.chars().count(), 64);
    assert!(s.chars().all(|c| c.is_ascii_alphanumeric()));
    assert_eq!(random_chars(0), Some(String::new()));
}

#[test]
fn report_file_names() {
    assert_eq!(output_file_name("aB3xZ"), ".wranglerjs_outputaB3xZ");
    let n = random_output_file_name().expect("the generator is seeded");
    assert!(n.starts_with(".wranglerjs_output"));
    assert_eq!(n.len(), ".wranglerjs_output".len() + 5);
    assert!(n[".wranglerjs_output".len()..].chars().all(|c| c.is_ascii_alphanumeric()));
}

#[test]
fn webpack_config_defaults_to_conventional_name() {
    assert_eq!(webpack_config_path(None), "webpack.config.js");
    assert_eq!(webpack_config_path(Some("webpack.worker.js".to_string())), "webpack.worker.js");
}

#[test]
fn entry_prefers_webpack_config() {
    match choose_entry("webpack.config.js".to_string(), true, None) {
        Entry::WebpackConfig(p) => assert_eq!(p, "webpack.config.js"),
        Entry::PackageMain(_) => panic!("expected the webpack configuration"),
    }
    match choose_entry("webpack.config.js".to_string(), false, Some("/p/index.js".to_string())) {
        Entry::PackageMain(m) => assert_eq!(m, "/p/index.js"),
        Entry::WebpackConfig(_) => panic!("expected the package main"),
    }
}

#[test]
fn bundler_command_with_webpack_config() {
    let cmd = wranglerjs_command(
        "/usr/bin/node".to_string(),
        "/opt/wranglerjs".to_string(),
        "/opt/wasm-pack".to_string(),
        "/tmp/.wranglerjs_outputabcde",
        "wasmprogram",
        Entry::WebpackConfig("webpack.worker.js".to_string()),
    );
    assert_eq!(cmd.program, "/usr/bin/node");
    assert_eq!(
        cmd.args,
        strings(&[
            "/opt/wranglerjs",
            "--output-file=/tmp/.wranglerjs_outputabcde",
            "--wasm-binding=wasmprogram",
            "--webpack-config=webpack.worker.js",
        ])
    );
    assert_eq!(cmd.env, vec![("WASM_PACK_PATH".to_string(), "/opt/wasm-pack".to_string())]);
}

#[test]
fn bundler_command_with_package_main_in_watch_mode() {
    let cmd = wranglerjs_command(
        "node".to_string(),
        "wranglerjs".to_string(),
        "wasm-pack".to_string(),
        "out",
        "wasmprogram",
        Entry::PackageMain("/p/index.js".to_string()),
    );
    let w = watch_mode(cmd);
    assert_eq!(
        w.args,
        strings(&[
            "wranglerjs",
            "--output-file=out",
            "--wasm-binding=wasmprogram",
            "--no-webpack-config=1",
            "--use-entry=/p/index.js",
            "--watch=1",
        ])
    );
    assert_eq!(w.program, "node");
}

#[test]
fn npm_install_command_per_platform() {
    assert_eq!(npm_install_command(false), ("npm".to_string(), strings(&["install"])));
    assert_eq!(npm_install_command(true), ("cmd".to_string(), strings(&["/C", "npm", "install"])));
}

#[test]
fn npm_install_skipped_where_node_modules_exists() {
    assert_eq!(npm_install_plan(true, false), None);
    assert_eq!(npm_install_plan(false, false), Some(("npm".to_string(), strings(&["install"]))));
}

#[test]
fn missing_tool_is_named() {
    assert_eq!(dep_check("node", true), Ok(()));
    assert_eq!(dep_check("npm", false), Err("You need to install npm".to_string()));
    assert_eq!(
        env_dep_installed("no-such-tool-on-any-path-4f1c"),
        Err("You need to install no-such-tool-on-any-path-4f1c".to_string())
    );
    match check_build_tools() {
        Ok(()) => {}
        Err(m) => assert!(m == "You need to install node" || m == "You need to install npm"),
    }
}

#[test]
fn failed_command_is_reported() {
    assert_eq!(command_outcome(true, "\"npm\" \"install\"", "exit status: 0"), Ok(()));
    assert_eq!(
        command_outcome(false, "\"npm\" \"install\"", "exit status: 1"),
        Err("failed to execute `\"npm\" \"install\"`: exited with exit status: 1".to_string())
    );
}

#[test]
fn bundler_output_verdict() {
    assert_eq!(
        wranglerjs_output_outcome(false, "1.2 KiB"),
        Ok("Built successfully, built project size is 1.2 KiB".to_string())
    );
    assert_eq!(wranglerjs_output_outcome(true, "1.2 KiB"), Err("Webpack returned an error".to_string()));
}

#[test]
fn watch_loop_skips_first_change_only() {
    let events = [WatchEvent::Failed, WatchEvent::Changed, WatchEvent::Changed, WatchEvent::Failed, WatchEvent::Changed];
    let mut first = true;
    let mut actions = Vec::new();
    for e in events.iter() {
        let (next, a) = watch_step(first, *e);
        first = next;
        actions.push(a);
    }
    assert_eq!(
        actions,
        vec![
            WatchAction::ReportFailure,
            WatchAction::IgnoreStale,
            WatchAction::Rebuild,
            WatchAction::ReportFailure,
            WatchAction::Rebuild,
        ]
    );
    assert!(!first);
}

#[test]
fn watch_notices() {
    assert_eq!(watch_notice(WatchAction::IgnoreStale), Some("Ignoring stale first change".to_string()));
    assert_eq!(watch_notice(WatchAction::Rebuild), None);
    assert_eq!(
        watch_notice(WatchAction::ReportFailure),
        Some("Something went wrong while watching.".to_string())
    );
}

#[test]
fn first_missing_tool_is_named() {
    assert_eq!(tools_check(true, true), Ok(()));
    assert_eq!(tools_check(false, false), Err("You need to install node".to_string()));
    assert_eq!(tools_check(true, false), Err("You need to install npm".to_string()));
    assert_eq!(tools_check(false, true), Err("You need to install node".to_string()));
}

#[test]
fn quoting_then_unquoting_gives_the_path_back() {
    for p in ["/a/b", "", "C:\\src", "dir with spaces"].iter() {
        assert_eq!(get_source_dir(&format!("\"{}\"", p)), *p);
    }
}

#[test]
fn rebuild_announced_only_after_write_to_listener() {
    assert!(notify_after_rebuild(true, true));
    assert!(!notify_after_rebuild(false, true));
    assert!(!notify_after_rebuild(true, false));
    assert!(!notify_after_rebuild(false, false));
}
