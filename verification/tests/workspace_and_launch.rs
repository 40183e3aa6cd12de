use arliamp::launch::ghostty_app_path;
use arliamp::launch::ghostty_binary_path;
use arliamp::launch::launch_message;
use arliamp::launch::open_args;
use arliamp::launch::required_tools;
use arliamp::locate::candidate_paths;
use arliamp::locate::pick_first_existing;
use arliamp::locate::split_search_path;
use arliamp::session::ancestor_step;
use arliamp::session::contains_sub_ci;
use arliamp::session::discover_host;
use arliamp::session::find_ancestor_by_name;
use arliamp::session::AncestorStep;
use arliamp::session::ProcessEntry;
use arliamp::text::contains_sub;
use arliamp::text::join_strings;
use arliamp::text::sh_quote;
use arliamp::text::str_eq;
use arliamp::text::str_eq_ignore_ascii_case;
use arliamp::text::u64_to_dec;
use arliamp::workspace::join_path;
use arliamp::workspace::runtime_dir_name;
use arliamp::workspace::session_name;
use arliamp::workspace::ArtifactPaths;

#[test]
fn decimal_rendering_is_plain() {
    assert_eq!(u64_to_dec(0), "0");
    assert_eq!(u64_to_dec(7), "7");
    assert_eq!(u64_to_dec(10), "10");
    assert_eq!(u64_to_dec(90210), "90210");
    assert_eq!(u64_to_dec(u64::MAX), "18446744073709551615");
}

#[test]
fn runtime_dir_names_follow_pid_timestamp_and_nonce() {
    assert_eq!(runtime_dir_name(12, 345, 6), "arliamp.12.345.6");
    assert_eq!(
        runtime_dir_name(4242, 1700000000123, 987654321),
        "arliamp.4242.1700000000123.987654321"
    );
}

#[test]
fn runtime_dir_names_do_not_collide_across_distinct_invocations() {
    // Distinct pids, distinct milliseconds, and — for two invocations under
    // the same pid within the same millisecond — distinct nonces all give
    // distinct names; digit-count boundaries do not let the fields blur
    // into one another.
    assert_ne!(runtime_dir_name(1, 1000, 5), runtime_dir_name(2, 1000, 5));
    assert_ne!(runtime_dir_name(1, 1000, 5), runtime_dir_name(1, 1001, 5));
    assert_ne!(runtime_dir_name(7, 1000, 1), runtime_dir_name(7, 1000, 2));
    assert_ne!(runtime_dir_name(12, 3, 4), runtime_dir_name(1, 23, 4));
    assert_ne!(runtime_dir_name(1, 23, 4), runtime_dir_name(123, 4, 4));
    assert_ne!(runtime_dir_name(1, 2, 34), runtime_dir_name(1, 23, 4));
}

#[test]
fn session_names_carry_the_pid() {
    assert_eq!(session_name(987), "arliamp-987");
}

#[test]
fn artifact_paths_sit_under_the_runtime_dir() {
    let p = ArtifactPaths::build("/tmp/arliamp.1.2");
    assert_eq!(p.runtime_dir, "/tmp/arliamp.1.2");
    assert_eq!(p.off_shader, "/tmp/arliamp.1.2/cyber-off.glsl");
    assert_eq!(p.static_shader, "/tmp/arliamp.1.2/cyber-static.glsl");
    assert_eq!(p.crazy_shader, "/tmp/arliamp.1.2/cyber-crazy.glsl");
    assert_eq!(p.state_file, "/tmp/arliamp.1.2/state");
    assert_eq!(p.toggle_script, "/tmp/arliamp.1.2/veo-toggle.sh");
    assert_eq!(p.tmux_conf, "/tmp/arliamp.1.2/tmux.conf");
    assert_eq!(p.center_script, "/tmp/arliamp.1.2/center.zsh");
    assert_eq!(p.runner_script, "/tmp/arliamp.1.2/runner.zsh");
    assert_eq!(p.ghostty_conf, "/tmp/arliamp.1.2/ghostty.conf");
    assert_eq!(p.tmux_socket, "/tmp/arliamp.1.2/tmux.sock");
    assert_eq!(p.ghostty_pid_file, "/tmp/arliamp.1.2/ghostty.pid");
    assert_eq!(join_path("/a", "b"), "/a/b");
}

#[test]
fn quoting_wraps_and_escapes() {
    assert_eq!(sh_quote("plain"), "'plain'");
    assert_eq!(sh_quote(""), "''");
    assert_eq!(sh_quote("with space"), "'with space'");
    assert_eq!(sh_quote("it's"), "'it'\"'\"'s'");
    assert_eq!(sh_quote("''"), "''\"'\"''\"'\"''");
}

#[test]
fn text_helpers_behave() {
    assert!(str_eq("abc", "abc"));
    assert!(!str_eq("abc", "abd"));
    assert!(!str_eq("abc", "ab"));
    assert!(str_eq_ignore_ascii_case("MiXeD", "mixed"));
    assert!(!str_eq_ignore_ascii_case("mixed", "mixes"));
    assert!(contains_sub("a://b", "://"));
    assert!(!contains_sub("a:/b", "://"));
    assert!(contains_sub("anything", ""));
    let v = vec![String::from("a"), String::from("bb"), String::from("c")];
    assert_eq!(join_strings(&v, ", "), "a, bb, c");
    assert_eq!(join_strings(&Vec::new(), ", "), "");
}

#[test]
fn search_path_splits_in_order() {
    assert_eq!(split_search_path("/usr/bin:/bin"), vec!["/usr/bin", "/bin"]);
    assert_eq!(split_search_path(""), vec![""]);
    assert_eq!(split_search_path("/a::/b"), vec!["/a", "", "/b"]);
    let c = candidate_paths("/usr/bin:/bin", "tmux");
    assert_eq!(c, vec!["/usr/bin/tmux", "/bin/tmux"]);
    let c = candidate_paths("/x::/y", "rliamp");
    assert_eq!(c, vec!["/x/rliamp", "rliamp", "/y/rliamp"]);
}

#[test]
fn first_existing_candidate_wins() {
    let cands = vec![String::from("/a/t"), String::from("/b/t"), String::from("/c/t")];
    let r = pick_first_existing(&cands, &vec![false, true, true], "t").unwrap();
    assert_eq!(r, "/b/t");
    let err = pick_first_existing(&cands, &vec![false, false, false], "tmux").unwrap_err();
    assert_eq!(err.message(), "arliamp: missing dependency: tmux");
}

#[test]
fn provider_mode_message_for_zero_inputs() {
    let r: Vec<String> = Vec::new();
    assert_eq!(launch_message(&r), "arliamp launched: provider mode (no input args)");
}

#[test]
fn launch_message_names_the_resolved_inputs() {
    let r = vec![String::from("/abs/song.mp3"), String::from("https://x/y")];
    assert_eq!(launch_message(&r), "arliamp launched: /abs/song.mp3 https://x/y");
}

#[test]
fn open_arguments_point_at_the_generated_config() {
    assert_eq!(ghostty_app_path(), "/Applications/Ghostty.app");
    assert_eq!(ghostty_binary_path(), "/Applications/Ghostty.app/Contents/MacOS/Ghostty");
    let args = open_args("/tmp/w/ghostty.conf");
    assert_eq!(
        args,
        vec![
            "-na",
            "/Applications/Ghostty.app",
            "--args",
            "--config-default-files=false",
            "--fullscreen=true",
            "--macos-non-native-fullscreen=true",
            "--maximize=true",
            "--config-file=/tmp/w/ghostty.conf",
        ]
    );
    assert_eq!(required_tools(), vec!["tmux", "unimatrix", "rliamp", "open"]);
}

#[test]
fn ancestor_walk_stops_and_finds_as_specified() {
    assert!(matches!(ancestor_step(Some(42), Some("ghostty"), "ghostty", 0), AncestorStep::Stop));
    assert!(matches!(ancestor_step(None, None, "ghostty", 24), AncestorStep::Stop));
    assert!(matches!(ancestor_step(Some(1), Some("init"), "ghostty", 24), AncestorStep::Stop));
    match ancestor_step(Some(77), Some("Ghostty Helper"), "ghostty", 24) {
        AncestorStep::Found { pid } => assert_eq!(pid, 77),
        _ => panic!("expected a find"),
    }
    match ancestor_step(Some(78), Some("zsh"), "ghostty", 24) {
        AncestorStep::Climb { pid } => assert_eq!(pid, 78),
        _ => panic!("expected a climb"),
    }
    match ancestor_step(Some(79), None, "ghostty", 24) {
        AncestorStep::Climb { pid } => assert_eq!(pid, 79),
        _ => panic!("expected a climb"),
    }
}

fn entry(pid: u64, parent: Option<u64>, comm: Option<&str>) -> ProcessEntry {
    ProcessEntry { pid, parent, comm: comm.map(String::from) }
}

#[test]
fn ancestor_walk_finds_the_nearest_matching_ancestor() {
    // 100 -> 50 (zsh) -> 40 (Ghostty) -> 30 (Ghostty too, but farther) -> 1
    let table = vec![
        entry(100, Some(50), Some("runner.zsh")),
        entry(50, Some(40), Some("zsh")),
        entry(40, Some(30), Some("Ghostty Helper")),
        entry(30, Some(1), Some("ghostty")),
    ];
    assert_eq!(discover_host(&table, 100, "ghostty"), Some(40));
    assert_eq!(discover_host(&table, 50, "ghostty"), Some(40));
}

#[test]
fn ancestor_walk_stops_at_the_root_and_at_missing_parents() {
    let table = vec![
        entry(100, Some(50), Some("sh")),
        entry(50, Some(1), Some("launchd")),
        entry(7, None, Some("orphan")),
    ];
    assert_eq!(discover_host(&table, 100, "ghostty"), None);
    assert_eq!(discover_host(&table, 7, "ghostty"), None);
    // An unknown starting process stops at once.
    assert_eq!(discover_host(&table, 999, "ghostty"), None);
}

#[test]
fn ancestor_walk_respects_the_hop_bound() {
    // A chain of thirty processes with the match at its far end: within two
    // hops nothing is found, within the full bound it is.
    let mut table = Vec::new();
    for pid in 0..30u64 {
        table.push(entry(100 + pid, Some(101 + pid), Some("sh")));
    }
    table.push(entry(130, Some(131), Some("ghostty")));
    table.push(entry(131, Some(1), Some("init")));
    assert_eq!(find_ancestor_by_name(&table, 100, "ghostty", 2), None);
    assert_eq!(find_ancestor_by_name(&table, 100, "ghostty", 40), Some(130));
    // The runner's own bound of 24 reaches 24 parents up, not 31.
    assert_eq!(discover_host(&table, 100, "ghostty"), None);
    assert_eq!(discover_host(&table, 107, "ghostty"), Some(130));
}

#[test]
fn ancestor_walk_climbs_past_unreadable_command_names() {
    let table = vec![
        entry(100, Some(50), Some("sh")),
        entry(50, Some(40), None),
        entry(40, Some(1), Some("GHOSTTY")),
    ];
    assert_eq!(discover_host(&table, 100, "ghostty"), Some(40));
}

#[test]
fn case_insensitive_search_matches_the_host_name() {
    assert!(contains_sub_ci("GHOSTTY", "ghostty"));
    assert!(contains_sub_ci("/Applications/Ghostty.app/Contents/MacOS/Ghostty", "ghostty"));
    assert!(!contains_sub_ci("alacritty", "ghostty"));
}
