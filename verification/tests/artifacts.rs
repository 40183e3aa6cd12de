use arliamp::artifacts::active_shader_path;
use arliamp::artifacts::build_artifacts;
use arliamp::artifacts::center_script_body;
use arliamp::artifacts::crazy_shader_text;
use arliamp::artifacts::ghostty_conf_body;
use arliamp::artifacts::initial_state_text;
use arliamp::artifacts::off_shader_text;
use arliamp::artifacts::quote_inputs;
use arliamp::artifacts::runner_script_body;
use arliamp::artifacts::static_shader_text;
use arliamp::artifacts::tmux_conf_body;
use arliamp::artifacts::toggle_script_body;
use arliamp::toggle::ShaderVariant;
use arliamp::workspace::ArtifactPaths;

fn paths() -> ArtifactPaths {
    ArtifactPaths::build("/tmp/arliamp.9.9")
}

#[test]
fn shader_sources_are_the_fixed_programs() {
    let off = off_shader_text();
    assert!(off.starts_with("void mainImage(out vec4 fragColor, in vec2 fragCoord) {"));
    assert!(off.contains("fragColor = texture(iChannel0, uv);"));
    assert!(off.ends_with("}\n"));
    let st = static_shader_text();
    assert!(st.contains("vec2 crtUV = uv * 2.0 - 1.0;"));
    assert!(st.contains("float vignette = crtUV.x * crtUV.y * (1.0 - crtUV.x) * (1.0 - crtUV.y);"));
    let cz = crazy_shader_text();
    assert!(cz.contains("float beat = (sin(iTime * 2.5) + 1.0) * 0.5;"));
    assert!(cz.contains("color *= edgeFade;"));
}

#[test]
fn initial_state_is_off() {
    assert_eq!(initial_state_text(), "off\n");
}

#[test]
fn active_shader_paths_follow_the_variant() {
    let p = paths();
    assert_eq!(active_shader_path(ShaderVariant::Off, &p), "/tmp/arliamp.9.9/cyber-off.glsl");
    assert_eq!(
        active_shader_path(ShaderVariant::Static, &p),
        "/tmp/arliamp.9.9/cyber-static.glsl"
    );
    assert_eq!(active_shader_path(ShaderVariant::Crazy, &p), "/tmp/arliamp.9.9/cyber-crazy.glsl");
}

#[test]
fn toggle_script_embeds_the_quoted_path_table() {
    let p = paths();
    let body = toggle_script_body(&p);
    let head = "#!/bin/sh\nset -eu\n\
                state_file='/tmp/arliamp.9.9/state'\n\
                conf_file='/tmp/arliamp.9.9/ghostty.conf'\n\
                ghostty_pid_file='/tmp/arliamp.9.9/ghostty.pid'\n\
                off_shader='/tmp/arliamp.9.9/cyber-off.glsl'\n\
                static_shader='/tmp/arliamp.9.9/cyber-static.glsl'\n\
                crazy_shader='/tmp/arliamp.9.9/cyber-crazy.glsl'\n";
    assert!(body.starts_with(head), "unexpected head:\n{}", body);
    assert!(body.contains("case \"$current\" in"));
    assert!(body.contains("next=\"static\""));
    assert!(body.contains("label=\"3D CRAZY\""));
    assert!(body.contains("crazy|*)"));
    assert!(body.contains("tmp_conf=\"$conf_file.tmp\""));
    assert!(body.contains("$1==\"custom-shader\""));
    assert!(body.contains("mv \"$tmp_conf\" \"$conf_file\""));
    assert!(body.contains("kill -0 \"$ghostty_pid\" 2>/dev/null"));
    assert!(body.contains("kill -USR2 \"$ghostty_pid\" 2>/dev/null || true"));
    assert!(body.ends_with("printf '%s\\n' \"$next\" > \"$state_file\"\ntmux display-message \"VEO: $label (v)\"\n"));
}

#[test]
fn toggle_script_quotes_hostile_paths() {
    let p = ArtifactPaths::build("/tmp/od'd dir");
    let body = toggle_script_body(&p);
    assert!(body.contains("state_file='/tmp/od'\"'\"'d dir/state'"));
}

#[test]
fn tmux_conf_binds_the_toggle_in_both_modes() {
    let p = paths();
    let expected = "set -g status off\n\
                    set -g mouse on\n\
                    set -g focus-events on\n\
                    set -g detach-on-destroy on\n\
                    set -g exit-empty on\n\
                    set -g message-style \"bg=black,fg=green\"\n\
                    set -g pane-border-style \"fg=black,bg=black\"\n\
                    set -g pane-active-border-style \"fg=black,bg=black\"\n\
                    set -g pane-border-status off\n\
                    set -sg escape-time 0\n\
                    bind -n v run-shell '/tmp/arliamp.9.9/veo-toggle.sh'\n\
                    bind -n V run-shell '/tmp/arliamp.9.9/veo-toggle.sh'\n\
                    bind v run-shell '/tmp/arliamp.9.9/veo-toggle.sh'\n";
    assert_eq!(tmux_conf_body(&p), expected);
}

#[test]
fn center_script_hands_the_inputs_to_the_player() {
    let p = paths();
    let inputs = vec![String::from("/abs/a song.mp3"), String::from("https://x/y")];
    let body = center_script_body(&p, "/usr/bin/tmux", "/usr/local/bin/rliamp", "arliamp-9", &inputs);
    let expected = "#!/bin/sh\nset -eu\n\
                    export TERM=xterm-256color\n\
                    export COLORTERM=truecolor\n\
                    '/usr/local/bin/rliamp' '/abs/a song.mp3' 'https://x/y'\n\
                    '/usr/bin/tmux' -S '/tmp/arliamp.9.9/tmux.sock' kill-session -t 'arliamp-9' >/dev/null 2>&1 || true\n";
    assert_eq!(body, expected);
}

#[test]
fn center_script_with_no_inputs_runs_the_player_bare() {
    let p = paths();
    let body = center_script_body(&p, "/usr/bin/tmux", "/usr/bin/rliamp", "arliamp-9", &Vec::new());
    assert!(body.contains("'/usr/bin/rliamp' \n"));
}

#[test]
fn quoted_inputs_join_with_spaces() {
    let inputs = vec![String::from("a b"), String::from("c")];
    assert_eq!(quote_inputs(&inputs), "'a b' 'c'");
    assert_eq!(quote_inputs(&Vec::new()), "");
}

#[test]
fn runner_script_builds_the_stage_and_cleans_up() {
    let p = paths();
    let body = runner_script_body(&p, "/usr/bin/tmux", "/usr/bin/unimatrix", "arliamp-9");
    let head = "#!/bin/sh\nset -eu\n\
                TMUX_BIN='/usr/bin/tmux'\n\
                UNIMATRIX_BIN='/usr/bin/unimatrix'\n\
                CENTER_SCRIPT='/tmp/arliamp.9.9/center.zsh'\n\
                TMUX_SOCKET='/tmp/arliamp.9.9/tmux.sock'\n\
                TMUX_CONF='/tmp/arliamp.9.9/tmux.conf'\n\
                SESSION='arliamp-9'\n\
                RUNTIME_DIR='/tmp/arliamp.9.9'\n\
                SIDE_CMD=\"\\\"$UNIMATRIX_BIN\\\" -s 96 -l o -c green\"\n";
    assert!(body.starts_with(head), "unexpected head:\n{}", body);
    assert!(body.contains("trap cleanup EXIT INT TERM"));
    assert!(body.contains("kill-session -t \"$SESSION\" >/dev/null 2>&1 || true"));
    assert!(body.contains("kill-server >/dev/null 2>&1 || true"));
    assert!(body.contains("rm -rf \"$RUNTIME_DIR\""));
    assert!(body.contains("while [ \"$i\" -lt 24 ]; do"));
    assert!(body.contains("[ \"$ppid\" -le 1 ] 2>/dev/null && break"));
    assert!(body.contains("grep -qi 'ghostty'"));
    assert!(body.contains("printf '%s\\n' \"$ghostty_pid\" > \"$RUNTIME_DIR/ghostty.pid\""));
    assert!(body.contains("new-session -d -s \"$SESSION\" \"$SIDE_CMD\""));
    assert!(body.contains("\"#{pane_id}\""));
    assert!(body.contains("split-window -v -b -p 16 -t \"$CENTER_PANE\" \"$SIDE_CMD\""));
    assert!(body.contains("split-window -v -p 19 -t \"$CENTER_PANE\" \"$SIDE_CMD\""));
    assert!(body.contains("split-window -h -b -p 14 -t \"$CENTER_PANE\" \"$SIDE_CMD\""));
    assert!(body.contains("split-window -h -p 16 -t \"$CENTER_PANE\" \"$SIDE_CMD\""));
    assert!(body.contains("respawn-pane -k -t \"$CENTER_PANE\" \"\\\"$CENTER_SCRIPT\\\"\""));
    assert!(body.contains("select-pane -t \"$CENTER_PANE\""));
    assert!(body.ends_with("attach -t \"$SESSION\"\n"));
}

#[test]
fn ghostty_conf_points_at_the_runner_and_the_off_shader() {
    let p = paths();
    let expected = "config-default-files = false\n\
                    initial-command = direct:/tmp/arliamp.9.9/runner.zsh\n\
                    custom-shader = \"/tmp/arliamp.9.9/cyber-off.glsl\"\n\
                    custom-shader-animation = true\n\
                    confirm-close-surface = false\n\
                    quit-after-last-window-closed = true\n\
                    window-save-state = never\n\
                    window-show-tab-bar = never\n\
                    window-inherit-working-directory = false\n\
                    window-inherit-font-size = false\n\
                    shell-integration = none\n\
                    background = #000000\n\
                    fullscreen = true\n\
                    macos-shortcuts = deny\n";
    assert_eq!(ghostty_conf_body(&p), expected);
}

#[test]
fn build_plan_orders_the_nine_artifacts() {
    let p = paths();
    let inputs = vec![String::from("/abs/song.mp3")];
    let plan = build_artifacts(&p, "/u/tmux", "/u/unimatrix", "/u/rliamp", "arliamp-9", &inputs);
    assert_eq!(plan.len(), 9);
    let expected: [(&str, bool); 9] = [
        ("/tmp/arliamp.9.9/cyber-off.glsl", false),
        ("/tmp/arliamp.9.9/cyber-static.glsl", false),
        ("/tmp/arliamp.9.9/cyber-crazy.glsl", false),
        ("/tmp/arliamp.9.9/state", false),
        ("/tmp/arliamp.9.9/veo-toggle.sh", true),
        ("/tmp/arliamp.9.9/tmux.conf", false),
        ("/tmp/arliamp.9.9/center.zsh", true),
        ("/tmp/arliamp.9.9/runner.zsh", true),
        ("/tmp/arliamp.9.9/ghostty.conf", false),
    ];
    for (i, (path, execflag)) in expected.iter().enumerate() {
        assert_eq!(&plan[i].path, path);
        assert_eq!(plan[i].executable, *execflag, "executable flag of {}", path);
        assert!(!plan[i].content.is_empty());
    }
    assert_eq!(plan[3].content, "off\n");
    assert!(plan[6].content.contains("'/u/rliamp' '/abs/song.mp3'"));
    assert!(plan[7].content.contains("UNIMATRIX_BIN='/u/unimatrix'"));
}
