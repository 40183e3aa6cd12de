//! The artifact generator: the fixed shader sources and the generated
//! scripts and configs, each a pure function of the path table and of the
//! values computed before it, with every embedded path shell-quoted.
use vstd::prelude::*;

use crate::text::has_sub;
use crate::text::join_with;
use crate::text::join_strings;
use crate::text::lemma_has_sub_concat_right;
use crate::text::lemma_has_sub_prefix;
use crate::text::sh_quote;
use crate::text::sh_quoted;
use crate::toggle::token_spec;
use crate::toggle::ShaderVariant;
use crate::workspace::ArtifactPaths;

verus! {

/// The passthrough shader: samples the terminal texture unchanged.
pub open spec fn off_shader_spec() -> Seq<char> {
    r#"void mainImage(out vec4 fragColor, in vec2 fragCoord) {
    vec2 uv = fragCoord / iResolution.xy;
    fragColor = texture(iChannel0, uv);
}
"#@
}

/// The passthrough shader source, executably.
pub fn off_shader_text() -> (r: String)
    ensures
        r@ == off_shader_spec(),
{
    String::from_str(
        r#"void mainImage(out vec4 fragColor, in vec2 fragCoord) {
    vec2 uv = fragCoord / iResolution.xy;
    fragColor = texture(iChannel0, uv);
}
"#,
    )
}

/// The CRT-style shader: barrel distortion, chromatic aberration, scanlines
/// and a vignette.
pub open spec fn static_shader_spec() -> Seq<char> {
    r#"void mainImage(out vec4 fragColor, in vec2 fragCoord) {
    vec2 uv = fragCoord / iResolution.xy;
    vec2 crtUV = uv * 2.0 - 1.0;
    vec2 offset = crtUV.yx / 5.0;
    crtUV = crtUV + crtUV * offset * offset;
    crtUV = crtUV * 0.5 + 0.5;
    if (crtUV.x < 0.0 || crtUV.x > 1.0 || crtUV.y < 0.0 || crtUV.y > 1.0) {
        fragColor = vec4(0.0, 0.0, 0.0, 1.0);
        return;
    }
    float amount = 0.002;
    vec3 color;
    color.r = texture(iChannel0, vec2(crtUV.x + amount, crtUV.y)).r;
    color.g = texture(iChannel0, crtUV).g;
    color.b = texture(iChannel0, vec2(crtUV.x - amount, crtUV.y)).b;
    color -= sin(crtUV.y * 800.0 * 3.1415) * 0.04;
    color += sin(crtUV.y * 10.0 + iTime * 3.0) * 0.02;
    color += color * 0.3;
    float vignette = crtUV.x * crtUV.y * (1.0 - crtUV.x) * (1.0 - crtUV.y);
    color *= clamp(pow(16.0 * vignette, 0.25), 0.0, 1.0);
    fragColor = vec4(color, 1.0);
}
"#@
}

/// The CRT-style shader source, executably.
pub fn static_shader_text() -> (r: String)
    ensures
        r@ == static_shader_spec(),
{
    String::from_str(
        r#"void mainImage(out vec4 fragColor, in vec2 fragCoord) {
    vec2 uv = fragCoord / iResolution.xy;
    vec2 crtUV = uv * 2.0 - 1.0;
    vec2 offset = crtUV.yx / 5.0;
    crtUV = crtUV + crtUV * offset * offset;
    crtUV = crtUV * 0.5 + 0.5;
    if (crtUV.x < 0.0 || crtUV.x > 1.0 || crtUV.y < 0.0 || crtUV.y > 1.0) {
        fragColor = vec4(0.0, 0.0, 0.0, 1.0);
        return;
    }
    float amount = 0.002;
    vec3 color;
    color.r = texture(iChannel0, vec2(crtUV.x + amount, crtUV.y)).r;
    color.g = texture(iChannel0, crtUV).g;
    color.b = texture(iChannel0, vec2(crtUV.x - amount, crtUV.y)).b;
    color -= sin(crtUV.y * 800.0 * 3.1415) * 0.04;
    color += sin(crtUV.y * 10.0 + iTime * 3.0) * 0.02;
    color += color * 0.3;
    float vignette = crtUV.x * crtUV.y * (1.0 - crtUV.x) * (1.0 - crtUV.y);
    color *= clamp(pow(16.0 * vignette, 0.25), 0.0, 1.0);
    fragColor = vec4(color, 1.0);
}
"#,
    )
}

/// The beat-synchronized shader: zoom and rotation with chromatic aberration
/// and an edge fade.
pub open spec fn crazy_shader_spec() -> Seq<char> {
    r#"void mainImage(out vec4 fragColor, in vec2 fragCoord) {
    vec2 uv = fragCoord / iResolution.xy;
    vec2 centered = uv - 0.5;
    float beat = (sin(iTime * 2.5) + 1.0) * 0.5;
    float dist = length(centered);
    float centerScale = 1.0 - 0.45 * beat;
    float edgeScale = 1.0;
    float zDepth = mix(centerScale, edgeScale, dist * 1.5);
    float angle = sin(iTime * 1.0) * 0.02;
    mat2 rot = mat2(cos(angle), -sin(angle), sin(angle), cos(angle));
    centered = rot * centered * zDepth;
    vec2 final_uv = centered + 0.5;
    float edgeFade = smoothstep(0.5, 0.3, abs(uv.x - 0.5)) * smoothstep(0.5, 0.3, abs(uv.y - 0.5));

    if (final_uv.x < 0.0 || final_uv.x > 1.0 || final_uv.y < 0.0 || final_uv.y > 1.0) {
        fragColor = vec4(0.0);
        return;
    }

    float amount = 0.006 * beat;
    vec3 color;
    color.r = texture(iChannel0, vec2(final_uv.x + amount, final_uv.y)).r;
    color.g = texture(iChannel0, final_uv).g;
    color.b = texture(iChannel0, vec2(final_uv.x - amount, final_uv.y)).b;
    color *= edgeFade;
    color *= 1.1 + 0.4 * beat;

    fragColor = vec4(color, 1.0);
}
"#@
}

/// The beat-synchronized shader source, executably.
pub fn crazy_shader_text() -> (r: String)
    ensures
        r@ == crazy_shader_spec(),
{
    String::from_str(
        r#"void mainImage(out vec4 fragColor, in vec2 fragCoord) {
    vec2 uv = fragCoord / iResolution.xy;
    vec2 centered = uv - 0.5;
    float beat = (sin(iTime * 2.5) + 1.0) * 0.5;
    float dist = length(centered);
    float centerScale = 1.0 - 0.45 * beat;
    float edgeScale = 1.0;
    float zDepth = mix(centerScale, edgeScale, dist * 1.5);
    float angle = sin(iTime * 1.0) * 0.02;
    mat2 rot = mat2(cos(angle), -sin(angle), sin(angle), cos(angle));
    centered = rot * centered * zDepth;
    vec2 final_uv = centered + 0.5;
    float edgeFade = smoothstep(0.5, 0.3, abs(uv.x - 0.5)) * smoothstep(0.5, 0.3, abs(uv.y - 0.5));

    if (final_uv.x < 0.0 || final_uv.x > 1.0 || final_uv.y < 0.0 || final_uv.y > 1.0) {
        fragColor = vec4(0.0);
        return;
    }

    float amount = 0.006 * beat;
    vec3 color;
    color.r = texture(iChannel0, vec2(final_uv.x + amount, final_uv.y)).r;
    color.g = texture(iChannel0, final_uv).g;
    color.b = texture(iChannel0, vec2(final_uv.x - amount, final_uv.y)).b;
    color *= edgeFade;
    color *= 1.1 + 0.4 * beat;

    fragColor = vec4(color, 1.0);
}
"#,
    )
}

/// The shader source generated for a variant.
pub open spec fn shader_source_spec(v: ShaderVariant) -> Seq<char> {
    match v {
        ShaderVariant::Off => off_shader_spec(),
        ShaderVariant::Static => static_shader_spec(),
        ShaderVariant::Crazy => crazy_shader_spec(),
    }
}

/// The shader file path a variant activates.
pub open spec fn shader_path_spec(v: ShaderVariant, p: ArtifactPaths) -> Seq<char> {
    match v {
        ShaderVariant::Off => p.off_shader@,
        ShaderVariant::Static => p.static_shader@,
        ShaderVariant::Crazy => p.crazy_shader@,
    }
}

/// The shader file path a variant activates, executably.
pub fn active_shader_path(v: ShaderVariant, p: &ArtifactPaths) -> (r: String)
    ensures
        r@ == shader_path_spec(v, *p),
{
    match v {
        ShaderVariant::Off => p.off_shader.clone(),
        ShaderVariant::Static => p.static_shader.clone(),
        ShaderVariant::Crazy => p.crazy_shader.clone(),
    }
}

/// The initial toggle-state marker: the Off token and a newline.
pub open spec fn initial_state_spec() -> Seq<char> {
    token_spec(ShaderVariant::Off) + "\n"@
}

/// The initial toggle-state file content, executably.
pub fn initial_state_text() -> (r: String)
    ensures
        r@ == initial_state_spec(),
{
    proof {
        reveal_strlit("off\n");
        reveal_strlit("off");
        reveal_strlit("\n");
        assert("off\n"@ =~= "off"@ + "\n"@);
    }
    String::from_str("off\n")
}

/// The fixed part of the toggle script, after the path table assignments: it
/// reads the current state, walks the cyclic sequence, rewrites the shader
/// key through a temp file and an atomic rename, signals the recorded host
/// process only when it is alive, persists the next state and shows a status
/// message.
pub open spec fn toggle_tail_spec() -> Seq<char> {
    r#"

current="off"
if [ -f "$state_file" ]; then
  current="$(cat "$state_file")"
fi

case "$current" in
  off)
    next="static"
    shader="$static_shader"
    label="STATIC GLOW"
    ;;
  static)
    next="crazy"
    shader="$crazy_shader"
    label="3D CRAZY"
    ;;
  crazy|*)
    next="off"
    shader="$off_shader"
    label="SHADER OFF"
    ;;
esac

tmp_conf="$conf_file.tmp"
awk -v shader="$shader" '
BEGIN {updated=0}
$1=="custom-shader" {
  print "custom-shader = \"" shader "\""
  updated=1
  next
}
{print}
END {
  if (!updated) {
    print "custom-shader = \"" shader "\""
  }
}
' "$conf_file" > "$tmp_conf"
mv "$tmp_conf" "$conf_file"

if [ -f "$ghostty_pid_file" ]; then
  ghostty_pid="$(cat "$ghostty_pid_file" 2>/dev/null || true)"
  if [ -n "$ghostty_pid" ] && kill -0 "$ghostty_pid" 2>/dev/null; then
    kill -USR2 "$ghostty_pid" 2>/dev/null || true
  fi
fi

printf '%s\n' "$next" > "$state_file"
tmux display-message "VEO: $label (v)"
"#@
}

/// The whole toggle script: the quoted path table, then the fixed tail.
pub open spec fn toggle_script_spec(p: ArtifactPaths) -> Seq<char> {
    "#!/bin/sh\nset -eu\nstate_file="@ + sh_quoted(p.state_file@) + "\nconf_file="@ + sh_quoted(
        p.ghostty_conf@,
    ) + "\nghostty_pid_file="@ + sh_quoted(p.ghostty_pid_file@) + "\noff_shader="@ + sh_quoted(
        p.off_shader@,
    ) + "\nstatic_shader="@ + sh_quoted(p.static_shader@) + "\ncrazy_shader="@ + sh_quoted(
        p.crazy_shader@,
    ) + toggle_tail_spec()
}

/// Generates the toggle script for a path table.
pub fn toggle_script_body(p: &ArtifactPaths) -> (r: String)
    ensures
        r@ == toggle_script_spec(*p),
{
    let mut s = String::from_str("#!/bin/sh\nset -eu\nstate_file=");
    let q_state = sh_quote(p.state_file.as_str());
    s.append(q_state.as_str());
    s.append("\nconf_file=");
    let q_conf = sh_quote(p.ghostty_conf.as_str());
    s.append(q_conf.as_str());
    s.append("\nghostty_pid_file=");
    let q_pid = sh_quote(p.ghostty_pid_file.as_str());
    s.append(q_pid.as_str());
    s.append("\noff_shader=");
    let q_off = sh_quote(p.off_shader.as_str());
    s.append(q_off.as_str());
    s.append("\nstatic_shader=");
    let q_static = sh_quote(p.static_shader.as_str());
    s.append(q_static.as_str());
    s.append("\ncrazy_shader=");
    let q_crazy = sh_quote(p.crazy_shader.as_str());
    s.append(q_crazy.as_str());
    s.append(
        r#"

current="off"
if [ -f "$state_file" ]; then
  current="$(cat "$state_file")"
fi

case "$current" in
  off)
    next="static"
    shader="$static_shader"
    label="STATIC GLOW"
    ;;
  static)
    next="crazy"
    shader="$crazy_shader"
    label="3D CRAZY"
    ;;
  crazy|*)
    next="off"
    shader="$off_shader"
    label="SHADER OFF"
    ;;
esac

tmp_conf="$conf_file.tmp"
awk -v shader="$shader" '
BEGIN {updated=0}
$1=="custom-shader" {
  print "custom-shader = \"" shader "\""
  updated=1
  next
}
{print}
END {
  if (!updated) {
    print "custom-shader = \"" shader "\""
  }
}
' "$conf_file" > "$tmp_conf"
mv "$tmp_conf" "$conf_file"

if [ -f "$ghostty_pid_file" ]; then
  ghostty_pid="$(cat "$ghostty_pid_file" 2>/dev/null || true)"
  if [ -n "$ghostty_pid" ] && kill -0 "$ghostty_pid" 2>/dev/null; then
    kill -USR2 "$ghostty_pid" 2>/dev/null || true
  fi
fi

printf '%s\n' "$next" > "$state_file"
tmux display-message "VEO: $label (v)"
"#,
    );
    proof {
        assert(s@ =~= toggle_script_spec(*p));
    }
    s
}

/// The multiplexer configuration: status bar off, mouse and focus events on,
/// invisible pane borders, and the toggle bound to the designated key in both
/// unprefixed and prefixed input modes.
pub open spec fn tmux_conf_spec(p: ArtifactPaths) -> Seq<char> {
    "set -g status off\nset -g mouse on\nset -g focus-events on\nset -g detach-on-destroy on\nset -g exit-empty on\nset -g message-style \"bg=black,fg=green\"\nset -g pane-border-style \"fg=black,bg=black\"\nset -g pane-active-border-style \"fg=black,bg=black\"\nset -g pane-border-status off\nset -sg escape-time 0\nbind -n v run-shell "@
        + sh_quoted(p.toggle_script@) + "\nbind -n V run-shell "@ + sh_quoted(p.toggle_script@)
        + "\nbind v run-shell "@ + sh_quoted(p.toggle_script@) + "\n"@
}

/// Generates the multiplexer configuration for a path table.
pub fn tmux_conf_body(p: &ArtifactPaths) -> (r: String)
    ensures
        r@ == tmux_conf_spec(*p),
{
    let mut s = String::from_str(
        "set -g status off\nset -g mouse on\nset -g focus-events on\nset -g detach-on-destroy on\nset -g exit-empty on\nset -g message-style \"bg=black,fg=green\"\nset -g pane-border-style \"fg=black,bg=black\"\nset -g pane-active-border-style \"fg=black,bg=black\"\nset -g pane-border-status off\nset -sg escape-time 0\nbind -n v run-shell ",
    );
    let q_toggle = sh_quote(p.toggle_script.as_str());
    s.append(q_toggle.as_str());
    s.append("\nbind -n V run-shell ");
    s.append(q_toggle.as_str());
    s.append("\nbind v run-shell ");
    s.append(q_toggle.as_str());
    s.append("\n");
    proof {
        assert(s@ =~= tmux_conf_spec(*p));
    }
    s
}

/// The Resolved Input List quoted for the shell, space-separated.
pub open spec fn quoted_inputs_spec(inputs: Seq<Seq<char>>) -> Seq<char> {
    join_with(inputs.map_values(|s: Seq<char>| sh_quoted(s)), " "@)
}

/// Quotes every resolved input and joins them with spaces.
pub fn quote_inputs(inputs: &Vec<String>) -> (r: String)
    ensures
        r@ == quoted_inputs_spec(inputs.deep_view()),
{
    let ghost dv = inputs.deep_view();
    let mut qv: Vec<String> = Vec::new();
    let mut i: usize = 0;
    proof {
        assert(qv.deep_view() =~= dv.take(0).map_values(|s: Seq<char>| sh_quoted(s)));
    }
    while i < inputs.len()
        invariant
            0 <= i <= dv.len(),
            dv.len() == inputs@.len(),
            forall|k: int| 0 <= k < dv.len() ==> #[trigger] dv[k] == inputs@[k]@,
            qv.deep_view() == dv.take(i as int).map_values(|s: Seq<char>| sh_quoted(s)),
        decreases dv.len() - i,
    {
        let q = sh_quote(inputs[i].as_str());
        proof {
            assert(qv.deep_view().push(sh_quoted(dv[i as int])) =~= dv.take(i + 1).map_values(
                |s: Seq<char>| sh_quoted(s),
            ));
        }
        qv.push(q);
        i = i + 1;
    }
    proof {
        assert(dv.take(dv.len() as int) =~= dv);
    }
    join_strings(&qv, " ")
}

/// The center-pane runner: exports terminal capabilities, hands the Resolved
/// Input List to the playback engine, and tears the session down when it
/// exits.
pub open spec fn center_script_spec(
    p: ArtifactPaths,
    tmux_bin: Seq<char>,
    rliamp_bin: Seq<char>,
    session: Seq<char>,
    inputs: Seq<Seq<char>>,
) -> Seq<char> {
    "#!/bin/sh\nset -eu\nexport TERM=xterm-256color\nexport COLORTERM=truecolor\n"@ + sh_quoted(
        rliamp_bin,
    ) + " "@ + quoted_inputs_spec(inputs) + "\n"@ + sh_quoted(tmux_bin) + " -S "@ + sh_quoted(
        p.tmux_socket@,
    ) + " kill-session -t "@ + sh_quoted(session) + " >/dev/null 2>&1 || true\n"@
}

/// Generates the center-pane runner script.
pub fn center_script_body(
    p: &ArtifactPaths,
    tmux_bin: &str,
    rliamp_bin: &str,
    session: &str,
    inputs: &Vec<String>,
) -> (r: String)
    ensures
        r@ == center_script_spec(*p, tmux_bin@, rliamp_bin@, session@, inputs.deep_view()),
{
    let mut s = String::from_str(
        "#!/bin/sh\nset -eu\nexport TERM=xterm-256color\nexport COLORTERM=truecolor\n",
    );
    let q_rliamp = sh_quote(rliamp_bin);
    s.append(q_rliamp.as_str());
    s.append(" ");
    let joined = quote_inputs(inputs);
    s.append(joined.as_str());
    s.append("\n");
    let q_tmux = sh_quote(tmux_bin);
    s.append(q_tmux.as_str());
    s.append(" -S ");
    let q_socket = sh_quote(p.tmux_socket.as_str());
    s.append(q_socket.as_str());
    s.append(" kill-session -t ");
    let q_session = sh_quote(session);
    s.append(q_session.as_str());
    s.append(" >/dev/null 2>&1 || true\n");
    proof {
        assert(s@ =~= center_script_spec(*p, tmux_bin@, rliamp_bin@, session@, inputs.deep_view()));
    }
    s
}

/// The cleanup handler's opening: it kills the named session and the server
/// bound to the dedicated socket, both with their failures suppressed.
pub open spec fn runner_cleanup_head_spec() -> Seq<char> {
    r##"SIDE_CMD="\"$UNIMATRIX_BIN\" -s 96 -l o -c green"

cleanup() {
  "$TMUX_BIN" -S "$TMUX_SOCKET" kill-session -t "$SESSION" >/dev/null 2>&1 || true
  "$TMUX_BIN" -S "$TMUX_SOCKET" kill-server >/dev/null 2>&1 || true
"##@
}

/// The cleanup handler's workspace removal.
pub open spec fn runner_rm_line_spec() -> Seq<char> {
    "  rm -rf \"$RUNTIME_DIR\"\n"@
}

/// The line that binds the cleanup handler to normal exit and to the
/// interruption and termination signals.
pub open spec fn runner_trap_line_spec() -> Seq<char> {
    "trap cleanup EXIT INT TERM\n"@
}

/// The rest of the session runner after the cleanup registration: the
/// bounded ancestor walk that records the host process id, the pane layout
/// built before attach, the center-pane respawn, and the blocking attach.
pub open spec fn runner_stage_spec() -> Seq<char> {
    r##"
detect_ghostty_pid() {
  cur="$$"
  i=0
  while [ "$i" -lt 24 ]; do
    ppid="$(ps -o ppid= -p "$cur" 2>/dev/null | tr -d ' ')"
    [ -z "$ppid" ] && break
    [ "$ppid" -le 1 ] 2>/dev/null && break
    comm="$(ps -o comm= -p "$ppid" 2>/dev/null || true)"
    if printf '%s\n' "$comm" | grep -qi 'ghostty'; then
      printf '%s\n' "$ppid"
      return 0
    fi
    cur="$ppid"
    i=$((i + 1))
  done
  return 1
}

if ghostty_pid="$(detect_ghostty_pid)"; then
  printf '%s\n' "$ghostty_pid" > "$RUNTIME_DIR/ghostty.pid"
fi

# Build a stable 3x3 stage before attach to avoid popup startup flicker.
"$TMUX_BIN" -S "$TMUX_SOCKET" -f "$TMUX_CONF" new-session -d -s "$SESSION" "$SIDE_CMD"
CENTER_PANE=$("$TMUX_BIN" -S "$TMUX_SOCKET" display-message -p -t "$SESSION":0.0 "#{pane_id}")
"$TMUX_BIN" -S "$TMUX_SOCKET" split-window -v -b -p 16 -t "$CENTER_PANE" "$SIDE_CMD"
"$TMUX_BIN" -S "$TMUX_SOCKET" split-window -v -p 19 -t "$CENTER_PANE" "$SIDE_CMD"
"$TMUX_BIN" -S "$TMUX_SOCKET" split-window -h -b -p 14 -t "$CENTER_PANE" "$SIDE_CMD"
"$TMUX_BIN" -S "$TMUX_SOCKET" split-window -h -p 16 -t "$CENTER_PANE" "$SIDE_CMD"
"$TMUX_BIN" -S "$TMUX_SOCKET" respawn-pane -k -t "$CENTER_PANE" "\"$CENTER_SCRIPT\""
"$TMUX_BIN" -S "$TMUX_SOCKET" select-pane -t "$CENTER_PANE"
"$TMUX_BIN" -S "$TMUX_SOCKET" attach -t "$SESSION"
"##@
}

/// The fixed part of the session runner, after the value table.
pub open spec fn runner_tail_spec() -> Seq<char> {
    runner_cleanup_head_spec() + runner_rm_line_spec() + "}\n"@ + runner_trap_line_spec()
        + runner_stage_spec()
}

/// The whole session runner: the quoted value table, then the fixed tail.
pub open spec fn runner_script_spec(
    p: ArtifactPaths,
    tmux_bin: Seq<char>,
    unimatrix_bin: Seq<char>,
    session: Seq<char>,
) -> Seq<char> {
    "#!/bin/sh\nset -eu\nTMUX_BIN="@ + sh_quoted(tmux_bin) + "\nUNIMATRIX_BIN="@ + sh_quoted(
        unimatrix_bin,
    ) + "\nCENTER_SCRIPT="@ + sh_quoted(p.center_script@) + "\nTMUX_SOCKET="@ + sh_quoted(
        p.tmux_socket@,
    ) + "\nTMUX_CONF="@ + sh_quoted(p.tmux_conf@) + "\nSESSION="@ + sh_quoted(session)
        + "\nRUNTIME_DIR="@ + sh_quoted(p.runtime_dir@) + "\n"@ + runner_tail_spec()
}

/// Generates the session runner script.
pub fn runner_script_body(
    p: &ArtifactPaths,
    tmux_bin: &str,
    unimatrix_bin: &str,
    session: &str,
) -> (r: String)
    ensures
        r@ == runner_script_spec(*p, tmux_bin@, unimatrix_bin@, session@),
{
    let mut s = String::from_str("#!/bin/sh\nset -eu\nTMUX_BIN=");
    let q_tmux = sh_quote(tmux_bin);
    s.append(q_tmux.as_str());
    s.append("\nUNIMATRIX_BIN=");
    let q_unimatrix = sh_quote(unimatrix_bin);
    s.append(q_unimatrix.as_str());
    s.append("\nCENTER_SCRIPT=");
    let q_center = sh_quote(p.center_script.as_str());
    s.append(q_center.as_str());
    s.append("\nTMUX_SOCKET=");
    let q_socket = sh_quote(p.tmux_socket.as_str());
    s.append(q_socket.as_str());
    s.append("\nTMUX_CONF=");
    let q_conf = sh_quote(p.tmux_conf.as_str());
    s.append(q_conf.as_str());
    s.append("\nSESSION=");
    let q_session = sh_quote(session);
    s.append(q_session.as_str());
    s.append("\nRUNTIME_DIR=");
    let q_runtime = sh_quote(p.runtime_dir.as_str());
    s.append(q_runtime.as_str());
    s.append("\n");
    s.append(
        r##"SIDE_CMD="\"$UNIMATRIX_BIN\" -s 96 -l o -c green"

cleanup() {
  "$TMUX_BIN" -S "$TMUX_SOCKET" kill-session -t "$SESSION" >/dev/null 2>&1 || true
  "$TMUX_BIN" -S "$TMUX_SOCKET" kill-server >/dev/null 2>&1 || true
"##,
    );
    s.append("  rm -rf \"$RUNTIME_DIR\"\n");
    s.append("}\n");
    s.append("trap cleanup EXIT INT TERM\n");
    s.append(
        r##"
detect_ghostty_pid() {
  cur="$$"
  i=0
  while [ "$i" -lt 24 ]; do
    ppid="$(ps -o ppid= -p "$cur" 2>/dev/null | tr -d ' ')"
    [ -z "$ppid" ] && break
    [ "$ppid" -le 1 ] 2>/dev/null && break
    comm="$(ps -o comm= -p "$ppid" 2>/dev/null || true)"
    if printf '%s\n' "$comm" | grep -qi 'ghostty'; then
      printf '%s\n' "$ppid"
      return 0
    fi
    cur="$ppid"
    i=$((i + 1))
  done
  return 1
}

if ghostty_pid="$(detect_ghostty_pid)"; then
  printf '%s\n' "$ghostty_pid" > "$RUNTIME_DIR/ghostty.pid"
fi

# Build a stable 3x3 stage before attach to avoid popup startup flicker.
"$TMUX_BIN" -S "$TMUX_SOCKET" -f "$TMUX_CONF" new-session -d -s "$SESSION" "$SIDE_CMD"
CENTER_PANE=$("$TMUX_BIN" -S "$TMUX_SOCKET" display-message -p -t "$SESSION":0.0 "#{pane_id}")
"$TMUX_BIN" -S "$TMUX_SOCKET" split-window -v -b -p 16 -t "$CENTER_PANE" "$SIDE_CMD"
"$TMUX_BIN" -S "$TMUX_SOCKET" split-window -v -p 19 -t "$CENTER_PANE" "$SIDE_CMD"
"$TMUX_BIN" -S "$TMUX_SOCKET" split-window -h -b -p 14 -t "$CENTER_PANE" "$SIDE_CMD"
"$TMUX_BIN" -S "$TMUX_SOCKET" split-window -h -p 16 -t "$CENTER_PANE" "$SIDE_CMD"
"$TMUX_BIN" -S "$TMUX_SOCKET" respawn-pane -k -t "$CENTER_PANE" "\"$CENTER_SCRIPT\""
"$TMUX_BIN" -S "$TMUX_SOCKET" select-pane -t "$CENTER_PANE"
"$TMUX_BIN" -S "$TMUX_SOCKET" attach -t "$SESSION"
"##,
    );
    proof {
        assert(s@ =~= runner_script_spec(*p, tmux_bin@, unimatrix_bin@, session@));
    }
    s
}

/// The terminal-emulator configuration: no default config files, the session
/// runner as initial command, the Off shader active with animation on, no
/// close confirmation or window-state persistence, fullscreen, and OS window
/// shortcuts denied.
pub open spec fn ghostty_conf_spec(p: ArtifactPaths) -> Seq<char> {
    "config-default-files = false\ninitial-command = direct:"@ + p.runner_script@
        + "\ncustom-shader = \""@ + p.off_shader@
        + "\"\ncustom-shader-animation = true\nconfirm-close-surface = false\nquit-after-last-window-closed = true\nwindow-save-state = never\nwindow-show-tab-bar = never\nwindow-inherit-working-directory = false\nwindow-inherit-font-size = false\nshell-integration = none\nbackground = #000000\nfullscreen = true\nmacos-shortcuts = deny\n"@
}

/// Generates the terminal-emulator configuration.
pub fn ghostty_conf_body(p: &ArtifactPaths) -> (r: String)
    ensures
        r@ == ghostty_conf_spec(*p),
{
    let mut s = String::from_str("config-default-files = false\ninitial-command = direct:");
    s.append(p.runner_script.as_str());
    s.append("\ncustom-shader = \"");
    s.append(p.off_shader.as_str());
    s.append(
        "\"\ncustom-shader-animation = true\nconfirm-close-surface = false\nquit-after-last-window-closed = true\nwindow-save-state = never\nwindow-show-tab-bar = never\nwindow-inherit-working-directory = false\nwindow-inherit-font-size = false\nshell-integration = none\nbackground = #000000\nfullscreen = true\nmacos-shortcuts = deny\n",
    );
    proof {
        assert(s@ =~= ghostty_conf_spec(*p));
    }
    s
}

/// Every generated session runner holds the line that binds the cleanup
/// handler to normal exit and to the interruption and termination signals,
/// and the handler's removal of the whole workspace directory — whatever
/// paths, binaries and session name the script was generated for.
pub proof fn lemma_runner_cleanup_registered(
    p: ArtifactPaths,
    tmux_bin: Seq<char>,
    unimatrix_bin: Seq<char>,
    session: Seq<char>,
)
    ensures
        has_sub(runner_script_spec(p, tmux_bin, unimatrix_bin, session), runner_trap_line_spec()),
        has_sub(runner_script_spec(p, tmux_bin, unimatrix_bin, session), runner_rm_line_spec()),
{
    let s = runner_script_spec(p, tmux_bin, unimatrix_bin, session);
    let x = "#!/bin/sh\nset -eu\nTMUX_BIN="@ + sh_quoted(tmux_bin) + "\nUNIMATRIX_BIN="@
        + sh_quoted(unimatrix_bin) + "\nCENTER_SCRIPT="@ + sh_quoted(p.center_script@)
        + "\nTMUX_SOCKET="@ + sh_quoted(p.tmux_socket@) + "\nTMUX_CONF="@ + sh_quoted(p.tmux_conf@)
        + "\nSESSION="@ + sh_quoted(session) + "\nRUNTIME_DIR="@ + sh_quoted(p.runtime_dir@)
        + "\n"@;
    let c1 = runner_cleanup_head_spec();
    let c2 = runner_rm_line_spec();
    let c3 = "}\n"@;
    let c4 = runner_trap_line_spec();
    let c5 = runner_stage_spec();
    assert(s == x + (c1 + c2 + c3 + c4 + c5));
    let before_trap = x + (c1 + c2 + c3);
    assert(s =~= before_trap + (c4 + c5));
    lemma_has_sub_prefix(c4, c5);
    lemma_has_sub_concat_right(before_trap, c4 + c5, c4);
    let before_rm = x + c1;
    assert(s =~= before_rm + (c2 + (c3 + (c4 + c5))));
    lemma_has_sub_prefix(c2, c3 + (c4 + c5));
    lemma_has_sub_concat_right(before_rm, c2 + (c3 + (c4 + c5)), c2);
}

/// One generated artifact: where it goes, what it holds, and whether it is
/// invoked as a script.
pub struct Artifact {
    pub path: String,
    pub content: String,
    pub executable: bool,
}

/// Builds the whole ordered plan of generated artifacts: the three shader
/// sources, the initial state marker, the toggle script, the multiplexer
/// configuration, the center-pane runner, the session runner, and the
/// emulator configuration — in the dependency order they are written.
pub fn build_artifacts(
    p: &ArtifactPaths,
    tmux_bin: &str,
    unimatrix_bin: &str,
    rliamp_bin: &str,
    session: &str,
    inputs: &Vec<String>,
) -> (v: Vec<Artifact>)
    ensures
        v@.len() == 9,
        v@[0].path@ == p.off_shader@ && v@[0].content@ == off_shader_spec() && !v@[0].executable,
        v@[1].path@ == p.static_shader@ && v@[1].content@ == static_shader_spec()
            && !v@[1].executable,
        v@[2].path@ == p.crazy_shader@ && v@[2].content@ == crazy_shader_spec()
            && !v@[2].executable,
        v@[3].path@ == p.state_file@ && v@[3].content@ == initial_state_spec()
            && !v@[3].executable,
        v@[4].path@ == p.toggle_script@ && v@[4].content@ == toggle_script_spec(*p)
            && v@[4].executable,
        v@[5].path@ == p.tmux_conf@ && v@[5].content@ == tmux_conf_spec(*p) && !v@[5].executable,
        v@[6].path@ == p.center_script@ && v@[6].content@ == center_script_spec(
            *p,
            tmux_bin@,
            rliamp_bin@,
            session@,
            inputs.deep_view(),
        ) && v@[6].executable,
        v@[7].path@ == p.runner_script@ && v@[7].content@ == runner_script_spec(
            *p,
            tmux_bin@,
            unimatrix_bin@,
            session@,
        ) && v@[7].executable,
        v@[8].path@ == p.ghostty_conf@ && v@[8].content@ == ghostty_conf_spec(*p)
            && !v@[8].executable,
{
    let mut v: Vec<Artifact> = Vec::new();
    v.push(
        Artifact { path: p.off_shader.clone(), content: off_shader_text(), executable: false },
    );
    v.push(
        Artifact {
            path: p.static_shader.clone(),
            content: static_shader_text(),
            executable: false,
        },
    );
    v.push(
        Artifact { path: p.crazy_shader.clone(), content: crazy_shader_text(), executable: false },
    );
    v.push(
        Artifact { path: p.state_file.clone(), content: initial_state_text(), executable: false },
    );
    v.push(
        Artifact { path: p.toggle_script.clone(), content: toggle_script_body(p), executable: true },
    );
    v.push(Artifact { path: p.tmux_conf.clone(), content: tmux_conf_body(p), executable: false });
    v.push(
        Artifact {
            path: p.center_script.clone(),
            content: center_script_body(p, tmux_bin, rliamp_bin, session, inputs),
            executable: true,
        },
    );
    v.push(
        Artifact {
            path: p.runner_script.clone(),
            content: runner_script_body(p, tmux_bin, unimatrix_bin, session),
            executable: true,
        },
    );
    v.push(
        Artifact { path: p.ghostty_conf.clone(), content: ghostty_conf_body(p), executable: false },
    );
    v
}

} // verus!
