use arliamp::rewrite::first_token_of;
use arliamp::rewrite::is_shader_key_line;
use arliamp::rewrite::make_shader_line;
use arliamp::rewrite::rewrite_config;
use arliamp::toggle::advance_state;
use arliamp::toggle::next_variant;
use arliamp::toggle::parse_state;
use arliamp::toggle::state_label;
use arliamp::toggle::state_token;
use arliamp::toggle::ShaderVariant;

#[test]
fn toggle_cycle_is_off_static_crazy_off() {
    assert_eq!(next_variant(ShaderVariant::Off), ShaderVariant::Static);
    assert_eq!(next_variant(ShaderVariant::Static), ShaderVariant::Crazy);
    assert_eq!(next_variant(ShaderVariant::Crazy), ShaderVariant::Off);
    let mut v = ShaderVariant::Off;
    for _ in 0..3 {
        v = next_variant(v);
    }
    assert_eq!(v, ShaderVariant::Off);
}

#[test]
fn tokens_round_trip_through_parse() {
    for v in [ShaderVariant::Off, ShaderVariant::Static, ShaderVariant::Crazy] {
        assert_eq!(parse_state(&state_token(v)), v);
    }
}

#[test]
fn unrecognized_state_reads_as_crazy_and_advances_to_off() {
    assert_eq!(parse_state("banana"), ShaderVariant::Crazy);
    assert_eq!(parse_state(""), ShaderVariant::Crazy);
    assert_eq!(parse_state("OFF"), ShaderVariant::Crazy);
    assert_eq!(advance_state("banana"), ShaderVariant::Off);
    assert_eq!(advance_state(""), ShaderVariant::Off);
    assert_eq!(advance_state("off"), ShaderVariant::Static);
    assert_eq!(advance_state("static"), ShaderVariant::Crazy);
    assert_eq!(advance_state("crazy"), ShaderVariant::Off);
}

#[test]
fn labels_match_the_toggle_script() {
    assert_eq!(state_label(ShaderVariant::Static), "STATIC GLOW");
    assert_eq!(state_label(ShaderVariant::Crazy), "3D CRAZY");
    assert_eq!(state_label(ShaderVariant::Off), "SHADER OFF");
}

#[test]
fn first_token_skips_leading_whitespace() {
    assert_eq!(first_token_of("custom-shader = \"x\""), "custom-shader");
    assert_eq!(first_token_of("  \t custom-shader = y"), "custom-shader");
    assert_eq!(first_token_of("background = #000000"), "background");
    assert_eq!(first_token_of(""), "");
    assert_eq!(first_token_of("   "), "");
    assert!(is_shader_key_line("custom-shader = \"a b\""));
    assert!(!is_shader_key_line("custom-shader-animation = true"));
}

fn sample_config() -> Vec<String> {
    vec![
        String::from("config-default-files = false"),
        String::from("custom-shader = \"/old/path.glsl\""),
        String::from("background = #000000"),
        String::from("fullscreen = true"),
    ]
}

#[test]
fn rewrite_replaces_the_key_line_in_place() {
    let out = rewrite_config(&sample_config(), "/new/shader.glsl");
    assert_eq!(
        out,
        vec![
            String::from("config-default-files = false"),
            String::from("custom-shader = \"/new/shader.glsl\""),
            String::from("background = #000000"),
            String::from("fullscreen = true"),
        ]
    );
}

#[test]
fn rewrite_appends_the_key_line_when_absent() {
    let lines = vec![String::from("background = #000000"), String::from("fullscreen = true")];
    let out = rewrite_config(&lines, "/s.glsl");
    assert_eq!(
        out,
        vec![
            String::from("background = #000000"),
            String::from("fullscreen = true"),
            String::from("custom-shader = \"/s.glsl\""),
        ]
    );
}

#[test]
fn rewrite_twice_keeps_unrelated_lines_byte_identical() {
    let original = sample_config();
    let once = rewrite_config(&original, "/new/shader.glsl");
    let twice = rewrite_config(&once, "/new/shader.glsl");
    assert_eq!(once, twice);
    let unrelated = |lines: &Vec<String>| -> Vec<String> {
        lines.iter().filter(|l| !is_shader_key_line(l)).cloned().collect()
    };
    assert_eq!(unrelated(&original), unrelated(&twice));
    let keys = twice.iter().filter(|l| is_shader_key_line(l)).count();
    assert_eq!(keys, 1);
}

#[test]
fn rewrite_leaves_exactly_one_key_line_even_with_duplicates() {
    let lines = vec![
        String::from("custom-shader = \"a\""),
        String::from("background = #000000"),
        String::from("custom-shader = \"b\""),
    ];
    let out = rewrite_config(&lines, "/only.glsl");
    let keys: Vec<&String> = out.iter().filter(|l| is_shader_key_line(l)).collect();
    assert_eq!(keys.len(), 1);
    assert_eq!(keys[0], "custom-shader = \"/only.glsl\"");
    assert!(out.contains(&String::from("background = #000000")));
}

#[test]
fn shader_line_embeds_the_path_verbatim() {
    assert_eq!(make_shader_line("/a/b.glsl"), "custom-shader = \"/a/b.glsl\"");
}
