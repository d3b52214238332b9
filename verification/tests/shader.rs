use gltr::error::TransitionError;
use gltr::gl::shader::{to_fragment_shader_source, Mode, VERTEX_SHADER_SOURCE};

fn fit_program(combiner: &str, body: &str) -> String {
    format!(
        r#"
        #version 140
        uniform sampler2D from, to;
        uniform float progress;
        uniform float ratio, _fromR, _toR;
        in vec2 uv;
        out vec4 color;

        vec4 getFromColor(vec2 uv) {{
            return texture(from, .5 + (uv - .5) * vec2({0}(ratio / _fromR, 1.), {0}(_fromR / ratio, 1.)));
        }}

        vec4 getToColor(vec2 uv) {{
            return texture(to, .5 + (uv - .5) * vec2({0}(ratio / _toR, 1.), {0}(_toR / ratio, 1.)));
        }}

        {1}

        void main() {{
            color = transition(uv);
        }}
    "#,
        combiner, body
    )
}

fn stretch_program(body: &str) -> String {
    format!(
        r#"
        #version 140
        uniform sampler2D from, to;
        uniform float progress;
        in vec2 uv;
        out vec4 color;

        vec4 getFromColor(vec2 uv) {{
            return texture(from, uv);
        }}

        vec4 getToColor(vec2 uv) {{
            return texture(to, uv);
        }}

        {}

        void main() {{
            color = transition(uv);
        }}
    "#,
        body
    )
}

const FADE: &str = "vec4 transition(vec2 uv){return mix(getFromColor(uv),getToColor(uv),progress);}";

#[test]
fn mode_reads_the_three_tokens() {
    assert_eq!(Mode::new("contain"), Ok(Mode::Contain));
    assert_eq!(Mode::new("stretch"), Ok(Mode::Stretch));
    assert_eq!(Mode::new("cover"), Ok(Mode::Cover));
}

#[test]
fn mode_refuses_any_other_token() {
    for token in ["", "fill", "Cover", "COVER", "cover ", " contain", "stretchy", "cove", "contai"] {
        assert_eq!(
            Mode::new(token),
            Err(TransitionError::InvalidMode(token.to_string())),
            "token {:?}",
            token
        );
    }
}

#[test]
fn mode_never_falls_back_to_cover() {
    assert!(!matches!(Mode::new("unknown"), Ok(Mode::Cover)));
    assert!(Mode::new("unknown").is_err());
}

#[test]
fn stretch_program_is_the_template_around_the_body() {
    let source = to_fragment_shader_source(Mode::Stretch, FADE).unwrap();
    assert_eq!(source, stretch_program(FADE));
}

#[test]
fn contain_program_bounds_with_max() {
    let source = to_fragment_shader_source(Mode::Contain, FADE).unwrap();
    assert_eq!(source, fit_program("max", FADE));
    assert!(source.contains("vec2(max(ratio / _fromR, 1.), max(_fromR / ratio, 1.))"));
    assert!(source.contains("vec2(max(ratio / _toR, 1.), max(_toR / ratio, 1.))"));
    assert!(!source.contains("min("));
}

#[test]
fn cover_program_bounds_with_min() {
    let source = to_fragment_shader_source(Mode::Cover, FADE).unwrap();
    assert_eq!(source, fit_program("min", FADE));
    assert!(source.contains("vec2(min(ratio / _fromR, 1.), min(_fromR / ratio, 1.))"));
    assert!(source.contains("vec2(min(ratio / _toR, 1.), min(_toR / ratio, 1.))"));
    assert!(!source.contains("max("));
}

#[test]
fn cover_is_contain_with_min_for_max() {
    let contain = to_fragment_shader_source(Mode::Contain, FADE).unwrap();
    let cover = to_fragment_shader_source(Mode::Cover, FADE).unwrap();
    assert_ne!(contain, cover);
    assert_eq!(contain.replace("max(", "min("), cover);
}

#[test]
fn stretch_declares_no_aspect_uniform() {
    let source = to_fragment_shader_source(Mode::Stretch, FADE).unwrap();
    assert!(!source.contains("ratio"));
    assert!(!source.contains("_fromR"));
    assert!(!source.contains("_toR"));
    assert!(source.contains("uniform sampler2D from, to;"));
    assert!(source.contains("uniform float progress;"));
}

#[test]
fn stretch_mentions_ratio_only_where_the_body_does() {
    let body = "vec4 transition(vec2 uv){return vec4(ratio);}";
    let source = to_fragment_shader_source(Mode::Stretch, body).unwrap();
    assert_eq!(source.matches("ratio").count(), 1);
    assert!(!source.contains("uniform float ratio"));
}

#[test]
fn fit_modes_declare_the_aspect_uniforms() {
    for mode in [Mode::Contain, Mode::Cover] {
        for body in ["", FADE, "ratio"] {
            let source = to_fragment_shader_source(mode, body).unwrap();
            assert!(source.contains("uniform float ratio, _fromR, _toR;"));
        }
    }
}

#[test]
fn body_is_inserted_as_it_is() {
    let body = "not { glsl }} at {{ all {}";
    for mode in [Mode::Contain, Mode::Stretch, Mode::Cover] {
        let source = to_fragment_shader_source(mode, body).unwrap();
        assert_eq!(source.matches(body).count(), 1);
        assert!(source.ends_with("\n\n        void main() {\n            color = transition(uv);\n        }\n    "));
        assert!(source.starts_with("\n        #version 140\n"));
    }
}

#[test]
fn empty_body_leaves_the_wrapper() {
    assert_eq!(to_fragment_shader_source(Mode::Stretch, "").unwrap(), stretch_program(""));
    assert_eq!(to_fragment_shader_source(Mode::Contain, "").unwrap(), fit_program("max", ""));
    assert_eq!(to_fragment_shader_source(Mode::Cover, "").unwrap(), fit_program("min", ""));
}

#[test]
fn fade_in_stretch_end_to_end_source() {
    let mode = Mode::new("stretch").unwrap();
    let source = to_fragment_shader_source(mode, FADE).unwrap();
    assert_eq!(source, stretch_program(FADE));
    assert!(source.contains("color = transition(uv);"));
    assert!(source.contains(FADE));
}

#[test]
fn vertex_program_maps_the_quad_to_the_unit_square() {
    assert_eq!(
        VERTEX_SHADER_SOURCE,
        r#"
    #version 140
    in vec2 position;
    out vec2 uv;
    void main() {
        gl_Position = vec4(position, 0.0, 1.0);
        uv = vec2(0.5, 0.5) * (position + vec2(1.0, 1.0)); // Modify UV calculation
    }
"#
    );
}
