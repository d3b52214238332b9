use gltr::catalog::{
    load_shader, lookup, parse_catalog, position, ParamDecl, ParamDefault, ShaderDescriptor,
    NO_SOURCE,
};
use gltr::error::TransitionError;
use gltr::params::{ParamType, RawValue, Scalar};

const CATALOG: &str = r#"[
  {
    "name": "fade",
    "glsl": "vec4 transition(vec2 uv){return mix(getFromColor(uv),getToColor(uv),progress);}",
    "paramsTypes": {},
    "defaultParams": {}
  },
  {
    "name": "wind",
    "glsl": "vec4 transition(vec2 uv){return vec4(size);}",
    "paramsTypes": {"size": "float"},
    "defaultParams": {"size": 0.2}
  },
  {
    "name": "kitchen",
    "glsl": "body",
    "paramsTypes": {
      "on": "bool", "speed": "float", "count": "int", "grid": "ivec2",
      "centre": "vec2", "tint": "vec3", "shade": "vec4", "mask": "sampler2D",
      "later": "mat4", "odd": 12
    },
    "defaultParams": {
      "on": true, "speed": 2, "count": -3, "grid": [4, 5],
      "centre": [0.5, 0.25], "tint": [1, 0.5, 0], "shade": [0, 0, 0, 1, "more"],
      "mask": null, "later": [1, 2], "odd": "x", "nested": [[1], {"a": 1}, "s", false]
    }
  }
]"#;

fn number(integer: Option<i64>, double: f64) -> Scalar {
    Scalar::Number { integer, double: Some(double.to_bits()) }
}

fn decl(name: &str, kind: Option<ParamType>) -> ParamDecl {
    ParamDecl { name: name.to_string(), kind }
}

fn default(name: &str, value: RawValue) -> ParamDefault {
    ParamDefault { name: name.to_string(), value }
}

#[test]
fn catalog_parses_into_descriptors() {
    let catalog = parse_catalog(CATALOG).unwrap();
    assert_eq!(catalog.len(), 3);
    assert_eq!(
        catalog[0],
        ShaderDescriptor {
            name: "fade".to_string(),
            glsl: "vec4 transition(vec2 uv){return mix(getFromColor(uv),getToColor(uv),progress);}"
                .to_string(),
            params_types: vec![],
            default_params: vec![],
        }
    );
    assert_eq!(
        catalog[1],
        ShaderDescriptor {
            name: "wind".to_string(),
            glsl: "vec4 transition(vec2 uv){return vec4(size);}".to_string(),
            params_types: vec![decl("size", Some(ParamType::Float))],
            default_params: vec![default("size", RawValue::Scalar(number(None, 0.2)))],
        }
    );
}

#[test]
fn every_tag_is_read_and_unknown_ones_are_kept_without_type() {
    let catalog = parse_catalog(CATALOG).unwrap();
    let mut types = catalog[2].params_types.clone();
    types.sort_by(|a, b| a.name.cmp(&b.name));
    assert_eq!(
        types,
        vec![
            decl("centre", Some(ParamType::Vec2)),
            decl("count", Some(ParamType::Int)),
            decl("grid", Some(ParamType::IVec2)),
            decl("later", None),
            decl("mask", Some(ParamType::Sampler2D)),
            decl("odd", None),
            decl("on", Some(ParamType::Bool)),
            decl("shade", Some(ParamType::Vec4)),
            decl("speed", Some(ParamType::Float)),
            decl("tint", Some(ParamType::Vec3)),
        ]
    );
}

#[test]
fn defaults_keep_every_reading() {
    let catalog = parse_catalog(CATALOG).unwrap();
    let mut defaults = catalog[2].default_params.clone();
    defaults.sort_by(|a, b| a.name.cmp(&b.name));
    assert_eq!(
        defaults,
        vec![
            default(
                "centre",
                RawValue::List(vec![number(None, 0.5), number(None, 0.25)])
            ),
            default("count", RawValue::Scalar(number(Some(-3), -3.0))),
            default(
                "grid",
                RawValue::List(vec![number(Some(4), 4.0), number(Some(5), 5.0)])
            ),
            default(
                "later",
                RawValue::List(vec![number(Some(1), 1.0), number(Some(2), 2.0)])
            ),
            default("mask", RawValue::Scalar(Scalar::Other)),
            default(
                "nested",
                RawValue::List(vec![Scalar::Other, Scalar::Other, Scalar::Other, Scalar::Bool(false)])
            ),
            default("odd", RawValue::Scalar(Scalar::Other)),
            default("on", RawValue::Scalar(Scalar::Bool(true))),
            default(
                "shade",
                RawValue::List(vec![
                    number(Some(0), 0.0),
                    number(Some(0), 0.0),
                    number(Some(0), 0.0),
                    number(Some(1), 1.0),
                    Scalar::Other,
                ])
            ),
            default("speed", RawValue::Scalar(number(Some(2), 2.0))),
            default(
                "tint",
                RawValue::List(vec![number(Some(1), 1.0), number(None, 0.5), number(Some(0), 0.0)])
            ),
        ]
    );
}

#[test]
fn entries_come_in_the_order_of_the_json_map() {
    let catalog = parse_catalog(r#"[{"glsl": "", "defaultParams": {"b": 1, "a": 2, "c": 3}}]"#).unwrap();
    let names: Vec<&str> = catalog[0].default_params.iter().map(|d| d.name.as_str()).collect();
    assert_eq!(names, vec!["a", "b", "c"]);
}

#[test]
fn large_numbers_have_only_a_double() {
    let catalog = parse_catalog(
        r#"[{"glsl": "", "defaultParams": {"big": 18446744073709551615, "edge": 9223372036854775807, "low": -9223372036854775808}}]"#,
    )
    .unwrap();
    assert_eq!(
        catalog[0].default_params,
        vec![
            default("big", RawValue::Scalar(number(None, 18446744073709551615.0))),
            default("edge", RawValue::Scalar(number(Some(i64::MAX), i64::MAX as f64))),
            default("low", RawValue::Scalar(number(Some(i64::MIN), i64::MIN as f64))),
        ]
    );
}

#[test]
fn missing_fields_are_tolerated_but_for_the_source() {
    let catalog = parse_catalog(r#"[{"glsl": "x"}, {"name": 5, "glsl": "y", "paramsTypes": [], "defaultParams": "no"}]"#)
        .unwrap();
    assert_eq!(
        catalog,
        vec![
            ShaderDescriptor {
                name: String::new(),
                glsl: "x".to_string(),
                params_types: vec![],
                default_params: vec![],
            },
            ShaderDescriptor {
                name: String::new(),
                glsl: "y".to_string(),
                params_types: vec![],
                default_params: vec![],
            },
        ]
    );
}

#[test]
fn a_record_without_source_refuses_the_whole_catalog() {
    for text in [
        r#"[{"name": "fade"}]"#,
        r#"[{"name": "fade", "glsl": "ok"}, {"name": "wind", "glsl": 3}]"#,
        r#"[{"name": "fade", "glsl": null}]"#,
        r#"[1]"#,
        r#"["glsl"]"#,
    ] {
        assert_eq!(
            parse_catalog(text),
            Err(TransitionError::CatalogParseError(NO_SOURCE.to_string())),
            "text {}",
            text
        );
    }
}

#[test]
fn a_text_that_is_no_json_list_is_refused_with_the_parser_diagnostic() {
    for text in ["", "{", "[", r#"{"name": "fade"}"#, "[1,]", "nonsense", "[] trailing"] {
        let expected = serde_json::from_str::<Vec<serde_json::Value>>(text).unwrap_err().to_string();
        assert!(!expected.is_empty());
        assert_eq!(
            parse_catalog(text),
            Err(TransitionError::CatalogParseError(expected)),
            "text {:?}",
            text
        );
    }
}

#[test]
fn empty_catalog_is_a_catalog() {
    assert_eq!(parse_catalog("[]"), Ok(vec![]));
    assert_eq!(parse_catalog(" [ ] "), Ok(vec![]));
}

#[test]
fn position_finds_the_first_exact_name() {
    let catalog = parse_catalog(
        r#"[{"name": "a", "glsl": "1"}, {"name": "b", "glsl": "2"}, {"name": "a", "glsl": "3"}, {"name": "B", "glsl": "4"}]"#,
    )
    .unwrap();
    assert_eq!(position(&catalog, "a"), Some(0));
    assert_eq!(position(&catalog, "b"), Some(1));
    assert_eq!(position(&catalog, "B"), Some(3));
    assert_eq!(position(&catalog, "c"), None);
    assert_eq!(position(&catalog, ""), None);
    assert_eq!(position(&Vec::new(), "a"), None);
}

#[test]
fn lookup_lowers_the_target_only() {
    let catalog = parse_catalog(CATALOG).unwrap();
    assert_eq!(lookup(&catalog, "fade").unwrap().name, "fade");
    assert_eq!(lookup(&catalog, "FADE").unwrap().name, "fade");
    assert_eq!(lookup(&catalog, "Wind").unwrap().glsl, "vec4 transition(vec2 uv){return vec4(size);}");
    assert_eq!(lookup(&catalog, "wInD"), Ok(&catalog[1]));
    let upper = parse_catalog(r#"[{"name": "Fade", "glsl": ""}]"#).unwrap();
    assert_eq!(
        lookup(&upper, "Fade"),
        Err(TransitionError::ShaderNotFound("Fade".to_string()))
    );
    assert_eq!(
        lookup(&upper, "fade"),
        Err(TransitionError::ShaderNotFound("fade".to_string()))
    );
}

#[test]
fn lookup_reports_the_name_as_it_was_asked_for() {
    let catalog = parse_catalog(CATALOG).unwrap();
    assert_eq!(
        lookup(&catalog, "Swirl"),
        Err(TransitionError::ShaderNotFound("Swirl".to_string()))
    );
    assert_eq!(lookup(&catalog, ""), Err(TransitionError::ShaderNotFound(String::new())));
    assert_eq!(
        lookup(&Vec::new(), "fade"),
        Err(TransitionError::ShaderNotFound("fade".to_string()))
    );
}

#[test]
fn lookup_takes_the_first_of_two_with_one_name() {
    let catalog = parse_catalog(r#"[{"name": "a", "glsl": "first"}, {"name": "a", "glsl": "second"}]"#).unwrap();
    assert_eq!(lookup(&catalog, "A").unwrap().glsl, "first");
}

#[test]
fn a_record_without_name_answers_to_the_empty_name() {
    let catalog = parse_catalog(r#"[{"name": "a", "glsl": "1"}, {"glsl": "2"}]"#).unwrap();
    assert_eq!(lookup(&catalog, "").unwrap().glsl, "2");
}

#[test]
fn load_shader_parses_and_finds() {
    let catalog = parse_catalog(CATALOG).unwrap();
    assert_eq!(load_shader(CATALOG, "Wind"), Ok(catalog[1].clone()));
    assert_eq!(load_shader(CATALOG, "fade"), Ok(catalog[0].clone()));
    assert_eq!(load_shader(CATALOG, "KITCHEN"), Ok(catalog[2].clone()));
}

#[test]
fn load_shader_fails_as_its_parts_do() {
    assert_eq!(
        load_shader(CATALOG, "swirl"),
        Err(TransitionError::ShaderNotFound("swirl".to_string()))
    );
    let diagnostic = serde_json::from_str::<Vec<serde_json::Value>>("oops").unwrap_err().to_string();
    assert_eq!(
        load_shader("oops", "fade"),
        Err(TransitionError::CatalogParseError(diagnostic))
    );
    assert_eq!(
        load_shader(r#"[{"name": "fade", "glsl": "x"}, {"name": "broken"}]"#, "fade"),
        Err(TransitionError::CatalogParseError(NO_SOURCE.to_string()))
    );
}

#[test]
fn tags_are_case_sensitive() {
    assert_eq!(ParamType::from_tag("bool"), Some(ParamType::Bool));
    assert_eq!(ParamType::from_tag("float"), Some(ParamType::Float));
    assert_eq!(ParamType::from_tag("int"), Some(ParamType::Int));
    assert_eq!(ParamType::from_tag("ivec2"), Some(ParamType::IVec2));
    assert_eq!(ParamType::from_tag("vec2"), Some(ParamType::Vec2));
    assert_eq!(ParamType::from_tag("vec3"), Some(ParamType::Vec3));
    assert_eq!(ParamType::from_tag("vec4"), Some(ParamType::Vec4));
    assert_eq!(ParamType::from_tag("sampler2D"), Some(ParamType::Sampler2D));
    for tag in ["", "Bool", "sampler2d", "vec5", "mat4", "float ", "double"] {
        assert_eq!(ParamType::from_tag(tag), None, "tag {:?}", tag);
    }
}
