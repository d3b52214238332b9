use gltr::error::TransitionError;
use gltr::params::ParamType;
use gltr::text::push_decimal;

fn numeral(value: usize) -> String {
    let mut out = String::new();
    push_decimal(&mut out, value);
    out
}

#[test]
fn messages_name_what_failed() {
    assert_eq!(
        TransitionError::InvalidMode("fill".to_string()).message(),
        "Invalid transition mode: fill"
    );
    assert_eq!(
        TransitionError::ShaderNotFound("Swirl".to_string()).message(),
        "Could not find shader: Swirl"
    );
    assert_eq!(
        TransitionError::CatalogParseError("expected value at line 1 column 1".to_string()).message(),
        "Could not parse the shader catalog: expected value at line 1 column 1"
    );
    assert_eq!(
        TransitionError::ShaderCompileError("0:1: syntax error".to_string()).message(),
        "Could not compile fragment shader: 0:1: syntax error"
    );
    assert_eq!(
        TransitionError::ParamTypeMismatch {
            name: "speed".to_string(),
            expected_type: ParamType::Float
        }
        .message(),
        "Could not parse defaultParams float: speed"
    );
    assert_eq!(
        TransitionError::ParamArityError { name: "tint".to_string(), expected: 3, actual: 2 }
            .message(),
        "Could not parse defaultParams: tint needs 3 elements and has 2"
    );
    assert_eq!(
        TransitionError::MissingSamplerOverride("mask".to_string()).message(),
        "No sampler2D file path provided: mask"
    );
}

#[test]
fn messages_keep_empty_and_odd_texts() {
    assert_eq!(TransitionError::InvalidMode(String::new()).message(), "Invalid transition mode: ");
    assert_eq!(
        TransitionError::ShaderNotFound("é ☃\n".to_string()).message(),
        "Could not find shader: é ☃\n"
    );
    assert_eq!(
        TransitionError::ParamArityError { name: String::new(), expected: 4, actual: 0 }.message(),
        "Could not parse defaultParams:  needs 4 elements and has 0"
    );
    assert_eq!(
        TransitionError::ParamArityError { name: "v".to_string(), expected: 1234567890, actual: usize::MAX }
            .message(),
        format!("Could not parse defaultParams: v needs 1234567890 elements and has {}", usize::MAX)
    );
}

#[test]
fn every_type_is_named_in_its_mismatch() {
    for (kind, tag) in [
        (ParamType::Bool, "bool"),
        (ParamType::Float, "float"),
        (ParamType::Int, "int"),
        (ParamType::IVec2, "ivec2"),
        (ParamType::Vec2, "vec2"),
        (ParamType::Vec3, "vec3"),
        (ParamType::Vec4, "vec4"),
        (ParamType::Sampler2D, "sampler2D"),
    ] {
        assert_eq!(kind.tag(), tag);
        assert_eq!(ParamType::from_tag(kind.tag()), Some(kind));
        assert_eq!(
            TransitionError::ParamTypeMismatch { name: "p".to_string(), expected_type: kind }.message(),
            format!("Could not parse defaultParams {}: p", tag)
        );
    }
}

#[test]
fn decimal_numerals() {
    assert_eq!(numeral(0), "0");
    assert_eq!(numeral(7), "7");
    assert_eq!(numeral(9), "9");
    assert_eq!(numeral(10), "10");
    assert_eq!(numeral(11), "11");
    assert_eq!(numeral(99), "99");
    assert_eq!(numeral(100), "100");
    assert_eq!(numeral(1203), "1203");
    assert_eq!(numeral(usize::MAX), usize::MAX.to_string());
    let mut out = "n=".to_string();
    push_decimal(&mut out, 42);
    assert_eq!(out, "n=42");
}
