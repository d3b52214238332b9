//! The fit mode and the fragment program that is composed for it.
use crate::error::{TransitionError, TransitionErrorView};
use crate::text::{
    lemma_absent_by_first, lemma_absent_by_first_three, lemma_occurs_in_concat,
    lemma_occurs_in_parts, occurs_in, str_equal,
};
use vstd::prelude::*;
use vstd::string::*;

verus! {

/// The vertex program that goes with every composed fragment program: it maps
/// the clip-space corners of a full-screen quad to the unit square.
pub const VERTEX_SHADER_SOURCE: &'static str = "\n    #version 140\n    in vec2 position;\n    out vec2 uv;\n    void main() {\n        gl_Position = vec4(position, 0.0, 1.0);\n        uv = vec2(0.5, 0.5) * (position + vec2(1.0, 1.0)); // Modify UV calculation\n    }\n";

/// Opens every fragment program: the version, the two textures, the progress.
pub const HEADER: &'static str = "\n        #version 140\n        uniform sampler2D from, to;\n        uniform float progress;\n";

/// The frame's aspect ratio and that of each texture, declared for the modes
/// that correct for aspect.
pub const RATIO_UNIFORMS: &'static str = "        uniform float ratio, _fromR, _toR;\n";

/// The interpolated coordinate and the output colour.
pub const VARYINGS: &'static str = "        in vec2 uv;\n        out vec4 color;\n\n";

/// The sampling helpers that read each texture at the coordinate itself.
pub const STRETCH_SAMPLERS: &'static str = "        vec4 getFromColor(vec2 uv) {\n            return texture(from, uv);\n        }\n\n        vec4 getToColor(vec2 uv) {\n            return texture(to, uv);\n        }\n\n        ";

/// Opens the helper that samples the first texture about the centre.
pub const SAMPLE_FROM_OPEN: &'static str = "        vec4 getFromColor(vec2 uv) {\n            return texture(from, .5 + (uv - .5) * vec2(";

/// Closes the first helper and opens the one for the second texture.
pub const SAMPLE_TO_OPEN: &'static str = "));\n        }\n\n        vec4 getToColor(vec2 uv) {\n            return texture(to, .5 + (uv - .5) * vec2(";

/// Closes the second helper.
pub const SAMPLE_CLOSE: &'static str = "));\n        }\n\n        ";

/// The entry point, which calls the transition function.
pub const FOOTER: &'static str = "\n\n        void main() {\n            color = transition(uv);\n        }\n    ";

/// How two images of any shape are laid into the frame.
#[derive(Clone, Copy, Debug, PartialEq, Eq, Structural)]
pub enum Mode {
    /// Shrink the image until all of it is inside the frame.
    Contain,
    /// Map the image onto the frame, whatever its shape.
    Stretch,
    /// Grow the image until it fills the frame; what sticks out is cropped.
    Cover,
}

impl Mode {
    /// The mode that a token names. Tokens are case-sensitive.
    pub open spec fn from_token(token: Seq<char>) -> Option<Mode> {
        if token == "contain"@ {
            Some(Mode::Contain)
        } else if token == "stretch"@ {
            Some(Mode::Stretch)
        } else if token == "cover"@ {
            Some(Mode::Cover)
        } else {
            None
        }
    }

    /// The GLSL function by which the mode bounds each axis scale against 1;
    /// `Stretch` scales nothing.
    pub open spec fn combiner(self) -> Option<Seq<char>> {
        match self {
            Mode::Contain => Some("max"@),
            Mode::Stretch => None,
            Mode::Cover => Some("min"@),
        }
    }

    /// Reads a fit-mode token. Any token but the three names is refused, and
    /// the error holds it.
    pub fn new(mode: &str) -> (r: Result<Mode, TransitionError>)
        ensures
            mode@ == "contain"@ ==> r == Ok::<Mode, TransitionError>(Mode::Contain),
            mode@ == "stretch"@ ==> r == Ok::<Mode, TransitionError>(Mode::Stretch),
            mode@ == "cover"@ ==> r == Ok::<Mode, TransitionError>(Mode::Cover),
            match r {
                Ok(m) => Mode::from_token(mode@) == Some(m),
                Err(e) => Mode::from_token(mode@) is None && e@ == TransitionErrorView::InvalidMode(mode@),
            },
    {
        proof {
            lemma_mode_tokens_differ();
        }
        if str_equal(mode, "contain") {
            Ok(Mode::Contain)
        } else if str_equal(mode, "stretch") {
            Ok(Mode::Stretch)
        } else if str_equal(mode, "cover") {
            Ok(Mode::Cover)
        } else {
            Err(TransitionError::InvalidMode(mode.to_owned()))
        }
    }
}

/// The three tokens are three different texts.
pub proof fn lemma_mode_tokens_differ()
    ensures
        "contain"@ != "stretch"@,
        "contain"@ != "cover"@,
        "stretch"@ != "cover"@,
{
    reveal_strlit("contain");
    reveal_strlit("stretch");
    reveal_strlit("cover");
    assert("contain"@.len() == 7 && "cover"@.len() == 5);
    assert("contain"@[0] == 'c' && "stretch"@[0] == 's');
    assert("cover"@[0] == 'c');
}

/// The two-component scale by which a helper multiplies the centred
/// coordinate: the frame's ratio over the texture's on the horizontal axis,
/// the inverse on the vertical, each bounded against 1 by `combiner`.
pub open spec fn axis_scale(combiner: Seq<char>, aspect: Seq<char>) -> Seq<char> {
    combiner + "(ratio / "@ + aspect + ", 1.), "@ + combiner + "("@ + aspect + " / ratio, 1.)"@
}

/// The two sampling helpers of a mode that corrects for aspect.
pub open spec fn fit_samplers(combiner: Seq<char>) -> Seq<char> {
    SAMPLE_FROM_OPEN@ + axis_scale(combiner, "_fromR"@) + SAMPLE_TO_OPEN@ + axis_scale(
        combiner,
        "_toR"@,
    ) + SAMPLE_CLOSE@
}

/// The uniform declarations of a mode, as they open the program.
pub open spec fn declarations(mode: Mode) -> Seq<char> {
    match mode {
        Mode::Stretch => HEADER@,
        _ => HEADER@ + RATIO_UNIFORMS@,
    }
}

/// The two sampling helpers of a mode, `getFromColor` and `getToColor`.
pub open spec fn samplers(mode: Mode) -> Seq<char> {
    match mode.combiner() {
        Some(combiner) => fit_samplers(combiner),
        None => STRETCH_SAMPLERS@,
    }
}

/// The complete fragment program of `mode` around the transition function
/// `body`: declarations, helpers, the body as it is, the entry point.
pub open spec fn fragment_source(mode: Mode, body: Seq<char>) -> Seq<char> {
    declarations(mode) + VARYINGS@ + samplers(mode) + body + FOOTER@
}

fn push_axis_scale(out: &mut String, combiner: &str, aspect: &str)
    ensures
        final(out)@ == old(out)@ + axis_scale(combiner@, aspect@),
{
    out.append(combiner);
    out.append("(ratio / ");
    out.append(aspect);
    out.append(", 1.), ");
    out.append(combiner);
    out.append("(");
    out.append(aspect);
    out.append(" / ratio, 1.)");
    assert(out@ =~= old(out)@ + axis_scale(combiner@, aspect@));
}

fn push_fit_samplers(out: &mut String, combiner: &str)
    ensures
        final(out)@ == old(out)@ + fit_samplers(combiner@),
{
    out.append(SAMPLE_FROM_OPEN);
    push_axis_scale(out, combiner, "_fromR");
    out.append(SAMPLE_TO_OPEN);
    push_axis_scale(out, combiner, "_toR");
    out.append(SAMPLE_CLOSE);
    assert(out@ =~= old(out)@ + fit_samplers(combiner@));
}

/// Composes the fragment program of `mode` around `shader_body`, which is
/// taken as it is: its GLSL is neither read nor checked. Never fails.
pub fn to_fragment_shader_source(mode: Mode, shader_body: &str) -> (r: Result<String, TransitionError>)
    ensures
        r matches Ok(source) && source@ == fragment_source(mode, shader_body@),
{
    let mut source = String::from_str(HEADER);
    match mode {
        Mode::Contain => {
            source.append(RATIO_UNIFORMS);
            source.append(VARYINGS);
            push_fit_samplers(&mut source, "max");
        },
        Mode::Stretch => {
            source.append(VARYINGS);
            source.append(STRETCH_SAMPLERS);
        },
        Mode::Cover => {
            source.append(RATIO_UNIFORMS);
            source.append(VARYINGS);
            push_fit_samplers(&mut source, "min");
        },
    }
    source.append(shader_body);
    source.append(FOOTER);
    assert(source@ =~= fragment_source(mode, shader_body@));
    Ok(source)
}

/// The pieces that wrap the body in `Stretch` hold no underscore, and end or
/// begin in white space.
proof fn lemma_stretch_pieces_plain()
    ensures
        forall|i: int| 0 <= i < HEADER@.len() ==> #[trigger] HEADER@[i] != '_',
        forall|i: int| 0 <= i < VARYINGS@.len() ==> #[trigger] VARYINGS@[i] != '_',
        forall|i: int| 0 <= i < STRETCH_SAMPLERS@.len() ==> #[trigger] STRETCH_SAMPLERS@[i] != '_',
        forall|i: int| 0 <= i < FOOTER@.len() ==> #[trigger] FOOTER@[i] != '_',
        HEADER@.len() > 0 && HEADER@.last() == '\n',
        VARYINGS@.len() > 0 && VARYINGS@.last() == '\n',
        STRETCH_SAMPLERS@.len() > 0 && STRETCH_SAMPLERS@.last() == ' ',
        FOOTER@.len() > 0 && FOOTER@.first() == '\n',
{
    reveal_strlit("\n        #version 140\n        uniform sampler2D from, to;\n        uniform float progress;\n");
    reveal_strlit("        in vec2 uv;\n        out vec4 color;\n\n");
    reveal_strlit("        vec4 getFromColor(vec2 uv) {\n            return texture(from, uv);\n        }\n\n        vec4 getToColor(vec2 uv) {\n            return texture(to, uv);\n        }\n\n        ");
    reveal_strlit("\n\n        void main() {\n            color = transition(uv);\n        }\n    ");
}

/// The run `rat` starts nowhere in the pieces that wrap the body in `Stretch`.
proof fn lemma_stretch_pieces_without_rat()
    ensures
        forall|i: int|
            0 <= i && i + 2 < HEADER@.len() ==> !(#[trigger] HEADER@[i] == 'r' && HEADER@[i + 1]
                == 'a' && HEADER@[i + 2] == 't'),
        forall|i: int|
            0 <= i && i + 2 < VARYINGS@.len() ==> !(#[trigger] VARYINGS@[i] == 'r' && VARYINGS@[i
                + 1] == 'a' && VARYINGS@[i + 2] == 't'),
        forall|i: int|
            0 <= i && i + 2 < STRETCH_SAMPLERS@.len() ==> !(#[trigger] STRETCH_SAMPLERS@[i] == 'r'
                && STRETCH_SAMPLERS@[i + 1] == 'a' && STRETCH_SAMPLERS@[i + 2] == 't'),
        forall|i: int|
            0 <= i && i + 2 < FOOTER@.len() ==> !(#[trigger] FOOTER@[i] == 'r' && FOOTER@[i + 1]
                == 'a' && FOOTER@[i + 2] == 't'),
{
    reveal_strlit("\n        #version 140\n        uniform sampler2D from, to;\n        uniform float progress;\n");
    reveal_strlit("        in vec2 uv;\n        out vec4 color;\n\n");
    reveal_strlit("        vec4 getFromColor(vec2 uv) {\n            return texture(from, uv);\n        }\n\n        vec4 getToColor(vec2 uv) {\n            return texture(to, uv);\n        }\n\n        ");
    reveal_strlit("\n\n        void main() {\n            color = transition(uv);\n        }\n    ");
}

/// A word without white space that the wrapping pieces of `Stretch` do not
/// hold occurs in the program only where the body holds it.
proof fn lemma_stretch_wraps_without(needle: Seq<char>, body: Seq<char>)
    requires
        needle.len() >= 1,
        !needle.contains(' '),
        !needle.contains('\n'),
        !occurs_in(needle, HEADER@),
        !occurs_in(needle, VARYINGS@),
        !occurs_in(needle, STRETCH_SAMPLERS@),
        !occurs_in(needle, FOOTER@),
    ensures
        occurs_in(needle, fragment_source(Mode::Stretch, body)) <==> occurs_in(needle, body),
{
    lemma_stretch_pieces_plain();
    let opened = HEADER@ + VARYINGS@;
    let helped = opened + STRETCH_SAMPLERS@;
    let filled = helped + body;
    lemma_occurs_in_concat(needle, HEADER@, VARYINGS@);
    lemma_occurs_in_concat(needle, opened, STRETCH_SAMPLERS@);
    lemma_occurs_in_concat(needle, helped, body);
    lemma_occurs_in_concat(needle, filled, FOOTER@);
    assert(fragment_source(Mode::Stretch, body) == filled + FOOTER@);
}

/// In `Stretch` the program names none of the aspect uniforms: `ratio`,
/// `_fromR` and `_toR` occur in it only where the transition body itself
/// holds them.
pub proof fn lemma_stretch_names_no_ratio(body: Seq<char>)
    ensures
        occurs_in("ratio"@, fragment_source(Mode::Stretch, body)) <==> occurs_in("ratio"@, body),
        occurs_in("_fromR"@, fragment_source(Mode::Stretch, body)) <==> occurs_in(
            "_fromR"@,
            body,
        ),
        occurs_in("_toR"@, fragment_source(Mode::Stretch, body)) <==> occurs_in("_toR"@, body),
{
    reveal_strlit("ratio");
    reveal_strlit("_fromR");
    reveal_strlit("_toR");
    lemma_stretch_pieces_plain();
    lemma_stretch_pieces_without_rat();
    let ratio = "ratio"@;
    lemma_absent_by_first_three(ratio, HEADER@);
    lemma_absent_by_first_three(ratio, VARYINGS@);
    lemma_absent_by_first_three(ratio, STRETCH_SAMPLERS@);
    lemma_absent_by_first_three(ratio, FOOTER@);
    lemma_stretch_wraps_without(ratio, body);
    let from = "_fromR"@;
    lemma_absent_by_first(from, HEADER@);
    lemma_absent_by_first(from, VARYINGS@);
    lemma_absent_by_first(from, STRETCH_SAMPLERS@);
    lemma_absent_by_first(from, FOOTER@);
    lemma_stretch_wraps_without(from, body);
    let to = "_toR"@;
    lemma_absent_by_first(to, HEADER@);
    lemma_absent_by_first(to, VARYINGS@);
    lemma_absent_by_first(to, STRETCH_SAMPLERS@);
    lemma_absent_by_first(to, FOOTER@);
    lemma_stretch_wraps_without(to, body);
}

/// In `Contain` and in `Cover` the program declares the three aspect
/// uniforms, whatever the body.
pub proof fn lemma_fit_declares_ratio(mode: Mode, body: Seq<char>)
    requires
        mode != Mode::Stretch,
    ensures
        occurs_in("uniform float ratio, _fromR, _toR;"@, fragment_source(mode, body)),
{
    reveal_strlit("uniform float ratio, _fromR, _toR;");
    reveal_strlit("        uniform float ratio, _fromR, _toR;\n");
    let needle = "uniform float ratio, _fromR, _toR;"@;
    assert(RATIO_UNIFORMS@.subrange(8, 8 + needle.len() as int) =~= needle);
    assert(occurs_in(needle, RATIO_UNIFORMS@));
    let declared = HEADER@ + RATIO_UNIFORMS@;
    let opened = declared + VARYINGS@;
    let helped = opened + samplers(mode);
    let filled = helped + body;
    lemma_occurs_in_parts(needle, HEADER@, RATIO_UNIFORMS@);
    lemma_occurs_in_parts(needle, declared, VARYINGS@);
    lemma_occurs_in_parts(needle, opened, samplers(mode));
    lemma_occurs_in_parts(needle, helped, body);
    lemma_occurs_in_parts(needle, filled, FOOTER@);
    assert(fragment_source(mode, body) == filled + FOOTER@);
}

} // verus!
