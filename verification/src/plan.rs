//! One rendering, ready for the GPU: the program and what it is given.
use crate::builder::{build, built};
use crate::catalog::{ShaderDescriptor, ShaderDescriptorView};
use crate::error::{TransitionError, TransitionErrorView};
use crate::gl::shader::{fragment_source, to_fragment_shader_source, Mode};
use crate::uniforms::{Builtins, DynamicUniforms, ParamValue, TextureId};
use vstd::prelude::*;

verus! {

/// What is handed to the GPU for one frame.
#[derive(Debug)]
pub struct Plan {
    /// The fragment program, to be compiled with the vertex program.
    pub fragment_source: String,
    /// The uniforms to bind by name.
    pub uniforms: DynamicUniforms,
}

/// What planning a frame comes to: the mode is read first and the table is
/// built after it, so a bad mode token is reported before a failing default.
pub open spec fn planned(
    descriptor: ShaderDescriptorView,
    mode: Seq<char>,
    builtins: Builtins,
    sampler: Option<TextureId>,
) -> Result<(Seq<char>, Map<Seq<char>, ParamValue>), TransitionErrorView> {
    match Mode::from_token(mode) {
        None => Err(TransitionErrorView::InvalidMode(mode)),
        Some(fit) => match built(builtins, descriptor, sampler) {
            Err(error) => Err(error),
            Ok(table) => Ok((fragment_source(fit, descriptor.glsl), table)),
        },
    }
}

/// Plans one frame of the shader `descriptor`: reads the fit mode from its
/// token, composes the fragment program of that mode around the shader's
/// source, and builds the table of uniforms from the built-ins and the
/// shader's defaults.
pub fn plan(
    descriptor: &ShaderDescriptor,
    mode: &str,
    builtins: Builtins,
    sampler: Option<TextureId>,
) -> (r: Result<Plan, TransitionError>)
    ensures
        match r {
            Ok(plan) => planned(descriptor@, mode@, builtins, sampler) == Ok::<
                (Seq<char>, Map<Seq<char>, ParamValue>),
                TransitionErrorView,
            >((plan.fragment_source@, plan.uniforms@)),
            Err(error) => planned(descriptor@, mode@, builtins, sampler) == Err::<
                (Seq<char>, Map<Seq<char>, ParamValue>),
                TransitionErrorView,
            >(error@),
        },
{
    let fit = match Mode::new(mode) {
        Ok(fit) => fit,
        Err(error) => {
            return Err(error);
        },
    };
    let fragment_source = match to_fragment_shader_source(fit, descriptor.glsl.as_str()) {
        Ok(fragment_source) => fragment_source,
        Err(error) => {
            return Err(error);
        },
    };
    match build(builtins, descriptor, sampler) {
        Ok(uniforms) => Ok(Plan { fragment_source, uniforms }),
        Err(error) => Err(error),
    }
}

} // verus!
