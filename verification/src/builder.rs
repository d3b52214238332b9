//! Building the table of uniforms for one rendering: the built-ins, then the
//! shader's defaults, each checked against its declared type.
use crate::catalog::{
    ParamDecl, ParamDeclView, ParamDefaultView, ShaderDescriptor, ShaderDescriptorView,
};
use crate::error::{TransitionError, TransitionErrorView};
use crate::params::{ParamType, RawValue, RawValueView, Scalar};
use crate::text::str_equal;
use crate::uniforms::{Builtins, DynamicUniforms, ParamValue, TextureId};
use vstd::prelude::*;

verus! {

/// How many elements the default of a parameter of type `kind` must have.
pub open spec fn arity(kind: ParamType) -> nat {
    match kind {
        ParamType::IVec2 | ParamType::Vec2 => 2,
        ParamType::Vec3 => 3,
        ParamType::Vec4 => 4,
        _ => 1,
    }
}

/// A scalar read as a floating-point number: the double of a number.
pub open spec fn as_double(scalar: Scalar) -> Option<u64> {
    match scalar {
        Scalar::Number { integer: _, double: Some(bits) } => Some(bits),
        _ => None,
    }
}

/// A scalar read as a 32-bit integer: the low 32 bits of an integral number.
pub open spec fn as_int(scalar: Scalar) -> Option<i32> {
    match scalar {
        Scalar::Number { integer: Some(whole), double: _ } => Some(whole as i32),
        _ => None,
    }
}

/// The value of type `kind` that the default `raw` of parameter `name`
/// stands for, or why it stands for none.
///
/// A texture has no default: it is `sampler`, and missing where the caller
/// gave none. A boolean, a number or an integer is one element that reads
/// as such. A vector is a list: one with too few elements fails on its
/// arity, else its first elements must each read as a number, and the
/// others are not looked at.
pub open spec fn coerced(
    name: Seq<char>,
    kind: ParamType,
    raw: RawValueView,
    sampler: Option<TextureId>,
) -> Result<ParamValue, TransitionErrorView> {
    let mismatch = Err::<ParamValue, TransitionErrorView>(
        TransitionErrorView::ParamTypeMismatch { name, expected_type: kind },
    );
    match kind {
        ParamType::Sampler2D => match sampler {
            Some(texture) => Ok(ParamValue::Sampler2D(texture)),
            None => Err(TransitionErrorView::MissingSamplerOverride(name)),
        },
        ParamType::Bool => match raw {
            RawValueView::Scalar(Scalar::Bool(truth)) => Ok(ParamValue::Bool(truth)),
            _ => mismatch,
        },
        ParamType::Float => match raw {
            RawValueView::Scalar(scalar) => match as_double(scalar) {
                Some(bits) => Ok(ParamValue::Float(bits)),
                None => mismatch,
            },
            _ => mismatch,
        },
        ParamType::Int => match raw {
            RawValueView::Scalar(scalar) => match as_int(scalar) {
                Some(whole) => Ok(ParamValue::Int(whole)),
                None => mismatch,
            },
            _ => mismatch,
        },
        _ => match raw {
            RawValueView::List(list) => if list.len() < arity(kind) {
                Err(
                    TransitionErrorView::ParamArityError {
                        name,
                        expected: arity(kind) as usize,
                        actual: list.len() as usize,
                    },
                )
            } else {
                match vector(kind, list) {
                    Some(value) => Ok(value),
                    None => mismatch,
                }
            },
            _ => mismatch,
        },
    }
}

/// The vector of type `kind` that the first elements of `list` make, where
/// each of them reads as a component.
pub open spec fn vector(kind: ParamType, list: Seq<Scalar>) -> Option<ParamValue>
    recommends
        list.len() >= arity(kind),
{
    match kind {
        ParamType::IVec2 => match (as_int(list[0]), as_int(list[1])) {
            (Some(x), Some(y)) => Some(ParamValue::IVec2(x, y)),
            _ => None,
        },
        ParamType::Vec2 => match (as_double(list[0]), as_double(list[1])) {
            (Some(x), Some(y)) => Some(ParamValue::Vec2(x, y)),
            _ => None,
        },
        ParamType::Vec3 => match (as_double(list[0]), as_double(list[1]), as_double(list[2])) {
            (Some(x), Some(y), Some(z)) => Some(ParamValue::Vec3(x, y, z)),
            _ => None,
        },
        ParamType::Vec4 => match (
            as_double(list[0]),
            as_double(list[1]),
            as_double(list[2]),
            as_double(list[3]),
        ) {
            (Some(x), Some(y), Some(z), Some(w)) => Some(ParamValue::Vec4(x, y, z, w)),
            _ => None,
        },
        _ => None,
    }
}

/// The type that `decls` declares for `name`: that of the first declaration
/// with this name; none where there is no such declaration or its type is
/// not known.
pub open spec fn declared_kind(decls: Seq<ParamDeclView>, name: Seq<char>) -> Option<ParamType>
    decreases decls.len(),
{
    if decls.len() == 0 {
        None
    } else if decls[0].name == name {
        decls[0].kind
    } else {
        declared_kind(decls.drop_first(), name)
    }
}

/// The table of the built-in uniforms.
pub open spec fn seeded(builtins: Builtins) -> Map<Seq<char>, ParamValue> {
    Map::<Seq<char>, ParamValue>::empty().insert(
        "from"@,
        ParamValue::Sampler2D(builtins.from),
    ).insert("to"@, ParamValue::Sampler2D(builtins.to)).insert(
        "progress"@,
        ParamValue::Float(builtins.progress),
    ).insert("ratio"@, ParamValue::Float(builtins.ratio)).insert(
        "_fromR"@,
        ParamValue::Float(builtins.from_ratio),
    ).insert("_toR"@, ParamValue::Float(builtins.to_ratio))
}

/// `table` after one default: unchanged where the parameter has no known
/// type, else with the parameter bound to what its default stands for.
pub open spec fn bound_one(
    table: Map<Seq<char>, ParamValue>,
    decls: Seq<ParamDeclView>,
    default: ParamDefaultView,
    sampler: Option<TextureId>,
) -> Result<Map<Seq<char>, ParamValue>, TransitionErrorView> {
    match declared_kind(decls, default.name) {
        None => Ok(table),
        Some(kind) => match coerced(default.name, kind, default.value, sampler) {
            Ok(value) => Ok(table.insert(default.name, value)),
            Err(error) => Err(error),
        },
    }
}

/// `table` after all of `defaults`, taken in order; the first that fails
/// decides the failure.
pub open spec fn bound(
    table: Map<Seq<char>, ParamValue>,
    decls: Seq<ParamDeclView>,
    defaults: Seq<ParamDefaultView>,
    sampler: Option<TextureId>,
) -> Result<Map<Seq<char>, ParamValue>, TransitionErrorView>
    decreases defaults.len(),
{
    if defaults.len() == 0 {
        Ok(table)
    } else {
        match bound_one(table, decls, defaults[0], sampler) {
            Ok(next) => bound(next, decls, defaults.drop_first(), sampler),
            Err(error) => Err(error),
        }
    }
}

/// The table for one rendering: the built-ins, then the shader's defaults.
pub open spec fn built(
    builtins: Builtins,
    descriptor: ShaderDescriptorView,
    sampler: Option<TextureId>,
) -> Result<Map<Seq<char>, ParamValue>, TransitionErrorView> {
    bound(seeded(builtins), descriptor.params_types, descriptor.default_params, sampler)
}

fn double_of(scalar: &Scalar) -> (r: Option<u64>)
    ensures
        r == as_double(*scalar),
{
    match scalar {
        Scalar::Number { integer: _, double: Some(bits) } => Some(*bits),
        _ => None,
    }
}

fn int_of(scalar: &Scalar) -> (r: Option<i32>)
    ensures
        r == as_int(*scalar),
{
    match scalar {
        Scalar::Number { integer: Some(whole), double: _ } => Some(
            #[verifier::truncate]
            (*whole as i32),
        ),
        _ => None,
    }
}

fn vector_of(kind: ParamType, list: &Vec<Scalar>) -> (r: Option<ParamValue>)
    requires
        list@.len() >= arity(kind),
    ensures
        r == vector(kind, list@),
{
    match kind {
        ParamType::IVec2 => match (int_of(&list[0]), int_of(&list[1])) {
            (Some(x), Some(y)) => Some(ParamValue::IVec2(x, y)),
            _ => None,
        },
        ParamType::Vec2 => match (double_of(&list[0]), double_of(&list[1])) {
            (Some(x), Some(y)) => Some(ParamValue::Vec2(x, y)),
            _ => None,
        },
        ParamType::Vec3 => match (double_of(&list[0]), double_of(&list[1]), double_of(&list[2])) {
            (Some(x), Some(y), Some(z)) => Some(ParamValue::Vec3(x, y, z)),
            _ => None,
        },
        ParamType::Vec4 => match (
            double_of(&list[0]),
            double_of(&list[1]),
            double_of(&list[2]),
            double_of(&list[3]),
        ) {
            (Some(x), Some(y), Some(z), Some(w)) => Some(ParamValue::Vec4(x, y, z, w)),
            _ => None,
        },
        _ => None,
    }
}

/// Checks the default `raw` of parameter `name` against its declared type
/// and converts it; `sampler` is the texture that the caller supplies for
/// texture parameters.
pub fn coerce(name: &str, kind: ParamType, raw: &RawValue, sampler: Option<TextureId>) -> (r:
    Result<ParamValue, TransitionError>)
    ensures
        match r {
            Ok(value) => coerced(name@, kind, raw@, sampler) == Ok::<
                ParamValue,
                TransitionErrorView,
            >(value),
            Err(error) => coerced(name@, kind, raw@, sampler) == Err::<
                ParamValue,
                TransitionErrorView,
            >(error@),
        },
        r matches Ok(value) ==> value.kind() == kind,
{
    let found: Option<ParamValue> = match kind {
        ParamType::Sampler2D => {
            return match sampler {
                Some(texture) => Ok(ParamValue::Sampler2D(texture)),
                None => Err(TransitionError::MissingSamplerOverride(name.to_owned())),
            };
        },
        ParamType::Bool => match raw {
            RawValue::Scalar(Scalar::Bool(truth)) => Some(ParamValue::Bool(*truth)),
            _ => None,
        },
        ParamType::Float => match raw {
            RawValue::Scalar(scalar) => match double_of(scalar) {
                Some(bits) => Some(ParamValue::Float(bits)),
                None => None,
            },
            _ => None,
        },
        ParamType::Int => match raw {
            RawValue::Scalar(scalar) => match int_of(scalar) {
                Some(whole) => Some(ParamValue::Int(whole)),
                None => None,
            },
            _ => None,
        },
        _ => match raw {
            RawValue::List(list) => {
                let expected: usize = match kind {
                    ParamType::Vec3 => 3,
                    ParamType::Vec4 => 4,
                    _ => 2,
                };
                if list.len() < expected {
                    return Err(
                        TransitionError::ParamArityError {
                            name: name.to_owned(),
                            expected,
                            actual: list.len(),
                        },
                    );
                }
                vector_of(kind, list)
            },
            _ => None,
        },
    };
    match found {
        Some(value) => Ok(value),
        None => Err(
            TransitionError::ParamTypeMismatch { name: name.to_owned(), expected_type: kind },
        ),
    }
}

/// The type that the shader declares for `name`, where it is a known one.
pub fn kind_of(decls: &Vec<ParamDecl>, name: &str) -> (r: Option<ParamType>)
    ensures
        r == declared_kind(decls@.map_values(|decl: ParamDecl| decl@), name@),
{
    let ghost views = decls@.map_values(|decl: ParamDecl| decl@);
    assert(views.skip(0) =~= views);
    let mut i: usize = 0;
    while i < decls.len()
        invariant
            i <= decls.len(),
            views == decls@.map_values(|decl: ParamDecl| decl@),
            declared_kind(views, name@) == declared_kind(views.skip(i as int), name@),
        decreases decls.len() - i,
    {
        assert(views.skip(i as int).drop_first() =~= views.skip(i + 1));
        if str_equal(decls[i].name.as_str(), name) {
            return decls[i].kind;
        }
        i += 1;
    }
    None
}

fn seed(builtins: Builtins) -> (r: DynamicUniforms)
    ensures
        r@ == seeded(builtins),
{
    let mut table = DynamicUniforms::new();
    table.add("from".to_owned(), ParamValue::Sampler2D(builtins.from));
    table.add("to".to_owned(), ParamValue::Sampler2D(builtins.to));
    table.add("progress".to_owned(), ParamValue::Float(builtins.progress));
    table.add("ratio".to_owned(), ParamValue::Float(builtins.ratio));
    table.add("_fromR".to_owned(), ParamValue::Float(builtins.from_ratio));
    table.add("_toR".to_owned(), ParamValue::Float(builtins.to_ratio));
    table
}

/// Builds the table for one rendering: the six built-ins as they are given,
/// then each default of the shader, checked against the type that the
/// shader declares for it and converted. A default whose parameter has no
/// known type is passed over. The first default that fails ends the build.
pub fn build(builtins: Builtins, descriptor: &ShaderDescriptor, sampler: Option<TextureId>) -> (r:
    Result<DynamicUniforms, TransitionError>)
    ensures
        match r {
            Ok(table) => built(builtins, descriptor@, sampler) == Ok::<
                Map<Seq<char>, ParamValue>,
                TransitionErrorView,
            >(table@),
            Err(error) => built(builtins, descriptor@, sampler) == Err::<
                Map<Seq<char>, ParamValue>,
                TransitionErrorView,
            >(error@),
        },
{
    let mut table = seed(builtins);
    let ghost decls = descriptor@.params_types;
    let ghost defaults = descriptor@.default_params;
    assert(defaults.skip(0) =~= defaults);
    let mut i: usize = 0;
    while i < descriptor.default_params.len()
        invariant
            i <= descriptor.default_params.len(),
            decls == descriptor@.params_types,
            defaults == descriptor@.default_params,
            built(builtins, descriptor@, sampler) == bound(
                table@,
                decls,
                defaults.skip(i as int),
                sampler,
            ),
        decreases descriptor.default_params.len() - i,
    {
        let default = &descriptor.default_params[i];
        assert(defaults.skip(i as int).drop_first() =~= defaults.skip(i + 1));
        assert(defaults.skip(i as int)[0] == default@);
        match kind_of(&descriptor.params_types, default.name.as_str()) {
            Some(kind) => match coerce(default.name.as_str(), kind, &default.value, sampler) {
                Ok(value) => {
                    table.add(default.name.clone(), value);
                },
                Err(error) => {
                    return Err(error);
                },
            },
            None => {},
        }
        i += 1;
    }
    Ok(table)
}

/// The names of the defaults that [`build`] passes over, in order: those
/// whose parameter has no declaration of a known type.
pub open spec fn passed_over(decls: Seq<ParamDeclView>, defaults: Seq<ParamDefaultView>) -> Seq<
    Seq<char>,
>
    decreases defaults.len(),
{
    if defaults.len() == 0 {
        Seq::empty()
    } else if declared_kind(decls, defaults[0].name) is None {
        seq![defaults[0].name] + passed_over(decls, defaults.drop_first())
    } else {
        passed_over(decls, defaults.drop_first())
    }
}

/// Some default is that of a texture parameter.
pub open spec fn wants_sampler(decls: Seq<ParamDeclView>, defaults: Seq<ParamDefaultView>) -> bool {
    exists|i: int|
        0 <= i < defaults.len() && declared_kind(decls, (#[trigger] defaults[i]).name) == Some(
            ParamType::Sampler2D,
        )
}

/// The names of the defaults that [`build`] passes over, for a caller that
/// wants to report them.
pub fn untyped_params(descriptor: &ShaderDescriptor) -> (r: Vec<String>)
    ensures
        r@.map_values(|name: String| name@) == passed_over(
            descriptor@.params_types,
            descriptor@.default_params,
        ),
{
    let ghost decls = descriptor@.params_types;
    let ghost defaults = descriptor@.default_params;
    let mut names: Vec<String> = Vec::new();
    assert(defaults.skip(0) =~= defaults);
    assert(names@.map_values(|name: String| name@) + passed_over(decls, defaults) =~= passed_over(
        decls,
        defaults,
    ));
    let mut i: usize = 0;
    while i < descriptor.default_params.len()
        invariant
            i <= descriptor.default_params.len(),
            decls == descriptor@.params_types,
            defaults == descriptor@.default_params,
            passed_over(decls, defaults) == names@.map_values(|name: String| name@) + passed_over(
                decls,
                defaults.skip(i as int),
            ),
        decreases descriptor.default_params.len() - i,
    {
        let default = &descriptor.default_params[i];
        let ghost before = names@.map_values(|name: String| name@);
        assert(defaults.skip(i as int).drop_first() =~= defaults.skip(i + 1));
        assert(defaults.skip(i as int)[0] == default@);
        if kind_of(&descriptor.params_types, default.name.as_str()).is_none() {
            names.push(default.name.clone());
            assert(names@.map_values(|name: String| name@) =~= before + seq![default.name@]);
            assert(before + (seq![default.name@] + passed_over(decls, defaults.skip(i + 1)))
                =~= before + seq![default.name@] + passed_over(decls, defaults.skip(i + 1)));
        }
        i += 1;
    }
    assert(names@.map_values(|name: String| name@) + Seq::<Seq<char>>::empty()
        =~= names@.map_values(|name: String| name@));
    names
}

/// Whether [`build`] will ask for a texture: whether some default is that
/// of a texture parameter.
pub fn needs_sampler(descriptor: &ShaderDescriptor) -> (r: bool)
    ensures
        r == wants_sampler(descriptor@.params_types, descriptor@.default_params),
{
    let mut i: usize = 0;
    while i < descriptor.default_params.len()
        invariant
            i <= descriptor.default_params.len(),
            forall|k: int|
                0 <= k < i ==> declared_kind(
                    descriptor@.params_types,
                    (#[trigger] descriptor@.default_params[k]).name,
                ) != Some(ParamType::Sampler2D),
        decreases descriptor.default_params.len() - i,
    {
        let default = &descriptor.default_params[i];
        assert(descriptor@.default_params[i as int] == default@);
        match kind_of(&descriptor.params_types, default.name.as_str()) {
            Some(ParamType::Sampler2D) => {
                return true;
            },
            _ => {},
        }
        i += 1;
    }
    false
}

/// A value that a default stands for has the type that was asked for.
pub proof fn lemma_coerced_kind(
    name: Seq<char>,
    kind: ParamType,
    raw: RawValueView,
    sampler: Option<TextureId>,
)
    ensures
        coerced(name, kind, raw, sampler) matches Ok(value) ==> value.kind() == kind,
{
}

/// The texture is read for texture parameters only: where no default is
/// that of one, the table is the same whatever texture is supplied, or none.
pub proof fn lemma_sampler_unread(
    table: Map<Seq<char>, ParamValue>,
    decls: Seq<ParamDeclView>,
    defaults: Seq<ParamDefaultView>,
    one: Option<TextureId>,
    other: Option<TextureId>,
)
    requires
        !wants_sampler(decls, defaults),
    ensures
        bound(table, decls, defaults, one) == bound(table, decls, defaults, other),
    decreases defaults.len(),
{
    if defaults.len() > 0 {
        let rest = defaults.drop_first();
        assert(declared_kind(decls, defaults[0].name) != Some(ParamType::Sampler2D));
        assert forall|i: int| 0 <= i < rest.len() implies declared_kind(
            decls,
            (#[trigger] rest[i]).name,
        ) != Some(ParamType::Sampler2D) by {
            assert(rest[i] == defaults[i + 1]);
        }
        match bound_one(table, decls, defaults[0], one) {
            Ok(next) => {
                lemma_sampler_unread(next, decls, rest, one, other);
            },
            Err(_) => {},
        }
    }
}

/// Without a texture the build fails for want of one exactly on a texture
/// parameter: a shader with none never does.
pub proof fn lemma_missing_sampler_needs_one(
    builtins: Builtins,
    descriptor: ShaderDescriptorView,
)
    requires
        built(builtins, descriptor, None) matches Err(
            TransitionErrorView::MissingSamplerOverride(_),
        ),
    ensures
        wants_sampler(descriptor.params_types, descriptor.default_params),
{
    lemma_missing_sampler_in(
        seeded(builtins),
        descriptor.params_types,
        descriptor.default_params,
    );
}

proof fn lemma_missing_sampler_in(
    table: Map<Seq<char>, ParamValue>,
    decls: Seq<ParamDeclView>,
    defaults: Seq<ParamDefaultView>,
)
    requires
        bound(table, decls, defaults, None) matches Err(
            TransitionErrorView::MissingSamplerOverride(_),
        ),
    ensures
        wants_sampler(decls, defaults),
    decreases defaults.len(),
{
    if defaults.len() > 0 {
        let rest = defaults.drop_first();
        match bound_one(table, decls, defaults[0], None) {
            Ok(next) => {
                lemma_missing_sampler_in(next, decls, rest);
                let i = choose|i: int|
                    0 <= i < rest.len() && declared_kind(decls, (#[trigger] rest[i]).name) == Some(
                        ParamType::Sampler2D,
                    );
                assert(defaults[i + 1] == rest[i]);
            },
            Err(_) => {
                assert(declared_kind(decls, defaults[0].name) == Some(ParamType::Sampler2D));
            },
        }
    }
}

/// With a texture parameter among the defaults a build without a texture
/// fails; and where the same build with a texture succeeds, it fails for
/// want of the texture and for nothing else.
pub proof fn lemma_sampler_needed(
    builtins: Builtins,
    descriptor: ShaderDescriptorView,
    texture: TextureId,
)
    requires
        wants_sampler(descriptor.params_types, descriptor.default_params),
    ensures
        built(builtins, descriptor, None) is Err,
        built(builtins, descriptor, Some(texture)) is Ok ==> built(
            builtins,
            descriptor,
            None,
        ) matches Err(TransitionErrorView::MissingSamplerOverride(_)),
{
    lemma_sampler_needed_in(
        seeded(builtins),
        descriptor.params_types,
        descriptor.default_params,
        texture,
    );
}

proof fn lemma_sampler_needed_in(
    table: Map<Seq<char>, ParamValue>,
    decls: Seq<ParamDeclView>,
    defaults: Seq<ParamDefaultView>,
    texture: TextureId,
)
    requires
        wants_sampler(decls, defaults),
    ensures
        bound(table, decls, defaults, None) is Err,
        bound(table, decls, defaults, Some(texture)) is Ok ==> bound(
            table,
            decls,
            defaults,
            None,
        ) matches Err(TransitionErrorView::MissingSamplerOverride(_)),
    decreases defaults.len(),
{
    let rest = defaults.drop_first();
    if declared_kind(decls, defaults[0].name) != Some(ParamType::Sampler2D) {
        let i = choose|i: int|
            0 <= i < defaults.len() && declared_kind(decls, (#[trigger] defaults[i]).name) == Some(
                ParamType::Sampler2D,
            );
        assert(rest[i - 1] == defaults[i]);
        assert(bound_one(table, decls, defaults[0], None) == bound_one(
            table,
            decls,
            defaults[0],
            Some(texture),
        ));
        match bound_one(table, decls, defaults[0], None) {
            Ok(next) => {
                lemma_sampler_needed_in(next, decls, rest, texture);
            },
            Err(_) => {},
        }
    }
}

/// What a build binds: it keeps every name that the table had, and a name
/// that it binds or binds anew gets a value of the type that the shader
/// declares for it. So the built-ins are always there, and no value has
/// another type than its parameter.
pub proof fn lemma_bound_types(
    table: Map<Seq<char>, ParamValue>,
    decls: Seq<ParamDeclView>,
    defaults: Seq<ParamDefaultView>,
    sampler: Option<TextureId>,
)
    ensures
        bound(table, decls, defaults, sampler) matches Ok(after) ==> forall|name: Seq<char>|
            {
                &&& table.contains_key(name) ==> after.contains_key(name)
                &&& #[trigger] after.contains_key(name) ==> {
                    ||| table.contains_key(name) && after[name] == table[name]
                    ||| declared_kind(decls, name) == Some(after[name].kind())
                }
            },
    decreases defaults.len(),
{
    if defaults.len() > 0 {
        match bound_one(table, decls, defaults[0], sampler) {
            Ok(next) => {
                lemma_bound_types(next, decls, defaults.drop_first(), sampler);
                match declared_kind(decls, defaults[0].name) {
                    Some(kind) => {
                        lemma_coerced_kind(defaults[0].name, kind, defaults[0].value, sampler);
                    },
                    None => {},
                }
            },
            Err(_) => {},
        }
    }
}

/// Every table that [`build`] gives binds the six built-in names.
pub proof fn lemma_built_has_builtins(
    builtins: Builtins,
    descriptor: ShaderDescriptorView,
    sampler: Option<TextureId>,
)
    ensures
        built(builtins, descriptor, sampler) matches Ok(table) ==> {
            &&& table.contains_key("from"@)
            &&& table.contains_key("to"@)
            &&& table.contains_key("progress"@)
            &&& table.contains_key("ratio"@)
            &&& table.contains_key("_fromR"@)
            &&& table.contains_key("_toR"@)
        },
{
    lemma_bound_types(
        seeded(builtins),
        descriptor.params_types,
        descriptor.default_params,
        sampler,
    );
    let seed = seeded(builtins);
    assert(seed.contains_key("from"@));
    assert(seed.contains_key("to"@));
    assert(seed.contains_key("progress"@));
    assert(seed.contains_key("ratio"@));
    assert(seed.contains_key("_fromR"@));
    assert(seed.contains_key("_toR"@));
}

} // verus!
