//! The catalog of shaders: its records, how they are read from JSON, and how
//! one is found by name.
use crate::error::{TransitionError, TransitionErrorView};
use crate::json::{
    json_boolean, json_diagnostic, json_double, json_entries, json_integer, json_items, json_list,
    json_member, json_object, json_text, parse_list, read_boolean, read_diagnostic, read_double,
    read_entries, read_integer, read_items, read_member, read_object, read_text,
};
use crate::params::{ParamType, RawValue, RawValueView, Scalar};
use crate::text::{lowercase, lowercased, str_equal};
use vstd::prelude::*;

verus! {

/// The diagnostic for a record whose `glsl` field is no text.
pub const NO_SOURCE: &'static str = "a shader record has no `glsl` text";

/// The declaration of one parameter. `kind` is `None` where the catalog
/// names a type that this version does not know.
#[derive(Clone, Debug, PartialEq, Eq)]
pub struct ParamDecl {
    pub name: String,
    pub kind: Option<ParamType>,
}

/// The default of one parameter.
#[derive(Clone, Debug, PartialEq, Eq)]
pub struct ParamDefault {
    pub name: String,
    pub value: RawValue,
}

/// One catalog entry: a transition function with what it declares.
#[derive(Clone, Debug, PartialEq, Eq)]
pub struct ShaderDescriptor {
    /// The name by which the shader is found, in lower case.
    pub name: String,
    /// The source of the transition function.
    pub glsl: String,
    /// The declared parameters, in the catalog's order.
    pub params_types: Vec<ParamDecl>,
    /// The defaults, in the catalog's order.
    pub default_params: Vec<ParamDefault>,
}

/// A [`ParamDecl`] with its name as characters.
pub struct ParamDeclView {
    pub name: Seq<char>,
    pub kind: Option<ParamType>,
}

/// A [`ParamDefault`] with its name as characters and its value as a view.
pub struct ParamDefaultView {
    pub name: Seq<char>,
    pub value: RawValueView,
}

/// A [`ShaderDescriptor`] with its texts as characters and its lists as
/// sequences of views.
pub struct ShaderDescriptorView {
    pub name: Seq<char>,
    pub glsl: Seq<char>,
    pub params_types: Seq<ParamDeclView>,
    pub default_params: Seq<ParamDefaultView>,
}

impl View for ParamDecl {
    type V = ParamDeclView;

    open spec fn view(&self) -> ParamDeclView {
        ParamDeclView { name: self.name@, kind: self.kind }
    }
}

impl View for ParamDefault {
    type V = ParamDefaultView;

    open spec fn view(&self) -> ParamDefaultView {
        ParamDefaultView { name: self.name@, value: self.value@ }
    }
}

impl View for ShaderDescriptor {
    type V = ShaderDescriptorView;

    open spec fn view(&self) -> ShaderDescriptorView {
        ShaderDescriptorView {
            name: self.name@,
            glsl: self.glsl@,
            params_types: self.params_types@.map_values(|decl: ParamDecl| decl@),
            default_params: self.default_params@.map_values(|default: ParamDefault| default@),
        }
    }
}

/// A catalog with each record as its view.
pub open spec fn catalog_view(catalog: Seq<ShaderDescriptor>) -> Seq<ShaderDescriptorView> {
    catalog.map_values(|descriptor: ShaderDescriptor| descriptor@)
}

/// What a JSON value is as one element of a default: a boolean, else a
/// number by its two readings, else something that no parameter accepts.
pub open spec fn scalar_of(value: serde_json::Value) -> Scalar {
    match json_boolean(value) {
        Some(truth) => Scalar::Bool(truth),
        None => if json_integer(value) is Some || json_double(value) is Some {
            Scalar::Number { integer: json_integer(value), double: json_double(value) }
        } else {
            Scalar::Other
        },
    }
}

/// What a JSON value is as a default: the list of its elements where it is
/// an array, else one element.
pub open spec fn raw_of(value: serde_json::Value) -> RawValueView {
    match json_items(value) {
        Some(list) => RawValueView::List(list.map_values(|item: serde_json::Value| scalar_of(item))),
        None => RawValueView::Scalar(scalar_of(value)),
    }
}

/// The entries of a JSON object; none where the value is no object.
pub open spec fn entries_of(value: serde_json::Value) -> Seq<(Seq<char>, serde_json::Value)> {
    match json_object(value) {
        Some(object) => json_entries(object),
        None => Seq::empty(),
    }
}

/// The declaration that an entry of `paramsTypes` makes: the tag it names,
/// where its value is a text and the tag is known.
pub open spec fn decl_of(entry: (Seq<char>, serde_json::Value)) -> ParamDeclView {
    ParamDeclView {
        name: entry.0,
        kind: match json_text(entry.1) {
            Some(tag) => ParamType::of_tag(tag),
            None => None,
        },
    }
}

/// The default that an entry of `defaultParams` gives.
pub open spec fn default_of(entry: (Seq<char>, serde_json::Value)) -> ParamDefaultView {
    ParamDefaultView { name: entry.0, value: raw_of(entry.1) }
}

/// The descriptor that a JSON record stands for. A record needs a text
/// under `glsl`; a `name` that is no text counts as the empty name, and
/// `paramsTypes` or `defaultParams` that is no object as an empty one.
pub open spec fn descriptor_of(record: serde_json::Value) -> Option<ShaderDescriptorView> {
    match json_text(json_member(record, "glsl"@)) {
        None => None,
        Some(glsl) => Some(
            ShaderDescriptorView {
                name: match json_text(json_member(record, "name"@)) {
                    Some(name) => name,
                    None => Seq::empty(),
                },
                glsl,
                params_types: entries_of(json_member(record, "paramsTypes"@)).map_values(
                    |entry: (Seq<char>, serde_json::Value)| decl_of(entry),
                ),
                default_params: entries_of(json_member(record, "defaultParams"@)).map_values(
                    |entry: (Seq<char>, serde_json::Value)| default_of(entry),
                ),
            },
        ),
    }
}

/// The catalog that a text stands for: it must parse as a JSON list, and
/// each element must be a record with a source. Nothing is loaded in part.
pub open spec fn catalog_of(text: Seq<char>) -> Result<
    Seq<ShaderDescriptorView>,
    TransitionErrorView,
> {
    match json_list(text) {
        Err(error) => Err(TransitionErrorView::CatalogParseError(json_diagnostic(error))),
        Ok(records) => if forall|i: int|
            0 <= i < records.len() ==> (#[trigger] descriptor_of(records[i])) is Some {
            Ok(records.map_values(|record: serde_json::Value| descriptor_of(record)->0))
        } else {
            Err(TransitionErrorView::CatalogParseError(NO_SOURCE@))
        },
    }
}

fn scalar_from(value: &serde_json::Value) -> (r: Scalar)
    ensures
        r == scalar_of(*value),
{
    match read_boolean(value) {
        Some(truth) => Scalar::Bool(truth),
        None => {
            let integer = read_integer(value);
            let double = read_double(value);
            if integer.is_some() || double.is_some() {
                Scalar::Number { integer, double }
            } else {
                Scalar::Other
            }
        },
    }
}

fn raw_from(value: &serde_json::Value) -> (r: RawValue)
    ensures
        r@ == raw_of(*value),
{
    match read_items(value) {
        Some(list) => {
            let mut scalars: Vec<Scalar> = Vec::new();
            let mut i: usize = 0;
            while i < list.len()
                invariant
                    i <= list.len(),
                    scalars@.len() == i,
                    forall|k: int| 0 <= k < i ==> scalars@[k] == scalar_of(list@[k]),
                decreases list.len() - i,
            {
                scalars.push(scalar_from(&list[i]));
                i += 1;
            }
            assert(scalars@ =~= list@.map_values(|item: serde_json::Value| scalar_of(item)));
            RawValue::List(scalars)
        },
        None => RawValue::Scalar(scalar_from(value)),
    }
}

fn declarations_from(value: &serde_json::Value) -> (r: Vec<ParamDecl>)
    ensures
        r@.map_values(|decl: ParamDecl| decl@) == entries_of(*value).map_values(
            |entry: (Seq<char>, serde_json::Value)| decl_of(entry),
        ),
{
    let mut decls: Vec<ParamDecl> = Vec::new();
    match read_object(value) {
        Some(object) => {
            let entries = read_entries(object);
            let mut i: usize = 0;
            while i < entries.len()
                invariant
                    i <= entries.len(),
                    decls@.len() == i,
                    entries@.len() == json_entries(*object).len(),
                    forall|k: int|
                        0 <= k < entries@.len() ==> (#[trigger] entries@[k]).0@ == json_entries(
                            *object,
                        )[k].0 && *entries@[k].1 == json_entries(*object)[k].1,
                    forall|k: int| 0 <= k < i ==> decls@[k]@ == decl_of(json_entries(*object)[k]),
                decreases entries.len() - i,
            {
                let kind = match read_text(entries[i].1) {
                    Some(tag) => ParamType::from_tag(tag),
                    None => None,
                };
                decls.push(ParamDecl { name: entries[i].0.clone(), kind });
                i += 1;
            }
        },
        None => {},
    }
    assert(decls@.map_values(|decl: ParamDecl| decl@) =~= entries_of(*value).map_values(
        |entry: (Seq<char>, serde_json::Value)| decl_of(entry),
    ));
    decls
}

fn defaults_from(value: &serde_json::Value) -> (r: Vec<ParamDefault>)
    ensures
        r@.map_values(|default: ParamDefault| default@) == entries_of(*value).map_values(
            |entry: (Seq<char>, serde_json::Value)| default_of(entry),
        ),
{
    let mut defaults: Vec<ParamDefault> = Vec::new();
    match read_object(value) {
        Some(object) => {
            let entries = read_entries(object);
            let mut i: usize = 0;
            while i < entries.len()
                invariant
                    i <= entries.len(),
                    defaults@.len() == i,
                    entries@.len() == json_entries(*object).len(),
                    forall|k: int|
                        0 <= k < entries@.len() ==> (#[trigger] entries@[k]).0@ == json_entries(
                            *object,
                        )[k].0 && *entries@[k].1 == json_entries(*object)[k].1,
                    forall|k: int|
                        0 <= k < i ==> defaults@[k]@ == default_of(json_entries(*object)[k]),
                decreases entries.len() - i,
            {
                let value = raw_from(entries[i].1);
                defaults.push(ParamDefault { name: entries[i].0.clone(), value });
                i += 1;
            }
        },
        None => {},
    }
    assert(defaults@.map_values(|default: ParamDefault| default@) =~= entries_of(
        *value,
    ).map_values(|entry: (Seq<char>, serde_json::Value)| default_of(entry)));
    defaults
}

fn descriptor_from(record: &serde_json::Value) -> (r: Option<ShaderDescriptor>)
    ensures
        match r {
            Some(descriptor) => descriptor_of(*record) == Some(descriptor@),
            None => descriptor_of(*record) is None,
        },
{
    let glsl = match read_text(read_member(record, "glsl")) {
        Some(glsl) => glsl.to_owned(),
        None => { return None; },
    };
    let name = match read_text(read_member(record, "name")) {
        Some(name) => name.to_owned(),
        None => String::new(),
    };
    let params_types = declarations_from(read_member(record, "paramsTypes"));
    let default_params = defaults_from(read_member(record, "defaultParams"));
    Some(ShaderDescriptor { name, glsl, params_types, default_params })
}

/// Reads a whole catalog from its JSON text. The text must be a list and
/// each element a record with a source: anything else is refused, with the
/// parser's diagnostic or with [`NO_SOURCE`].
pub fn parse_catalog(text: &str) -> (r: Result<Vec<ShaderDescriptor>, TransitionError>)
    ensures
        match r {
            Ok(catalog) => catalog_of(text@) == Ok::<
                Seq<ShaderDescriptorView>,
                TransitionErrorView,
            >(catalog_view(catalog@)),
            Err(error) => catalog_of(text@) == Err::<
                Seq<ShaderDescriptorView>,
                TransitionErrorView,
            >(error@),
        },
{
    let records = match parse_list(text) {
        Ok(records) => records,
        Err(error) => {
            return Err(TransitionError::CatalogParseError(read_diagnostic(&error)));
        },
    };
    let mut catalog: Vec<ShaderDescriptor> = Vec::new();
    let mut i: usize = 0;
    while i < records.len()
        invariant
            i <= records.len(),
            catalog@.len() == i,
            json_list(text@) == Ok::<Seq<serde_json::Value>, serde_json::Error>(records@),
            forall|k: int| 0 <= k < i ==> descriptor_of(records@[k]) == Some(catalog@[k]@),
        decreases records.len() - i,
    {
        match descriptor_from(&records[i]) {
            Some(descriptor) => {
                catalog.push(descriptor);
            },
            None => {
                return Err(TransitionError::CatalogParseError(NO_SOURCE.to_owned()));
            },
        }
        i += 1;
    }
    assert(catalog_view(catalog@) =~= records@.map_values(
        |record: serde_json::Value| descriptor_of(record)->0,
    ));
    Ok(catalog)
}

/// `index` is the place of the first record of `catalog` that has `name`.
pub open spec fn first_named(
    catalog: Seq<ShaderDescriptorView>,
    name: Seq<char>,
    index: int,
) -> bool {
    &&& 0 <= index < catalog.len()
    &&& catalog[index].name == name
    &&& forall|j: int| 0 <= j < index ==> (#[trigger] catalog[j]).name != name
}

/// No record of `catalog` has `name`.
pub open spec fn none_named(catalog: Seq<ShaderDescriptorView>, name: Seq<char>) -> bool {
    forall|j: int| 0 <= j < catalog.len() ==> (#[trigger] catalog[j]).name != name
}

/// What looking `target` up in `catalog` gives: the first record whose name
/// is the lowercase of `target`, or the failure that holds `target` as it
/// was given.
pub open spec fn selected(catalog: Seq<ShaderDescriptorView>, target: Seq<char>) -> Result<
    ShaderDescriptorView,
    TransitionErrorView,
> {
    if none_named(catalog, lowercased(target)) {
        Err(TransitionErrorView::ShaderNotFound(target))
    } else {
        Ok(catalog[choose|index: int| first_named(catalog, lowercased(target), index)])
    }
}

/// The place of the first record named exactly `name`, if there is one.
pub fn position(catalog: &Vec<ShaderDescriptor>, name: &str) -> (r: Option<usize>)
    ensures
        match r {
            Some(index) => first_named(catalog_view(catalog@), name@, index as int),
            None => none_named(catalog_view(catalog@), name@),
        },
{
    let mut i: usize = 0;
    while i < catalog.len()
        invariant
            i <= catalog.len(),
            forall|j: int| 0 <= j < i ==> (#[trigger] catalog_view(catalog@)[j]).name != name@,
        decreases catalog.len() - i,
    {
        if str_equal(catalog[i].name.as_str(), name) {
            return Some(i);
        }
        i += 1;
    }
    None
}

/// Finds a shader by name, whatever the case of `target`: the target is put
/// in lower case and then compared with each record's name as it stands.
pub fn lookup<'a>(catalog: &'a Vec<ShaderDescriptor>, target: &str) -> (r: Result<
    &'a ShaderDescriptor,
    TransitionError,
>)
    ensures
        match r {
            Ok(descriptor) => selected(catalog_view(catalog@), target@) == Ok::<
                ShaderDescriptorView,
                TransitionErrorView,
            >(descriptor@),
            Err(error) => selected(catalog_view(catalog@), target@) == Err::<
                ShaderDescriptorView,
                TransitionErrorView,
            >(error@),
        },
        r matches Ok(descriptor) ==> exists|index: int|
            first_named(catalog_view(catalog@), lowercased(target@), index) && catalog@[index]
                == *descriptor,
{
    let lowered = lowercase(target);
    match position(catalog, lowered.as_str()) {
        Some(index) => {
            proof {
                lemma_first_named_once(catalog_view(catalog@), lowered@, index as int);
            }
            Ok(&catalog[index])
        },
        None => Err(TransitionError::ShaderNotFound(target.to_owned())),
    }
}

/// Only one place is the first with a given name.
pub proof fn lemma_first_named_once(
    catalog: Seq<ShaderDescriptorView>,
    name: Seq<char>,
    index: int,
)
    requires
        first_named(catalog, name, index),
    ensures
        !none_named(catalog, name),
        (choose|other: int| first_named(catalog, name, other)) == index,
{
    let other = choose|other: int| first_named(catalog, name, other);
    assert(catalog[index].name == name);
    if other < index {
        assert(catalog[other].name != name);
    }
    if index < other {
        assert(catalog[index].name != name);
    }
}

/// Reads the catalog from its JSON text and takes from it the shader that
/// `target` names. A text that is no catalog is refused before any name is
/// looked at.
pub fn load_shader(catalog: &str, target: &str) -> (r: Result<ShaderDescriptor, TransitionError>)
    ensures
        match r {
            Ok(descriptor) => catalog_of(catalog@) matches Ok(records) && selected(
                records,
                target@,
            ) == Ok::<ShaderDescriptorView, TransitionErrorView>(descriptor@),
            Err(error) => match catalog_of(catalog@) {
                Ok(records) => selected(records, target@) == Err::<
                    ShaderDescriptorView,
                    TransitionErrorView,
                >(error@),
                Err(refusal) => refusal == error@,
            },
        },
{
    let mut records = match parse_catalog(catalog) {
        Ok(records) => records,
        Err(error) => {
            return Err(error);
        },
    };
    let lowered = lowercase(target);
    match position(&records, lowered.as_str()) {
        Some(index) => {
            proof {
                lemma_first_named_once(catalog_view(records@), lowered@, index as int);
            }
            Ok(records.swap_remove(index))
        },
        None => Err(TransitionError::ShaderNotFound(target.to_owned())),
    }
}

} // verus!
