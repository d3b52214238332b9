//! The types that a shader declares for its parameters, and the loosely
//! typed values that a catalog gives as their defaults.
use crate::text::str_equal;
use vstd::prelude::*;
use vstd::string::*;

verus! {

/// The shape that a shader declares for one of its parameters.
#[derive(Clone, Copy, Debug, PartialEq, Eq, Structural)]
pub enum ParamType {
    Bool,
    Float,
    Int,
    IVec2,
    Vec2,
    Vec3,
    Vec4,
    Sampler2D,
}

impl ParamType {
    /// The type that a catalog tag names; `None` for a tag that this
    /// version does not know.
    pub open spec fn of_tag(tag: Seq<char>) -> Option<ParamType> {
        if tag == "bool"@ {
            Some(ParamType::Bool)
        } else if tag == "float"@ {
            Some(ParamType::Float)
        } else if tag == "int"@ {
            Some(ParamType::Int)
        } else if tag == "ivec2"@ {
            Some(ParamType::IVec2)
        } else if tag == "vec2"@ {
            Some(ParamType::Vec2)
        } else if tag == "vec3"@ {
            Some(ParamType::Vec3)
        } else if tag == "vec4"@ {
            Some(ParamType::Vec4)
        } else if tag == "sampler2D"@ {
            Some(ParamType::Sampler2D)
        } else {
            None
        }
    }

    /// The tag by which a catalog names the type.
    pub open spec fn tag_of(self) -> Seq<char> {
        match self {
            ParamType::Bool => "bool"@,
            ParamType::Float => "float"@,
            ParamType::Int => "int"@,
            ParamType::IVec2 => "ivec2"@,
            ParamType::Vec2 => "vec2"@,
            ParamType::Vec3 => "vec3"@,
            ParamType::Vec4 => "vec4"@,
            ParamType::Sampler2D => "sampler2D"@,
        }
    }

    /// The tag by which a catalog names the type.
    pub fn tag(self) -> (r: &'static str)
        ensures
            r@ == self.tag_of(),
    {
        match self {
            ParamType::Bool => "bool",
            ParamType::Float => "float",
            ParamType::Int => "int",
            ParamType::IVec2 => "ivec2",
            ParamType::Vec2 => "vec2",
            ParamType::Vec3 => "vec3",
            ParamType::Vec4 => "vec4",
            ParamType::Sampler2D => "sampler2D",
        }
    }

    /// Each type is the one that its own tag names: the eight tags are
    /// eight different texts.
    pub proof fn lemma_tag_names_its_type(self)
        ensures
            ParamType::of_tag(self.tag_of()) == Some(self),
    {
        reveal_strlit("bool");
        reveal_strlit("float");
        reveal_strlit("int");
        reveal_strlit("ivec2");
        reveal_strlit("vec2");
        reveal_strlit("vec3");
        reveal_strlit("vec4");
        reveal_strlit("sampler2D");
        assert("bool"@.len() == 4 && "float"@.len() == 5 && "int"@.len() == 3);
        assert("ivec2"@.len() == 5 && "vec2"@.len() == 4 && "sampler2D"@.len() == 9);
        assert("vec3"@.len() == 4 && "vec4"@.len() == 4);
        assert("bool"@[0] == 'b' && "vec2"@[0] == 'v' && "vec3"@[0] == 'v' && "vec4"@[0] == 'v');
        assert("float"@[0] == 'f' && "ivec2"@[0] == 'i');
        assert("vec2"@[3] == '2' && "vec3"@[3] == '3' && "vec4"@[3] == '4');
    }

    /// Reads a catalog tag. Tags are case-sensitive.
    pub fn from_tag(tag: &str) -> (r: Option<ParamType>)
        ensures
            r == ParamType::of_tag(tag@),
    {
        if str_equal(tag, "bool") {
            Some(ParamType::Bool)
        } else if str_equal(tag, "float") {
            Some(ParamType::Float)
        } else if str_equal(tag, "int") {
            Some(ParamType::Int)
        } else if str_equal(tag, "ivec2") {
            Some(ParamType::IVec2)
        } else if str_equal(tag, "vec2") {
            Some(ParamType::Vec2)
        } else if str_equal(tag, "vec3") {
            Some(ParamType::Vec3)
        } else if str_equal(tag, "vec4") {
            Some(ParamType::Vec4)
        } else if str_equal(tag, "sampler2D") {
            Some(ParamType::Sampler2D)
        } else {
            None
        }
    }
}

/// One element of a default value, by what can be read from it.
#[derive(Clone, Copy, Debug, PartialEq, Eq)]
pub enum Scalar {
    /// A truth value.
    Bool(bool),
    /// A number: as a signed 64-bit integer where it is one, and as a double,
    /// by its IEEE 754 bit pattern, where it has one.
    Number { integer: Option<i64>, double: Option<u64> },
    /// Anything else: a text, a null, a nested list or object.
    Other,
}

/// A default value as the catalog holds it, before it is known which type
/// it must have.
#[derive(Clone, Debug, PartialEq, Eq)]
pub enum RawValue {
    Scalar(Scalar),
    List(Vec<Scalar>),
}

/// A [`RawValue`] with its list as a sequence.
pub enum RawValueView {
    Scalar(Scalar),
    List(Seq<Scalar>),
}

impl View for RawValue {
    type V = RawValueView;

    open spec fn view(&self) -> RawValueView {
        match *self {
            RawValue::Scalar(scalar) => RawValueView::Scalar(scalar),
            RawValue::List(list) => RawValueView::List(list@),
        }
    }
}

} // verus!
