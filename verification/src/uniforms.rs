//! Typed uniform values and the table that binds them by name.
use crate::params::ParamType;
use crate::text::str_equal;
use vstd::prelude::*;

verus! {

/// A texture that the caller has loaded, by the number the caller gave it.
#[derive(Clone, Copy, Debug, PartialEq, Eq, Structural)]
pub struct TextureId(pub u32);

/// The value of one uniform. A floating-point component is held by the
/// IEEE 754 bit pattern of a double; whoever hands it to the GPU narrows it.
#[derive(Clone, Copy, Debug, PartialEq, Eq)]
pub enum ParamValue {
    Bool(bool),
    Float(u64),
    Int(i32),
    IVec2(i32, i32),
    Vec2(u64, u64),
    Vec3(u64, u64, u64),
    Vec4(u64, u64, u64, u64),
    Sampler2D(TextureId),
}

impl ParamValue {
    /// The type whose tag the value carries.
    pub open spec fn kind(self) -> ParamType {
        match self {
            ParamValue::Bool(_) => ParamType::Bool,
            ParamValue::Float(_) => ParamType::Float,
            ParamValue::Int(_) => ParamType::Int,
            ParamValue::IVec2(_, _) => ParamType::IVec2,
            ParamValue::Vec2(_, _) => ParamType::Vec2,
            ParamValue::Vec3(_, _, _) => ParamType::Vec3,
            ParamValue::Vec4(_, _, _, _) => ParamType::Vec4,
            ParamValue::Sampler2D(_) => ParamType::Sampler2D,
        }
    }
}

/// The uniforms that every program is given: the two textures, the
/// progress, the frame's aspect ratio and that of each texture. The four
/// numbers are bit patterns of doubles.
#[derive(Clone, Copy, Debug, PartialEq, Eq)]
pub struct Builtins {
    pub from: TextureId,
    pub to: TextureId,
    pub progress: u64,
    pub ratio: u64,
    pub from_ratio: u64,
    pub to_ratio: u64,
}

/// A table of uniform values by name. A name is bound once: binding it
/// again replaces its value.
#[derive(Debug)]
pub struct DynamicUniforms {
    data: Vec<(String, ParamValue)>,
}

/// The entry at `index` of `data` has `name`.
spec fn binds(data: Seq<(String, ParamValue)>, name: Seq<char>, index: int) -> bool {
    0 <= index < data.len() && data[index].0@ == name
}

/// No two entries of `data` have one name.
spec fn names_differ(data: Seq<(String, ParamValue)>) -> bool {
    forall|i: int, j: int| 0 <= i < j < data.len() ==> data[i].0@ != data[j].0@
}

/// The table that a list of entries with different names stands for.
spec fn table_of(data: Seq<(String, ParamValue)>) -> Map<Seq<char>, ParamValue> {
    Map::new(
        |name: Seq<char>| exists|index: int| binds(data, name, index),
        |name: Seq<char>| data[choose|index: int| binds(data, name, index)].1,
    )
}

proof fn lemma_table_of_push(data: Seq<(String, ParamValue)>, name: String, value: ParamValue)
    requires
        names_differ(data),
        forall|index: int| !binds(data, name@, index),
    ensures
        names_differ(data.push((name, value))),
        table_of(data.push((name, value))) == table_of(data).insert(name@, value),
{
    let grown = data.push((name, value));
    assert forall|i: int, j: int| 0 <= i < j < grown.len() implies grown[i].0@ != grown[j].0@ by {
        if j == data.len() {
            assert(!binds(data, name@, i));
        }
    }
    let left = table_of(grown);
    let right = table_of(data).insert(name@, value);
    assert forall|key: Seq<char>| left.contains_key(key) <==> right.contains_key(key) by {
        if left.contains_key(key) {
            let index = choose|index: int| binds(grown, key, index);
            if index < data.len() {
                assert(binds(data, key, index));
            }
        }
        if right.contains_key(key) {
            if key == name@ {
                assert(binds(grown, key, data.len() as int));
            } else {
                let index = choose|index: int| binds(data, key, index);
                assert(binds(grown, key, index));
            }
        }
    }
    assert forall|key: Seq<char>| left.contains_key(key) implies left[key] == right[key] by {
        let index = choose|index: int| binds(grown, key, index);
        if key == name@ {
            if index < data.len() {
                assert(binds(data, name@, index));
            }
        } else {
            assert(binds(data, key, index));
            let before = choose|before: int| binds(data, key, before);
            if before < index {
                assert(data[before].0@ != data[index].0@);
            }
            if index < before {
                assert(data[index].0@ != data[before].0@);
            }
        }
    }
    assert(left =~= right);
}

proof fn lemma_table_of_update(
    data: Seq<(String, ParamValue)>,
    at: int,
    name: String,
    value: ParamValue,
)
    requires
        names_differ(data),
        binds(data, name@, at),
    ensures
        names_differ(data.update(at, (name, value))),
        table_of(data.update(at, (name, value))) == table_of(data).insert(name@, value),
{
    let changed = data.update(at, (name, value));
    assert forall|i: int, j: int| 0 <= i < j < changed.len() implies changed[i].0@
        != changed[j].0@ by {
        assert(data[i].0@ != data[j].0@);
    }
    let left = table_of(changed);
    let right = table_of(data).insert(name@, value);
    assert forall|key: Seq<char>| left.contains_key(key) <==> right.contains_key(key) by {
        if left.contains_key(key) {
            let index = choose|index: int| binds(changed, key, index);
            assert(binds(data, key, index));
        }
        if right.contains_key(key) {
            if key == name@ {
                assert(binds(changed, key, at));
            } else {
                let index = choose|index: int| binds(data, key, index);
                assert(binds(changed, key, index));
            }
        }
    }
    assert forall|key: Seq<char>| left.contains_key(key) implies left[key] == right[key] by {
        let index = choose|index: int| binds(changed, key, index);
        assert(binds(data, key, index));
        if index < at {
            assert(data[index].0@ != data[at].0@);
        }
        if at < index {
            assert(data[at].0@ != data[index].0@);
        }
        if key != name@ {
            let before = choose|before: int| binds(data, key, before);
            if before < index {
                assert(data[before].0@ != data[index].0@);
            }
            if index < before {
                assert(data[index].0@ != data[before].0@);
            }
        }
    }
    assert(left =~= right);
}

/// The entries of `data` with each name as its characters.
spec fn listed(data: Seq<(String, ParamValue)>) -> Seq<(Seq<char>, ParamValue)> {
    data.map_values(|entry: (String, ParamValue)| (entry.0@, entry.1))
}

/// `bindings` lists `table`: no name twice, each binding in the table, each
/// name of the table among the bindings.
pub open spec fn lists(
    bindings: Seq<(Seq<char>, ParamValue)>,
    table: Map<Seq<char>, ParamValue>,
) -> bool {
    &&& forall|i: int, j: int| 0 <= i < j < bindings.len() ==> bindings[i].0 != bindings[j].0
    &&& forall|i: int|
        0 <= i < bindings.len() ==> table.contains_key((#[trigger] bindings[i]).0)
            && table[bindings[i].0] == bindings[i].1
    &&& forall|name: Seq<char>|
        table.contains_key(name) ==> exists|i: int|
            0 <= i < bindings.len() && (#[trigger] bindings[i]).0 == name
}

proof fn lemma_listed(data: Seq<(String, ParamValue)>)
    requires
        names_differ(data),
    ensures
        lists(listed(data), table_of(data)),
{
    let bindings = listed(data);
    let table = table_of(data);
    assert forall|i: int| 0 <= i < bindings.len() implies table.contains_key(
        (#[trigger] bindings[i]).0,
    ) && table[bindings[i].0] == bindings[i].1 by {
        let name = bindings[i].0;
        assert(binds(data, name, i));
        let chosen = choose|index: int| binds(data, name, index);
        if chosen < i {
            assert(data[chosen].0@ != data[i].0@);
        }
        if i < chosen {
            assert(data[i].0@ != data[chosen].0@);
        }
    }
    assert forall|name: Seq<char>| table.contains_key(name) implies exists|i: int|
        0 <= i < bindings.len() && (#[trigger] bindings[i]).0 == name by {
        let chosen = choose|index: int| binds(data, name, index);
        assert(bindings[chosen].0 == name);
    }
}

impl View for DynamicUniforms {
    type V = Map<Seq<char>, ParamValue>;

    closed spec fn view(&self) -> Map<Seq<char>, ParamValue> {
        table_of(self.data@)
    }
}

impl DynamicUniforms {
    #[verifier::type_invariant]
    spec fn well_formed(self) -> bool {
        names_differ(self.data@)
    }

    /// A table that binds nothing: no name is in it, and a walk over its
    /// bindings ends at once.
    pub fn new() -> (r: DynamicUniforms)
        ensures
            r@ == Map::<Seq<char>, ParamValue>::empty(),
            r.bindings() == Seq::<(Seq<char>, ParamValue)>::empty(),
    {
        let r = DynamicUniforms { data: Vec::new() };
        assert(r.bindings() =~= Seq::<(Seq<char>, ParamValue)>::empty());
        assert(r@ =~= Map::<Seq<char>, ParamValue>::empty()) by {
            assert forall|name: Seq<char>| !r@.contains_key(name) by {
                assert(forall|index: int| !binds(r.data@, name, index));
            }
        }
        r
    }

    /// Binds `name` to `value`, in place of what it was bound to.
    pub fn add(&mut self, name: String, value: ParamValue)
        ensures
            final(self)@ == old(self)@.insert(name@, value),
    {
        proof {
            use_type_invariant(&*self);
        }
        let mut place: Option<usize> = None;
        let mut i: usize = 0;
        while i < self.data.len() && place.is_none()
            invariant
                i <= self.data.len(),
                self.data@ == old(self).data@,
                match place {
                    Some(at) => binds(self.data@, name@, at as int),
                    None => forall|k: int| 0 <= k < i ==> !binds(self.data@, name@, k),
                },
            decreases self.data.len() - i + if place is None { 1nat } else { 0nat },
        {
            if str_equal(self.data[i].0.as_str(), name.as_str()) {
                place = Some(i);
            } else {
                i += 1;
            }
        }
        let mut data: Vec<(String, ParamValue)> = Vec::new();
        std::mem::swap(&mut self.data, &mut data);
        match place {
            Some(at) => {
                proof {
                    lemma_table_of_update(data@, at as int, name, value);
                }
                data.set(at, (name, value));
            },
            None => {
                proof {
                    lemma_table_of_push(data@, name, value);
                }
                data.push((name, value));
            },
        }
        self.data = data;
    }

    /// The value that `name` is bound to, if it is bound.
    pub fn get(&self, name: &str) -> (r: Option<ParamValue>)
        ensures
            r == if self@.contains_key(name@) {
                Some(self@[name@])
            } else {
                None
            },
    {
        proof {
            use_type_invariant(self);
        }
        let mut i: usize = 0;
        while i < self.data.len()
            invariant
                i <= self.data.len(),
                names_differ(self.data@),
                forall|k: int| 0 <= k < i ==> !binds(self.data@, name@, k),
            decreases self.data.len() - i,
        {
            if str_equal(self.data[i].0.as_str(), name) {
                proof {
                    assert(binds(self.data@, name@, i as int));
                    let chosen = choose|index: int| binds(self.data@, name@, index);
                    if chosen < i {
                        assert(self.data@[chosen].0@ != self.data@[i as int].0@);
                    }
                    if i < chosen {
                        assert(self.data@[i as int].0@ != self.data@[chosen].0@);
                    }
                }
                return Some(self.data[i].1);
            }
            i += 1;
        }
        None
    }

    /// The bindings in the order in which their names were first bound.
    pub closed spec fn bindings(&self) -> Seq<(Seq<char>, ParamValue)> {
        listed(self.data@)
    }

    /// How many names are bound. The bindings list the table: each name
    /// once, with its value.
    pub fn len(&self) -> (r: usize)
        ensures
            r == self.bindings().len(),
            lists(self.bindings(), self@),
    {
        proof {
            use_type_invariant(self);
            lemma_listed(self.data@);
        }
        self.data.len()
    }

    /// The binding at `index`, for walking the table.
    pub fn binding(&self, index: usize) -> (r: Option<(&String, ParamValue)>)
        ensures
            match r {
                Some((name, value)) => index < self.bindings().len() && self.bindings()[index as int]
                    == (name@, value),
                None => index >= self.bindings().len(),
            },
    {
        if index < self.data.len() {
            Some((&self.data[index].0, self.data[index].1))
        } else {
            None
        }
    }
}

} // verus!
