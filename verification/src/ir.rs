//! The naming model: qualified paths and references to types.
//!
//! These are plain values. A node owns the ones it holds, and the passes that
//! run over a node read or rewrite them in place.

use vstd::prelude::*;

verus! {

/// The name under which the host language knows a type: its bare identifier.
#[derive(Debug, PartialEq, Eq)]
pub struct Path {
    pub name: String,
}

impl View for Path {
    type V = Seq<char>;

    open spec fn view(&self) -> Seq<char> {
        self.name@
    }
}

impl Path {
    /// The path of the type called `name`.
    pub fn new(name: String) -> (path: Path)
        ensures
            path@ == name@,
    {
        Path { name }
    }

    /// The bare local name.
    pub fn name(&self) -> (name: &str)
        ensures
            name@ == self@,
    {
        self.name.as_str()
    }
}

impl Clone for Path {
    fn clone(&self) -> (copy: Path)
        ensures
            copy@ == self@,
    {
        Path { name: self.name.clone() }
    }
}

/// The kind of C declaration that a referenced type resolves to. The type
/// renderer needs it to choose between a bare name and a tagged one.
#[derive(Clone, Copy, Debug, PartialEq, Eq, Structural)]
pub enum DeclarationType {
    Struct,
    Enum,
    Union,
}

/// A reference to a type: a path, its generic arguments, and the declaration
/// kind once the resolution pass has looked the path up.
#[derive(Debug, PartialEq, Eq)]
pub struct Type {
    pub path: Path,
    pub generics: Vec<Type>,
    pub declaration: Option<DeclarationType>,
}

/// The mathematical value of a [`Type`].
pub struct TypeView {
    pub path: Seq<char>,
    pub generics: Seq<TypeView>,
    pub declaration: Option<DeclarationType>,
}

/// The value of `ty`, with the values of its generic arguments in order.
pub open spec fn type_view(ty: Type) -> TypeView
    decreases ty,
{
    TypeView {
        path: ty.path@,
        generics: Seq::new(
            ty.generics@.len(),
            |i: int|
                if 0 <= i < ty.generics@.len() {
                    type_view(ty.generics@[i])
                } else {
                    arbitrary()
                },
        ),
        declaration: ty.declaration,
    }
}

impl View for Type {
    type V = TypeView;

    open spec fn view(&self) -> TypeView {
        type_view(*self)
    }
}

/// The views of a list of types, in order.
pub open spec fn type_views(types: Seq<Type>) -> Seq<TypeView> {
    Seq::new(types.len(), |i: int| types[i]@)
}

/// The view of an optional type.
pub open spec fn opt_type_view(ty: Option<Type>) -> Option<TypeView> {
    match ty {
        Some(t) => Some(t@),
        None => None,
    }
}

impl Type {
    /// An unresolved reference to `path` with the given generic arguments.
    pub fn new(path: Path, generics: Vec<Type>) -> (ty: Type)
        ensures
            ty@ == (TypeView {
                path: path@,
                generics: type_views(generics@),
                declaration: None,
            }),
    {
        let ty = Type { path, generics, declaration: None };
        assert(ty@.generics =~= type_views(generics@));
        ty
    }

    /// An unresolved reference to `path` without generic arguments.
    pub fn from_path(path: Path) -> (ty: Type)
        ensures
            ty@ == (TypeView { path: path@, generics: Seq::empty(), declaration: None }),
    {
        let ty = Type { path, generics: Vec::new(), declaration: None };
        assert(ty@.generics =~= Seq::empty());
        ty
    }
}

impl Clone for Type {
    #[verifier::loop_isolation(false)]
    fn clone(&self) -> (copy: Type)
        ensures
            copy@ == self@,
        decreases self,
    {
        let mut generics: Vec<Type> = Vec::new();
        let mut i: usize = 0;
        while i < self.generics.len()
            invariant
                i <= self.generics@.len(),
                generics@.len() == i,
                forall|j: int| 0 <= j < i ==> generics@[j]@ == self.generics@[j]@,
            decreases self.generics@.len() - i,
        {
            let arg = self.generics[i].clone();
            generics.push(arg);
            i += 1;
        }
        let copy = Type { path: self.path.clone(), generics, declaration: self.declaration };
        assert(copy@.generics =~= self@.generics);
        copy
    }
}

/// A copy of an optional type.
pub fn clone_opt_type(ty: &Option<Type>) -> (copy: Option<Type>)
    ensures
        opt_type_view(copy) == opt_type_view(*ty),
{
    match ty {
        Some(t) => Some(t.clone()),
        None => None,
    }
}

} // verus!
