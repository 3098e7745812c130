//! What a declaration carries besides its shape: annotations that steer the
//! generator, and documentation text.

use vstd::prelude::*;
use crate::text::{clone_strings, strings_view};

verus! {

/// Free-form annotations attached to a declaration, in source order.
#[derive(Debug, PartialEq, Eq)]
pub struct AnnotationSet {
    pub annotations: Vec<String>,
}

impl View for AnnotationSet {
    type V = Seq<Seq<char>>;

    open spec fn view(&self) -> Seq<Seq<char>> {
        strings_view(self.annotations@)
    }
}

impl AnnotationSet {
    /// No annotation at all.
    pub fn new() -> (set: AnnotationSet)
        ensures
            set@ == Seq::<Seq<char>>::empty(),
    {
        let set = AnnotationSet { annotations: Vec::new() };
        assert(set@ =~= Seq::<Seq<char>>::empty());
        set
    }

    /// Whether the set holds no annotation.
    pub fn is_empty(&self) -> (empty: bool)
        ensures
            empty == (self@.len() == 0),
    {
        self.annotations.len() == 0
    }
}

impl Clone for AnnotationSet {
    fn clone(&self) -> (copy: AnnotationSet)
        ensures
            copy@ == self@,
    {
        AnnotationSet { annotations: clone_strings(&self.annotations) }
    }
}

/// The documentation comment of a declaration, line by line.
#[derive(Debug, PartialEq, Eq)]
pub struct Documentation {
    pub doc_comment: Vec<String>,
}

impl View for Documentation {
    type V = Seq<Seq<char>>;

    open spec fn view(&self) -> Seq<Seq<char>> {
        strings_view(self.doc_comment@)
    }
}

impl Documentation {
    /// No documentation.
    pub fn none() -> (doc: Documentation)
        ensures
            doc@ == Seq::<Seq<char>>::empty(),
    {
        let doc = Documentation { doc_comment: Vec::new() };
        assert(doc@ =~= Seq::<Seq<char>>::empty());
        doc
    }
}

impl Clone for Documentation {
    fn clone(&self) -> (copy: Documentation)
        ensures
            copy@ == self@,
    {
        Documentation { doc_comment: clone_strings(&self.doc_comment) }
    }
}

} // verus!
