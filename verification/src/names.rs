//! From the two names of a node to the pieces of its macros.
//!
//! A node stores its host-language path and its runtime name, and nothing
//! else about naming. The module prefix is whatever the runtime name has in
//! front of the local name, so it exists only when the runtime name ends
//! with the local name. This module is the one place where that is decided.

use vstd::prelude::*;
use vstd::string::*;
use crate::gobject::{GKind, GObject, GObjectView};
use crate::ir::Path;
use crate::text::{ends_with, strip_suffix, without_suffix};

verus! {

/// Why no prefix can be derived for a node.
#[derive(Clone, Copy, Debug, PartialEq, Eq, Structural)]
pub enum NameErrorKind {
    /// The node is an interface and its path does not end with `Interface`.
    MissingInterfaceSuffix,
    /// The runtime name does not end with the local name.
    NotASuffix,
}

/// A node whose names do not fit together.
#[derive(Debug, PartialEq, Eq)]
pub struct NameError {
    /// The path of the offending node.
    pub path: Path,
    /// Its runtime name.
    pub name: String,
    pub kind: NameErrorKind,
}

/// The mathematical value of a [`NameError`].
pub struct NameErrorView {
    pub path: Seq<char>,
    pub name: Seq<char>,
    pub kind: NameErrorKind,
}

impl View for NameError {
    type V = NameErrorView;

    open spec fn view(&self) -> NameErrorView {
        NameErrorView { path: self.path@, name: self.name@, kind: self.kind }
    }
}

/// The views of a list of errors, in order.
pub open spec fn error_views(errors: Seq<NameError>) -> Seq<NameErrorView> {
    Seq::new(errors.len(), |i: int| errors[i]@)
}

/// The text of a name error.
pub open spec fn name_error_message(error: NameErrorView) -> Seq<char> {
    match error.kind {
        NameErrorKind::MissingInterfaceSuffix => "interface path `"@ + error.path
            + "` does not end with `Interface`"@,
        NameErrorKind::NotASuffix => "runtime name `"@ + error.name
            + "` does not end with the local name of `"@ + error.path + "`"@,
    }
}

impl NameError {
    /// A sentence that names the node and says what is wrong with it.
    pub fn message(&self) -> (text: String)
        ensures
            text@ == name_error_message(self@),
    {
        match self.kind {
            NameErrorKind::MissingInterfaceSuffix => {
                let mut text = "interface path `".to_owned();
                text.append(self.path.name());
                text.append("` does not end with `Interface`");
                text
            },
            NameErrorKind::NotASuffix => {
                let mut text = "runtime name `".to_owned();
                text.append(self.name.as_str());
                text.append("` does not end with the local name of `");
                text.append(self.path.name());
                text.append("`");
                text
            },
        }
    }
}

/// The module prefix and the local name of a node.
#[derive(Debug, PartialEq, Eq)]
pub struct DerivedNames {
    pub prefix: String,
    pub local_name: String,
}

/// The mathematical value of a [`DerivedNames`].
pub struct DerivedNamesView {
    pub prefix: Seq<char>,
    pub local_name: Seq<char>,
}

impl View for DerivedNames {
    type V = DerivedNamesView;

    open spec fn view(&self) -> DerivedNamesView {
        DerivedNamesView { prefix: self.prefix@, local_name: self.local_name@ }
    }
}

/// The local name of a node: the bare identifier of its path, for an
/// interface without the trailing `Interface`. `None` for an interface whose
/// path lacks that suffix.
pub open spec fn local_name(kind: GKind, path_name: Seq<char>) -> Option<Seq<char>> {
    match kind {
        GKind::Interface => if ends_with(path_name, "Interface"@) {
            Some(without_suffix(path_name, "Interface"@))
        } else {
            None
        },
        GKind::Object | GKind::Boxed | GKind::Enum | GKind::Error => Some(path_name),
    }
}

/// The prefix and local name of a node with the given kind, path and runtime
/// name, or the reason why there is none.
pub open spec fn derive_names(kind: GKind, path_name: Seq<char>, runtime_name: Seq<char>) -> Result<
    DerivedNamesView,
    NameErrorKind,
> {
    match local_name(kind, path_name) {
        None => Err(NameErrorKind::MissingInterfaceSuffix),
        Some(local) => if ends_with(runtime_name, local) {
            Ok(DerivedNamesView { prefix: without_suffix(runtime_name, local), local_name: local })
        } else {
            Err(NameErrorKind::NotASuffix)
        },
    }
}

impl GObjectView {
    /// The prefix and local name of this node, or why it has none.
    pub open spec fn names(self) -> Result<DerivedNamesView, NameErrorKind> {
        derive_names(self.gtype.kind(), self.path, self.name)
    }

    /// The runtime name ends with the local name, so that a prefix exists.
    pub open spec fn well_formed(self) -> bool {
        self.names() is Ok
    }

    /// The error that is reported for this node when it is not well formed.
    pub open spec fn name_error(self) -> NameErrorView
        recommends
            !self.well_formed(),
    {
        NameErrorView { path: self.path, name: self.name, kind: self.names()->Err_0 }
    }
}

impl GObject {
    fn name_error(&self, kind: NameErrorKind) -> (error: NameError)
        ensures
            error@ == (NameErrorView { path: self@.path, name: self@.name, kind }),
    {
        NameError { path: self.path.clone(), name: self.name.clone(), kind }
    }

    /// Splits the runtime name into module prefix and local name.
    ///
    /// Succeeds exactly on well-formed nodes. The prefix followed by the
    /// local name is then the runtime name. Otherwise the error carries the
    /// node's path and runtime name and says which rule is broken.
    pub fn derive_names(&self) -> (names: Result<DerivedNames, NameError>)
        ensures
            match names {
                Ok(n) => self@.names() == Ok::<DerivedNamesView, NameErrorKind>(n@) && n@.prefix
                    + n@.local_name == self@.name,
                Err(e) => !self@.well_formed() && e@ == self@.name_error(),
            },
    {
        let path_name = self.path.name();
        let local: &str = match self.gtype.kind() {
            GKind::Interface => match strip_suffix(path_name, "Interface") {
                Some(stripped) => stripped,
                None => {
                    return Err(self.name_error(NameErrorKind::MissingInterfaceSuffix));
                },
            },
            GKind::Object | GKind::Boxed | GKind::Enum | GKind::Error => path_name,
        };
        assert(local_name(self@.gtype.kind(), self@.path) == Some(local@));
        match strip_suffix(self.name.as_str(), local) {
            Some(prefix) => Ok(
                DerivedNames { prefix: prefix.to_owned(), local_name: local.to_owned() },
            ),
            None => Err(self.name_error(NameErrorKind::NotASuffix)),
        }
    }
}

} // verus!
