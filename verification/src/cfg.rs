//! Compile-time predicates: the condition under which a declaration, and so
//! what is generated for it, is part of the build.

use vstd::prelude::*;

verus! {

/// A boolean expression over configuration flags.
#[derive(Debug, PartialEq, Eq)]
pub enum Cfg {
    /// A flag that is set or not, such as `unix`.
    Boolean(String),
    /// A key with a value, such as `feature = "gtk"`.
    Named(String, String),
    /// True when one of the conditions is.
    Any(Vec<Cfg>),
    /// True when all of the conditions are.
    All(Vec<Cfg>),
    /// True when the condition is not.
    Not(Box<Cfg>),
}

/// The mathematical value of a [`Cfg`].
pub enum CfgView {
    Boolean(Seq<char>),
    Named(Seq<char>, Seq<char>),
    Any(Seq<CfgView>),
    All(Seq<CfgView>),
    Not(Box<CfgView>),
}

/// The value of `cfg`, with the values of its operands in order.
pub open spec fn cfg_view(cfg: Cfg) -> CfgView
    decreases cfg,
{
    match cfg {
        Cfg::Boolean(flag) => CfgView::Boolean(flag@),
        Cfg::Named(key, value) => CfgView::Named(key@, value@),
        Cfg::Any(operands) => CfgView::Any(
            Seq::new(
                operands@.len(),
                |i: int|
                    if 0 <= i < operands@.len() {
                        cfg_view(operands@[i])
                    } else {
                        arbitrary()
                    },
            ),
        ),
        Cfg::All(operands) => CfgView::All(
            Seq::new(
                operands@.len(),
                |i: int|
                    if 0 <= i < operands@.len() {
                        cfg_view(operands@[i])
                    } else {
                        arbitrary()
                    },
            ),
        ),
        Cfg::Not(operand) => CfgView::Not(Box::new(cfg_view(*operand))),
    }
}

impl View for Cfg {
    type V = CfgView;

    open spec fn view(&self) -> CfgView {
        cfg_view(*self)
    }
}

/// The view of an optional predicate.
pub open spec fn opt_cfg_view(cfg: Option<Cfg>) -> Option<CfgView> {
    match cfg {
        Some(c) => Some(c@),
        None => None,
    }
}

/// The predicate of a declaration inside a scope: what holds when both the
/// scope's condition and the declaration's own condition hold.
pub open spec fn append_spec(outer: Option<CfgView>, inner: Option<CfgView>) -> Option<CfgView> {
    match (outer, inner) {
        (None, None) => None,
        (None, Some(i)) => Some(i),
        (Some(o), None) => Some(o),
        (Some(o), Some(i)) => Some(CfgView::All(seq![o, i])),
    }
}

/// A copy of a list of predicates.
#[verifier::loop_isolation(false)]
fn clone_operands(operands: &Vec<Cfg>) -> (copy: Vec<Cfg>)
    ensures
        copy@.len() == operands@.len(),
        forall|j: int| 0 <= j < operands@.len() ==> copy@[j]@ == operands@[j]@,
    decreases operands,
{
    let mut copy: Vec<Cfg> = Vec::new();
    let mut i: usize = 0;
    while i < operands.len()
        invariant
            i <= operands@.len(),
            copy@.len() == i,
            forall|j: int| 0 <= j < i ==> copy@[j]@ == operands@[j]@,
        decreases operands@.len() - i,
    {
        let operand = operands[i].clone();
        copy.push(operand);
        i += 1;
    }
    copy
}

impl Clone for Cfg {
    fn clone(&self) -> (copy: Cfg)
        ensures
            copy@ == self@,
        decreases self,
    {
        match self {
            Cfg::Boolean(flag) => Cfg::Boolean(flag.clone()),
            Cfg::Named(key, value) => Cfg::Named(key.clone(), value.clone()),
            Cfg::Any(operands) => {
                let copy = Cfg::Any(clone_operands(operands));
                assert(copy@->Any_0 =~= self@->Any_0);
                copy
            },
            Cfg::All(operands) => {
                let copy = Cfg::All(clone_operands(operands));
                assert(copy@->All_0 =~= self@->All_0);
                copy
            },
            Cfg::Not(operand) => {
                let inner: &Cfg = &**operand;
                Cfg::Not(Box::new(inner.clone()))
            },
        }
    }
}

/// A copy of an optional predicate.
pub fn clone_opt_cfg(cfg: &Option<Cfg>) -> (copy: Option<Cfg>)
    ensures
        opt_cfg_view(copy) == opt_cfg_view(*cfg),
{
    match cfg {
        Some(c) => Some(c.clone()),
        None => None,
    }
}

impl Cfg {
    /// Combines the predicate of an enclosing scope with a declaration's own.
    pub fn append(outer: Option<&Cfg>, inner: Option<Cfg>) -> (combined: Option<Cfg>)
        ensures
            opt_cfg_view(combined) == append_spec(
                match outer {
                    Some(o) => Some(o@),
                    None => None,
                },
                opt_cfg_view(inner),
            ),
    {
        match (outer, inner) {
            (None, None) => None,
            (None, Some(i)) => Some(i),
            (Some(o), None) => Some(o.clone()),
            (Some(o), Some(i)) => {
                let mut operands: Vec<Cfg> = Vec::new();
                operands.push(o.clone());
                operands.push(i);
                let all = Cfg::All(operands);
                assert(all@->All_0 =~= seq![o@, i@]);
                Some(all)
            },
        }
    }
}

} // verus!
