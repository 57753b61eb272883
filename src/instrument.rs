//! The instrumentation pass, on a plain description of the annotated unit.
//!
//! For each function body that is to be instrumented the pass decides the
//! prologue that goes ahead of its statements: which callable reference
//! identifies it, the generic parameters applied to that reference, the
//! arguments forwarded to an override, and the return type the override
//! produces. Turning that prologue into tokens and splicing it in front of
//! the untouched statements of the body happens at the token level, outside.
use vstd::prelude::*;

verus! {

/// The first words of an annotated unit, after its attributes.
#[derive(Debug, Clone, Copy, PartialEq, Eq)]
pub enum Lead {
    Unsafe,
    Pub,
    Impl,
    Trait,
    Other,
}

/// The shape of an annotated unit.
#[derive(Debug, Clone, Copy, PartialEq, Eq)]
pub enum ItemKind {
    Fn,
    Impl,
    Trait,
}

/// A formal parameter: the `self` receiver, or a typed parameter with its
/// pattern as written.
#[derive(Debug, PartialEq, Eq)]
pub enum Param {
    Receiver,
    Typed(String),
}

/// What the pass reads of one function signature.
#[derive(Debug, PartialEq, Eq)]
pub struct Signature {
    pub name: String,
    /// The declared generic parameters, as they are applied in a path.
    pub generics: Vec<String>,
    pub params: Vec<Param>,
    /// The declared return type, if one is written.
    pub output: Option<String>,
}

/// A method declared in a trait definition, and whether it has a default
/// body.
#[derive(Debug, PartialEq, Eq)]
pub struct TraitFn {
    pub sig: Signature,
    pub has_default: bool,
}

/// An annotated unit: a free function; an impl block with the path of its
/// trait, if any, and its methods; or a trait definition with its name and
/// its methods.
#[derive(Debug, PartialEq, Eq)]
pub enum Item {
    Fn(Signature),
    Impl(Option<String>, Vec<Signature>),
    Trait(String, Vec<TraitFn>),
}

/// The callable reference that identifies an instrumented function.
#[derive(Debug, PartialEq, Eq)]
pub enum Callee {
    /// A free function, by its name.
    Name(String),
    /// An inherent method: `Self::name`.
    SelfMethod(String),
    /// A trait method: `<Self as Trait>::name`, with the trait path first.
    Qualified(String, String),
}

/// The dispatch prologue of one function: if an override exists for
/// `callee` with `generics` applied, return what it makes of `args`, a value
/// of type `ret`.
#[derive(Debug, PartialEq, Eq)]
pub struct Prologue {
    pub callee: Callee,
    pub generics: Vec<String>,
    pub args: Vec<String>,
    pub ret: String,
}

pub open spec fn lead_at(lead: Seq<Lead>, i: int) -> Lead {
    if 0 <= i < lead.len() {
        lead[i]
    } else {
        Lead::Other
    }
}

/// The shape named by the first words: an optional `unsafe`, then an
/// optional `pub`, then `impl` or `trait`; anything else is a function.
pub open spec fn kind_of(lead: Seq<Lead>) -> ItemKind {
    let i = if lead_at(lead, 0) is Unsafe {
        1int
    } else {
        0int
    };
    let j = if lead_at(lead, i) is Pub {
        i + 1
    } else {
        i
    };
    match lead_at(lead, j) {
        Lead::Impl => ItemKind::Impl,
        Lead::Trait => ItemKind::Trait,
        _ => ItemKind::Fn,
    }
}

/// The argument that forwards a parameter.
pub open spec fn arg_text(p: Param) -> Seq<char> {
    match p {
        Param::Receiver => "self"@,
        Param::Typed(pat) => pat@,
    }
}

/// The return type an override produces: the declared one, else unit.
pub open spec fn ret_text(output: Option<String>) -> Seq<char> {
    match output {
        Some(t) => t@,
        None => "()"@,
    }
}

/// `p` is the prologue of `sig` when it is reached as `callee`.
pub open spec fn is_prologue(p: Prologue, callee: Callee, sig: Signature) -> bool {
    &&& p.callee == callee
    &&& p.generics@ == sig.generics@
    &&& p.args@.len() == sig.params@.len()
    &&& forall|i: int| 0 <= i < p.args@.len() ==> #[trigger] p.args@[i]@ == arg_text(sig.params@[i])
    &&& p.ret@ == ret_text(sig.output)
}

/// The callee of a method of an impl block: trait-qualified in an impl for
/// a trait, `Self::name` otherwise.
pub open spec fn impl_callee(trait_path: Option<String>, name: String) -> Callee {
    match trait_path {
        Some(path) => Callee::Qualified(path, name),
        None => Callee::SelfMethod(name),
    }
}

/// What the pass does to `item`, one entry per function in order: the
/// prologue of each function that gets one, `None` for a trait method
/// without a default body, which has nothing to wrap.
pub open spec fn is_plan(item: Item, plan: Seq<Option<Prologue>>) -> bool {
    match item {
        Item::Fn(sig) => plan.len() == 1 && plan[0] is Some && is_prologue(
            plan[0]->0,
            Callee::Name(sig.name),
            sig,
        ),
        Item::Impl(trait_path, fns) => plan.len() == fns@.len() && forall|i: int|
            0 <= i < plan.len() ==> #[trigger] plan[i] is Some && is_prologue(
                plan[i]->0,
                impl_callee(trait_path, fns@[i].name),
                fns@[i],
            ),
        Item::Trait(name, fns) => plan.len() == fns@.len() && forall|i: int|
            0 <= i < plan.len() ==> if fns@[i].has_default {
                #[trigger] plan[i] is Some && is_prologue(
                    plan[i]->0,
                    Callee::Qualified(name, fns@[i].sig.name),
                    fns@[i].sig,
                )
            } else {
                plan[i] is None
            },
    }
}

/// Tells the shape of an annotated unit from its first words.
pub fn item_kind(lead: &Vec<Lead>) -> (r: ItemKind)
    ensures
        r == kind_of(lead@),
{
    let mut i: usize = 0;
    if i < lead.len() && matches!(lead[i], Lead::Unsafe) {
        i = i + 1;
    }
    if i < lead.len() && matches!(lead[i], Lead::Pub) {
        i = i + 1;
    }
    if i < lead.len() {
        match lead[i] {
            Lead::Impl => ItemKind::Impl,
            Lead::Trait => ItemKind::Trait,
            _ => ItemKind::Fn,
        }
    } else {
        ItemKind::Fn
    }
}

fn copy_strings(v: &Vec<String>) -> (r: Vec<String>)
    ensures
        r@ == v@,
{
    let mut r: Vec<String> = Vec::new();
    let mut i: usize = 0;
    while i < v.len()
        invariant
            i <= v@.len(),
            r@ == v@.subrange(0, i as int),
        decreases v@.len() - i,
    {
        r.push(v[i].clone());
        i = i + 1;
        assert(r@ =~= v@.subrange(0, i as int));
    }
    assert(v@.subrange(0, v@.len() as int) =~= v@);
    r
}

fn forwarded_args(params: &Vec<Param>) -> (r: Vec<String>)
    ensures
        r@.len() == params@.len(),
        forall|i: int| 0 <= i < r@.len() ==> #[trigger] r@[i]@ == arg_text(params@[i]),
{
    let mut r: Vec<String> = Vec::new();
    let mut i: usize = 0;
    while i < params.len()
        invariant
            i <= params@.len(),
            r@.len() == i,
            forall|j: int| 0 <= j < i ==> #[trigger] r@[j]@ == arg_text(params@[j]),
        decreases params@.len() - i,
    {
        let arg = match &params[i] {
            Param::Receiver => "self".to_owned(),
            Param::Typed(pat) => pat.clone(),
        };
        r.push(arg);
        i = i + 1;
    }
    r
}

/// The prologue of `sig` when it is reached as `callee`.
pub fn prologue(callee: Callee, sig: &Signature) -> (r: Prologue)
    ensures
        is_prologue(r, callee, *sig),
{
    let ret = match &sig.output {
        Some(t) => t.clone(),
        None => "()".to_owned(),
    };
    Prologue { callee, generics: copy_strings(&sig.generics), args: forwarded_args(&sig.params), ret }
}

impl Item {
    /// The prologues that instrumenting this unit inserts, one entry per
    /// function in order.
    pub fn plan(&self) -> (r: Vec<Option<Prologue>>)
        ensures
            is_plan(*self, r@),
    {
        let mut r: Vec<Option<Prologue>> = Vec::new();
        match self {
            Item::Fn(sig) => {
                r.push(Some(prologue(Callee::Name(sig.name.clone()), sig)));
            },
            Item::Impl(trait_path, fns) => {
                let mut i: usize = 0;
                while i < fns.len()
                    invariant
                        i <= fns@.len(),
                        r@.len() == i,
                        forall|j: int|
                            0 <= j < i ==> #[trigger] r@[j] is Some && is_prologue(
                                r@[j]->0,
                                impl_callee(*trait_path, fns@[j].name),
                                fns@[j],
                            ),
                    decreases fns@.len() - i,
                {
                    let name = fns[i].name.clone();
                    let callee = match trait_path {
                        Some(path) => Callee::Qualified(path.clone(), name),
                        None => Callee::SelfMethod(name),
                    };
                    r.push(Some(prologue(callee, &fns[i])));
                    i = i + 1;
                }
            },
            Item::Trait(trait_name, fns) => {
                let mut i: usize = 0;
                while i < fns.len()
                    invariant
                        i <= fns@.len(),
                        r@.len() == i,
                        forall|j: int|
                            0 <= j < i ==> if fns@[j].has_default {
                                #[trigger] r@[j] is Some && is_prologue(
                                    r@[j]->0,
                                    Callee::Qualified(*trait_name, fns@[j].sig.name),
                                    fns@[j].sig,
                                )
                            } else {
                                r@[j] is None
                            },
                    decreases fns@.len() - i,
                {
                    if fns[i].has_default {
                        let callee = Callee::Qualified(trait_name.clone(), fns[i].sig.name.clone());
                        r.push(Some(prologue(callee, &fns[i].sig)));
                    } else {
                        r.push(None);
                    }
                    i = i + 1;
                }
            },
        }
        r
    }
}

} // verus!
