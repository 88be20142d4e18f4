//! Kinds of syntax positions, how a position is classified, and which
//! decorations each kind of position accepts.
use vstd::prelude::*;
use crate::vocab::Category;

verus! {

#[derive(Clone, Copy, Debug, PartialEq, Eq, Structural)]
pub enum MethodKind {
    Trait { body: bool },
    Inherent,
}

#[derive(Clone, Copy, Debug, PartialEq, Eq, Structural)]
pub enum GenericParamKind {
    Type,
    Lifetime,
    Const,
}

/// The kind of a syntax position that can carry decorations.
#[derive(Clone, Copy, Debug, PartialEq, Eq, Structural)]
pub enum Target {
    ExternCrate,
    Use,
    Static,
    Const,
    Fn,
    Closure,
    Mod,
    ForeignMod,
    GlobalAsm,
    TyAlias,
    OpaqueTy,
    Enum,
    Variant,
    Struct,
    Field,
    Union,
    Trait,
    TraitAlias,
    Impl,
    Expression,
    Statement,
    Arm,
    AssocConst,
    Method(MethodKind),
    AssocTy,
    ForeignFn,
    ForeignStatic,
    ForeignTy,
    GenericParam(GenericParamKind),
    MacroDef,
    Param,
}

impl Target {
    pub open spec fn spec_describe(self) -> Seq<char> {
        match self {
            Target::ExternCrate => "extern crate"@,
            Target::Use => "use"@,
            Target::Static => "static item"@,
            Target::Const => "constant item"@,
            Target::Fn => "function"@,
            Target::Closure => "closure"@,
            Target::Mod => "module"@,
            Target::ForeignMod => "foreign module"@,
            Target::GlobalAsm => "global asm"@,
            Target::TyAlias => "type alias"@,
            Target::OpaqueTy => "opaque type"@,
            Target::Enum => "enum"@,
            Target::Variant => "enum variant"@,
            Target::Struct => "struct"@,
            Target::Field => "struct field"@,
            Target::Union => "union"@,
            Target::Trait => "trait"@,
            Target::TraitAlias => "trait alias"@,
            Target::Impl => "item"@,
            Target::Expression => "expression"@,
            Target::Statement => "statement"@,
            Target::Arm => "match arm"@,
            Target::AssocConst => "associated const"@,
            Target::Method(_) => "method"@,
            Target::AssocTy => "associated type"@,
            Target::ForeignFn => "foreign function"@,
            Target::ForeignStatic => "foreign static item"@,
            Target::ForeignTy => "foreign type"@,
            Target::GenericParam(k) => match k {
                GenericParamKind::Type => "type parameter"@,
                GenericParamKind::Lifetime => "lifetime parameter"@,
                GenericParamKind::Const => "const parameter"@,
            },
            Target::MacroDef => "macro def"@,
            Target::Param => "function param"@,
        }
    }

    /// How a diagnostic names this kind of position.
    pub fn describe(self) -> (r: &'static str)
        ensures
            r@ == self.spec_describe(),
    {
        match self {
            Target::ExternCrate => "extern crate",
            Target::Use => "use",
            Target::Static => "static item",
            Target::Const => "constant item",
            Target::Fn => "function",
            Target::Closure => "closure",
            Target::Mod => "module",
            Target::ForeignMod => "foreign module",
            Target::GlobalAsm => "global asm",
            Target::TyAlias => "type alias",
            Target::OpaqueTy => "opaque type",
            Target::Enum => "enum",
            Target::Variant => "enum variant",
            Target::Struct => "struct",
            Target::Field => "struct field",
            Target::Union => "union",
            Target::Trait => "trait",
            Target::TraitAlias => "trait alias",
            Target::Impl => "item",
            Target::Expression => "expression",
            Target::Statement => "statement",
            Target::Arm => "match arm",
            Target::AssocConst => "associated const",
            Target::Method(_) => "method",
            Target::AssocTy => "associated type",
            Target::ForeignFn => "foreign function",
            Target::ForeignStatic => "foreign static item",
            Target::ForeignTy => "foreign type",
            Target::GenericParam(k) => match k {
                GenericParamKind::Type => "type parameter",
                GenericParamKind::Lifetime => "lifetime parameter",
                GenericParamKind::Const => "const parameter",
            },
            Target::MacroDef => "macro def",
            Target::Param => "function param",
        }
    }
}

/// The kinds of members of an implementation block.
#[derive(Clone, Copy, Debug, PartialEq, Eq, Structural)]
pub enum ImplItemKind {
    Const,
    Fn,
    TyAlias,
}

pub open spec fn spec_target_from_impl_item(kind: ImplItemKind, impl_is_for_trait: bool) -> Target {
    match kind {
        ImplItemKind::Const => Target::AssocConst,
        ImplItemKind::Fn => if impl_is_for_trait {
            Target::Method(MethodKind::Trait { body: true })
        } else {
            Target::Method(MethodKind::Inherent)
        },
        ImplItemKind::TyAlias => Target::AssocTy,
    }
}

/// Classifies a member of an implementation block; a method's kind depends
/// on whether the enclosing block implements a trait.
pub fn target_from_impl_item(kind: ImplItemKind, impl_is_for_trait: bool) -> (r: Target)
    ensures
        r == spec_target_from_impl_item(kind, impl_is_for_trait),
{
    match kind {
        ImplItemKind::Const => Target::AssocConst,
        ImplItemKind::Fn => {
            if impl_is_for_trait {
                Target::Method(MethodKind::Trait { body: true })
            } else {
                Target::Method(MethodKind::Inherent)
            }
        },
        ImplItemKind::TyAlias => Target::AssocTy,
    }
}

/// Classifies an expression: closures apart from all others.
pub fn target_from_expr(is_closure: bool) -> (r: Target)
    ensures
        r == (if is_closure { Target::Closure } else { Target::Expression }),
{
    if is_closure {
        Target::Closure
    } else {
        Target::Expression
    }
}

/// The class of positions a decoration was expected on.
#[derive(Clone, Copy, Debug, PartialEq, Eq, Structural)]
pub enum Expected {
    Struct,
    Function,
    FunctionParameter,
    FunctionOrClosure,
}

impl Expected {
    pub open spec fn spec_describe(self) -> Seq<char> {
        match self {
            Expected::Struct => "struct"@,
            Expected::Function => "function"@,
            Expected::FunctionParameter => "function parameter"@,
            Expected::FunctionOrClosure => "function or closure"@,
        }
    }

    pub fn describe(self) -> (r: &'static str)
        ensures
            r@ == self.spec_describe(),
    {
        match self {
            Expected::Struct => "struct",
            Expected::Function => "function",
            Expected::FunctionParameter => "function parameter",
            Expected::FunctionOrClosure => "function or closure",
        }
    }
}

/// The kinds of positions on which a category of decoration is legal.
pub open spec fn legal_targets(c: Category) -> Set<Target> {
    match c {
        Category::IntrinsicType | Category::Block => set![Target::Struct],
        Category::Entry => set![
            Target::Fn,
            Target::Method(MethodKind::Trait { body: true }),
            Target::Method(MethodKind::Inherent),
        ],
        Category::StorageClass | Category::Builtin | Category::DescriptorSet | Category::Binding
        | Category::Flat => set![Target::Param],
        Category::UnrollLoops => set![
            Target::Fn,
            Target::Closure,
            Target::Method(MethodKind::Trait { body: true }),
            Target::Method(MethodKind::Inherent),
        ],
    }
}

/// The class of positions named when a category is found out of place.
pub open spec fn expected_for(c: Category) -> Expected {
    match c {
        Category::IntrinsicType | Category::Block => Expected::Struct,
        Category::Entry => Expected::Function,
        Category::StorageClass | Category::Builtin | Category::DescriptorSet | Category::Binding
        | Category::Flat => Expected::FunctionParameter,
        Category::UnrollLoops => Expected::FunctionOrClosure,
    }
}

/// Whether a decoration of category `c` may stand on a position of kind
/// `target`; if not, the class of positions it belongs on.
pub fn check_target(c: Category, target: Target) -> (r: Result<(), Expected>)
    ensures
        r is Ok <==> legal_targets(c).contains(target),
        r is Err ==> r == Err::<(), Expected>(expected_for(c)),
{
    match c {
        Category::IntrinsicType | Category::Block => match target {
            Target::Struct => Ok(()),
            _ => Err(Expected::Struct),
        },
        Category::Entry => match target {
            Target::Fn | Target::Method(MethodKind::Trait { body: true }) | Target::Method(
                MethodKind::Inherent,
            ) => Ok(()),
            _ => Err(Expected::Function),
        },
        Category::StorageClass | Category::Builtin | Category::DescriptorSet | Category::Binding
        | Category::Flat => match target {
            Target::Param => Ok(()),
            _ => Err(Expected::FunctionParameter),
        },
        Category::UnrollLoops => match target {
            Target::Fn | Target::Closure | Target::Method(MethodKind::Trait { body: true })
            | Target::Method(MethodKind::Inherent) => Ok(()),
            _ => Err(Expected::FunctionOrClosure),
        },
    }
}

} // verus!
