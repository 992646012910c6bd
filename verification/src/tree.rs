//! The tree model the pass works on.
//!
//! The pass recognizes a handful of syntactic shapes — static import
//! declarations, `require` calls used as a bare statement or as a variable
//! initializer — and ignores every other node. The model therefore keeps
//! exactly what the pass reads of each node as plain values, and collapses
//! everything it passes through unchanged into an `Other` variant.
//!
//! Each executable type has a ghost mirror (`...V`) over `Seq` and `nat`, so
//! that contracts can state the whole pass as a mathematical function.

use vstd::prelude::*;

verus! {

/// A static import declaration: `import <specifiers> from "<src>"`.
///
/// `specifiers` counts the bindings the declaration introduces; a bare
/// side-effect import `import "<src>"` has zero. Deleting the declaration is
/// modeled by emptying `src`: the invalid placeholder its containing list
/// filters out afterwards.
#[derive(Debug, PartialEq, Eq)]
pub struct ImportDecl {
    pub src: String,
    pub specifiers: usize,
}

/// The callee position of a call expression.
#[derive(Debug, PartialEq, Eq)]
pub enum Callee {
    /// A bare identifier, such as `require`.
    Ident(String),
    /// Any other callee shape.
    Other,
}

/// One argument of a call expression.
#[derive(Debug, PartialEq, Eq)]
pub enum Arg {
    /// A plain string literal.
    Str(String),
    /// Any other argument shape.
    Other,
}

/// A call expression: callee plus ordered arguments.
#[derive(Debug, PartialEq, Eq)]
pub struct CallExpr {
    pub callee: Callee,
    pub args: Vec<Arg>,
}

/// An expression, as far as the pass looks at one.
#[derive(Debug, PartialEq, Eq)]
pub enum Expr {
    Call(CallExpr),
    /// Any expression the pass leaves untouched.
    Other,
}

/// The binding pattern of a variable declarator.
#[derive(Debug, PartialEq, Eq)]
pub enum Pat {
    /// A plain name binding.
    Ident(String),
    /// The invalid placeholder a deleted binding is replaced with.
    Invalid,
    /// Any other pattern shape.
    Other,
}

/// One declarator of a variable declaration: `<name> = <init>`.
#[derive(Debug, PartialEq, Eq)]
pub struct VarDeclarator {
    pub name: Pat,
    pub init: Option<Expr>,
}

/// A variable declaration statement: an ordered list of declarators.
#[derive(Debug, PartialEq, Eq)]
pub struct VarDecl {
    pub decls: Vec<VarDeclarator>,
}

/// A statement, as far as the pass looks at one.
#[derive(Debug, PartialEq, Eq)]
pub enum Stmt {
    /// A variable declaration statement.
    VarDecl(VarDecl),
    /// An expression statement.
    Expr(Expr),
    /// The no-op placeholder a deleted statement is replaced with.
    Empty,
    /// Any statement the pass leaves untouched.
    Other,
}

/// One top-level entry of a module.
#[derive(Debug, PartialEq, Eq)]
pub enum ModuleItem {
    /// A static import declaration.
    Import(ImportDecl),
    /// A plain statement.
    Stmt(Stmt),
}

/// Ghost mirror of [`ImportDecl`].
pub struct ImportV {
    pub src: Seq<char>,
    pub specifiers: nat,
}

/// Ghost mirror of [`Callee`].
pub enum CalleeV {
    Ident(Seq<char>),
    Other,
}

/// Ghost mirror of [`Arg`].
pub enum ArgV {
    Str(Seq<char>),
    Other,
}

/// Ghost mirror of [`CallExpr`].
pub struct CallV {
    pub callee: CalleeV,
    pub args: Seq<ArgV>,
}

/// Ghost mirror of [`Expr`].
pub enum ExprV {
    Call(CallV),
    Other,
}

/// Ghost mirror of [`Pat`].
pub enum PatV {
    Ident(Seq<char>),
    Invalid,
    Other,
}

/// Ghost mirror of [`VarDeclarator`].
pub struct DeclaratorV {
    pub name: PatV,
    pub init: Option<ExprV>,
}

/// Ghost mirror of [`VarDecl`].
pub struct VarDeclV {
    pub decls: Seq<DeclaratorV>,
}

/// Ghost mirror of [`Stmt`].
pub enum StmtV {
    VarDecl(VarDeclV),
    Expr(ExprV),
    Empty,
    Other,
}

/// Ghost mirror of [`ModuleItem`].
pub enum ItemV {
    Import(ImportV),
    Stmt(StmtV),
}

impl View for ImportDecl {
    type V = ImportV;

    open spec fn view(&self) -> ImportV {
        ImportV { src: self.src@, specifiers: self.specifiers as nat }
    }
}

impl View for Callee {
    type V = CalleeV;

    open spec fn view(&self) -> CalleeV {
        match self {
            Callee::Ident(name) => CalleeV::Ident(name@),
            Callee::Other => CalleeV::Other,
        }
    }
}

impl View for Arg {
    type V = ArgV;

    open spec fn view(&self) -> ArgV {
        match self {
            Arg::Str(value) => ArgV::Str(value@),
            Arg::Other => ArgV::Other,
        }
    }
}

impl View for CallExpr {
    type V = CallV;

    open spec fn view(&self) -> CallV {
        CallV { callee: self.callee@, args: self.args@.map_values(|a: Arg| a@) }
    }
}

impl View for Expr {
    type V = ExprV;

    open spec fn view(&self) -> ExprV {
        match self {
            Expr::Call(call) => ExprV::Call(call@),
            Expr::Other => ExprV::Other,
        }
    }
}

impl View for Pat {
    type V = PatV;

    open spec fn view(&self) -> PatV {
        match self {
            Pat::Ident(name) => PatV::Ident(name@),
            Pat::Invalid => PatV::Invalid,
            Pat::Other => PatV::Other,
        }
    }
}

impl View for VarDeclarator {
    type V = DeclaratorV;

    open spec fn view(&self) -> DeclaratorV {
        DeclaratorV {
            name: self.name@,
            init: match self.init {
                Some(e) => Some(e@),
                None => None,
            },
        }
    }
}

impl View for VarDecl {
    type V = VarDeclV;

    open spec fn view(&self) -> VarDeclV {
        VarDeclV { decls: self.decls@.map_values(|d: VarDeclarator| d@) }
    }
}

impl View for Stmt {
    type V = StmtV;

    open spec fn view(&self) -> StmtV {
        match self {
            Stmt::VarDecl(decl) => StmtV::VarDecl(decl@),
            Stmt::Expr(e) => StmtV::Expr(e@),
            Stmt::Empty => StmtV::Empty,
            Stmt::Other => StmtV::Other,
        }
    }
}

impl View for ModuleItem {
    type V = ItemV;

    open spec fn view(&self) -> ItemV {
        match self {
            ModuleItem::Import(decl) => ItemV::Import(decl@),
            ModuleItem::Stmt(s) => ItemV::Stmt(s@),
        }
    }
}

/// The view of a declarator list, element by element.
pub open spec fn decls_view(decls: Seq<VarDeclarator>) -> Seq<DeclaratorV> {
    decls.map_values(|d: VarDeclarator| d@)
}

/// The view of a statement list, element by element.
pub open spec fn stmts_view(stmts: Seq<Stmt>) -> Seq<StmtV> {
    stmts.map_values(|s: Stmt| s@)
}

/// The view of a module-item list, element by element.
pub open spec fn items_view(items: Seq<ModuleItem>) -> Seq<ItemV> {
    items.map_values(|it: ModuleItem| it@)
}

/// A declarator a host grammar would emit: its binding is not the invalid
/// placeholder.
pub open spec fn declarator_wf(d: DeclaratorV) -> bool {
    !(d.name is Invalid)
}

/// A statement a host grammar would emit: no empty statement, and a variable
/// declaration has at least one declarator, none of them invalidated.
pub open spec fn stmt_wf(s: StmtV) -> bool {
    match s {
        StmtV::VarDecl(decl) => decl.decls.len() > 0 && forall|i: int|
            0 <= i < decl.decls.len() ==> declarator_wf(#[trigger] decl.decls[i]),
        StmtV::Expr(_) => true,
        StmtV::Empty => false,
        StmtV::Other => true,
    }
}

/// A module item a host grammar would emit: imports name a module, statements
/// are well formed.
pub open spec fn item_wf(it: ItemV) -> bool {
    match it {
        ItemV::Import(decl) => decl.src.len() > 0,
        ItemV::Stmt(s) => stmt_wf(s),
    }
}

/// Every statement of the list is well formed.
pub open spec fn stmts_wf(stmts: Seq<StmtV>) -> bool {
    forall|i: int| 0 <= i < stmts.len() ==> stmt_wf(#[trigger] stmts[i])
}

/// Every item of the list is well formed.
pub open spec fn items_wf(items: Seq<ItemV>) -> bool {
    forall|i: int| 0 <= i < items.len() ==> item_wf(#[trigger] items[i])
}

} // verus!
