//! The tree-visiting removal pass.
//!
//! A [`TransformVisitor`] walks the tree once, deletes every import-like node
//! the configured [`Matcher`] selects under the configured [`Remove`] policy,
//! and repairs the surrounding lists: deleted nodes are first replaced by an
//! invalid or empty placeholder, and each containing list then filters those
//! placeholders out. The whole pass is stated as a mathematical function
//! (`..._after`) of the input tree's view, and every visiting method is proved
//! to compute exactly that function.

use vstd::prelude::*;

use crate::matcher::Matcher;
use crate::matcher::spec_matches;
use crate::tree::Arg;
use crate::tree::ArgV;
use crate::tree::Callee;
use crate::tree::CalleeV;
use crate::tree::CallExpr;
use crate::tree::CallV;
use crate::tree::DeclaratorV;
use crate::tree::Expr;
use crate::tree::ExprV;
use crate::tree::ImportDecl;
use crate::tree::ImportV;
use crate::tree::ItemV;
use crate::tree::ModuleItem;
use crate::tree::Pat;
use crate::tree::PatV;
use crate::tree::Stmt;
use crate::tree::StmtV;
use crate::tree::VarDeclarator;
use crate::tree::VarDeclV;
use crate::tree::decls_view;
use crate::tree::items_view;
use crate::tree::stmts_view;

verus! {

/// The removal policy: delete every matching import, or only those whose sole
/// purpose is a side effect.
#[derive(Debug, PartialEq, Eq)]
pub enum Remove {
    /// Any matching import is deleted, bindings included (the default).
    All,
    /// Only matching imports that introduce no bindings are deleted.
    Effects,
}

impl Default for Remove {
    /// The default policy deletes every matching import.
    fn default() -> (r: Remove)
        ensures
            r == Remove::All,
    {
        Remove::All
    }
}

impl Default for Matcher {
    /// The default matcher matches nothing.
    fn default() -> (r: Matcher)
        ensures
            r == Matcher::Null,
    {
        Matcher::Null
    }
}

/// The whole configuration of one pass: which specifiers to select, and what
/// to remove. Immutable for the duration of the pass.
#[derive(Debug)]
pub struct TransformVisitor {
    /// Selects the imports that will be removed, by their specifier string.
    pub test: Matcher,
    /// The removal policy, used together with `test`.
    pub remove: Remove,
}

/// The shared predicate over call expressions: the callee is the bare
/// identifier `require`, there is exactly one argument, that argument is a
/// plain string literal, and the configured matcher matches its value.
pub open spec fn spec_is_import_call(cfg: TransformVisitor, c: CallV) -> bool {
    &&& c.callee matches CalleeV::Ident(name) && name == "require"@
    &&& c.args.len() == 1
    &&& c.args[0] matches ArgV::Str(value) && spec_matches(cfg.test, value)
}

/// Whether a static import declaration is deleted: its specifier matches,
/// and under the `Effects` policy it introduces no bindings.
pub open spec fn import_removed(cfg: TransformVisitor, d: ImportV) -> bool {
    &&& spec_matches(cfg.test, d.src)
    &&& cfg.remove is Effects ==> d.specifiers == 0
}

/// A deleted import declaration becomes the empty placeholder; any other is
/// left untouched.
pub open spec fn import_decl_after(cfg: TransformVisitor, d: ImportV) -> ImportV {
    if import_removed(cfg, d) {
        ImportV { src: Seq::empty(), specifiers: 0 }
    } else {
        d
    }
}

/// Whether a declarator's binding is invalidated: its initializer is exactly
/// a matching `require` call and the policy is not `Effects` (a bound call is
/// never a pure side-effect import, so `Effects` preserves it).
pub open spec fn declarator_invalidated(cfg: TransformVisitor, d: DeclaratorV) -> bool {
    &&& d.init matches Some(e)
    &&& e matches ExprV::Call(c)
    &&& spec_is_import_call(cfg, c)
    &&& !(cfg.remove is Effects)
}

/// An invalidated declarator keeps its initializer but loses its binding
/// name; any other is left untouched.
pub open spec fn declarator_after(cfg: TransformVisitor, d: DeclaratorV) -> DeclaratorV {
    if declarator_invalidated(cfg, d) {
        DeclaratorV { name: PatV::Invalid, init: d.init }
    } else {
        d
    }
}

/// A declarator list after the pass: each declarator is visited, then every
/// declarator whose binding is the invalid placeholder is dropped. The order
/// of the remaining declarators is preserved.
pub open spec fn declarators_after(cfg: TransformVisitor, ds: Seq<DeclaratorV>) -> Seq<
    DeclaratorV,
>
    decreases ds.len(),
{
    if ds.len() == 0 {
        Seq::empty()
    } else {
        let rest = declarators_after(cfg, ds.drop_last());
        let d = declarator_after(cfg, ds.last());
        if d.name is Invalid {
            rest
        } else {
            rest.push(d)
        }
    }
}

/// Whether a statement is exactly a matching bare `require` call. Such a
/// statement binds nothing, so it is deleted under both policies.
pub open spec fn stmt_is_removable_call(cfg: TransformVisitor, s: StmtV) -> bool {
    &&& s matches StmtV::Expr(e)
    &&& e matches ExprV::Call(c)
    &&& spec_is_import_call(cfg, c)
}

/// A statement after the pass: a variable declaration whose declarator list
/// became empty collapses to the empty statement, a matching bare `require`
/// call statement is deleted, everything else is left untouched.
pub open spec fn stmt_after(cfg: TransformVisitor, s: StmtV) -> StmtV {
    match s {
        StmtV::VarDecl(decl) => {
            let kept = declarators_after(cfg, decl.decls);
            if kept.len() == 0 {
                StmtV::Empty
            } else {
                StmtV::VarDecl(VarDeclV { decls: kept })
            }
        },
        StmtV::Expr(_) => if stmt_is_removable_call(cfg, s) {
            StmtV::Empty
        } else {
            s
        },
        StmtV::Empty => StmtV::Empty,
        StmtV::Other => StmtV::Other,
    }
}

/// A statement list after the pass: each statement is visited, then every
/// empty statement is dropped.
pub open spec fn stmts_after(cfg: TransformVisitor, ss: Seq<StmtV>) -> Seq<StmtV>
    decreases ss.len(),
{
    if ss.len() == 0 {
        Seq::empty()
    } else {
        let rest = stmts_after(cfg, ss.drop_last());
        let s = stmt_after(cfg, ss.last());
        if s is Empty {
            rest
        } else {
            rest.push(s)
        }
    }
}

/// A module item after its subtree has been visited.
pub open spec fn item_after(cfg: TransformVisitor, it: ItemV) -> ItemV {
    match it {
        ItemV::Import(d) => ItemV::Import(import_decl_after(cfg, d)),
        ItemV::Stmt(s) => ItemV::Stmt(stmt_after(cfg, s)),
    }
}

/// Whether a visited module item stays in its list: import declarations must
/// still name a module, statements must not be empty.
pub open spec fn item_kept(it: ItemV) -> bool {
    match it {
        ItemV::Import(d) => d.src.len() > 0,
        ItemV::Stmt(s) => !(s is Empty),
    }
}

/// A module-item list after the pass: each item's subtree is visited, then
/// every placeholder left behind by a deletion is dropped.
pub open spec fn items_after(cfg: TransformVisitor, items: Seq<ItemV>) -> Seq<ItemV>
    decreases items.len(),
{
    if items.len() == 0 {
        Seq::empty()
    } else {
        let rest = items_after(cfg, items.drop_last());
        let it = item_after(cfg, items.last());
        if item_kept(it) {
            rest.push(it)
        } else {
            rest
        }
    }
}

impl TransformVisitor {
    /// The shared `require`-call test, used both for bare call statements and
    /// for declarator initializers.
    pub fn is_need_remove_call(&self, call: &CallExpr) -> (r: bool)
        ensures
            r == spec_is_import_call(*self, call@),
    {
        match &call.callee {
            Callee::Ident(call_name) => {
                let require_name: String = "require".to_owned();
                if !(*call_name == require_name) {
                    return false;
                }
                if call.args.len() != 1 {
                    return false;
                }
                match &call.args[0] {
                    Arg::Str(value) => self.test.matches(value.as_str()),
                    Arg::Other => false,
                }
            },
            Callee::Other => false,
        }
    }

    /// Visit a static import declaration: if the matcher selects it and the
    /// policy allows its deletion, replace it by the empty placeholder its
    /// containing list will filter out.
    pub fn visit_mut_import_decl(&self, n: &mut ImportDecl)
        ensures
            final(n)@ == import_decl_after(*self, old(n)@),
    {
        if !self.test.matches(n.src.as_str()) {
            return ;
        }
        match &self.remove {
            Remove::Effects => {
                if n.specifiers == 0 {
                    n.src = String::new();
                }
            },
            Remove::All => {
                n.src = String::new();
                n.specifiers = 0;
            },
        }
    }

    /// Visit one variable declarator: when its initializer is exactly a
    /// matching `require` call and the policy is `All`, invalidate its
    /// binding name; the declarator list filters it out afterwards.
    pub fn visit_mut_var_declarator(&self, v: &mut VarDeclarator)
        ensures
            final(v)@ == declarator_after(*self, old(v)@),
    {
        let invalidate = match &v.init {
            Some(Expr::Call(call)) => {
                if self.is_need_remove_call(call) {
                    match &self.remove {
                        Remove::Effects => false,
                        Remove::All => true,
                    }
                } else {
                    false
                }
            },
            _ => false,
        };
        if invalidate {
            v.name = Pat::Invalid;
        }
    }

    /// Visit a declarator list: visit each declarator, then drop every
    /// declarator whose binding was invalidated, keeping the order of the
    /// rest.
    pub fn visit_mut_var_declarators(&self, vars: &mut Vec<VarDeclarator>)
        ensures
            decls_view(final(vars)@) == declarators_after(*self, decls_view(old(vars)@)),
    {
        let ghost orig: Seq<DeclaratorV> = decls_view(vars@);
        let ghost mut done: Seq<DeclaratorV> = Seq::empty();
        let mut out: Vec<VarDeclarator> = Vec::new();
        proof {
            assert(orig == done + decls_view(vars@));
            assert(decls_view(out@) =~= declarators_after(*self, done));
        }
        while vars.len() > 0
            invariant
                orig == done + decls_view(vars@),
                decls_view(out@) == declarators_after(*self, done),
            decreases vars.len(),
        {
            let ghost pre = vars@;
            let mut d = vars.remove(0);
            proof {
                assert(decls_view(pre) =~= seq![d@] + decls_view(vars@));
            }
            self.visit_mut_var_declarator(&mut d);
            let keep = match &d.name {
                Pat::Invalid => false,
                _ => true,
            };
            proof {
                lemma_declarators_after_push(*self, done, pre[0]@);
                assert(done.push(pre[0]@) + decls_view(vars@) =~= orig);
            }
            if keep {
                out.push(d);
            }
            proof {
                done = done.push(pre[0]@);
                assert(decls_view(out@) =~= declarators_after(*self, done));
            }
        }
        proof {
            assert(done =~= orig);
        }
        *vars = out;
    }

    /// Visit one statement, after its children: collapse a variable
    /// declaration whose declarator list became empty, delete a matching bare
    /// `require` call statement.
    pub fn visit_mut_stmt(&self, s: &mut Stmt)
        ensures
            final(s)@ == stmt_after(*self, old(s)@),
    {
        let mut taken = Stmt::Empty;
        core::mem::swap(s, &mut taken);
        let visited = self.stmt_step(taken);
        *s = visited;
    }

    /// The by-value form of [`Self::visit_mut_stmt`].
    fn stmt_step(&self, s: Stmt) -> (r: Stmt)
        ensures
            r@ == stmt_after(*self, s@),
    {
        match s {
            Stmt::VarDecl(decl) => {
                let mut decl = decl;
                self.visit_mut_var_declarators(&mut decl.decls);
                if decl.decls.len() == 0 {
                    Stmt::Empty
                } else {
                    Stmt::VarDecl(decl)
                }
            },
            Stmt::Expr(e) => {
                let remove_it = match &e {
                    Expr::Call(call) => self.is_need_remove_call(call),
                    Expr::Other => false,
                };
                if remove_it {
                    Stmt::Empty
                } else {
                    Stmt::Expr(e)
                }
            },
            Stmt::Empty => Stmt::Empty,
            Stmt::Other => Stmt::Other,
        }
    }

    /// Visit a statement list: visit each statement, then drop every empty
    /// statement left behind.
    pub fn visit_mut_stmts(&self, stmts: &mut Vec<Stmt>)
        ensures
            stmts_view(final(stmts)@) == stmts_after(*self, stmts_view(old(stmts)@)),
    {
        let ghost orig: Seq<StmtV> = stmts_view(stmts@);
        let ghost mut done: Seq<StmtV> = Seq::empty();
        let mut out: Vec<Stmt> = Vec::new();
        proof {
            assert(orig == done + stmts_view(stmts@));
            assert(stmts_view(out@) =~= stmts_after(*self, done));
        }
        while stmts.len() > 0
            invariant
                orig == done + stmts_view(stmts@),
                stmts_view(out@) == stmts_after(*self, done),
            decreases stmts.len(),
        {
            let ghost pre = stmts@;
            let s = stmts.remove(0);
            proof {
                assert(stmts_view(pre) =~= seq![s@] + stmts_view(stmts@));
            }
            let s2 = self.stmt_step(s);
            let keep = match &s2 {
                Stmt::Empty => false,
                _ => true,
            };
            proof {
                lemma_stmts_after_push(*self, done, pre[0]@);
                assert(done.push(pre[0]@) + stmts_view(stmts@) =~= orig);
            }
            if keep {
                out.push(s2);
            }
            proof {
                done = done.push(pre[0]@);
                assert(stmts_view(out@) =~= stmts_after(*self, done));
            }
        }
        proof {
            assert(done =~= orig);
        }
        *stmts = out;
    }

    /// The by-value visit of one module item's subtree.
    fn item_step(&self, it: ModuleItem) -> (r: ModuleItem)
        ensures
            r@ == item_after(*self, it@),
    {
        match it {
            ModuleItem::Import(decl) => {
                let mut decl = decl;
                self.visit_mut_import_decl(&mut decl);
                ModuleItem::Import(decl)
            },
            ModuleItem::Stmt(s) => ModuleItem::Stmt(self.stmt_step(s)),
        }
    }

    /// Visit a module-item list: visit each item's subtree, then drop every
    /// import declaration whose specifier became empty and every empty
    /// statement.
    pub fn visit_mut_module_items(&self, items: &mut Vec<ModuleItem>)
        ensures
            items_view(final(items)@) == items_after(*self, items_view(old(items)@)),
    {
        let ghost orig: Seq<ItemV> = items_view(items@);
        let ghost mut done: Seq<ItemV> = Seq::empty();
        let mut out: Vec<ModuleItem> = Vec::new();
        proof {
            assert(orig == done + items_view(items@));
            assert(items_view(out@) =~= items_after(*self, done));
        }
        while items.len() > 0
            invariant
                orig == done + items_view(items@),
                items_view(out@) == items_after(*self, done),
            decreases items.len(),
        {
            let ghost pre = items@;
            let it = items.remove(0);
            proof {
                assert(items_view(pre) =~= seq![it@] + items_view(items@));
            }
            let it2 = self.item_step(it);
            let keep = match &it2 {
                ModuleItem::Import(decl) => !decl.src.as_str().is_empty(),
                ModuleItem::Stmt(Stmt::Empty) => false,
                ModuleItem::Stmt(_) => true,
            };
            proof {
                lemma_items_after_push(*self, done, pre[0]@);
                assert(done.push(pre[0]@) + items_view(items@) =~= orig);
            }
            if keep {
                out.push(it2);
            }
            proof {
                done = done.push(pre[0]@);
                assert(items_view(out@) =~= items_after(*self, done));
            }
        }
        proof {
            assert(done =~= orig);
        }
        *items = out;
    }
}

/// Unfolds [`declarators_after`] over a `push` at the end of the list.
pub proof fn lemma_declarators_after_push(
    cfg: TransformVisitor,
    ds: Seq<DeclaratorV>,
    d: DeclaratorV,
)
    ensures
        declarators_after(cfg, ds.push(d)) == if declarator_after(cfg, d).name is Invalid {
            declarators_after(cfg, ds)
        } else {
            declarators_after(cfg, ds).push(declarator_after(cfg, d))
        },
{
    assert(ds.push(d).drop_last() =~= ds);
    assert(ds.push(d).last() == d);
}

/// Unfolds [`stmts_after`] over a `push` at the end of the list.
pub proof fn lemma_stmts_after_push(cfg: TransformVisitor, ss: Seq<StmtV>, s: StmtV)
    ensures
        stmts_after(cfg, ss.push(s)) == if stmt_after(cfg, s) is Empty {
            stmts_after(cfg, ss)
        } else {
            stmts_after(cfg, ss).push(stmt_after(cfg, s))
        },
{
    assert(ss.push(s).drop_last() =~= ss);
    assert(ss.push(s).last() == s);
}

/// Unfolds [`items_after`] over a `push` at the end of the list.
pub proof fn lemma_items_after_push(cfg: TransformVisitor, items: Seq<ItemV>, it: ItemV)
    ensures
        items_after(cfg, items.push(it)) == if item_kept(item_after(cfg, it)) {
            items_after(cfg, items).push(item_after(cfg, it))
        } else {
            items_after(cfg, items)
        },
{
    assert(items.push(it).drop_last() =~= items);
    assert(items.push(it).last() == it);
}

} // verus!
