//! Proved properties of the pass as a whole, stated over the mathematical
//! pass functions of [`crate::transform`].

use vstd::prelude::*;

use crate::matcher::Matcher;
use crate::matcher::spec_matches;
use crate::transform::Remove;
use crate::transform::TransformVisitor;
use crate::transform::declarator_after;
use crate::transform::declarators_after;
use crate::transform::import_decl_after;
use crate::transform::import_removed;
use crate::transform::item_after;
use crate::transform::item_kept;
use crate::transform::items_after;
use crate::transform::lemma_declarators_after_push;
use crate::transform::lemma_items_after_push;
use crate::transform::lemma_stmts_after_push;
use crate::transform::stmt_after;
use crate::tree::DeclaratorV;
use crate::tree::ImportV;
use crate::tree::ItemV;
use crate::tree::StmtV;
use crate::tree::declarator_wf;
use crate::tree::item_wf;
use crate::tree::items_wf;
use crate::tree::stmt_wf;
use crate::tree::stmts_wf;

verus! {

/// The null matcher matches no string at all.
pub proof fn lemma_null_matches_nothing(text: Seq<char>)
    ensures
        !spec_matches(Matcher::Null, text),
{
}

/// Every declarator surviving the pass still has a valid binding name.
proof fn lemma_declarators_after_wf(cfg: TransformVisitor, ds: Seq<DeclaratorV>)
    ensures
        forall|i: int|
            0 <= i < declarators_after(cfg, ds).len() ==> declarator_wf(
                #[trigger] declarators_after(cfg, ds)[i],
            ),
    decreases ds.len(),
{
    if ds.len() > 0 {
        lemma_declarators_after_wf(cfg, ds.drop_last());
        let rest = declarators_after(cfg, ds.drop_last());
        let d = declarator_after(cfg, ds.last());
        assert forall|i: int|
            0 <= i < declarators_after(cfg, ds).len() implies declarator_wf(
            declarators_after(cfg, ds)[i],
        ) by {
            if !(d.name is Invalid) && i == rest.len() {
                assert(declarators_after(cfg, ds)[i] == d);
            } else {
                assert(declarators_after(cfg, ds)[i] == rest[i]);
            }
        }
    }
}

/// A visited statement is either the empty placeholder or well formed.
proof fn lemma_stmt_after_wf(cfg: TransformVisitor, s: StmtV)
    ensures
        stmt_after(cfg, s) is Empty || stmt_wf(stmt_after(cfg, s)),
{
    match s {
        StmtV::VarDecl(decl) => {
            lemma_declarators_after_wf(cfg, decl.decls);
        },
        _ => {},
    }
}

/// Structural validity of statement lists: whatever the input, the output
/// list holds no empty statement and no variable declaration without a
/// binding, so the pass never emits a malformed statement.
pub proof fn lemma_stmts_structural_validity(cfg: TransformVisitor, ss: Seq<StmtV>)
    ensures
        stmts_wf(crate::transform::stmts_after(cfg, ss)),
    decreases ss.len(),
{
    if ss.len() > 0 {
        lemma_stmts_structural_validity(cfg, ss.drop_last());
        lemma_stmt_after_wf(cfg, ss.last());
    }
}

/// Structural validity: for every input tree and every configuration, the
/// output holds no variable declaration with zero declarators, no empty
/// statement, and no import declaration with an empty specifier.
pub proof fn lemma_structural_validity(cfg: TransformVisitor, items: Seq<ItemV>)
    ensures
        items_wf(items_after(cfg, items)),
    decreases items.len(),
{
    if items.len() > 0 {
        lemma_structural_validity(cfg, items.drop_last());
        match items.last() {
            ItemV::Stmt(s) => {
                lemma_stmt_after_wf(cfg, s);
            },
            ItemV::Import(_) => {},
        }
    }
}

/// Visiting one declarator twice is the same as visiting it once.
proof fn lemma_declarator_after_idempotent(cfg: TransformVisitor, d: DeclaratorV)
    ensures
        declarator_after(cfg, declarator_after(cfg, d)) == declarator_after(cfg, d),
{
}

/// Visiting a declarator list twice is the same as visiting it once: every
/// surviving declarator is untouched and keeps its binding.
proof fn lemma_declarators_after_idempotent(cfg: TransformVisitor, ds: Seq<DeclaratorV>)
    ensures
        declarators_after(cfg, declarators_after(cfg, ds)) == declarators_after(cfg, ds),
    decreases ds.len(),
{
    if ds.len() > 0 {
        lemma_declarators_after_idempotent(cfg, ds.drop_last());
        let rest = declarators_after(cfg, ds.drop_last());
        let d = declarator_after(cfg, ds.last());
        if !(d.name is Invalid) {
            lemma_declarator_after_idempotent(cfg, ds.last());
            lemma_declarators_after_push(cfg, rest, d);
        }
    }
}

/// Visiting one statement twice is the same as visiting it once.
proof fn lemma_stmt_after_idempotent(cfg: TransformVisitor, s: StmtV)
    ensures
        stmt_after(cfg, stmt_after(cfg, s)) == stmt_after(cfg, s),
{
    match s {
        StmtV::VarDecl(decl) => {
            lemma_declarators_after_idempotent(cfg, decl.decls);
        },
        _ => {},
    }
}

/// Visiting one import declaration twice is the same as visiting it once.
proof fn lemma_import_decl_after_idempotent(cfg: TransformVisitor, d: ImportV)
    ensures
        import_decl_after(cfg, import_decl_after(cfg, d)) == import_decl_after(cfg, d),
{
}

/// Idempotence over statement lists: running the pass again on an already
/// rewritten list changes nothing.
pub proof fn lemma_stmts_idempotent(cfg: TransformVisitor, ss: Seq<StmtV>)
    ensures
        crate::transform::stmts_after(cfg, crate::transform::stmts_after(cfg, ss))
            == crate::transform::stmts_after(cfg, ss),
    decreases ss.len(),
{
    if ss.len() > 0 {
        lemma_stmts_idempotent(cfg, ss.drop_last());
        let rest = crate::transform::stmts_after(cfg, ss.drop_last());
        let s = stmt_after(cfg, ss.last());
        if !(s is Empty) {
            lemma_stmt_after_idempotent(cfg, ss.last());
            lemma_stmts_after_push(cfg, rest, s);
        }
    }
}

/// Idempotence: running the pass twice with the same configuration yields
/// the same tree as running it once — after one pass, every matching
/// import-like node is gone and every placeholder has been filtered out.
pub proof fn lemma_idempotent(cfg: TransformVisitor, items: Seq<ItemV>)
    ensures
        items_after(cfg, items_after(cfg, items)) == items_after(cfg, items),
    decreases items.len(),
{
    if items.len() > 0 {
        lemma_idempotent(cfg, items.drop_last());
        let rest = items_after(cfg, items.drop_last());
        let it = item_after(cfg, items.last());
        if item_kept(it) {
            match items.last() {
                ItemV::Import(d) => {
                    lemma_import_decl_after_idempotent(cfg, d);
                },
                ItemV::Stmt(s) => {
                    lemma_stmt_after_idempotent(cfg, s);
                },
            }
            lemma_items_after_push(cfg, rest, it);
        }
    }
}

/// With a matcher that matches nothing, visiting leaves every well-formed
/// declarator list unchanged.
proof fn lemma_declarators_after_noop(cfg: TransformVisitor, ds: Seq<DeclaratorV>)
    requires
        forall|t: Seq<char>| !spec_matches(cfg.test, t),
        forall|i: int| 0 <= i < ds.len() ==> declarator_wf(#[trigger] ds[i]),
    ensures
        declarators_after(cfg, ds) == ds,
    decreases ds.len(),
{
    if ds.len() > 0 {
        lemma_declarators_after_noop(cfg, ds.drop_last());
        assert(declarators_after(cfg, ds) =~= ds);
    }
}

/// With a matcher that matches nothing, visiting leaves every well-formed
/// statement unchanged.
proof fn lemma_stmt_after_noop(cfg: TransformVisitor, s: StmtV)
    requires
        forall|t: Seq<char>| !spec_matches(cfg.test, t),
        stmt_wf(s),
    ensures
        stmt_after(cfg, s) == s,
{
    match s {
        StmtV::VarDecl(decl) => {
            lemma_declarators_after_noop(cfg, decl.decls);
            assert(crate::tree::VarDeclV { decls: declarators_after(cfg, decl.decls) } == decl);
        },
        _ => {},
    }
}

/// Non-matching is a no-op over statement lists: with a matcher that matches
/// nothing, a well-formed list comes out structurally identical.
pub proof fn lemma_stmts_noop(cfg: TransformVisitor, ss: Seq<StmtV>)
    requires
        forall|t: Seq<char>| !spec_matches(cfg.test, t),
        stmts_wf(ss),
    ensures
        crate::transform::stmts_after(cfg, ss) == ss,
    decreases ss.len(),
{
    if ss.len() > 0 {
        lemma_stmts_noop(cfg, ss.drop_last());
        lemma_stmt_after_noop(cfg, ss.last());
        assert(crate::transform::stmts_after(cfg, ss) =~= ss);
    }
}

/// Non-matching is a no-op: with a matcher that matches nothing — the null
/// matcher, for one — a well-formed tree comes out structurally identical.
/// Well-formedness only rules out placeholder nodes a host grammar never
/// emits: a pre-existing empty statement would be swept even with no match.
pub proof fn lemma_noop(cfg: TransformVisitor, items: Seq<ItemV>)
    requires
        forall|t: Seq<char>| !spec_matches(cfg.test, t),
        items_wf(items),
    ensures
        items_after(cfg, items) == items,
    decreases items.len(),
{
    if items.len() > 0 {
        lemma_noop(cfg, items.drop_last());
        match items.last() {
            ItemV::Stmt(s) => {
                lemma_stmt_after_noop(cfg, s);
            },
            ItemV::Import(_) => {},
        }
        assert(items_after(cfg, items) =~= items);
    }
}

/// The default configuration — the null matcher — leaves every well-formed
/// tree structurally identical, whatever the policy.
pub proof fn lemma_null_config_noop(remove: Remove, items: Seq<ItemV>)
    requires
        items_wf(items),
    ensures
        items_after(TransformVisitor { test: Matcher::Null, remove }, items) == items,
{
    lemma_noop(TransformVisitor { test: Matcher::Null, remove }, items);
}

/// Policy distinction, on one import declaration: an import with zero
/// bindings is deleted under both policies; an import that binds at least
/// one name is deleted under `All` but preserved unchanged under `Effects`.
pub proof fn lemma_policy_distinction(m: Matcher, d: ImportV)
    requires
        spec_matches(m, d.src),
        d.src.len() > 0,
    ensures
        import_removed(TransformVisitor { test: m, remove: Remove::All }, d),
        d.specifiers == 0 ==> import_removed(
            TransformVisitor { test: m, remove: Remove::Effects },
            d,
        ),
        items_after(
            TransformVisitor { test: m, remove: Remove::All },
            seq![ItemV::Import(d)],
        ) == Seq::<ItemV>::empty(),
        d.specifiers == 0 ==> items_after(
            TransformVisitor { test: m, remove: Remove::Effects },
            seq![ItemV::Import(d)],
        ) == Seq::<ItemV>::empty(),
        d.specifiers > 0 ==> items_after(
            TransformVisitor { test: m, remove: Remove::Effects },
            seq![ItemV::Import(d)],
        ) == seq![ItemV::Import(d)],
{
    let one = seq![ItemV::Import(d)];
    assert(one.drop_last() =~= Seq::<ItemV>::empty());
    let all = TransformVisitor { test: m, remove: Remove::All };
    let eff = TransformVisitor { test: m, remove: Remove::Effects };
    assert(items_after(all, one.drop_last()) =~= Seq::<ItemV>::empty());
    assert(items_after(eff, one.drop_last()) =~= Seq::<ItemV>::empty());
    assert(one.last() == ItemV::Import(d));
    assert(items_after(all, one) =~= Seq::<ItemV>::empty());
    if d.specifiers == 0 {
        assert(items_after(eff, one) =~= Seq::<ItemV>::empty());
    } else {
        assert(items_after(eff, one) =~= one);
    }
}

} // verus!
