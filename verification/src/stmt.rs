//! Statements: the top-level entries of a ninja document, and the
//! document rendering algorithm.

use crate::arg::string_models;
use crate::build_edge::{spec_render_build, spec_render_items, append_items, Build, BuildModel};
use crate::pool::{spec_render_pool, Pool, PoolModel};
use crate::rule::{spec_render_rule, Rule, RuleModel};
use crate::variable::{spec_render_variable, VarModel, Variable, Variables};
use vstd::pervasive::unreached;
use vstd::prelude::*;

verus! {

/// The mathematical form of a top-level statement.
#[verifier::ext_equal]
pub ghost enum StmtModel {
    Comment { text: Seq<char> },
    Rule { rule: RuleModel },
    Build { build: BuildModel },
    Variable { var: VarModel },
    Default { outputs: Seq<Seq<char>> },
    Subninja { path: Seq<char> },
    Include { path: Seq<char> },
    Pool { pool: PoolModel },
}

/// A top-level ninja statement.
pub enum Stmt {
    /// A comment (`# <comment>`).
    Comment(String),
    /// A rule declaration.
    Rule(Rule),
    /// A build edge.
    Build(Build),
    /// A variable declaration.
    Variable(Variable),
    /// A default statement naming default targets.
    Default(Vec<String>),
    /// A subninja statement.
    Subninja(String),
    /// An include statement (like subninja, without a new scope).
    Include(String),
    /// A pool declaration.
    Pool(Pool),
}

impl View for Stmt {
    type V = StmtModel;

    open spec fn view(&self) -> StmtModel {
        match self {
            Stmt::Comment(text) => StmtModel::Comment { text: text@ },
            Stmt::Rule(rule) => StmtModel::Rule { rule: rule@ },
            Stmt::Build(build) => StmtModel::Build { build: build@ },
            Stmt::Variable(var) => StmtModel::Variable { var: var@ },
            Stmt::Default(outputs) => StmtModel::Default {
                outputs: crate::arg::string_models(outputs@),
            },
            Stmt::Subninja(path) => StmtModel::Subninja { path: path@ },
            Stmt::Include(path) => StmtModel::Include { path: path@ },
            Stmt::Pool(pool) => StmtModel::Pool { pool: pool@ },
        }
    }
}

/// The ordinal of a statement kind, used only to decide blank-line
/// grouping during rendering.
pub open spec fn spec_ordinal(m: StmtModel) -> int {
    match m {
        StmtModel::Comment { .. } => 0,
        StmtModel::Rule { .. } => 1,
        StmtModel::Build { .. } => 2,
        StmtModel::Variable { .. } => 3,
        StmtModel::Default { .. } => 4,
        StmtModel::Subninja { .. } => 5,
        StmtModel::Include { .. } => 6,
        StmtModel::Pool { .. } => 7,
    }
}

/// The text of one statement, without any separating blank line.
pub open spec fn spec_render_stmt(m: StmtModel) -> Seq<char> {
    match m {
        StmtModel::Comment { text } => "# "@ + text + "\n"@,
        StmtModel::Rule { rule } => spec_render_rule(rule),
        StmtModel::Build { build } => spec_render_build(build),
        StmtModel::Variable { var } => spec_render_variable(var) + "\n"@,
        StmtModel::Default { outputs } => "default"@ + spec_render_items(outputs) + "\n"@,
        StmtModel::Subninja { path } => "subninja "@ + path + "\n"@,
        StmtModel::Include { path } => "include "@ + path + "\n"@,
        StmtModel::Pool { pool } => spec_render_pool(pool),
    }
}

/// The separator emitted before a statement: a blank line when the
/// statement is a rule, or when `last` (one past the previous
/// statement's ordinal, zero at the start of the document) differs from
/// one past this statement's ordinal.
pub open spec fn spec_sep(m: StmtModel, last: int) -> Seq<char> {
    if m is Rule || spec_ordinal(m) + 1 != last {
        "\n"@
    } else {
        Seq::empty()
    }
}

/// The separator state after rendering `stmts`: zero for the empty
/// document, otherwise one past the last statement's ordinal.
pub open spec fn spec_last_marker(stmts: Seq<StmtModel>) -> int {
    if stmts.len() == 0 {
        0
    } else {
        spec_ordinal(stmts.last()) + 1
    }
}

/// The text of a whole document: each statement preceded by its
/// separator, in insertion order.  The empty document renders to the
/// empty text.
pub open spec fn spec_render_doc(stmts: Seq<StmtModel>) -> Seq<char>
    decreases stmts.len(),
{
    if stmts.len() == 0 {
        Seq::empty()
    } else {
        spec_render_doc(stmts.drop_last()) + spec_sep(
            stmts.last(),
            spec_last_marker(stmts.drop_last()),
        ) + spec_render_stmt(stmts.last())
    }
}

/// Append-order preservation: the rendering of a document with one more
/// statement is the rendering of the shorter document, followed by the
/// new statement's separator and text.  Applied once per append, this
/// shows that a sequence of appends renders its statements in call
/// order.
pub proof fn lemma_render_doc_append(stmts: Seq<StmtModel>, s: StmtModel)
    ensures
        spec_render_doc(stmts.push(s)) == spec_render_doc(stmts) + spec_sep(
            s,
            spec_last_marker(stmts),
        ) + spec_render_stmt(s),
{
    assert(stmts.push(s).drop_last() =~= stmts);
    assert(stmts.push(s).last() == s);
}

/// Grouping invariant: between two adjacent statements the rendering
/// places a blank line if and only if the later statement is a rule or
/// its kind ordinal differs from the earlier statement's.
pub proof fn lemma_render_doc_grouping(stmts: Seq<StmtModel>, i: int)
    requires
        1 <= i < stmts.len(),
    ensures
        spec_render_doc(stmts.take(i + 1)) == spec_render_doc(stmts.take(i)) + spec_sep(
            stmts[i],
            spec_ordinal(stmts[i - 1]) + 1,
        ) + spec_render_stmt(stmts[i]),
        spec_sep(stmts[i], spec_ordinal(stmts[i - 1]) + 1) == if stmts[i] is Rule || spec_ordinal(
            stmts[i],
        ) != spec_ordinal(stmts[i - 1]) {
            "\n"@
        } else {
            Seq::<char>::empty()
        },
{
    assert(stmts.take(i + 1).drop_last() =~= stmts.take(i));
    assert(stmts.take(i + 1).last() == stmts[i]);
    assert(stmts.take(i).last() == stmts[i - 1]);
}

/// The models of a list of statements, in order.
pub open spec fn stmt_models(s: Seq<Stmt>) -> Seq<StmtModel> {
    Seq::new(s.len(), |i: int| s[i]@)
}

impl Stmt {
    /// The ordinal for this statement's kind.
    pub fn ordinal(&self) -> (r: usize)
        ensures
            r == spec_ordinal(self@),
    {
        match self {
            Stmt::Comment(_) => 0,
            Stmt::Rule(_) => 1,
            Stmt::Build(_) => 2,
            Stmt::Variable(_) => 3,
            Stmt::Default(_) => 4,
            Stmt::Subninja(_) => 5,
            Stmt::Include(_) => 6,
            Stmt::Pool(_) => 7,
        }
    }

    /// Whether two statements are of the same kind.
    pub fn is_same_type(&self, other: &Stmt) -> (r: bool)
        ensures
            r == (spec_ordinal(self@) == spec_ordinal(other@)),
    {
        self.ordinal() == other.ordinal()
    }

    /// Render this statement alone, without any separating blank line.
    pub fn render(&self) -> (r: String)
        ensures
            r@ == spec_render_stmt(self@),
    {
        match self {
            Stmt::Comment(text) => {
                let mut out = String::from_str("# ");
                out.append(text.as_str());
                out.append("\n");
                out
            },
            Stmt::Rule(rule) => rule.render(),
            Stmt::Build(build) => build.render(),
            Stmt::Variable(var) => {
                let mut out = var.render();
                out.append("\n");
                out
            },
            Stmt::Default(outputs) => {
                let mut out = String::from_str("default");
                append_items(&mut out, outputs);
                out.append("\n");
                out
            },
            Stmt::Subninja(path) => {
                let mut out = String::from_str("subninja ");
                out.append(path.as_str());
                out.append("\n");
                out
            },
            Stmt::Include(path) => {
                let mut out = String::from_str("include ");
                out.append(path.as_str());
                out.append("\n");
                out
            },
            Stmt::Pool(pool) => pool.render(),
        }
    }
}

impl Stmt {
    /// Append a variable to the rule held by this statement.
    pub(crate) fn push_rule_variable(&mut self, v: Variable)
        requires
            old(self)@ is Rule,
        ensures
            final(self)@ == (StmtModel::Rule {
                rule: RuleModel {
                    name: old(self)@->rule.name,
                    vars: old(self)@->rule.vars.push(v@),
                },
            }),
    {
        match self {
            Stmt::Rule(rule) => {
                rule.add_variable_internal(v);
                proof {
                    assert(final(self)@ =~= (StmtModel::Rule {
                        rule: RuleModel {
                            name: old(self)@->rule.name,
                            vars: old(self)@->rule.vars.push(v@),
                        },
                    }));
                }
            },
            _ => unreached(),
        }
    }

    /// Append a variable to the pool held by this statement.
    pub(crate) fn push_pool_variable(&mut self, v: Variable)
        requires
            old(self)@ is Pool,
        ensures
            final(self)@ == (StmtModel::Pool {
                pool: PoolModel {
                    name: old(self)@->pool.name,
                    vars: old(self)@->pool.vars.push(v@),
                },
            }),
    {
        match self {
            Stmt::Pool(pool) => {
                pool.add_variable_internal(v);
                proof {
                    assert(final(self)@ =~= (StmtModel::Pool {
                        pool: PoolModel {
                            name: old(self)@->pool.name,
                            vars: old(self)@->pool.vars.push(v@),
                        },
                    }));
                }
            },
            _ => unreached(),
        }
    }

    /// Append a variable to the build edge held by this statement.
    pub(crate) fn push_build_variable(&mut self, v: Variable)
        requires
            old(self)@ is Build,
        ensures
            final(self)@ == (StmtModel::Build {
                build: BuildModel {
                    vars: old(self)@->build.vars.push(v@),
                    ..old(self)@->build
                },
            }),
    {
        match self {
            Stmt::Build(build) => {
                build.add_variable_internal(v);
                proof {
                    assert(final(self)@ =~= (StmtModel::Build {
                        build: BuildModel {
                            vars: old(self)@->build.vars.push(v@),
                            ..old(self)@->build
                        },
                    }));
                }
            },
            _ => unreached(),
        }
    }

    /// Append explicit dependencies to the build edge held by this
    /// statement.
    pub(crate) fn extend_build_dependencies(&mut self, items: Vec<String>)
        requires
            old(self)@ is Build,
        ensures
            final(self)@ == (StmtModel::Build {
                build: BuildModel {
                    dependencies: old(self)@->build.dependencies + string_models(items@),
                    ..old(self)@->build
                },
            }),
    {
        match self {
            Stmt::Build(build) => {
                let ghost items0 = items@;
                build.dependencies.extend(items);
                proof {
                    assert(string_models(build.dependencies@) =~= old(
                        self,
                    )@->build.dependencies + string_models(items0));
                    assert(final(self)@ =~= (StmtModel::Build {
                        build: BuildModel {
                            dependencies: old(self)@->build.dependencies + string_models(items0),
                            ..old(self)@->build
                        },
                    }));
                }
            },
            _ => unreached(),
        }
    }

    /// Append implicit dependencies to the build edge held by this
    /// statement.
    pub(crate) fn extend_build_implicit_dependencies(&mut self, items: Vec<String>)
        requires
            old(self)@ is Build,
        ensures
            final(self)@ == (StmtModel::Build {
                build: BuildModel {
                    implicit_dependencies: old(self)@->build.implicit_dependencies + string_models(
                        items@,
                    ),
                    ..old(self)@->build
                },
            }),
    {
        match self {
            Stmt::Build(build) => {
                let ghost items0 = items@;
                build.implicit_dependencies.extend(items);
                proof {
                    assert(string_models(build.implicit_dependencies@) =~= old(
                        self,
                    )@->build.implicit_dependencies + string_models(items0));
                    assert(final(self)@ =~= (StmtModel::Build {
                        build: BuildModel {
                            implicit_dependencies: old(self)@->build.implicit_dependencies
                                + string_models(items0),
                            ..old(self)@->build
                        },
                    }));
                }
            },
            _ => unreached(),
        }
    }

    /// Append order-only dependencies to the build edge held by this
    /// statement.
    pub(crate) fn extend_build_order_only_dependencies(&mut self, items: Vec<String>)
        requires
            old(self)@ is Build,
        ensures
            final(self)@ == (StmtModel::Build {
                build: BuildModel {
                    order_only_dependencies: old(self)@->build.order_only_dependencies
                        + string_models(items@),
                    ..old(self)@->build
                },
            }),
    {
        match self {
            Stmt::Build(build) => {
                let ghost items0 = items@;
                build.order_only_dependencies.extend(items);
                proof {
                    assert(string_models(build.order_only_dependencies@) =~= old(
                        self,
                    )@->build.order_only_dependencies + string_models(items0));
                    assert(final(self)@ =~= (StmtModel::Build {
                        build: BuildModel {
                            order_only_dependencies: old(self)@->build.order_only_dependencies
                                + string_models(items0),
                            ..old(self)@->build
                        },
                    }));
                }
            },
            _ => unreached(),
        }
    }

    /// Append validations to the build edge held by this statement.
    pub(crate) fn extend_build_validations(&mut self, items: Vec<String>)
        requires
            old(self)@ is Build,
        ensures
            final(self)@ == (StmtModel::Build {
                build: BuildModel {
                    validations: old(self)@->build.validations + string_models(items@),
                    ..old(self)@->build
                },
            }),
    {
        match self {
            Stmt::Build(build) => {
                let ghost items0 = items@;
                build.validations.extend(items);
                proof {
                    assert(string_models(build.validations@) =~= old(
                        self,
                    )@->build.validations + string_models(items0));
                    assert(final(self)@ =~= (StmtModel::Build {
                        build: BuildModel {
                            validations: old(self)@->build.validations + string_models(items0),
                            ..old(self)@->build
                        },
                    }));
                }
            },
            _ => unreached(),
        }
    }

    /// Append implicit outputs to the build edge held by this statement.
    pub(crate) fn extend_build_implicit_outputs(&mut self, items: Vec<String>)
        requires
            old(self)@ is Build,
        ensures
            final(self)@ == (StmtModel::Build {
                build: BuildModel {
                    implicit_outputs: old(self)@->build.implicit_outputs + string_models(items@),
                    ..old(self)@->build
                },
            }),
    {
        match self {
            Stmt::Build(build) => {
                let ghost items0 = items@;
                build.implicit_outputs.extend(items);
                proof {
                    assert(string_models(build.implicit_outputs@) =~= old(
                        self,
                    )@->build.implicit_outputs + string_models(items0));
                    assert(final(self)@ =~= (StmtModel::Build {
                        build: BuildModel {
                            implicit_outputs: old(self)@->build.implicit_outputs + string_models(
                                items0,
                            ),
                            ..old(self)@->build
                        },
                    }));
                }
            },
            _ => unreached(),
        }
    }
}

/// A handle to one statement's slot in a document's statement list,
/// which can also append new statements to the same document.
#[derive(Clone, Copy)]
pub struct StmtRef {
    /// The slot of the statement in the document's statement list.
    pub index: usize,
}

impl StmtRef {
    /// Append a new statement to the document this handle points into.
    pub fn add(&self, ninja: &mut crate::ninja::Ninja, stmt: Stmt) -> (r: StmtRef)
        ensures
            final(ninja)@ == old(ninja)@.push(stmt@),
            final(ninja).phony == old(ninja).phony,
            r.index == old(ninja)@.len(),
            final(ninja).wf_stmt_ref(&r),
    {
        ninja.add_stmt(stmt)
    }
}

/// Append the text of a whole statement list to `out`: every statement
/// in insertion order, preceded by a blank line when it is a rule or
/// when its kind differs from the previous statement's kind.
pub fn write_stmt_list(out: &mut String, list: &Vec<Stmt>)
    ensures
        final(out)@ == old(out)@ + spec_render_doc(stmt_models(list@)),
{
    let ghost models = stmt_models(list@);
    let mut i: usize = 0;
    let mut last: usize = 0;
    proof {
        assert(models.take(0) =~= Seq::<StmtModel>::empty());
        assert(out@ + spec_render_doc(models.take(0)) =~= out@);
    }
    while i < list.len()
        invariant
            i <= list@.len(),
            models == stmt_models(list@),
            out@ == old(out)@ + spec_render_doc(models.take(i as int)),
            last as int == spec_last_marker(models.take(i as int)),
        decreases list@.len() - i,
    {
        let stmt = &list[i];
        proof {
            assert(spec_ordinal(stmt@) <= 7);
        }
        let next = stmt.ordinal() + 1;
        let is_rule = match stmt {
            Stmt::Rule(_) => true,
            _ => false,
        };
        if is_rule || next != last {
            out.append("\n");
        }
        let body = stmt.render();
        out.append(body.as_str());
        proof {
            assert(models.take(i + 1).drop_last() =~= models.take(i as int));
            assert(models.take(i + 1).last() == list@[i as int]@);
            assert(out@ =~= old(out)@ + spec_render_doc(models.take(i + 1)));
        }
        last = next;
        i = i + 1;
    }
    proof {
        assert(models.take(list@.len() as int) =~= models);
    }
}

} // verus!
