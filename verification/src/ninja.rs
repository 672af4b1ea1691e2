//! The top-level document: statement collection and rendering.

use crate::arg::{arg_models, dec_rep, to_arg_strings, ToArg};
use crate::build_edge::{Build, BuildModel, BuildRef};
use crate::pool::{Pool, PoolModel, PoolRef};
use crate::rule::{Rule, RuleModel, RuleRef};
use crate::stmt::{spec_render_doc, stmt_models, Stmt, StmtModel, StmtRef};
use crate::util::AddOnlyVec;
use crate::variable::{VarModel, Variable};
use vstd::prelude::*;

verus! {

/// The main entry point for writing a ninja file.
///
/// A document owns an append-only list of statements and the built-in
/// `phony` rule (which is never inserted into the list).  Reference
/// handles returned by the insertion operations name a slot of the list
/// and allow further configuration of the statement in that slot.
pub struct Ninja {
    /// The list of statements, in insertion order.
    pub stmts: AddOnlyVec<Stmt>,
    /// The built-in phony rule backing [`Ninja::phony`] edges.
    pub phony: Rule,
}

impl View for Ninja {
    type V = Seq<StmtModel>;

    open spec fn view(&self) -> Seq<StmtModel> {
        stmt_models(self.stmts@)
    }
}

impl Ninja {
    /// The handle names a slot of this document.
    pub open spec fn wf_stmt_ref(&self, r: &StmtRef) -> bool {
        r.index < self@.len()
    }

    /// The handle names a slot of this document that holds a rule of the
    /// handle's name.
    pub open spec fn wf_rule_ref(&self, r: &RuleRef) -> bool {
        &&& r.index < self@.len()
        &&& self@[r.index as int] matches StmtModel::Rule { rule } && rule.name == r.name@
    }

    /// The handle names a slot of this document that holds a pool of the
    /// handle's name.
    pub open spec fn wf_pool_ref(&self, r: &PoolRef) -> bool {
        &&& r.index < self@.len()
        &&& self@[r.index as int] matches StmtModel::Pool { pool } && pool.name == r.name@
    }

    /// The handle names a slot of this document that holds a build edge.
    pub open spec fn wf_build_ref(&self, r: &BuildRef) -> bool {
        &&& r.index < self@.len()
        &&& self@[r.index as int] is Build
    }

    /// Create a blank document.
    pub fn new() -> (r: Self)
        ensures
            r@ == Seq::<StmtModel>::empty(),
            r.phony@ == (RuleModel {
                name: "phony"@,
                vars: seq![VarModel { name: "command"@, value: ""@ }],
            }),
    {
        let r = Ninja { stmts: AddOnlyVec::new(), phony: Rule::new("phony", "") };
        proof {
            assert(r@ =~= Seq::<StmtModel>::empty());
        }
        r
    }

    /// Append a statement and return the handle of its slot.
    pub fn add_stmt(&mut self, stmt: Stmt) -> (r: StmtRef)
        ensures
            final(self)@ == old(self)@.push(stmt@),
            final(self).phony == old(self).phony,
            r.index == old(self)@.len(),
            final(self).wf_stmt_ref(&r),
    {
        let index = self.stmts.inner().len();
        self.stmts.add(stmt);
        proof {
            assert(final(self)@ =~= old(self)@.push(stmt@));
        }
        StmtRef { index }
    }

    /// Create a rule with the given name and command and insert it; the
    /// returned handle configures the rule and spawns build edges.
    pub fn rule<N: ToArg, C: ToArg>(&mut self, name: N, command: C) -> (r: RuleRef)
        ensures
            final(self)@ == old(self)@.push(
                StmtModel::Rule {
                    rule: RuleModel {
                        name: name.arg_model(),
                        vars: seq![VarModel { name: "command"@, value: command.arg_model() }],
                    },
                },
            ),
            final(self).phony == old(self).phony,
            r.name@ == name.arg_model(),
            r.index == old(self)@.len(),
            final(self).wf_rule_ref(&r),
    {
        Rule::new(name, command).add_to(self)
    }

    /// Insert a build edge that uses the built-in `phony` rule, used for
    /// aliasing targets.
    pub fn phony<T: ToArg>(&mut self, outputs: Vec<T>) -> (r: BuildRef)
        ensures
            final(self)@ == old(self)@.push(
                StmtModel::Build {
                    build: BuildModel {
                        rule: old(self).phony@.name,
                        outputs: arg_models(outputs@),
                        implicit_outputs: Seq::empty(),
                        dependencies: Seq::empty(),
                        implicit_dependencies: Seq::empty(),
                        order_only_dependencies: Seq::empty(),
                        validations: Seq::empty(),
                        vars: Seq::empty(),
                    },
                },
            ),
            final(self).phony == old(self).phony,
            r.index == old(self)@.len(),
            final(self).wf_build_ref(&r),
    {
        let build = Build::new(&self.phony, outputs);
        let sref = self.add_stmt(Stmt::Build(build));
        BuildRef { index: sref.index }
    }

    /// Create a pool with the given name and depth and insert it; the
    /// returned handle configures the pool and spawns rules bound to it.
    pub fn pool<N: ToArg>(&mut self, name: N, depth: usize) -> (r: PoolRef)
        ensures
            final(self)@ == old(self)@.push(
                StmtModel::Pool {
                    pool: PoolModel {
                        name: name.arg_model(),
                        vars: seq![VarModel { name: "depth"@, value: dec_rep(depth as nat) }],
                    },
                },
            ),
            final(self).phony == old(self).phony,
            r.name@ == name.arg_model(),
            r.index == old(self)@.len(),
            final(self).wf_pool_ref(&r),
    {
        Pool::new(name, depth).add_to(self)
    }

    /// Append a comment line.
    pub fn comment<C: ToArg>(&mut self, comment: C)
        ensures
            final(self)@ == old(self)@.push(StmtModel::Comment { text: comment.arg_model() }),
            final(self).phony == old(self).phony,
    {
        self.add_stmt(Stmt::Comment(comment.to_arg()));
    }

    /// Append a top-level variable declaration.
    pub fn variable<N: ToArg, V: ToArg>(&mut self, name: N, value: V)
        ensures
            final(self)@ == old(self)@.push(
                StmtModel::Variable {
                    var: VarModel { name: name.arg_model(), value: value.arg_model() },
                },
            ),
            final(self).phony == old(self).phony,
    {
        self.add_stmt(Stmt::Variable(Variable::new(name, value)));
    }

    /// Append a default statement naming default targets.
    pub fn defaults<T: ToArg>(&mut self, outputs: Vec<T>)
        ensures
            final(self)@ == old(self)@.push(StmtModel::Default { outputs: arg_models(outputs@) }),
            final(self).phony == old(self).phony,
    {
        self.add_stmt(Stmt::Default(to_arg_strings(&outputs)));
    }

    /// Append a subninja statement.
    pub fn subninja<P: ToArg>(&mut self, path: P)
        ensures
            final(self)@ == old(self)@.push(StmtModel::Subninja { path: path.arg_model() }),
            final(self).phony == old(self).phony,
    {
        self.add_stmt(Stmt::Subninja(path.to_arg()));
    }

    /// Append an include statement; unlike subninja it does not open a
    /// new scope.
    pub fn include_file<P: ToArg>(&mut self, path: P)
        ensures
            final(self)@ == old(self)@.push(StmtModel::Include { path: path.arg_model() }),
            final(self).phony == old(self).phony,
    {
        self.add_stmt(Stmt::Include(path.to_arg()));
    }

    /// Render the whole document: every statement in insertion order,
    /// with the blank-line grouping of [`spec_render_doc`].
    pub fn render(&self) -> (r: String)
        ensures
            r@ == spec_render_doc(self@),
    {
        let mut out = String::new();
        crate::stmt::write_stmt_list(&mut out, self.stmts.inner());
        proof {
            assert(Seq::<char>::empty() + spec_render_doc(self@) =~= spec_render_doc(self@));
        }
        out
    }
}

impl Default for Ninja {
    /// A blank document.
    fn default() -> (r: Self)
        ensures
            r@ == Seq::<StmtModel>::empty(),
            r.phony@ == (RuleModel {
                name: "phony"@,
                vars: seq![VarModel { name: "command"@, value: ""@ }],
            }),
    {
        Ninja::new()
    }
}

} // verus!

