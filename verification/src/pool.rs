//! Pool declarations (`pool <name>` blocks).

use crate::arg::ToArg;
use crate::rule::RuleVariables;
use crate::util::AddOnlyVec;
use crate::variable::{spec_render_vars, var_models, append_vars_block, VarModel, Variable, Variables};
use vstd::prelude::*;

verus! {

/// The mathematical form of a pool declaration.
#[verifier::ext_equal]
pub ghost struct PoolModel {
    pub name: Seq<char>,
    pub vars: Seq<VarModel>,
}

/// The text of a pool declaration: `pool <name>`, a newline, then the
/// indented block of attached variables.
pub open spec fn spec_render_pool(m: PoolModel) -> Seq<char> {
    "pool "@ + m.name + "\n"@ + spec_render_vars(m.vars)
}

/// A pool, as defined by the `pool` keyword: a named concurrency-limiting
/// group that rules can opt into.
pub struct Pool {
    /// Name of the pool.
    pub name: String,
    /// The attached variables; the first one is conventionally `depth`.
    pub variables: AddOnlyVec<Variable>,
}

impl View for Pool {
    type V = PoolModel;

    open spec fn view(&self) -> PoolModel {
        PoolModel { name: self.name@, vars: var_models(self.variables@) }
    }
}

impl Pool {
    /// Create a pool with the given name and depth; the depth becomes the
    /// pool's first attached variable.
    pub fn new<N: ToArg, D: ToArg>(name: N, depth: D) -> (r: Self)
        ensures
            r@ == (PoolModel {
                name: name.arg_model(),
                vars: seq![VarModel { name: "depth"@, value: depth.arg_model() }],
            }),
    {
        let p = Pool { name: name.to_arg(), variables: AddOnlyVec::new() };
        let r = p.variable("depth", depth);
        proof {
            assert(r@.vars =~= seq![VarModel { name: "depth"@, value: depth.arg_model() }]);
        }
        r
    }

    /// Insert the pool into a document; the returned handle configures
    /// the pool further and spawns rules bound to it.
    pub fn add_to(self, ninja: &mut crate::ninja::Ninja) -> (r: PoolRef)
        ensures
            final(ninja)@ == old(ninja)@.push(crate::stmt::StmtModel::Pool { pool: self@ }),
            final(ninja).phony == old(ninja).phony,
            r.name@ == self@.name,
            r.index == old(ninja)@.len(),
            final(ninja).wf_pool_ref(&r),
    {
        let name = self.name.clone();
        let sref = ninja.add_stmt(crate::stmt::Stmt::Pool(self));
        PoolRef { index: sref.index, name }
    }

    /// Render the pool block.
    pub fn render(&self) -> (r: String)
        ensures
            r@ == spec_render_pool(self@),
    {
        let mut out = String::from_str("pool ");
        out.append(self.name.as_str());
        out.append("\n");
        append_vars_block(&mut out, self.variables.inner());
        out
    }
}

impl Variables for Pool {
    open spec fn vars(&self) -> Seq<VarModel> {
        var_models(self.variables@)
    }

    open spec fn agrees_except_vars(&self, other: &Self) -> bool {
        self.name@ == other.name@
    }

    fn add_variable_internal(&mut self, v: Variable)
        ensures
            final(self).name@ == old(self).name@,
    {
        self.variables.add(v);
        proof {
            assert(var_models(self.variables@) =~= var_models(old(self).variables@).push(v@));
        }
    }

    proof fn agrees_except_vars_transitive(a: &Self, b: &Self, c: &Self) {
    }
}

/// A handle to a pool statement previously inserted into a document:
/// its slot index in the statement list, and a copy of the pool's name.
#[derive(Clone)]
pub struct PoolRef {
    /// The slot of the pool statement in the document's statement list.
    pub index: usize,
    /// The name of the pool.
    pub name: String,
}

impl PoolRef {
    /// Attach a variable to the pool statement this handle points at.
    pub fn variable<N: ToArg, V: ToArg>(&self, ninja: &mut crate::ninja::Ninja, name: N, value: V)
        -> (r: PoolRef)
        requires
            old(ninja).wf_pool_ref(self),
        ensures
            final(ninja)@ == old(ninja)@.update(
                self.index as int,
                crate::stmt::StmtModel::Pool {
                    pool: PoolModel {
                        name: self.name@,
                        vars: old(ninja)@[self.index as int]->pool.vars.push(
                            VarModel { name: name.arg_model(), value: value.arg_model() },
                        ),
                    },
                },
            ),
            final(ninja).phony == old(ninja).phony,
            final(ninja).wf_pool_ref(self),
            r.index == self.index,
            r.name@ == self.name@,
    {
        let entry = ninja.stmts.entry_mut(self.index);
        entry.push_pool_variable(Variable::new(name, value));
        proof {
            assert(final(ninja)@ =~= old(ninja)@.update(
                self.index as int,
                crate::stmt::StmtModel::Pool {
                    pool: PoolModel {
                        name: self.name@,
                        vars: old(ninja)@[self.index as int]->pool.vars.push(
                            VarModel { name: name.arg_model(), value: value.arg_model() },
                        ),
                    },
                },
            ));
        }
        PoolRef { index: self.index, name: self.name.clone() }
    }

    /// Create a rule bound to this pool (its `pool` variable preset to
    /// the pool's name) and insert it into the document.
    pub fn rule<N: ToArg, C: ToArg>(&self, ninja: &mut crate::ninja::Ninja, name: N, command: C)
        -> (r: crate::rule::RuleRef)
        ensures
            final(ninja)@ == old(ninja)@.push(
                crate::stmt::StmtModel::Rule {
                    rule: crate::rule::RuleModel {
                        name: name.arg_model(),
                        vars: seq![
                            VarModel { name: "command"@, value: command.arg_model() },
                            VarModel { name: "pool"@, value: self.name@ },
                        ],
                    },
                },
            ),
            final(ninja).phony == old(ninja).phony,
            r.name@ == name.arg_model(),
            r.index == old(ninja)@.len(),
            final(ninja).wf_rule_ref(&r),
    {
        let rule = crate::rule::Rule::new(name, command).pool(self);
        proof {
            assert(rule@.vars =~= seq![
                VarModel { name: "command"@, value: command.arg_model() },
                VarModel { name: "pool"@, value: self.name@ },
            ]);
        }
        rule.add_to(ninja)
    }
}

} // verus!
