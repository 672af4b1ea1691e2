//! Rule declarations (`rule <name>` blocks).

use crate::arg::ToArg;
use crate::pool::PoolRef;
use crate::stmt::Stmt;
use crate::util::AddOnlyVec;
use crate::variable::{spec_render_vars, var_models, append_vars_block, VarModel, Variable, Variables};
use vstd::pervasive::unreached;
use vstd::prelude::*;

verus! {

/// The mathematical form of a rule declaration.
#[verifier::ext_equal]
pub ghost struct RuleModel {
    pub name: Seq<char>,
    pub vars: Seq<VarModel>,
}

/// The text of a rule declaration: `rule <name>`, a newline, then the
/// indented block of attached variables.
pub open spec fn spec_render_rule(m: RuleModel) -> Seq<char> {
    "rule "@ + m.name + "\n"@ + spec_render_vars(m.vars)
}

/// A rule, as defined by the `rule` keyword: a named, reusable command
/// template that build edges reference.
pub struct Rule {
    /// The rule name as in `rule <name>`.
    pub name: String,
    /// The attached variables; the first one is conventionally `command`.
    pub variables: AddOnlyVec<Variable>,
}

impl View for Rule {
    type V = RuleModel;

    open spec fn view(&self) -> RuleModel {
        RuleModel { name: self.name@, vars: var_models(self.variables@) }
    }
}

impl Rule {
    /// Create a rule with the given name and command; the command becomes
    /// the rule's first attached variable.
    pub fn new<N: ToArg, C: ToArg>(name: N, command: C) -> (r: Self)
        ensures
            r@ == (RuleModel {
                name: name.arg_model(),
                vars: seq![VarModel { name: "command"@, value: command.arg_model() }],
            }),
    {
        let s = Rule { name: name.to_arg(), variables: AddOnlyVec::new() };
        let r = s.variable("command", command);
        proof {
            assert(r@.vars =~= seq![VarModel { name: "command"@, value: command.arg_model() }]);
        }
        r
    }

    /// Insert the rule into a document; the returned handle configures
    /// the rule further and spawns build edges that use it.
    pub fn add_to(self, ninja: &mut crate::ninja::Ninja) -> (r: RuleRef)
        ensures
            final(ninja)@ == old(ninja)@.push(crate::stmt::StmtModel::Rule { rule: self@ }),
            final(ninja).phony == old(ninja).phony,
            r.name@ == self@.name,
            r.index == old(ninja)@.len(),
            final(ninja).wf_rule_ref(&r),
    {
        let name = self.name.clone();
        let sref = ninja.add_stmt(crate::stmt::Stmt::Rule(self));
        RuleRef { index: sref.index, name }
    }

    /// Render the rule block.
    pub fn render(&self) -> (r: String)
        ensures
            r@ == spec_render_rule(self@),
    {
        let mut out = String::from_str("rule ");
        out.append(self.name.as_str());
        out.append("\n");
        append_vars_block(&mut out, self.variables.inner());
        out
    }
}

impl Variables for Rule {
    open spec fn vars(&self) -> Seq<VarModel> {
        var_models(self.variables@)
    }

    open spec fn agrees_except_vars(&self, other: &Self) -> bool {
        self.name@ == other.name@
    }

    fn add_variable_internal(&mut self, v: Variable)
        ensures
            final(self).name@ == old(self).name@,
    {
        self.variables.add(v);
        proof {
            assert(var_models(self.variables@) =~= var_models(old(self).variables@).push(v@));
        }
    }

    proof fn agrees_except_vars_transitive(a: &Self, b: &Self, c: &Self) {
    }
}

/// Chainable attachment of the well-known variables that both `rule` and
/// `build` statements accept.
pub trait RuleVariables: Variables {
    /// Attach `depfile = <depfile>`, for C/C++ header dependency support.
    fn depfile<D: ToArg>(self, depfile: D) -> (r: Self)
        ensures
            r.vars() == self.vars().push(
                VarModel { name: "depfile"@, value: depfile.arg_model() },
            ),
            self.agrees_except_vars(&r),
    {
        self.variable("depfile", depfile)
    }

    /// Attach `deps = gcc`.
    fn deps_gcc(self) -> (r: Self)
        ensures
            r.vars() == self.vars().push(VarModel { name: "deps"@, value: "gcc"@ }),
            self.agrees_except_vars(&r),
    {
        self.variable("deps", "gcc")
    }

    /// Attach `deps = msvc`.
    fn deps_msvc(self) -> (r: Self)
        ensures
            r.vars() == self.vars().push(VarModel { name: "deps"@, value: "msvc"@ }),
            self.agrees_except_vars(&r),
    {
        self.variable("deps", "msvc")
    }

    /// Attach `deps = msvc` together with the `msvc_deps_prefix` variable.
    fn deps_msvc_prefix<P: ToArg>(self, msvc_deps_prefix: P) -> (r: Self)
        ensures
            r.vars() == self.vars().push(VarModel { name: "deps"@, value: "msvc"@ }).push(
                VarModel { name: "msvc_deps_prefix"@, value: msvc_deps_prefix.arg_model() },
            ),
            self.agrees_except_vars(&r),
    {
        let ghost s0 = self;
        let mid = self.deps_msvc();
        let ghost m0 = mid;
        let r = mid.variable("msvc_deps_prefix", msvc_deps_prefix);
        proof {
            Self::agrees_except_vars_transitive(&s0, &m0, &r);
        }
        r
    }

    /// Attach `description = <desc>`, printed during the build.
    fn description<D: ToArg>(self, desc: D) -> (r: Self)
        ensures
            r.vars() == self.vars().push(
                VarModel { name: "description"@, value: desc.arg_model() },
            ),
            self.agrees_except_vars(&r),
    {
        self.variable("description", desc)
    }

    /// Attach `generator = 1`, marking the rule as re-invoking the generator.
    fn generator(self) -> (r: Self)
        ensures
            r.vars() == self.vars().push(VarModel { name: "generator"@, value: "1"@ }),
            self.agrees_except_vars(&r),
    {
        self.variable("generator", "1")
    }

    /// Attach `restat = 1`.
    fn restat(self) -> (r: Self)
        ensures
            r.vars() == self.vars().push(VarModel { name: "restat"@, value: "1"@ }),
            self.agrees_except_vars(&r),
    {
        self.variable("restat", "1")
    }

    /// Attach the `rspfile` and `rspfile_content` variables.
    fn rspfile<F: ToArg, C: ToArg>(self, rspfile: F, rspfile_content: C) -> (r: Self)
        ensures
            r.vars() == self.vars().push(
                VarModel { name: "rspfile"@, value: rspfile.arg_model() },
            ).push(VarModel { name: "rspfile_content"@, value: rspfile_content.arg_model() }),
            self.agrees_except_vars(&r),
    {
        let ghost s0 = self;
        let mid = self.variable("rspfile", rspfile);
        let ghost m0 = mid;
        let r = mid.variable("rspfile_content", rspfile_content);
        proof {
            Self::agrees_except_vars_transitive(&s0, &m0, &r);
        }
        r
    }

    /// Attach `pool = console`.
    fn pool_console(self) -> (r: Self)
        ensures
            r.vars() == self.vars().push(VarModel { name: "pool"@, value: "console"@ }),
            self.agrees_except_vars(&r),
    {
        self.variable("pool", "console")
    }

    /// Attach `pool = <name of the referenced pool>`.
    fn pool(self, pool: &PoolRef) -> (r: Self)
        ensures
            r.vars() == self.vars().push(VarModel { name: "pool"@, value: pool.name@ }),
            self.agrees_except_vars(&r),
    {
        self.variable("pool", pool.name.clone())
    }
}

impl RuleVariables for Rule {

}

/// A handle to a rule statement previously inserted into a document: its
/// slot index in the statement list, and a copy of the rule's name.
///
/// Build edges spawned from the handle store the name copy, not the whole
/// rule.
#[derive(Clone)]
pub struct RuleRef {
    /// The slot of the rule statement in the document's statement list.
    pub index: usize,
    /// The name of the rule.
    pub name: String,
}

impl RuleRef {
    /// Create a build edge that uses this rule and the given explicit
    /// outputs, and insert it into the document.
    pub fn build<T: ToArg>(&self, ninja: &mut crate::ninja::Ninja, outputs: Vec<T>) -> (r:
        crate::build_edge::BuildRef)
        requires
            old(ninja).wf_rule_ref(self),
        ensures
            final(ninja)@ == old(ninja)@.push(
                crate::stmt::StmtModel::Build {
                    build: crate::build_edge::BuildModel {
                        rule: self.name@,
                        outputs: crate::arg::arg_models(outputs@),
                        implicit_outputs: Seq::empty(),
                        dependencies: Seq::empty(),
                        implicit_dependencies: Seq::empty(),
                        order_only_dependencies: Seq::empty(),
                        validations: Seq::empty(),
                        vars: Seq::empty(),
                    },
                },
            ),
            final(ninja).phony == old(ninja).phony,
            r.index == old(ninja)@.len(),
            final(ninja).wf_build_ref(&r),
            final(ninja).wf_rule_ref(self),
    {
        let b = {
            let list = ninja.stmts.inner();
            match &list[self.index] {
                Stmt::Rule(rule) => crate::build_edge::Build::new(rule, outputs),
                _ => unreached(),
            }
        };
        let sref = ninja.add_stmt(Stmt::Build(b));
        proof {
            assert(final(ninja)@[self.index as int] == old(ninja)@[self.index as int]);
        }
        crate::build_edge::BuildRef { index: sref.index }
    }

    /// Attach a variable to the rule statement this handle points at.
    pub fn variable<N: ToArg, V: ToArg>(&self, ninja: &mut crate::ninja::Ninja, name: N, value: V)
        -> (r: RuleRef)
        requires
            old(ninja).wf_rule_ref(self),
        ensures
            final(ninja)@ == old(ninja)@.update(
                self.index as int,
                crate::stmt::StmtModel::Rule {
                    rule: RuleModel {
                        name: self.name@,
                        vars: old(ninja)@[self.index as int]->rule.vars.push(
                            VarModel { name: name.arg_model(), value: value.arg_model() },
                        ),
                    },
                },
            ),
            final(ninja).phony == old(ninja).phony,
            final(ninja).wf_rule_ref(self),
            r.index == self.index,
            r.name@ == self.name@,
    {
        let entry = ninja.stmts.entry_mut(self.index);
        entry.push_rule_variable(Variable::new(name, value));
        proof {
            assert(final(ninja)@ =~= old(ninja)@.update(
                self.index as int,
                crate::stmt::StmtModel::Rule {
                    rule: RuleModel {
                        name: self.name@,
                        vars: old(ninja)@[self.index as int]->rule.vars.push(
                            VarModel { name: name.arg_model(), value: value.arg_model() },
                        ),
                    },
                },
            ));
        }
        RuleRef { index: self.index, name: self.name.clone() }
    }
}

} // verus!
