//! Build edges (`build` statements).

use crate::arg::{arg_models, string_models, to_arg_strings, ToArg};
use crate::rule::{Rule, RuleVariables};
use crate::util::AddOnlyVec;
use crate::variable::{spec_render_vars, var_models, append_vars_block, VarModel, Variable, Variables};
use vstd::prelude::*;

verus! {

/// The mathematical form of a build edge.
#[verifier::ext_equal]
pub ghost struct BuildModel {
    pub rule: Seq<char>,
    pub outputs: Seq<Seq<char>>,
    pub implicit_outputs: Seq<Seq<char>>,
    pub dependencies: Seq<Seq<char>>,
    pub implicit_dependencies: Seq<Seq<char>>,
    pub order_only_dependencies: Seq<Seq<char>>,
    pub validations: Seq<Seq<char>>,
    pub vars: Seq<VarModel>,
}

/// The text of a list of items, each preceded by a single space.
pub open spec fn spec_render_items(items: Seq<Seq<char>>) -> Seq<char>
    decreases items.len(),
{
    if items.len() == 0 {
        Seq::empty()
    } else {
        spec_render_items(items.drop_last()) + " "@ + items.last()
    }
}

/// The text of an optional item group: nothing when the group is empty,
/// otherwise a space, the group's marker, and the items.
pub open spec fn spec_render_group(marker: Seq<char>, items: Seq<Seq<char>>) -> Seq<char> {
    if items.len() == 0 {
        Seq::empty()
    } else {
        " "@ + marker + spec_render_items(items)
    }
}

/// The text of a build edge: the header line
/// `build <outputs> [| <implicit outputs>]: <rule> <dependencies>
/// [| <implicit dependencies>] [|| <order-only dependencies>]
/// [|@ <validations>]`, a newline, then the indented variable block.
pub open spec fn spec_render_build(m: BuildModel) -> Seq<char> {
    "build"@ + spec_render_items(m.outputs) + spec_render_group("|"@, m.implicit_outputs) + ":"@
        + " "@ + m.rule + spec_render_items(m.dependencies) + spec_render_group(
        "|"@,
        m.implicit_dependencies,
    ) + spec_render_group("||"@, m.order_only_dependencies) + spec_render_group(
        "|@"@,
        m.validations,
    ) + "\n"@ + spec_render_vars(m.vars)
}

/// Append the text of `items` to `out`, each item preceded by a space.
pub fn append_items(out: &mut String, items: &Vec<String>)
    ensures
        final(out)@ == old(out)@ + spec_render_items(string_models(items@)),
{
    let ghost models = string_models(items@);
    let mut i: usize = 0;
    proof {
        assert(models.take(0) =~= Seq::<Seq<char>>::empty());
        assert(out@ + spec_render_items(models.take(0)) =~= out@);
    }
    while i < items.len()
        invariant
            i <= items@.len(),
            models == string_models(items@),
            out@ == old(out)@ + spec_render_items(models.take(i as int)),
        decreases items@.len() - i,
    {
        out.append(" ");
        out.append(items[i].as_str());
        proof {
            assert(models.take(i + 1).drop_last() =~= models.take(i as int));
            assert(models.take(i + 1).last() == items@[i as int]@);
            assert(out@ =~= old(out)@ + spec_render_items(models.take(i + 1)));
        }
        i = i + 1;
    }
    proof {
        assert(models.take(items@.len() as int) =~= models);
    }
}

/// Append the text of an optional item group with the given marker.
pub fn append_group(out: &mut String, marker: &str, items: &Vec<String>)
    ensures
        final(out)@ == old(out)@ + spec_render_group(marker@, string_models(items@)),
{
    if items.len() > 0 {
        out.append(" ");
        out.append(marker);
        append_items(out, items);
    } else {
        proof {
            assert(out@ + spec_render_group(marker@, string_models(items@)) =~= out@);
        }
    }
}

/// A build edge, as defined by the `build` keyword: how a set of outputs
/// is produced from a set of inputs via a named rule.
pub struct Build {
    /// The name of the rule this edge uses, copied from the rule.
    pub rule: String,
    /// The explicit outputs, as in `build <outputs>:`.
    pub outputs: AddOnlyVec<String>,
    /// The implicit outputs.
    pub implicit_outputs: AddOnlyVec<String>,
    /// The explicit dependencies (inputs).
    pub dependencies: AddOnlyVec<String>,
    /// The implicit dependencies.
    pub implicit_dependencies: AddOnlyVec<String>,
    /// The order-only dependencies.
    pub order_only_dependencies: AddOnlyVec<String>,
    /// The validations.
    pub validations: AddOnlyVec<String>,
    /// The attached variables, as an indented block.
    pub variables: AddOnlyVec<Variable>,
}

impl View for Build {
    type V = BuildModel;

    open spec fn view(&self) -> BuildModel {
        BuildModel {
            rule: self.rule@,
            outputs: string_models(self.outputs@),
            implicit_outputs: string_models(self.implicit_outputs@),
            dependencies: string_models(self.dependencies@),
            implicit_dependencies: string_models(self.implicit_dependencies@),
            order_only_dependencies: string_models(self.order_only_dependencies@),
            validations: string_models(self.validations@),
            vars: var_models(self.variables@),
        }
    }
}

impl Build {
    /// Create a build edge for the given rule and explicit outputs.  Only
    /// the rule's name is captured, not the rule itself.
    pub fn new<T: ToArg>(rule: &Rule, outputs: Vec<T>) -> (r: Self)
        ensures
            r@ == (BuildModel {
                rule: rule.name@,
                outputs: arg_models(outputs@),
                implicit_outputs: Seq::empty(),
                dependencies: Seq::empty(),
                implicit_dependencies: Seq::empty(),
                order_only_dependencies: Seq::empty(),
                validations: Seq::empty(),
                vars: Seq::empty(),
            }),
    {
        let mut self_outputs = AddOnlyVec::new();
        self_outputs.extend(to_arg_strings(&outputs));
        let r = Build {
            rule: rule.name.clone(),
            outputs: self_outputs,
            implicit_outputs: AddOnlyVec::new(),
            dependencies: AddOnlyVec::new(),
            implicit_dependencies: AddOnlyVec::new(),
            order_only_dependencies: AddOnlyVec::new(),
            validations: AddOnlyVec::new(),
            variables: AddOnlyVec::new(),
        };
        proof {
            assert(string_models(r.outputs@) =~= arg_models(outputs@));
            assert(var_models(r.variables@) =~= Seq::<VarModel>::empty());
            assert(string_models(Seq::<String>::empty()) =~= Seq::<Seq<char>>::empty());
        }
        r
    }

    /// Append explicit dependencies (inputs).
    pub fn with<T: ToArg>(self, inputs: Vec<T>) -> (r: Self)
        ensures
            r@ == (BuildModel { dependencies: self@.dependencies + arg_models(inputs@), ..self@ }),
    {
        let ghost m0 = self@;
        let mut s = self;
        s.dependencies.extend(to_arg_strings(&inputs));
        proof {
            assert(string_models(s.dependencies@) =~= m0.dependencies + arg_models(inputs@));
            assert(s@ =~= (BuildModel { dependencies: m0.dependencies + arg_models(inputs@), ..m0 }));
        }
        s
    }

    /// Append implicit dependencies.
    pub fn with_implicit<T: ToArg>(self, inputs: Vec<T>) -> (r: Self)
        ensures
            r@ == (BuildModel {
                implicit_dependencies: self@.implicit_dependencies + arg_models(inputs@),
                ..self@
            }),
    {
        let ghost m0 = self@;
        let mut s = self;
        s.implicit_dependencies.extend(to_arg_strings(&inputs));
        proof {
            assert(string_models(s.implicit_dependencies@) =~= m0.implicit_dependencies
                + arg_models(inputs@));
            assert(s@ =~= (BuildModel {
                implicit_dependencies: m0.implicit_dependencies + arg_models(inputs@),
                ..m0
            }));
        }
        s
    }

    /// Append order-only dependencies.
    pub fn with_order_only<T: ToArg>(self, inputs: Vec<T>) -> (r: Self)
        ensures
            r@ == (BuildModel {
                order_only_dependencies: self@.order_only_dependencies + arg_models(inputs@),
                ..self@
            }),
    {
        let ghost m0 = self@;
        let mut s = self;
        s.order_only_dependencies.extend(to_arg_strings(&inputs));
        proof {
            assert(string_models(s.order_only_dependencies@) =~= m0.order_only_dependencies
                + arg_models(inputs@));
            assert(s@ =~= (BuildModel {
                order_only_dependencies: m0.order_only_dependencies + arg_models(inputs@),
                ..m0
            }));
        }
        s
    }

    /// Append validations.
    pub fn validations<T: ToArg>(self, validations: Vec<T>) -> (r: Self)
        ensures
            r@ == (BuildModel { validations: self@.validations + arg_models(validations@), ..self@ }),
    {
        let ghost m0 = self@;
        let mut s = self;
        s.validations.extend(to_arg_strings(&validations));
        proof {
            assert(string_models(s.validations@) =~= m0.validations + arg_models(validations@));
            assert(s@ =~= (BuildModel {
                validations: m0.validations + arg_models(validations@),
                ..m0
            }));
        }
        s
    }

    /// Append implicit outputs.
    pub fn output_implicit<T: ToArg>(self, outputs: Vec<T>) -> (r: Self)
        ensures
            r@ == (BuildModel {
                implicit_outputs: self@.implicit_outputs + arg_models(outputs@),
                ..self@
            }),
    {
        let ghost m0 = self@;
        let mut s = self;
        s.implicit_outputs.extend(to_arg_strings(&outputs));
        proof {
            assert(string_models(s.implicit_outputs@) =~= m0.implicit_outputs
                + arg_models(outputs@));
            assert(s@ =~= (BuildModel {
                implicit_outputs: m0.implicit_outputs + arg_models(outputs@),
                ..m0
            }));
        }
        s
    }

    /// Attach a `dyndep = <path>` variable naming a dynamic dependency file.
    pub fn dyndep<D: ToArg>(self, dyndep: D) -> (r: Self)
        ensures
            r@ == (BuildModel {
                vars: self@.vars.push(VarModel { name: "dyndep"@, value: dyndep.arg_model() }),
                ..self@
            }),
    {
        let ghost m0 = self@;
        let r = self.variable("dyndep", dyndep);
        proof {
            assert(r@ =~= (BuildModel {
                vars: m0.vars.push(VarModel { name: "dyndep"@, value: dyndep.arg_model() }),
                ..m0
            }));
        }
        r
    }

    /// Render the build statement: the header line and the variable block.
    pub fn render(&self) -> (r: String)
        ensures
            r@ == spec_render_build(self@),
    {
        let mut out = String::from_str("build");
        append_items(&mut out, self.outputs.inner());
        append_group(&mut out, "|", self.implicit_outputs.inner());
        out.append(":");
        out.append(" ");
        out.append(self.rule.as_str());
        append_items(&mut out, self.dependencies.inner());
        append_group(&mut out, "|", self.implicit_dependencies.inner());
        append_group(&mut out, "||", self.order_only_dependencies.inner());
        append_group(&mut out, "|@", self.validations.inner());
        out.append("\n");
        append_vars_block(&mut out, self.variables.inner());
        out
    }
}

impl Variables for Build {
    open spec fn vars(&self) -> Seq<VarModel> {
        var_models(self.variables@)
    }

    open spec fn agrees_except_vars(&self, other: &Self) -> bool {
        self.rule@ == other.rule@ && self.outputs@ == other.outputs@ && self.implicit_outputs@
            == other.implicit_outputs@ && self.dependencies@ == other.dependencies@
            && self.implicit_dependencies@ == other.implicit_dependencies@
            && self.order_only_dependencies@ == other.order_only_dependencies@
            && self.validations@ == other.validations@
    }

    fn add_variable_internal(&mut self, v: Variable) {
        self.variables.add(v);
        proof {
            assert(var_models(self.variables@) =~= var_models(old(self).variables@).push(v@));
        }
    }

    proof fn agrees_except_vars_transitive(a: &Self, b: &Self, c: &Self) {
    }
}

impl RuleVariables for Build {

}

/// A handle to a build statement previously inserted into a document: its
/// slot index in the statement list.
#[derive(Clone, Copy)]
pub struct BuildRef {
    /// The slot of the build statement in the document's statement list.
    pub index: usize,
}

impl BuildRef {
    /// Append explicit dependencies (inputs) to the build statement this
    /// handle points at.
    pub fn with<T: ToArg>(&self, ninja: &mut crate::ninja::Ninja, inputs: Vec<T>) -> (r: BuildRef)
        requires
            old(ninja).wf_build_ref(self),
        ensures
            final(ninja)@ == old(ninja)@.update(
                self.index as int,
                crate::stmt::StmtModel::Build {
                    build: BuildModel {
                        dependencies: old(ninja)@[self.index as int]->build.dependencies
                            + arg_models(inputs@),
                        ..old(ninja)@[self.index as int]->build
                    },
                },
            ),
            final(ninja).phony == old(ninja).phony,
            final(ninja).wf_build_ref(self),
            r.index == self.index,
    {
        let strings = to_arg_strings(&inputs);
        let entry = ninja.stmts.entry_mut(self.index);
        entry.extend_build_dependencies(strings);
        proof {
            assert(final(ninja)@ =~= old(ninja)@.update(
                self.index as int,
                crate::stmt::StmtModel::Build {
                    build: BuildModel {
                        dependencies: old(ninja)@[self.index as int]->build.dependencies
                            + arg_models(inputs@),
                        ..old(ninja)@[self.index as int]->build
                    },
                },
            ));
        }
        BuildRef { index: self.index }
    }

    /// Append implicit dependencies to the build statement this handle
    /// points at.
    pub fn with_implicit<T: ToArg>(&self, ninja: &mut crate::ninja::Ninja, inputs: Vec<T>) -> (r:
        BuildRef)
        requires
            old(ninja).wf_build_ref(self),
        ensures
            final(ninja)@ == old(ninja)@.update(
                self.index as int,
                crate::stmt::StmtModel::Build {
                    build: BuildModel {
                        implicit_dependencies: old(
                            ninja,
                        )@[self.index as int]->build.implicit_dependencies + arg_models(inputs@),
                        ..old(ninja)@[self.index as int]->build
                    },
                },
            ),
            final(ninja).phony == old(ninja).phony,
            final(ninja).wf_build_ref(self),
            r.index == self.index,
    {
        let strings = to_arg_strings(&inputs);
        let entry = ninja.stmts.entry_mut(self.index);
        entry.extend_build_implicit_dependencies(strings);
        proof {
            assert(final(ninja)@ =~= old(ninja)@.update(
                self.index as int,
                crate::stmt::StmtModel::Build {
                    build: BuildModel {
                        implicit_dependencies: old(
                            ninja,
                        )@[self.index as int]->build.implicit_dependencies + arg_models(inputs@),
                        ..old(ninja)@[self.index as int]->build
                    },
                },
            ));
        }
        BuildRef { index: self.index }
    }

    /// Append order-only dependencies to the build statement this handle
    /// points at.
    pub fn with_order_only<T: ToArg>(&self, ninja: &mut crate::ninja::Ninja, inputs: Vec<T>) -> (r:
        BuildRef)
        requires
            old(ninja).wf_build_ref(self),
        ensures
            final(ninja)@ == old(ninja)@.update(
                self.index as int,
                crate::stmt::StmtModel::Build {
                    build: BuildModel {
                        order_only_dependencies: old(
                            ninja,
                        )@[self.index as int]->build.order_only_dependencies + arg_models(inputs@),
                        ..old(ninja)@[self.index as int]->build
                    },
                },
            ),
            final(ninja).phony == old(ninja).phony,
            final(ninja).wf_build_ref(self),
            r.index == self.index,
    {
        let strings = to_arg_strings(&inputs);
        let entry = ninja.stmts.entry_mut(self.index);
        entry.extend_build_order_only_dependencies(strings);
        proof {
            assert(final(ninja)@ =~= old(ninja)@.update(
                self.index as int,
                crate::stmt::StmtModel::Build {
                    build: BuildModel {
                        order_only_dependencies: old(
                            ninja,
                        )@[self.index as int]->build.order_only_dependencies + arg_models(inputs@),
                        ..old(ninja)@[self.index as int]->build
                    },
                },
            ));
        }
        BuildRef { index: self.index }
    }

    /// Append validations to the build statement this handle points at.
    pub fn validations<T: ToArg>(&self, ninja: &mut crate::ninja::Ninja, validations: Vec<T>) -> (r:
        BuildRef)
        requires
            old(ninja).wf_build_ref(self),
        ensures
            final(ninja)@ == old(ninja)@.update(
                self.index as int,
                crate::stmt::StmtModel::Build {
                    build: BuildModel {
                        validations: old(ninja)@[self.index as int]->build.validations + arg_models(
                            validations@,
                        ),
                        ..old(ninja)@[self.index as int]->build
                    },
                },
            ),
            final(ninja).phony == old(ninja).phony,
            final(ninja).wf_build_ref(self),
            r.index == self.index,
    {
        let strings = to_arg_strings(&validations);
        let entry = ninja.stmts.entry_mut(self.index);
        entry.extend_build_validations(strings);
        proof {
            assert(final(ninja)@ =~= old(ninja)@.update(
                self.index as int,
                crate::stmt::StmtModel::Build {
                    build: BuildModel {
                        validations: old(ninja)@[self.index as int]->build.validations + arg_models(
                            validations@,
                        ),
                        ..old(ninja)@[self.index as int]->build
                    },
                },
            ));
        }
        BuildRef { index: self.index }
    }

    /// Append implicit outputs to the build statement this handle points
    /// at.
    pub fn output_implicit<T: ToArg>(&self, ninja: &mut crate::ninja::Ninja, outputs: Vec<T>) -> (r:
        BuildRef)
        requires
            old(ninja).wf_build_ref(self),
        ensures
            final(ninja)@ == old(ninja)@.update(
                self.index as int,
                crate::stmt::StmtModel::Build {
                    build: BuildModel {
                        implicit_outputs: old(ninja)@[self.index as int]->build.implicit_outputs
                            + arg_models(outputs@),
                        ..old(ninja)@[self.index as int]->build
                    },
                },
            ),
            final(ninja).phony == old(ninja).phony,
            final(ninja).wf_build_ref(self),
            r.index == self.index,
    {
        let strings = to_arg_strings(&outputs);
        let entry = ninja.stmts.entry_mut(self.index);
        entry.extend_build_implicit_outputs(strings);
        proof {
            assert(final(ninja)@ =~= old(ninja)@.update(
                self.index as int,
                crate::stmt::StmtModel::Build {
                    build: BuildModel {
                        implicit_outputs: old(ninja)@[self.index as int]->build.implicit_outputs
                            + arg_models(outputs@),
                        ..old(ninja)@[self.index as int]->build
                    },
                },
            ));
        }
        BuildRef { index: self.index }
    }

    /// Attach a variable to the build statement this handle points at.
    pub fn variable<N: ToArg, V: ToArg>(&self, ninja: &mut crate::ninja::Ninja, name: N, value: V)
        -> (r: BuildRef)
        requires
            old(ninja).wf_build_ref(self),
        ensures
            final(ninja)@ == old(ninja)@.update(
                self.index as int,
                crate::stmt::StmtModel::Build {
                    build: BuildModel {
                        vars: old(ninja)@[self.index as int]->build.vars.push(
                            VarModel { name: name.arg_model(), value: value.arg_model() },
                        ),
                        ..old(ninja)@[self.index as int]->build
                    },
                },
            ),
            final(ninja).phony == old(ninja).phony,
            final(ninja).wf_build_ref(self),
            r.index == self.index,
    {
        let entry = ninja.stmts.entry_mut(self.index);
        entry.push_build_variable(Variable::new(name, value));
        proof {
            assert(final(ninja)@ =~= old(ninja)@.update(
                self.index as int,
                crate::stmt::StmtModel::Build {
                    build: BuildModel {
                        vars: old(ninja)@[self.index as int]->build.vars.push(
                            VarModel { name: name.arg_model(), value: value.arg_model() },
                        ),
                        ..old(ninja)@[self.index as int]->build
                    },
                },
            ));
        }
        BuildRef { index: self.index }
    }

    /// Attach a `dyndep = <path>` variable to the build statement this
    /// handle points at.
    pub fn dyndep<D: ToArg>(&self, ninja: &mut crate::ninja::Ninja, dyndep: D) -> (r: BuildRef)
        requires
            old(ninja).wf_build_ref(self),
        ensures
            final(ninja)@ == old(ninja)@.update(
                self.index as int,
                crate::stmt::StmtModel::Build {
                    build: BuildModel {
                        vars: old(ninja)@[self.index as int]->build.vars.push(
                            VarModel { name: "dyndep"@, value: dyndep.arg_model() },
                        ),
                        ..old(ninja)@[self.index as int]->build
                    },
                },
            ),
            final(ninja).phony == old(ninja).phony,
            final(ninja).wf_build_ref(self),
            r.index == self.index,
    {
        self.variable(ninja, "dyndep", dyndep)
    }
}

/// Build header shape: when a build edge has only explicit outputs and
/// explicit dependencies (every other list empty and no attached
/// variables), its text is exactly
/// `build <outputs>: <rule> <dependencies>` followed by a newline, with
/// no group markers present.
pub proof fn lemma_build_header_shape(m: BuildModel)
    requires
        m.implicit_outputs.len() == 0,
        m.implicit_dependencies.len() == 0,
        m.order_only_dependencies.len() == 0,
        m.validations.len() == 0,
        m.vars.len() == 0,
    ensures
        spec_render_build(m) == "build"@ + spec_render_items(m.outputs) + ":"@ + " "@ + m.rule
            + spec_render_items(m.dependencies) + "\n"@,
{
    assert(spec_render_build(m) =~= "build"@ + spec_render_items(m.outputs) + ":"@ + " "@ + m.rule
        + spec_render_items(m.dependencies) + "\n"@);
}

} // verus!
