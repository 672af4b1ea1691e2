//! Variable declarations and the trait for types that accept them.

use crate::arg::ToArg;
use vstd::prelude::*;

verus! {

/// The mathematical form of a variable declaration.
#[verifier::ext_equal]
pub ghost struct VarModel {
    pub name: Seq<char>,
    pub value: Seq<char>,
}

/// The text of one variable declaration: `name = value`, a single line
/// with no trailing newline.
pub open spec fn spec_render_variable(v: VarModel) -> Seq<char> {
    v.name + " = "@ + v.value
}

/// A variable declaration (`name = value`).
///
/// No escaping is performed when constructing or rendering a variable;
/// the caller escapes the value first if it needs escaping.
pub struct Variable {
    /// The name of the variable.
    pub name: String,
    /// The value of the variable.
    pub value: String,
}

impl View for Variable {
    type V = VarModel;

    open spec fn view(&self) -> VarModel {
        VarModel { name: self.name@, value: self.value@ }
    }
}

impl Variable {
    /// Create a new variable declaration.
    pub fn new<N: ToArg, V: ToArg>(name: N, value: V) -> (r: Self)
        ensures
            r@ == (VarModel { name: name.arg_model(), value: value.arg_model() }),
    {
        Variable { name: name.to_arg(), value: value.to_arg() }
    }

    /// Render the declaration as `name = value`.
    pub fn render(&self) -> (r: String)
        ensures
            r@ == spec_render_variable(self@),
    {
        let mut out = self.name.clone();
        out.append(" = ");
        out.append(self.value.as_str());
        out
    }
}

/// The models of a list of variables, in order.
pub open spec fn var_models(vs: Seq<Variable>) -> Seq<VarModel> {
    Seq::new(vs.len(), |i: int| vs[i]@)
}

/// The text of a block of attached variables: each on its own line,
/// indented by two spaces and terminated by a newline.
pub open spec fn spec_render_vars(vars: Seq<VarModel>) -> Seq<char>
    decreases vars.len(),
{
    if vars.len() == 0 {
        Seq::empty()
    } else {
        spec_render_vars(vars.drop_last()) + "  "@ + spec_render_variable(vars.last()) + "\n"@
    }
}

/// Append the indented block for `vars` to `out`.
pub fn append_vars_block(out: &mut String, vars: &Vec<Variable>)
    ensures
        final(out)@ == old(out)@ + spec_render_vars(var_models(vars@)),
{
    let ghost models = var_models(vars@);
    let mut i: usize = 0;
    proof {
        assert(models.take(0) =~= Seq::<VarModel>::empty());
        assert(out@ + spec_render_vars(models.take(0)) =~= out@);
    }
    while i < vars.len()
        invariant
            i <= vars@.len(),
            models == var_models(vars@),
            out@ == old(out)@ + spec_render_vars(models.take(i as int)),
        decreases vars@.len() - i,
    {
        let line = vars[i].render();
        out.append("  ");
        out.append(line.as_str());
        out.append("\n");
        proof {
            assert(models.take(i + 1).drop_last() =~= models.take(i as int));
            assert(models.take(i + 1).last() == vars@[i as int]@);
            assert(out@ =~= old(out)@ + spec_render_vars(models.take(i + 1)));
        }
        i = i + 1;
    }
    proof {
        assert(models.take(vars@.len() as int) =~= models);
    }
}

/// Implemented by the statement kinds that carry an attached, append-only
/// list of variables.
pub trait Variables: Sized {
    /// The attached variables, in attachment order.
    spec fn vars(&self) -> Seq<VarModel>;

    /// Everything apart from the attached variable list is the same in
    /// `self` and `other`.
    spec fn agrees_except_vars(&self, other: &Self) -> bool;

    /// Agreement outside the variable list carries over chained calls.
    proof fn agrees_except_vars_transitive(a: &Self, b: &Self, c: &Self)
        requires
            a.agrees_except_vars(b),
            b.agrees_except_vars(c),
        ensures
            a.agrees_except_vars(c),
    ;

    /// Append one variable to the attached list.
    fn add_variable_internal(&mut self, v: Variable)
        ensures
            final(self).vars() == old(self).vars().push(v@),
            old(self).agrees_except_vars(final(self)),
    ;

    /// Attach a variable and hand the value back for chaining.
    fn variable<N: ToArg, V: ToArg>(self, name: N, value: V) -> (r: Self)
        ensures
            r.vars() == self.vars().push(
                VarModel { name: name.arg_model(), value: value.arg_model() },
            ),
            self.agrees_except_vars(&r),
    {
        let mut s = self;
        s.add_variable_internal(Variable::new(name, value));
        s
    }
}

} // verus!
