use ninja_writer::{
    AddOnlyVec, Build, Ninja, Pool, Rule, RuleVariables, Stmt, Variable, Variables,
};

#[test]
fn ninja_test_default() {
    let ninja = Ninja::new();
    assert_eq!(ninja.render(), "");
}

#[test]
fn pool_test_default() {
    let pool = Pool::new("foo", 1);
    assert_eq!(pool.render(), "pool foo\n  depth = 1\n");
}

#[test]
fn test_variable() {
    let pool = Pool::new("foo", 42).variable("foov", "z");
    assert_eq!(pool.render(), "pool foo\n  depth = 42\n  foov = z\n");
}

// Scenario: an empty document renders to the empty string.
#[test]
fn empty_document_renders_empty() {
    assert_eq!(Ninja::new().render(), "");
    assert_eq!(Ninja::default().render(), "");
}

// Scenario: one rule and one build edge under it.
#[test]
fn rule_and_build_scenario() {
    let mut ninja = Ninja::new();
    let cc = ninja.rule("cc", "gcc -c $in -o $out");
    let edge = cc.build(&mut ninja, vec!["foo.o"]);
    edge.with(&mut ninja, vec!["foo.c"]);
    assert_eq!(
        ninja.render(),
        "\nrule cc\n  command = gcc -c $in -o $out\n\nbuild foo.o: cc foo.c\n"
    );
}

// Scenario: a pool plus a rule attached to that pool.
#[test]
fn pool_and_attached_rule_scenario() {
    let mut ninja = Ninja::new();
    let expensive = ninja.pool("expensive", 4);
    Rule::new("compile", "gcc $cflags -c $in -o $out")
        .pool(&expensive)
        .add_to(&mut ninja);
    assert_eq!(
        ninja.render(),
        "\npool expensive\n  depth = 4\n\nrule compile\n  command = gcc $cflags -c $in -o $out\n  pool = expensive\n"
    );
}

// Scenario: duplicated variable names are kept, in attachment order.
#[test]
fn duplicate_variables_kept_in_order() {
    let rule = Rule::new("r", "c").variable("foo", "1").variable("foo", "2");
    assert_eq!(rule.render(), "rule r\n  command = c\n  foo = 1\n  foo = 2\n");

    let mut ninja = Ninja::new();
    ninja.variable("foo", "bar");
    ninja.variable("foo", "bar again");
    assert_eq!(ninja.render(), "\nfoo = bar\nfoo = bar again\n");
}

// Statements appear in the exact order of the append calls.
#[test]
fn append_order_is_preserved() {
    let mut n = Ninja::new();
    n.comment("one");
    n.variable("a", "1");
    n.subninja("sub.ninja");
    n.include_file("inc.ninja");
    n.defaults(vec!["t"]);
    assert_eq!(
        n.render(),
        "\n# one\n\na = 1\n\nsubninja sub.ninja\n\ninclude inc.ninja\n\ndefault t\n"
    );
}

// A blank line separates adjacent statements iff the later one is a rule
// or the statement kind changes.
#[test]
fn blank_line_grouping() {
    let mut n = Ninja::new();
    n.comment("a");
    n.comment("b");
    n.rule("r1", "c1");
    n.rule("r2", "c2");
    n.variable("v", "1");
    n.variable("w", "2");
    assert_eq!(
        n.render(),
        "\n# a\n# b\n\nrule r1\n  command = c1\n\nrule r2\n  command = c2\n\nv = 1\nw = 2\n"
    );
}

// With only explicit outputs and dependencies the build header carries
// no group markers.
#[test]
fn build_header_shape_no_markers() {
    let mut n = Ninja::new();
    let cc = n.rule("cc", "gcc");
    let edge = cc.build(&mut n, vec!["foo.o", "bar.o"]);
    edge.with(&mut n, vec!["foo.c", "bar.c"]);
    let text = n.render();
    let header = text.lines().last().unwrap();
    assert_eq!(header, "build foo.o bar.o: cc foo.c bar.c");
    assert!(!header.contains('|'));
}

// Every optional group appears with its marker when non-empty.
#[test]
fn build_header_all_groups() {
    let mut n = Ninja::new();
    let rule = n.rule("example", "...");
    let edge = rule.build(&mut n, vec!["foo"]);
    edge.with(&mut n, vec!["bar", "baz"]);
    edge.with_order_only(&mut n, vec!["oo"]);
    edge.with_implicit(&mut n, vec!["qux"]);
    edge.validations(&mut n, vec!["quux"]);
    edge.output_implicit(&mut n, vec!["iii"]);
    assert_eq!(
        n.render(),
        "\nrule example\n  command = ...\n\nbuild foo | iii: example bar baz | qux || oo |@ quux\n"
    );
}

// An owned build edge renders the same header, and its attached
// variables indent below it.
#[test]
fn owned_build_edge() {
    let rule = Rule::new("cc", "gcc");
    let edge = Build::new(&rule, vec!["a.o"])
        .with(vec!["a.c"])
        .with_implicit(vec!["h"])
        .with_order_only(vec!["oo"])
        .validations(vec!["v"])
        .output_implicit(vec!["x"])
        .dyndep("dd");
    assert_eq!(edge.render(), "build a.o | x: cc a.c | h || oo |@ v\n  dyndep = dd\n");
}

#[test]
fn phony_edge() {
    let mut n = Ninja::new();
    let edge = n.phony(vec!["all"]);
    edge.with(&mut n, vec!["foo.o", "bar.o"]);
    assert_eq!(n.render(), "\nbuild all: phony foo.o bar.o\n");
}

#[test]
fn dyndep_on_inserted_edge() {
    let mut n = Ninja::new();
    let rule = n.rule("example", "...");
    let edge = rule.build(&mut n, vec!["foo"]);
    edge.dyndep(&mut n, "bar");
    assert_eq!(
        n.render(),
        "\nrule example\n  command = ...\n\nbuild foo: example\n  dyndep = bar\n"
    );
}

#[test]
fn build_scoped_variable() {
    let mut n = Ninja::new();
    let cc = n.rule("cc", "gcc $cflags -c $in -o $out");
    let edge = cc.build(&mut n, vec!["bar.o"]);
    edge.with(&mut n, vec!["bar.c"]);
    edge.variable(&mut n, "cflags", "-Wall -DDEBUG");
    assert_eq!(
        n.render(),
        "\nrule cc\n  command = gcc $cflags -c $in -o $out\n\nbuild bar.o: cc bar.c\n  cflags = -Wall -DDEBUG\n"
    );
}

#[test]
fn rule_well_known_variables() {
    let rule = Rule::new("cc", "gcc")
        .depfile("$out.d")
        .deps_gcc()
        .description("Compiling $out")
        .generator()
        .restat()
        .rspfile("f", "fc")
        .pool_console();
    assert_eq!(
        rule.render(),
        "rule cc\n  command = gcc\n  depfile = $out.d\n  deps = gcc\n  description = Compiling $out\n  generator = 1\n  restat = 1\n  rspfile = f\n  rspfile_content = fc\n  pool = console\n"
    );
}

#[test]
fn rule_msvc_deps_prefix() {
    let rule = Rule::new("cl", "cl /c $in /Fo$out").deps_msvc_prefix("Note: including file: ");
    assert_eq!(
        rule.render(),
        "rule cl\n  command = cl /c $in /Fo$out\n  deps = msvc\n  msvc_deps_prefix = Note: including file: \n"
    );
    let rule = Rule::new("cl", "cl").deps_msvc();
    assert_eq!(rule.render(), "rule cl\n  command = cl\n  deps = msvc\n");
}

#[test]
fn attach_variable_after_insertion() {
    let mut n = Ninja::new();
    let cc = n.rule("cc", "gcc");
    cc.variable(&mut n, "deps", "gcc");
    assert_eq!(n.render(), "\nrule cc\n  command = gcc\n  deps = gcc\n");

    let mut n2 = Ninja::new();
    let p = n2.pool("p", 2);
    p.variable(&mut n2, "x", "y");
    assert_eq!(n2.render(), "\npool p\n  depth = 2\n  x = y\n");
}

#[test]
fn pool_ref_spawns_rule() {
    let mut n = Ninja::new();
    let p = n.pool("expensive", 4);
    p.rule(&mut n, "compile", "cc $in");
    assert_eq!(
        n.render(),
        "\npool expensive\n  depth = 4\n\nrule compile\n  command = cc $in\n  pool = expensive\n"
    );
}

#[test]
fn variable_new_and_render() {
    let var = Variable::new("foo", "I have a $ in me");
    assert_eq!(var.render(), "foo = I have a $ in me");
}

#[test]
fn stmt_ordinals() {
    let comment = Stmt::Comment("c".to_string());
    let rule = Stmt::Rule(Rule::new("r", "c"));
    let build = Stmt::Build(Build::new(&Rule::new("r", "c"), vec!["o"]));
    let variable = Stmt::Variable(Variable::new("a", "b"));
    let defaults = Stmt::Default(vec!["t".to_string()]);
    let subninja = Stmt::Subninja("s".to_string());
    let inc = Stmt::Include("i".to_string());
    let pool = Stmt::Pool(Pool::new("p", 1));
    assert_eq!(comment.ordinal(), 0);
    assert_eq!(rule.ordinal(), 1);
    assert_eq!(build.ordinal(), 2);
    assert_eq!(variable.ordinal(), 3);
    assert_eq!(defaults.ordinal(), 4);
    assert_eq!(subninja.ordinal(), 5);
    assert_eq!(inc.ordinal(), 6);
    assert_eq!(pool.ordinal(), 7);
    assert!(comment.is_same_type(&Stmt::Comment("other".to_string())));
    assert!(!comment.is_same_type(&subninja));
}

#[test]
fn stmt_ref_appends_to_same_document() {
    let mut n = Ninja::new();
    let first = n.add_stmt(Stmt::Comment("a".to_string()));
    first.add(&mut n, Stmt::Comment("b".to_string()));
    assert_eq!(n.render(), "\n# a\n# b\n");
}

#[test]
fn add_only_vec_basics() {
    let mut v: AddOnlyVec<i32> = AddOnlyVec::new();
    assert_eq!(v.inner().len(), 0);
    v.add(1);
    v.extend(vec![2, 3]);
    assert_eq!(v.inner().as_slice(), &[1, 2, 3]);
}

#[test]
fn defaults_and_includes_render() {
    let mut n = Ninja::new();
    n.defaults(vec!["foo", "bar"]);
    n.defaults(vec!["baz"]);
    assert_eq!(n.render(), "\ndefault foo bar\ndefault baz\n");

    let mut n2 = Ninja::new();
    n2.include_file("foo.ninja");
    n2.include_file("bar.ninja");
    assert_eq!(n2.render(), "\ninclude foo.ninja\ninclude bar.ninja\n");
}

// The worked example of the crate documentation, end to end.
#[test]
fn whole_document_example() {
    let mut ninja = Ninja::new();
    ninja.variable("cflags", "-Wall -Wextra -Werror");
    let cc = ninja.rule("cc", "gcc -MD -MF $depfile $cflags -c $in -o $out");
    cc.variable(&mut ninja, "description", "Compiling $out");
    cc.variable(&mut ninja, "depfile", "$out.d");
    cc.variable(&mut ninja, "deps", "gcc");
    let ld = ninja.rule("ld", "gcc -o $out $in");
    let foo = cc.build(&mut ninja, vec!["foo.o"]);
    foo.with(&mut ninja, vec!["foo.c"]);
    let bar = cc.build(&mut ninja, vec!["bar.o"]);
    bar.with(&mut ninja, vec!["bar.c"]);
    bar.variable(&mut ninja, "cflags", "-Wall -DDEBUG");
    let app = ld.build(&mut ninja, vec!["app"]);
    app.with(&mut ninja, vec!["foo.o", "bar.o"]);
    ninja.defaults(vec!["app"]);
    assert_eq!(
        ninja.render(),
        "\ncflags = -Wall -Wextra -Werror\n\nrule cc\n  command = gcc -MD -MF $depfile $cflags -c $in -o $out\n  description = Compiling $out\n  depfile = $out.d\n  deps = gcc\n\nrule ld\n  command = gcc -o $out $in\n\nbuild foo.o: cc foo.c\nbuild bar.o: cc bar.c\n  cflags = -Wall -DDEBUG\nbuild app: ld foo.o bar.o\n\ndefault app\n"
    );
}
