use brigadier_rs::{
    boolean, integer_i32, integer_i64, integer_u8, literal, prefix, ArgValue, Arguments,
    BuildExecute, BuildPropagate, ChildUsage, CmdErrorKind, CommandArgument, CommandThen,
    HelpUsage, IntoMultipleUsage, SyntaxKind, Then, ThenHelp,
};

type Handler = fn(u32, Arguments) -> Result<String, String>;

fn run(source: u32, handler: &Handler, args: Arguments) -> Result<String, String> {
    handler(source, args)
}

fn values(args: Arguments) -> Vec<ArgValue> {
    match args {
        Arguments::Values(v) => v,
        Arguments::Usages(_) => panic!("expected values"),
    }
}

fn root(_: u32, args: Arguments) -> Result<String, String> {
    Ok(format!("root {:?}", values(args)))
}

fn child(_: u32, args: Arguments) -> Result<String, String> {
    Ok(format!("child {:?}", values(args)))
}

fn failing(_: u32, _: Arguments) -> Result<String, String> {
    Err("boom".to_string())
}

fn source_of(source: u32, _: Arguments) -> Result<String, String> {
    Ok(format!("source {}", source))
}

#[test]
fn literal_matches_itself_and_upper_case() {
    let lit = literal("foo");
    assert_eq!(lit.parse("foo").unwrap(), ("", ()));
    assert_eq!(lit.parse("FOO").unwrap(), ("", ()));
    assert_eq!(lit.parse("fOo bar").unwrap(), (" bar", ()));
    assert_eq!(lit.parse("foobar").unwrap(), ("bar", ()));
}

#[test]
fn literal_ignores_case_beyond_ascii() {
    assert_eq!(literal("é").parse("É").unwrap(), ("", ()));
    assert_eq!(literal("école").parse("ÉCOLE ouverte").unwrap(), (" ouverte", ()));
    assert_eq!(literal("ÀB").parse("àb").unwrap(), ("", ()));
    assert_eq!(literal("Ω").parse("ω!").unwrap(), ("!", ()));
    assert!(literal("é").parse("e").is_err());
    let l = "grüße";
    let upper = l.to_uppercase();
    assert!(literal(l).parse(&upper).is_err());
    assert_eq!(literal(l).parse("GRÜßE").unwrap(), ("", ()));
}

#[test]
fn literal_mismatch_is_recoverable() {
    let lit = literal("foo");
    let e = lit.parse("fo").unwrap_err();
    assert!(matches!(e.kind, CmdErrorKind::Syntax(SyntaxKind::Tag)));
    assert_eq!(e.input, "fo");
    assert!(!e.is_fatal());
    assert!(lit.parse("").is_err());
    assert!(lit.parse("bar").is_err());
}

#[test]
fn boolean_reads_either_case() {
    let b = boolean("flag");
    assert_eq!(b.parse("true").unwrap(), ("", true));
    assert_eq!(b.parse("FALSE rest").unwrap(), (" rest", false));
    let e = b.parse("yes").unwrap_err();
    assert!(matches!(e.kind, CmdErrorKind::Syntax(SyntaxKind::Tag)));
}

#[test]
fn bounded_number_out_of_bounds_and_in_bounds() {
    let n = integer_i32("n").min(0).max(10);
    let e = n.parse("13").unwrap_err();
    assert!(matches!(e.kind, CmdErrorKind::OutOfBounds));
    assert!(e.is_fatal());
    assert_eq!(e.input, "");
    assert_eq!(n.parse("7").unwrap(), ("", 7));
    assert_eq!(n.parse("10 x").unwrap(), (" x", 10));
    assert!(n.parse("-1").is_err());
}

#[test]
fn number_reads_negative_and_full_range() {
    let n = integer_i32("n");
    assert_eq!(n.parse("-42").unwrap(), ("", -42));
    assert_eq!(n.parse("2147483647").unwrap(), ("", 2147483647));
    let big = integer_i64("n");
    assert_eq!(big.parse("12345678945645620").unwrap(), ("", 12345678945645620));
}

#[test]
fn number_errors_from_reading() {
    let n = integer_i32("n");
    let e = n.parse("2147483648").unwrap_err();
    assert!(matches!(&e.kind, CmdErrorKind::External(m) if m == "number too large to fit in target type"));
    assert!(e.is_fatal());
    let e = n.parse("1_000 x").unwrap_err();
    assert!(matches!(&e.kind, CmdErrorKind::External(m) if m == "invalid digit found in string"));
    assert_eq!(e.input, " x");
    let u = integer_u8("u");
    assert!(matches!(u.parse("-1").unwrap_err().kind, CmdErrorKind::External(_)));
    assert_eq!(u.parse("255").unwrap(), ("", 255));
    assert!(u.parse("256").is_err());
}

#[test]
fn number_without_digits_is_recoverable() {
    let n = integer_i32("n");
    let e = n.parse("-x").unwrap_err();
    assert!(matches!(e.kind, CmdErrorKind::Syntax(SyntaxKind::Digit)));
    assert_eq!(e.input, "x");
    assert!(!e.is_fatal());
    assert!(n.parse("").is_err());
}

fn root_with_child() -> CommandThen<Handler> {
    literal("foo")
        .then(literal("bar").build_exec(child as Handler))
        .build_exec(root as Handler)
}

#[test]
fn deeper_takes_priority() {
    let tree = root_with_child();
    assert_eq!(tree.execute(0, "foo", &run).unwrap(), ("", "root []".to_string()));
    assert_eq!(tree.execute(0, "foo bar", &run).unwrap(), ("", "child []".to_string()));
    assert_eq!(tree.execute(0, "FOO BAR", &run).unwrap(), ("", "child []".to_string()));
}

#[test]
fn trailing_input_at_action_is_fatal() {
    let tree = root_with_child();
    let e = tree.execute(0, "foo baz", &run).unwrap_err();
    assert!(matches!(e.kind, CmdErrorKind::NonEmpty));
    assert_eq!(e.input, " baz");
    assert_eq!(e.convert("foo baz", 10), "Unknown input: foo<--[HERE]");
}

#[test]
fn failed_continuation_without_action_is_recoverable() {
    let tree: CommandThen<Handler> = literal("foo").then(literal("bar").build_exec(child as Handler));
    let e = tree.execute(0, "foo baz", &run).unwrap_err();
    assert!(matches!(e.kind, CmdErrorKind::Syntax(SyntaxKind::Tag)));
    assert!(!e.is_fatal());
    assert_eq!(e.input, "baz");
    let e = tree.execute(0, "foo", &run).unwrap_err();
    assert!(matches!(e.kind, CmdErrorKind::Char(' ')));
    assert_eq!(e.convert("foo", 10), "Expected  : foo<--[HERE]");
}

#[test]
fn siblings_are_tried_in_order() {
    let tree: CommandThen<Handler> = literal("set")
        .then(integer_i32("n").build_exec(child as Handler))
        .then(boolean("b").build_exec(root as Handler));
    assert_eq!(tree.execute(0, "set 5", &run).unwrap().1, "child [Int(5)]");
    assert_eq!(tree.execute(0, "set true", &run).unwrap().1, "root [Bool(true)]");
    let e = tree.execute(0, "set maybe", &run).unwrap_err();
    assert!(matches!(e.kind, CmdErrorKind::Syntax(SyntaxKind::Tag)));
}

#[test]
fn values_accumulate_from_root_to_leaf() {
    let tree: CommandThen<Handler> = literal("tp").then(
        integer_i32("x").then(integer_i32("y").build_propagate(child as Handler)),
    );
    let (rest, out) = tree.execute(0, "tp 1 -2", &run).unwrap();
    assert_eq!(rest, "");
    assert_eq!(out, "child [Int(1), Int(-2)]");
    let (action, args) = tree.dispatch("tp 3 4").unwrap();
    assert_eq!(*action as usize, child as Handler as usize);
    assert_eq!(args, vec![ArgValue::Int(3), ArgValue::Int(4)]);
}

#[test]
fn source_reaches_the_action() {
    let tree: CommandThen<Handler> = literal("who").build_exec(source_of as Handler);
    assert_eq!(tree.execute(42, "who", &run).unwrap().1, "source 42");
}

#[test]
fn action_failure_is_fatal_external() {
    let tree: CommandThen<Handler> = literal("foo").build_exec(failing as Handler);
    let e = tree.execute(0, "foo", &run).unwrap_err();
    assert!(matches!(&e.kind, CmdErrorKind::External(m) if m == "boom"));
    assert!(e.is_fatal());
    assert_eq!(e.convert("/foo", 10), "boom: /foo<--[HERE]");
}

#[test]
fn out_of_bounds_is_fatal_in_dispatch() {
    let tree: CommandThen<Handler> = literal("foo")
        .then(integer_i32("bar").min(0).max(10).build_exec(child as Handler))
        .then(integer_i64("wide").build_exec(root as Handler));
    let e = tree.execute(0, "foo 13", &run).unwrap_err();
    assert!(matches!(e.kind, CmdErrorKind::OutOfBounds));
    assert_eq!(e.convert("foo 13", 3), "Number was out of bounds: ... 13<--[HERE]");
}

fn usage_tree() -> CommandThen<Handler> {
    literal("foo")
        .then(integer_i32("bar").build_exec(child as Handler))
        .then(boolean("buzz").build_exec(child as Handler))
        .build_exec(root as Handler)
}

#[test]
fn usages_list_one_per_action() {
    let tree = usage_tree();
    let mut usages = tree.usage_gen();
    assert!(usages.is_next());
    assert_eq!(usages.next().unwrap(), "foo");
    assert_eq!(usages.next().unwrap(), "foo <bar>");
    assert_eq!(usages.next().unwrap(), "foo <buzz>");
    assert!(usages.next().is_none());
    assert!(!usages.is_next());
    assert_eq!(tree.usage_list(), vec!["foo", "foo <bar>", "foo <buzz>"]);
}

#[test]
fn usages_restart_from_the_tree() {
    let tree = usage_tree();
    let mut first = tree.usage_gen();
    first.next();
    let mut second = tree.usage_gen();
    assert_eq!(second.next().unwrap(), "foo");
}

#[test]
fn usages_of_nested_tree() {
    let tree: CommandThen<Handler> = literal("give")
        .then(literal("all").then(integer_i32("count").build_exec(child as Handler)));
    assert_eq!(tree.usage_list(), vec!["give all <count>"]);
    assert_eq!(tree.usage_child(), "give");
}

#[test]
fn prefix_puts_text_in_front() {
    let us = vec!["a".to_string(), "b c".to_string()];
    assert_eq!(prefix("x ", &us), vec!["x a", "x b c"]);
    assert!(prefix("x ", &Vec::new()).is_empty());
}

fn help_action(_: u32, args: Arguments) -> Result<String, String> {
    match args {
        Arguments::Usages(mut u) => {
            let mut all = Vec::new();
            while let Some(s) = u.next() {
                all.push(s);
            }
            Ok(all.join("|"))
        }
        Arguments::Values(_) => panic!("expected usages"),
    }
}

#[test]
fn help_lists_the_usages() {
    let cmd = usage_tree().help("Test description").build_exec(help_action as Handler);
    let entry = cmd.help();
    assert_eq!(entry.name, "foo");
    assert_eq!(entry.description, "Test description");
    assert_eq!(cmd.execute(0, "foo help", &run).unwrap(), ("", "foo|foo <bar>|foo <buzz>".to_string()));
    assert_eq!(cmd.execute(0, "foo 3", &run).unwrap().1, "child [Int(3)]");
    assert_eq!(cmd.execute(0, "foo", &run).unwrap().1, "root []");
    let e = cmd.execute(0, "foo help me", &run).unwrap_err();
    assert!(matches!(e.kind, CmdErrorKind::NonEmpty));
    assert_eq!(cmd.usage_gen().next().unwrap(), "foo");
}

#[test]
fn help_without_action_has_no_help_branch() {
    let described = usage_tree().help("d");
    assert_eq!(described.help().name, "foo");
    let e = described.execute(0, "foo help", &run).unwrap_err();
    assert!(matches!(e.kind, CmdErrorKind::NonEmpty));
    assert_eq!(e.input, " help");
}

#[test]
fn error_descriptions() {
    assert_eq!(CmdErrorKind::Char(' ').description(), "Expected  ");
    assert_eq!(CmdErrorKind::Char('x').description(), "Expected x");
    assert_eq!(CmdErrorKind::Syntax(SyntaxKind::Tag).description(), "Parse error: Tag");
    assert_eq!(CmdErrorKind::Syntax(SyntaxKind::Digit).description(), "Parse error: Digit");
    assert_eq!(CmdErrorKind::OutOfBounds.description(), "Number was out of bounds");
    assert_eq!(CmdErrorKind::NonEmpty.description(), "Unknown input");
}

#[test]
fn literal_prefix_is_caught_by_later_checks() {
    let with_action = root_with_child();
    let e = with_action.execute(0, "foobar", &run).unwrap_err();
    assert!(matches!(e.kind, CmdErrorKind::NonEmpty));
    assert_eq!(e.input, "bar");
    let without_action: CommandThen<Handler> = literal("foo").then(literal("bar").build_exec(child as Handler));
    let e = without_action.execute(0, "foobar", &run).unwrap_err();
    assert!(matches!(e.kind, CmdErrorKind::Char(' ')));
    assert_eq!(e.input, "bar");
}
