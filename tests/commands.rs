use brigadier_rs::{
    boolean, integer_i32, literal, ArgValue, Arguments, BuildExecute, CommandThen, HelpUsage,
    Then, ThenHelp,
};

type Handler<S> = fn(S, Arguments) -> Result<(), String>;

fn run<S>(source: S, handler: &Handler<S>, args: Arguments) -> Result<(), String> {
    handler(source, args)
}

fn found_integer(_: (), args: Arguments) -> Result<(), String> {
    if let Arguments::Values(v) = args {
        println!("Found integer {:?}", v);
    }
    Ok(())
}

fn no_value(_: (), _: Arguments) -> Result<(), String> {
    println!("Didn't wanna give us a value aye?");
    Ok(())
}

#[test]
fn test_main() {
    let parser: CommandThen<Handler<()>> = literal("foo")
        .then(integer_i32("bar").max(10).build_exec(found_integer as Handler<()>))
        .build_exec(no_value as Handler<()>);

    assert!(parser.execute((), "foo 13", &run).is_err());
    assert_eq!(("", ()), parser.execute((), "foo", &run).unwrap());
}

fn bar_found(source: i32, args: Arguments) -> Result<(), String> {
    if let Arguments::Values(v) = args {
        println!("Found integer {:?} for source {}", v, source);
    }
    Ok(())
}

fn buzz_found(_: i32, _: Arguments) -> Result<(), String> {
    Ok(())
}

fn foo_alone(_: i32, _: Arguments) -> Result<(), String> {
    println!("Didn't wanna give us a value aye?");
    Ok(())
}

fn foo_help(_: i32, args: Arguments) -> Result<(), String> {
    match args {
        Arguments::Usages(mut usages) => {
            assert_eq!("foo", usages.next().unwrap());
            assert_eq!("foo <bar>", usages.next().unwrap());
            assert_eq!("foo <buzz>", usages.next().unwrap());
            assert!(usages.next().is_none());
            Ok(())
        }
        Arguments::Values(_) => panic!("the help action receives usages"),
    }
}

#[test]
fn test_usage() {
    let parser = literal("foo")
        .then(integer_i32("bar").max(10).build_exec(bar_found as Handler<i32>))
        .then(boolean("buzz").build_exec(buzz_found as Handler<i32>))
        .build_exec(foo_alone as Handler<i32>)
        .help("Test description")
        .build_exec(foo_help as Handler<i32>);

    let help = parser.help();
    println!("{:?}", help);

    assert_eq!(("", ()), parser.execute(10, "foo", &run).unwrap());
    assert_eq!(
        "Unknown input: /foo true<--[HERE]",
        parser.execute(10, "foo true hahah", &run).unwrap_err().convert("/foo true hahah", 10)
    );
    assert_eq!(
        "number too large to fit in target type: ...8945645620<--[HERE]",
        parser
            .execute(10, "foo 12345678945645620", &run)
            .unwrap_err()
            .convert("/foo 12345678945645620", 10)
    );
    assert_eq!(("", ()), parser.execute(12, "foo true", &run).unwrap());
    assert_eq!(("", ()), parser.execute(15, "foo help", &run).unwrap());
}
