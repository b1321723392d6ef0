use brigadier_rs::{
    boolean, finish, integer, integer_i16, integer_i8, integer_u16, integer_u32, integer_u64,
    literal, ArgValue, Argument, CmdErrorKind, CommandArgument, IntKind,
};

#[test]
fn each_integer_type_reads_its_range() {
    assert_eq!(integer_i8("n").parse("-128").unwrap(), ("", -128));
    assert!(integer_i8("n").parse("128").is_err());
    assert_eq!(integer_i16("n").parse("-32768").unwrap(), ("", -32768));
    assert!(integer_i16("n").parse("32768").is_err());
    assert_eq!(integer_u16("n").parse("65535").unwrap(), ("", 65535));
    assert!(integer_u16("n").parse("65536").is_err());
    assert_eq!(integer_u32("n").parse("4294967295").unwrap(), ("", 4294967295));
    assert!(integer_u32("n").parse("4294967296").is_err());
    assert_eq!(integer_u64("n").parse("18446744073709551615").unwrap(), ("", 18446744073709551615));
    let e = integer_u64("n").parse("18446744073709551616").unwrap_err();
    assert!(matches!(&e.kind, CmdErrorKind::External(m) if m == "number too large to fit in target type"));
    let e = integer("n", IntKind::I64).parse("-9223372036854775809").unwrap_err();
    assert!(matches!(&e.kind, CmdErrorKind::External(m) if m == "number too small to fit in target type"));
}

#[test]
fn integer_bounds_default_to_the_type() {
    let n = integer("n", IntKind::U8);
    assert_eq!(n.min, 0);
    assert_eq!(n.max, 255);
    let n = integer_i8("n").min(-5).max(5);
    assert_eq!((n.min, n.max), (-5, 5));
    assert!(n.parse("-6").is_err());
    assert_eq!(n.parse("-5").unwrap(), ("", -5));
}

#[test]
fn any_argument_hands_on_its_value() {
    let a = Argument::Literal(literal("go"));
    assert_eq!(a.parse("go on").unwrap(), (" on", None));
    let a = Argument::Boolean(boolean("b"));
    assert_eq!(a.parse("false").unwrap(), ("", Some(ArgValue::Bool(false))));
    let a = Argument::Number(integer_i8("n"));
    assert_eq!(a.parse("12_3x").unwrap_err().input, "x");
    assert_eq!(a.parse("12 x").unwrap(), (" x", Some(ArgValue::Int(12))));
}

#[test]
fn finish_maps_the_action_outcome() {
    assert_eq!(finish("", Ok::<u8, String>(3)).unwrap(), ("", 3));
    let e = finish("left", Err::<u8, String>("bad".to_string())).unwrap_err();
    assert_eq!(e.input, "left");
    assert!(matches!(&e.kind, CmdErrorKind::External(m) if m == "bad"));
}
