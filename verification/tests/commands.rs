use tsck::func_lexer::{FuncExpr, FuncLexer};
use tsck::lexer::{parse_func, Expr};

#[test]
fn lexer() {
    let inputs = [
        "app::PHOTOSHOP",
        "app::TSOCKEE(TODO)",
        "workspace::TOGGLE",
        "workspace::CALC(12,14)",
        "workspace::RESIZE(WINDOW(12,14))",
        "window::TRANSFORM((300,300),(0,0))",
        "app::TSOCKEE(TODO)",
        "app::PHOTOSHOP",
        "app::TSOCKEE(TSOOGLE SOMETHING)",
        "app::CYCLE",
    ];

    for s in inputs {
        if let Some(cmd) = parse_func(s) {
            println!("{:#?}", cmd);
        }
    }
}

#[test]
fn lexer_adv() {
    let input = [
        "app::SCRIPT('main')",
        "app::SCRIPT('some/main.js')",
        "app::SCRIPT('path/to/another jsfile.js',(10,20,(10,10)))",
    ];
    for s in input {
        println!("{:#?}", parse_func(s))
    }
}

#[test]
fn test_multi_func() {
    let inputs = [
        "app::TupleStr(('IC','WIDTH'))",
        "app::TupleNum(20,10)",
        "app::Num(10)",
        "app::Str('createNewDocument')",
    ];
    for input in inputs {
        if let Some(et) = FuncLexer::parse_func(input) {
            if let Some(FuncExpr::TupleString(a, b)) = et.args {
                println!("TUPLESTR::: {}{}", a, b);
            }
        }
    }
}

#[test]
fn string_argument_is_extracted() {
    let f = parse_func("app::SCRIPT('main.js')").unwrap();
    assert_eq!(f.entry, "app");
    assert_eq!(f.func, "SCRIPT");
    assert_eq!(f.args, vec![Expr::String("main.js".to_string())]);
}

#[test]
fn nested_call_is_preserved() {
    let f = parse_func("workspace::RESIZE(WINDOW(12,14))").unwrap();
    assert_eq!(f.entry, "workspace");
    assert_eq!(f.func, "RESIZE");
    assert_eq!(
        f.args,
        vec![Expr::Call {
            name: "WINDOW".to_string(),
            args: vec![Expr::Number(12), Expr::Number(14)],
        }]
    );
}

#[test]
fn two_tuple_arguments_are_kept() {
    let f = parse_func("window::TRANSFORM((300,300),(0,0))").unwrap();
    assert_eq!(f.args.len(), 2);
    assert_eq!(
        f.args[0],
        Expr::Tuple(vec![Expr::Number(300), Expr::Number(300)])
    );
    assert_eq!(f.args[1], Expr::Tuple(vec![Expr::Number(0), Expr::Number(0)]));
}

#[test]
fn command_without_parens_has_no_arguments() {
    let f = parse_func("app::CYCLE").unwrap();
    assert_eq!(f.entry, "app");
    assert_eq!(f.func, "CYCLE");
    assert!(f.args.is_empty());
}

#[test]
fn single_arg_parser_collapses_tuples() {
    let f = FuncLexer::parse_func("app::TupleNum((20,10))").unwrap();
    assert_eq!(f.args, Some(FuncExpr::Tuple(20, 10)));
    let f = FuncLexer::parse_func("app::TupleStr(('IC','WIDTH'))").unwrap();
    assert_eq!(
        f.args,
        Some(FuncExpr::TupleString("IC".to_string(), "WIDTH".to_string()))
    );
}

#[test]
fn single_arg_parser_keeps_last_of_a_list() {
    let f = FuncLexer::parse_func("app::TupleNum(20,10)").unwrap();
    assert_eq!(f.args, Some(FuncExpr::Number(10)));
}

#[test]
fn single_arg_parser_nested_call() {
    let f = FuncLexer::parse_func("workspace::RESIZE(WINDOW(12))").unwrap();
    match f.args {
        Some(FuncExpr::Call { name, args }) => {
            assert_eq!(name, "WINDOW");
            assert_eq!(*args.unwrap(), FuncExpr::Number(12));
        }
        other => panic!("unexpected arguments: {:?}", other),
    }
}

#[test]
fn structural_mismatches_fail_the_parse() {
    assert!(parse_func("app").is_none());
    assert!(parse_func("app:CYCLE").is_none());
    assert!(parse_func("::CYCLE").is_none());
    assert!(parse_func("app::F((1,2)").is_none());
    assert!(parse_func("app::F('unterminated").is_none());
    assert!(FuncLexer::parse_func("app::F(1,)").is_none());
    assert!(FuncLexer::parse_func("app::F((1,'x'))").is_none());
    assert!(FuncLexer::parse_func("app::F((1,2,3))").is_none());
}

#[test]
fn empty_argument_list_parses() {
    let f = parse_func("app::F()").unwrap();
    assert_eq!(f.func, "F");
    assert!(f.args.is_empty());
    let f = FuncLexer::parse_func("app::F()").unwrap();
    assert_eq!(f.args, None);
}

#[test]
fn trailing_text_fails_the_whole_parse() {
    assert!(parse_func("app::CYCLE junk").is_none());
    assert!(parse_func("app::F(1) more").is_none());
    assert!(parse_func("app::CYCLE  ").is_some());
    // the single-argument parser keeps the binding files' lenient tail
    assert!(FuncLexer::parse_func("app::CYCLE junk").is_some());
}

#[test]
fn numbers_too_large_for_i64_fail() {
    assert!(parse_func("app::F(99999999999999999999)").is_none());
    let f = parse_func("app::F(9223372036854775807)").unwrap();
    assert_eq!(f.args, vec![Expr::Number(i64::MAX)]);
}

#[test]
fn whitespace_between_tokens_is_skipped() {
    let f = parse_func("  app :: CYCLE  ( 1 , 2 )").unwrap();
    assert_eq!(f.entry, "app");
    assert_eq!(f.args, vec![Expr::Number(1), Expr::Number(2)]);
}

#[test]
fn identifiers_allow_underscore_and_dash() {
    let f = parse_func("app::F(some-name_2)").unwrap();
    assert_eq!(f.args, vec![Expr::Ident("some-name_2".to_string())]);
}

#[test]
fn parsing_twice_gives_equal_trees() {
    let input = "workspace::RESIZE(WINDOW(12,14))";
    assert_eq!(parse_func(input), parse_func(input));
    assert_eq!(FuncLexer::parse_func(input), FuncLexer::parse_func(input));
    let bad = "app::F((1,2,3)";
    assert_eq!(parse_func(bad), parse_func(bad));
}
