use tsck::keeparser::KeeParser;
use tsck::resolver::{AppFunc, FuncEntries, ResolveError, TestEntries, TestFunc, WorkspaceFunc};

#[test]
fn test_multi_enum() {
    let input = "\r\nM-1 = app::SomethingUseFull(('Lhs', 'Rhs'))\r\nM-2 = app::SomethingNone(300)\r\n";
    let lexer = KeeParser::new(input);
    let kf = lexer.parse();
    for input in kf {
        if let Ok(entries) = TestEntries::parse(input.func.as_str()) {
            match entries {
                TestEntries::App(test_func) => match test_func {
                    TestFunc::SomethingNone(a) => {
                        println!("TestFunc::SomethingNone {}", a)
                    }
                },
            }
        }
    }
}

#[test]
fn declared_integer_function_resolves() {
    let r = TestEntries::parse("app::SomethingNone(300)").unwrap();
    assert_eq!(r, TestEntries::App(TestFunc::SomethingNone(300)));
}

#[test]
fn undeclared_two_field_function_is_unknown() {
    let r = TestEntries::parse("app::SomethingUseFull(('Lhs', 'Rhs'))");
    assert_eq!(
        r,
        Err(ResolveError::UnknownFunction("SomethingUseFull".to_string()))
    );
}

#[test]
fn zero_argument_function_resolves_without_parens() {
    let r = FuncEntries::parse("app::CycleApps").unwrap();
    assert_eq!(r, FuncEntries::App(AppFunc::CycleApps));
    let r = FuncEntries::parse("app::CYCLEAPPS").unwrap();
    assert_eq!(r, FuncEntries::App(AppFunc::CycleApps));
}

#[test]
fn zero_argument_function_ignores_arguments() {
    let r = FuncEntries::parse("app::CycleApps(5)").unwrap();
    assert_eq!(r, FuncEntries::App(AppFunc::CycleApps));
    let r = FuncEntries::parse("app::ReloadConfig('x')").unwrap();
    assert_eq!(r, FuncEntries::App(AppFunc::ReloadConfig));
}

#[test]
fn string_argument_function_resolves() {
    let r = FuncEntries::parse("app::SCRIPT('splittext.js')").unwrap();
    assert_eq!(r, FuncEntries::App(AppFunc::Script("splittext.js".to_string())));
    let r = FuncEntries::parse("app::FUNCCALL('createNewDocument')").unwrap();
    assert_eq!(
        r,
        FuncEntries::App(AppFunc::FuncCall("createNewDocument".to_string()))
    );
}

#[test]
fn workspace_scope_resolves() {
    let r = FuncEntries::parse("workspace::CycleWorkspace").unwrap();
    assert_eq!(r, FuncEntries::Workspace(WorkspaceFunc::CycleWorkspace));
    let r = FuncEntries::parse("WORKSPACE::Activate(2)").unwrap();
    assert_eq!(r, FuncEntries::Workspace(WorkspaceFunc::Activate(2)));
}

#[test]
fn unknown_scope_is_reported() {
    let r = FuncEntries::parse("nowhere::CycleApps");
    assert_eq!(r, Err(ResolveError::UnknownScope("nowhere".to_string())));
}

#[test]
fn unknown_function_is_reported() {
    let r = FuncEntries::parse("app::NOSUCH");
    assert_eq!(r, Err(ResolveError::UnknownFunction("NOSUCH".to_string())));
}

#[test]
fn wrong_argument_kinds_are_reported() {
    let r = FuncEntries::parse("app::Script");
    assert_eq!(r, Err(ResolveError::ExpectedString("Script".to_string())));
    let r = FuncEntries::parse("app::Script(12)");
    assert_eq!(r, Err(ResolveError::ExpectedString("Script".to_string())));
    let r = FuncEntries::parse("app::Page('x')");
    assert_eq!(r, Err(ResolveError::ExpectedNumber("Page".to_string())));
    let r = FuncEntries::parse("app::Page");
    assert_eq!(r, Err(ResolveError::ExpectedNumber("Page".to_string())));
}

#[test]
fn unparsable_text_is_reported() {
    let r = FuncEntries::parse("no command here");
    assert_eq!(r, Err(ResolveError::ParseFailed("no command here".to_string())));
}
