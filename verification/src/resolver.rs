//! The schema-driven resolver: maps a parsed `scope::function(args)` call
//! tree onto the closed set of typed commands. Scope and function names
//! match case-insensitively; each declared function takes no argument, a
//! string, or an integer, and a call with the wrong argument kind fails
//! with a named error.

use vstd::prelude::*;
use vstd::utf8::encode_utf8;

use crate::func_lexer::{spec_parse_func, Func, FuncExpr, FuncLexer, SpecFunc, SpecFuncExpr};
use crate::keys::{lower_bytes, spec_lower};
use vstd::string::StringSliceAdditionalSpecFns;

verus! {

/// Why a command failed to resolve; each variant carries the offending
/// text.
#[derive(Debug, PartialEq)]
pub enum ResolveError {
    ParseFailed(String),
    UnknownScope(String),
    UnknownFunction(String),
    ExpectedString(String),
    ExpectedNumber(String),
}

/// A resolution error at the specification level.
pub enum SpecResolveErr {
    ParseFailed(Seq<char>),
    UnknownScope(Seq<char>),
    UnknownFunction(Seq<char>),
    ExpectedString(Seq<char>),
    ExpectedNumber(Seq<char>),
}

impl View for ResolveError {
    type V = SpecResolveErr;

    open spec fn view(&self) -> SpecResolveErr {
        match self {
            ResolveError::ParseFailed(s) => SpecResolveErr::ParseFailed(s@),
            ResolveError::UnknownScope(s) => SpecResolveErr::UnknownScope(s@),
            ResolveError::UnknownFunction(s) => SpecResolveErr::UnknownFunction(s@),
            ResolveError::ExpectedString(s) => SpecResolveErr::ExpectedString(s@),
            ResolveError::ExpectedNumber(s) => SpecResolveErr::ExpectedNumber(s@),
        }
    }
}

/// Case-insensitive name equality: the ASCII-lowercased UTF-8 bytes of
/// the two texts agree.
pub open spec fn spec_eq_nocase(a: Seq<char>, b: Seq<char>) -> bool {
    spec_lower(encode_utf8(a)) == spec_lower(encode_utf8(b))
}

/// Compares two names case-insensitively, as `spec_eq_nocase` describes.
pub fn eq_nocase(a: &str, b: &str) -> (r: bool)
    ensures
        r == spec_eq_nocase(a@, b@),
{
    let la = lower_bytes(&a.as_bytes_vec());
    let lb = lower_bytes(&b.as_bytes_vec());
    bytes_eq(la.as_slice(), lb.as_slice())
}

/// Whether two byte runs are equal, element by element.
pub fn bytes_eq(a: &[u8], b: &[u8]) -> (r: bool)
    ensures
        r == (a@ == b@),
{
    if a.len() != b.len() {
        proof {
            assert(a@.len() != b@.len());
        }
        return false;
    }
    let mut i: usize = 0;
    while i < a.len()
        invariant
            i <= a@.len(),
            a@.len() == b@.len(),
            forall|j: int| 0 <= j < i ==> a@[j] == b@[j],
        decreases a@.len() - i,
    {
        if a[i] != b[i] {
            return false;
        }
        i = i + 1;
    }
    proof {
        assert(a@ =~= b@);
    }
    true
}

/// The string payload of a declared string argument, if the parsed
/// argument is one.
pub open spec fn spec_arg_string(args: Option<SpecFuncExpr>) -> Option<Seq<char>> {
    match args {
        Some(SpecFuncExpr::String(s)) => Some(s),
        _ => None,
    }
}

/// The integer payload of a declared integer argument, if the parsed
/// argument is a number that fits an `i32`.
pub open spec fn spec_arg_i32(args: Option<SpecFuncExpr>) -> Option<i32> {
    match args {
        Some(SpecFuncExpr::Number(n)) => if i32::MIN <= n <= i32::MAX {
            Some(n as i32)
        } else {
            None
        },
        _ => None,
    }
}

/// The parsed arguments of `f`, at the specification level.
pub open spec fn spec_args_view(f: &Func) -> Option<SpecFuncExpr> {
    match f.args {
        Some(e) => Some(e@),
        None => None,
    }
}

/// Extracts a string argument, as `spec_arg_string` describes.
fn arg_string(args: &Option<FuncExpr>) -> (r: Option<String>)
    ensures
        match r {
            Some(s) => spec_arg_string(
                match args {
                    Some(e) => Some(e@),
                    None => None,
                },
            ) == Some(s@),
            None => spec_arg_string(
                match args {
                    Some(e) => Some(e@),
                    None => None,
                },
            ) is None,
        },
{
    match args {
        Some(FuncExpr::String(s)) => Some(s.clone()),
        _ => None,
    }
}

/// Extracts an integer argument, as `spec_arg_i32` describes.
fn arg_i32(args: &Option<FuncExpr>) -> (r: Option<i32>)
    ensures
        r == spec_arg_i32(
            match args {
                Some(e) => Some(e@),
                None => None,
            },
        ),
{
    match args {
        Some(FuncExpr::Number(n)) => {
            if i32::MIN as i64 <= *n && *n <= i32::MAX as i64 {
                Some(*n as i32)
            } else {
                None
            }
        },
        _ => None,
    }
}


/// The typed commands of the `app` scope.
#[derive(Debug, PartialEq)]
pub enum AppFunc {
    Script(String),
    FuncCall(String),
    CyclePages(String),
    LaunchPlugin(String),
    ToggleWindowLevel,
    Page(i32),
    CycleApps,
    AppToFront(String),
    ReloadConfig,
    ToggleCompactMode,
    ToggleShadow,
    AppTest,
}

/// An `app` command at the specification level.
pub enum SpecAppFunc {
    Script(Seq<char>),
    FuncCall(Seq<char>),
    CyclePages(Seq<char>),
    LaunchPlugin(Seq<char>),
    ToggleWindowLevel,
    Page(i32),
    CycleApps,
    AppToFront(Seq<char>),
    ReloadConfig,
    ToggleCompactMode,
    ToggleShadow,
    AppTest,
}

impl View for AppFunc {
    type V = SpecAppFunc;

    open spec fn view(&self) -> SpecAppFunc {
        match self {
            AppFunc::Script(s) => SpecAppFunc::Script(s@),
            AppFunc::FuncCall(s) => SpecAppFunc::FuncCall(s@),
            AppFunc::CyclePages(s) => SpecAppFunc::CyclePages(s@),
            AppFunc::LaunchPlugin(s) => SpecAppFunc::LaunchPlugin(s@),
            AppFunc::ToggleWindowLevel => SpecAppFunc::ToggleWindowLevel,
            AppFunc::Page(n) => SpecAppFunc::Page(*n),
            AppFunc::CycleApps => SpecAppFunc::CycleApps,
            AppFunc::AppToFront(s) => SpecAppFunc::AppToFront(s@),
            AppFunc::ReloadConfig => SpecAppFunc::ReloadConfig,
            AppFunc::ToggleCompactMode => SpecAppFunc::ToggleCompactMode,
            AppFunc::ToggleShadow => SpecAppFunc::ToggleShadow,
            AppFunc::AppTest => SpecAppFunc::AppTest,
        }
    }
}

/// The typed commands of the `workspace` scope.
#[derive(Debug, PartialEq)]
pub enum WorkspaceFunc {
    Activate(i32),
    MoveActiveWindow(String),
    CycleActiveWindowWidth,
    CycleActiveWindowPos,
    MoveActiveWindowToWorkspace,
    CycleWorkspace,
    WorkspaceTest,
}

/// A `workspace` command at the specification level.
pub enum SpecWorkspaceFunc {
    Activate(i32),
    MoveActiveWindow(Seq<char>),
    CycleActiveWindowWidth,
    CycleActiveWindowPos,
    MoveActiveWindowToWorkspace,
    CycleWorkspace,
    WorkspaceTest,
}

impl View for WorkspaceFunc {
    type V = SpecWorkspaceFunc;

    open spec fn view(&self) -> SpecWorkspaceFunc {
        match self {
            WorkspaceFunc::Activate(n) => SpecWorkspaceFunc::Activate(*n),
            WorkspaceFunc::MoveActiveWindow(s) => SpecWorkspaceFunc::MoveActiveWindow(s@),
            WorkspaceFunc::CycleActiveWindowWidth => SpecWorkspaceFunc::CycleActiveWindowWidth,
            WorkspaceFunc::CycleActiveWindowPos => SpecWorkspaceFunc::CycleActiveWindowPos,
            WorkspaceFunc::MoveActiveWindowToWorkspace => SpecWorkspaceFunc::MoveActiveWindowToWorkspace,
            WorkspaceFunc::CycleWorkspace => SpecWorkspaceFunc::CycleWorkspace,
            WorkspaceFunc::WorkspaceTest => SpecWorkspaceFunc::WorkspaceTest,
        }
    }
}

/// The function of the `appfunc`-style schema a parsed call resolves
/// to: names match case-insensitively, and the argument must have the
/// declared kind.
pub open spec fn spec_resolve_appfunc(func: Seq<char>, args: Option<SpecFuncExpr>) -> Result<
    SpecAppFunc,
    SpecResolveErr,
> {
    if spec_eq_nocase(func, "script"@) {
        match spec_arg_string(args) {
            Some(s) => Ok(SpecAppFunc::Script(s)),
            None => Err(SpecResolveErr::ExpectedString(func)),
        }
    } else if spec_eq_nocase(func, "funccall"@) {
        match spec_arg_string(args) {
            Some(s) => Ok(SpecAppFunc::FuncCall(s)),
            None => Err(SpecResolveErr::ExpectedString(func)),
        }
    } else if spec_eq_nocase(func, "cyclepages"@) {
        match spec_arg_string(args) {
            Some(s) => Ok(SpecAppFunc::CyclePages(s)),
            None => Err(SpecResolveErr::ExpectedString(func)),
        }
    } else if spec_eq_nocase(func, "launchplugin"@) {
        match spec_arg_string(args) {
            Some(s) => Ok(SpecAppFunc::LaunchPlugin(s)),
            None => Err(SpecResolveErr::ExpectedString(func)),
        }
    } else if spec_eq_nocase(func, "togglewindowlevel"@) {
        Ok(SpecAppFunc::ToggleWindowLevel)
    } else if spec_eq_nocase(func, "page"@) {
        match spec_arg_i32(args) {
            Some(n) => Ok(SpecAppFunc::Page(n)),
            None => Err(SpecResolveErr::ExpectedNumber(func)),
        }
    } else if spec_eq_nocase(func, "cycleapps"@) {
        Ok(SpecAppFunc::CycleApps)
    } else if spec_eq_nocase(func, "apptofront"@) {
        match spec_arg_string(args) {
            Some(s) => Ok(SpecAppFunc::AppToFront(s)),
            None => Err(SpecResolveErr::ExpectedString(func)),
        }
    } else if spec_eq_nocase(func, "reloadconfig"@) {
        Ok(SpecAppFunc::ReloadConfig)
    } else if spec_eq_nocase(func, "togglecompactmode"@) {
        Ok(SpecAppFunc::ToggleCompactMode)
    } else if spec_eq_nocase(func, "toggleshadow"@) {
        Ok(SpecAppFunc::ToggleShadow)
    } else if spec_eq_nocase(func, "apptest"@) {
        Ok(SpecAppFunc::AppTest)
    } else {
        Err(SpecResolveErr::UnknownFunction(func))
    }
}

impl AppFunc {
    /// Resolves a parsed call onto this schema, as
    /// `spec_resolve_appfunc` describes.
    pub fn from_func(parsed: &Func) -> (r: Result<AppFunc, ResolveError>)
        ensures
            match r {
                Ok(v) => spec_resolve_appfunc(parsed.func@, spec_args_view(parsed)) == Ok::<
                    SpecAppFunc,
                    SpecResolveErr,
                >(v@),
                Err(e) => spec_resolve_appfunc(parsed.func@, spec_args_view(parsed)) == Err::<
                    SpecAppFunc,
                    SpecResolveErr,
                >(e@),
            },
    {
        if eq_nocase(parsed.func.as_str(), "script") {
            match arg_string(&parsed.args) {
                Some(s) => Ok(AppFunc::Script(s)),
                None => Err(ResolveError::ExpectedString(parsed.func.clone())),
            }
        } else if eq_nocase(parsed.func.as_str(), "funccall") {
            match arg_string(&parsed.args) {
                Some(s) => Ok(AppFunc::FuncCall(s)),
                None => Err(ResolveError::ExpectedString(parsed.func.clone())),
            }
        } else if eq_nocase(parsed.func.as_str(), "cyclepages") {
            match arg_string(&parsed.args) {
                Some(s) => Ok(AppFunc::CyclePages(s)),
                None => Err(ResolveError::ExpectedString(parsed.func.clone())),
            }
        } else if eq_nocase(parsed.func.as_str(), "launchplugin") {
            match arg_string(&parsed.args) {
                Some(s) => Ok(AppFunc::LaunchPlugin(s)),
                None => Err(ResolveError::ExpectedString(parsed.func.clone())),
            }
        } else if eq_nocase(parsed.func.as_str(), "togglewindowlevel") {
            Ok(AppFunc::ToggleWindowLevel)
        } else if eq_nocase(parsed.func.as_str(), "page") {
            match arg_i32(&parsed.args) {
                Some(n) => Ok(AppFunc::Page(n)),
                None => Err(ResolveError::ExpectedNumber(parsed.func.clone())),
            }
        } else if eq_nocase(parsed.func.as_str(), "cycleapps") {
            Ok(AppFunc::CycleApps)
        } else if eq_nocase(parsed.func.as_str(), "apptofront") {
            match arg_string(&parsed.args) {
                Some(s) => Ok(AppFunc::AppToFront(s)),
                None => Err(ResolveError::ExpectedString(parsed.func.clone())),
            }
        } else if eq_nocase(parsed.func.as_str(), "reloadconfig") {
            Ok(AppFunc::ReloadConfig)
        } else if eq_nocase(parsed.func.as_str(), "togglecompactmode") {
            Ok(AppFunc::ToggleCompactMode)
        } else if eq_nocase(parsed.func.as_str(), "toggleshadow") {
            Ok(AppFunc::ToggleShadow)
        } else if eq_nocase(parsed.func.as_str(), "apptest") {
            Ok(AppFunc::AppTest)
        } else {
            Err(ResolveError::UnknownFunction(parsed.func.clone()))
        }
    }
}

/// The function of the `workspacefunc`-style schema a parsed call resolves
/// to: names match case-insensitively, and the argument must have the
/// declared kind.
pub open spec fn spec_resolve_workspacefunc(func: Seq<char>, args: Option<SpecFuncExpr>) -> Result<
    SpecWorkspaceFunc,
    SpecResolveErr,
> {
    if spec_eq_nocase(func, "activate"@) {
        match spec_arg_i32(args) {
            Some(n) => Ok(SpecWorkspaceFunc::Activate(n)),
            None => Err(SpecResolveErr::ExpectedNumber(func)),
        }
    } else if spec_eq_nocase(func, "moveactivewindow"@) {
        match spec_arg_string(args) {
            Some(s) => Ok(SpecWorkspaceFunc::MoveActiveWindow(s)),
            None => Err(SpecResolveErr::ExpectedString(func)),
        }
    } else if spec_eq_nocase(func, "cycleactivewindowwidth"@) {
        Ok(SpecWorkspaceFunc::CycleActiveWindowWidth)
    } else if spec_eq_nocase(func, "cycleactivewindowpos"@) {
        Ok(SpecWorkspaceFunc::CycleActiveWindowPos)
    } else if spec_eq_nocase(func, "moveactivewindowtoworkspace"@) {
        Ok(SpecWorkspaceFunc::MoveActiveWindowToWorkspace)
    } else if spec_eq_nocase(func, "cycleworkspace"@) {
        Ok(SpecWorkspaceFunc::CycleWorkspace)
    } else if spec_eq_nocase(func, "workspacetest"@) {
        Ok(SpecWorkspaceFunc::WorkspaceTest)
    } else {
        Err(SpecResolveErr::UnknownFunction(func))
    }
}

impl WorkspaceFunc {
    /// Resolves a parsed call onto this schema, as
    /// `spec_resolve_workspacefunc` describes.
    pub fn from_func(parsed: &Func) -> (r: Result<WorkspaceFunc, ResolveError>)
        ensures
            match r {
                Ok(v) => spec_resolve_workspacefunc(parsed.func@, spec_args_view(parsed)) == Ok::<
                    SpecWorkspaceFunc,
                    SpecResolveErr,
                >(v@),
                Err(e) => spec_resolve_workspacefunc(parsed.func@, spec_args_view(parsed)) == Err::<
                    SpecWorkspaceFunc,
                    SpecResolveErr,
                >(e@),
            },
    {
        if eq_nocase(parsed.func.as_str(), "activate") {
            match arg_i32(&parsed.args) {
                Some(n) => Ok(WorkspaceFunc::Activate(n)),
                None => Err(ResolveError::ExpectedNumber(parsed.func.clone())),
            }
        } else if eq_nocase(parsed.func.as_str(), "moveactivewindow") {
            match arg_string(&parsed.args) {
                Some(s) => Ok(WorkspaceFunc::MoveActiveWindow(s)),
                None => Err(ResolveError::ExpectedString(parsed.func.clone())),
            }
        } else if eq_nocase(parsed.func.as_str(), "cycleactivewindowwidth") {
            Ok(WorkspaceFunc::CycleActiveWindowWidth)
        } else if eq_nocase(parsed.func.as_str(), "cycleactivewindowpos") {
            Ok(WorkspaceFunc::CycleActiveWindowPos)
        } else if eq_nocase(parsed.func.as_str(), "moveactivewindowtoworkspace") {
            Ok(WorkspaceFunc::MoveActiveWindowToWorkspace)
        } else if eq_nocase(parsed.func.as_str(), "cycleworkspace") {
            Ok(WorkspaceFunc::CycleWorkspace)
        } else if eq_nocase(parsed.func.as_str(), "workspacetest") {
            Ok(WorkspaceFunc::WorkspaceTest)
        } else {
            Err(ResolveError::UnknownFunction(parsed.func.clone()))
        }
    }
}

/// The typed commands of the test schema: one integer-argument function.
#[derive(Debug, PartialEq)]
pub enum TestFunc {
    SomethingNone(i32),
}

/// A test command at the specification level.
pub enum SpecTestFunc {
    SomethingNone(i32),
}

impl View for TestFunc {
    type V = SpecTestFunc;

    open spec fn view(&self) -> SpecTestFunc {
        match self {
            TestFunc::SomethingNone(n) => SpecTestFunc::SomethingNone(*n),
        }
    }
}

/// The function of the `testfunc`-style schema a parsed call resolves
/// to: names match case-insensitively, and the argument must have the
/// declared kind.
pub open spec fn spec_resolve_testfunc(func: Seq<char>, args: Option<SpecFuncExpr>) -> Result<
    SpecTestFunc,
    SpecResolveErr,
> {
    if spec_eq_nocase(func, "somethingnone"@) {
        match spec_arg_i32(args) {
            Some(n) => Ok(SpecTestFunc::SomethingNone(n)),
            None => Err(SpecResolveErr::ExpectedNumber(func)),
        }
    } else {
        Err(SpecResolveErr::UnknownFunction(func))
    }
}

impl TestFunc {
    /// Resolves a parsed call onto this schema, as
    /// `spec_resolve_testfunc` describes.
    pub fn from_func(parsed: &Func) -> (r: Result<TestFunc, ResolveError>)
        ensures
            match r {
                Ok(v) => spec_resolve_testfunc(parsed.func@, spec_args_view(parsed)) == Ok::<
                    SpecTestFunc,
                    SpecResolveErr,
                >(v@),
                Err(e) => spec_resolve_testfunc(parsed.func@, spec_args_view(parsed)) == Err::<
                    SpecTestFunc,
                    SpecResolveErr,
                >(e@),
            },
    {
        if eq_nocase(parsed.func.as_str(), "somethingnone") {
            match arg_i32(&parsed.args) {
                Some(n) => Ok(TestFunc::SomethingNone(n)),
                None => Err(ResolveError::ExpectedNumber(parsed.func.clone())),
            }
        } else {
            Err(ResolveError::UnknownFunction(parsed.func.clone()))
        }
    }
}

/// A resolved command, by scope.
#[derive(Debug, PartialEq)]
pub enum FuncEntries {
    App(AppFunc),
    Workspace(WorkspaceFunc),
}

/// A resolved command at the specification level.
pub enum SpecFuncEntries {
    App(SpecAppFunc),
    Workspace(SpecWorkspaceFunc),
}

impl View for FuncEntries {
    type V = SpecFuncEntries;

    open spec fn view(&self) -> SpecFuncEntries {
        match self {
            FuncEntries::App(f) => SpecFuncEntries::App(f@),
            FuncEntries::Workspace(f) => SpecFuncEntries::Workspace(f@),
        }
    }
}

/// What resolving a whole command string gives: the text is parsed, the
/// scope looked up case-insensitively, and the call resolved against that
/// scope's schema.
pub open spec fn spec_resolve_entries(s: Seq<char>) -> Result<SpecFuncEntries, SpecResolveErr> {
    match spec_parse_func(encode_utf8(s)) {
        None => Err(SpecResolveErr::ParseFailed(s)),
        Some(SpecFunc::Func { entry, func, args }) => {
            if spec_eq_nocase(entry, "app"@) {
                match spec_resolve_appfunc(func, args) {
                    Ok(f) => Ok(SpecFuncEntries::App(f)),
                    Err(e) => Err(e),
                }
            } else if spec_eq_nocase(entry, "workspace"@) {
                match spec_resolve_workspacefunc(func, args) {
                    Ok(f) => Ok(SpecFuncEntries::Workspace(f)),
                    Err(e) => Err(e),
                }
            } else {
                Err(SpecResolveErr::UnknownScope(entry))
            }
        },
    }
}

impl FuncEntries {
    /// Parses and resolves a command string, as `spec_resolve_entries`
    /// describes.
    pub fn parse(s: &str) -> (r: Result<FuncEntries, ResolveError>)
        ensures
            match r {
                Ok(v) => spec_resolve_entries(s@) == Ok::<SpecFuncEntries, SpecResolveErr>(v@),
                Err(e) => spec_resolve_entries(s@) == Err::<SpecFuncEntries, SpecResolveErr>(e@),
            },
    {
        let parsed = match FuncLexer::parse_func(s) {
            None => {
                return Err(ResolveError::ParseFailed(s.to_owned()));
            },
            Some(f) => f,
        };
        if eq_nocase(parsed.entry.as_str(), "app") {
            match AppFunc::from_func(&parsed) {
                Ok(f) => Ok(FuncEntries::App(f)),
                Err(e) => Err(e),
            }
        } else if eq_nocase(parsed.entry.as_str(), "workspace") {
            match WorkspaceFunc::from_func(&parsed) {
                Ok(f) => Ok(FuncEntries::Workspace(f)),
                Err(e) => Err(e),
            }
        } else {
            Err(ResolveError::UnknownScope(parsed.entry.clone()))
        }
    }
}

/// A resolved test command, by scope.
#[derive(Debug, PartialEq)]
pub enum TestEntries {
    App(TestFunc),
}

/// A resolved test command at the specification level.
pub enum SpecTestEntries {
    App(SpecTestFunc),
}

impl View for TestEntries {
    type V = SpecTestEntries;

    open spec fn view(&self) -> SpecTestEntries {
        match self {
            TestEntries::App(f) => SpecTestEntries::App(f@),
        }
    }
}

/// What resolving a command against the test schema gives.
pub open spec fn spec_resolve_test_entries(s: Seq<char>) -> Result<
    SpecTestEntries,
    SpecResolveErr,
> {
    match spec_parse_func(encode_utf8(s)) {
        None => Err(SpecResolveErr::ParseFailed(s)),
        Some(SpecFunc::Func { entry, func, args }) => {
            if spec_eq_nocase(entry, "app"@) {
                match spec_resolve_testfunc(func, args) {
                    Ok(f) => Ok(SpecTestEntries::App(f)),
                    Err(e) => Err(e),
                }
            } else {
                Err(SpecResolveErr::UnknownScope(entry))
            }
        },
    }
}

impl TestEntries {
    /// Parses and resolves a command string against the test schema, as
    /// `spec_resolve_test_entries` describes.
    pub fn parse(s: &str) -> (r: Result<TestEntries, ResolveError>)
        ensures
            match r {
                Ok(v) => spec_resolve_test_entries(s@) == Ok::<SpecTestEntries, SpecResolveErr>(
                    v@,
                ),
                Err(e) => spec_resolve_test_entries(s@) == Err::<SpecTestEntries, SpecResolveErr>(
                    e@,
                ),
            },
    {
        let parsed = match FuncLexer::parse_func(s) {
            None => {
                return Err(ResolveError::ParseFailed(s.to_owned()));
            },
            Some(f) => f,
        };
        if eq_nocase(parsed.entry.as_str(), "app") {
            match TestFunc::from_func(&parsed) {
                Ok(f) => Ok(TestEntries::App(f)),
                Err(e) => Err(e),
            }
        } else {
            Err(ResolveError::UnknownScope(parsed.entry.clone()))
        }
    }
}

/// Whether an `app` command takes no argument under the declared schema.
pub open spec fn spec_app_zero_arg(v: SpecAppFunc) -> bool {
    match v {
        SpecAppFunc::ToggleWindowLevel => true,
        SpecAppFunc::CycleApps => true,
        SpecAppFunc::ReloadConfig => true,
        SpecAppFunc::ToggleCompactMode => true,
        SpecAppFunc::ToggleShadow => true,
        SpecAppFunc::AppTest => true,
        _ => false,
    }
}

/// Law: the resolver ignores the parsed arguments of a call whose name
/// declares no argument — where a call resolves to a zero-argument
/// command, the same call resolves to it whatever its arguments were.
pub proof fn lemma_zero_argument_ignores_args(
    func: Seq<char>,
    a1: Option<SpecFuncExpr>,
    a2: Option<SpecFuncExpr>,
)
    ensures
        (spec_resolve_appfunc(func, a1) matches Ok(v) && spec_app_zero_arg(v))
            ==> spec_resolve_appfunc(func, a2) == spec_resolve_appfunc(func, a1),
{
}

/// Law: a call resolves to the zero-argument cycle command exactly when
/// its function name matches case-insensitively, whatever its arguments:
/// the declared names all differ in length, and matching preserves the
/// length of a name's lowered encoding.
pub proof fn lemma_zero_argument_resolution(func: Seq<char>, args: Option<SpecFuncExpr>)
    ensures
        spec_resolve_appfunc(func, args) == Ok::<SpecAppFunc, SpecResolveErr>(
            SpecAppFunc::CycleApps,
        ) <==> spec_eq_nocase(func, "cycleapps"@),
{
    reveal_strlit("script");
    reveal_strlit("funccall");
    reveal_strlit("cyclepages");
    reveal_strlit("launchplugin");
    reveal_strlit("togglewindowlevel");
    reveal_strlit("page");
    reveal_strlit("cycleapps");
    vstd::string::is_ascii_spec_bytes("script");
    vstd::string::is_ascii_spec_bytes("funccall");
    vstd::string::is_ascii_spec_bytes("cyclepages");
    vstd::string::is_ascii_spec_bytes("launchplugin");
    vstd::string::is_ascii_spec_bytes("togglewindowlevel");
    vstd::string::is_ascii_spec_bytes("page");
    vstd::string::is_ascii_spec_bytes("cycleapps");
    assert("script".is_ascii() && "funccall".is_ascii() && "cyclepages".is_ascii()
        && "launchplugin".is_ascii() && "togglewindowlevel".is_ascii() && "page".is_ascii()
        && "cycleapps".is_ascii());
    assert("script".spec_bytes().len() == 6);
    assert("funccall".spec_bytes().len() == 8);
    assert("cyclepages".spec_bytes().len() == 10);
    assert("launchplugin".spec_bytes().len() == 12);
    assert("togglewindowlevel".spec_bytes().len() == 17);
    assert("page".spec_bytes().len() == 4);
    assert("cycleapps".spec_bytes().len() == 9);
    if spec_eq_nocase(func, "cycleapps"@) {
        let lf = spec_lower(encode_utf8(func));
        assert(lf.len() == 9);
        assert(!spec_eq_nocase(func, "script"@));
        assert(!spec_eq_nocase(func, "funccall"@));
        assert(!spec_eq_nocase(func, "cyclepages"@));
        assert(!spec_eq_nocase(func, "launchplugin"@));
        assert(!spec_eq_nocase(func, "togglewindowlevel"@));
        assert(!spec_eq_nocase(func, "page"@));
    }
}

} // verus!
