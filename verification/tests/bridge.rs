use springtime_lua::errors::SpringtimeError;
use springtime_lua::utils::DebugLogFlag;
use springtime_lua::utils::FetchOutcome;
use springtime_lua::utils::LuaUtils;
use springtime_lua::utils::Module;
use springtime_lua::utils::Variable;

#[test]
fn assignment_statement_splices_variable_and_module() {
    let s = LuaUtils::assignment_statement(
        &Module("require'springtime.util'.lua_springtime_path"),
        &Variable("path"),
    );
    assert_eq!(s.as_str(), "path = require'springtime.util'.lua_springtime_path");
}

#[test]
fn missing_error_message_is_exact() {
    let e = LuaUtils::module_missing_error(&Module("x.y"));
    assert_eq!(e, SpringtimeError::Generic(String::from("Lua x.y does not exist")));
    assert_eq!(e.message().as_str(), "Lua x.y does not exist");
}

#[test]
fn resolved_fetch_returns_bound_value() {
    let r = LuaUtils::resolve_fetched(
        &Module("require'springtime.util'.springtime_log_file"),
        FetchOutcome::Resolved(String::from("/tmp/springtime.log")),
    );
    assert_eq!(r, Ok(String::from("/tmp/springtime.log")));
}

#[test]
fn resolved_bool_fetch_returns_bound_boolean() {
    let r = LuaUtils::resolve_fetched(
        &Module("require'springtime'.SETTINGS.internal.log_debug"),
        FetchOutcome::Resolved(true),
    );
    assert_eq!(r, Ok(true));
}

#[test]
fn unresolved_fetch_names_module_in_message() {
    let r: Result<String, SpringtimeError> = LuaUtils::resolve_fetched(
        &Module("nonexistent.module.path"),
        FetchOutcome::Unresolved,
    );
    match r {
        Err(e) => assert_eq!(e.message().as_str(), "Lua nonexistent.module.path does not exist"),
        Ok(_) => panic!("a fetch of an unresolved module must fail"),
    }
}

#[test]
fn fetch_is_idempotent_for_equal_outcomes() {
    let m = Module("require'springtime.util'.lua_springtime_path");
    let r1: Result<String, SpringtimeError> =
        LuaUtils::resolve_fetched(&m, FetchOutcome::Resolved(String::from("/opt/springtime")));
    let r2: Result<String, SpringtimeError> =
        LuaUtils::resolve_fetched(&m, FetchOutcome::Resolved(String::from("/opt/springtime")));
    assert_eq!(r1, r2);
    let e1: Result<String, SpringtimeError> =
        LuaUtils::resolve_fetched(&m, FetchOutcome::Unresolved);
    let e2: Result<String, SpringtimeError> =
        LuaUtils::resolve_fetched(&m, FetchOutcome::Unresolved);
    assert_eq!(e1, e2);
}

#[test]
fn debug_flag_memoizes_true_across_later_changes() {
    let mut flag = DebugLogFlag::new();
    assert_eq!(flag.cached, None);
    // The first check sees the scripting side say `true`.
    assert!(flag.record(Ok(true)));
    assert_eq!(flag.cached, Some(true));
    // The scripting side may flip log_debug afterwards; the flag never
    // re-queries, so every later check still answers `true`.
    assert!(LuaUtils::is_log_enabled(&mut flag));
    assert!(LuaUtils::is_log_enabled(&mut flag));
    assert_eq!(flag.cached, Some(true));
}

#[test]
fn debug_flag_memoizes_false() {
    let mut flag = DebugLogFlag::new();
    assert!(!flag.record(Ok(false)));
    assert!(!LuaUtils::is_log_enabled(&mut flag));
    assert_eq!(flag.cached, Some(false));
}

#[test]
fn debug_flag_defaults_to_false_when_setting_missing() {
    let mut flag = DebugLogFlag::new();
    let e = LuaUtils::module_missing_error(
        &Module("require'springtime'.SETTINGS.internal.log_debug"),
    );
    // The log_debug path does not exist: the failure is swallowed and the
    // flag settles on `false` instead of an error.
    assert!(!flag.record(Err(e)));
    assert!(!LuaUtils::is_log_enabled(&mut flag));
    assert_eq!(flag.cached, Some(false));
}
