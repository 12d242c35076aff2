use vstd::prelude::*;

use crate::errors::SpringtimeError;
use crate::errors::error_view;

verus! {

/// A dotted expression path naming a value inside the host scripting
/// environment, e.g. a field of the plugin's Lua-side settings table.
pub struct Module<'a>(pub &'a str);

/// The name of the temporary global that the evaluated module expression
/// is assigned to and then read back from.
pub struct Variable<'a>(pub &'a str);

/// What the host scripting engine handed back for one fetch: the value
/// now bound to the requested global, or nothing, when executing the
/// assignment failed or the read-back did not convert to the expected
/// type.
pub enum FetchOutcome<V> {
    Resolved(V),
    Unresolved,
}

/// The one-line statement submitted to the engine: `<variable> = <module>`.
pub open spec fn assignment_script(variable: Seq<char>, module: Seq<char>) -> Seq<char> {
    variable + " = "@ + module
}

/// The diagnostic for a module expression that could not be fetched:
/// `Lua <module> does not exist`.
pub open spec fn missing_module_message(module: Seq<char>) -> Seq<char> {
    "Lua "@ + module + " does not exist"@
}

/// A fetch result with the error reduced to its message: the shape of
/// what the bridge returns, at the specification level.
pub open spec fn fetch_result_view<V>(r: Result<V, SpringtimeError>) -> Result<V, Seq<char>> {
    match r {
        Ok(v) => Ok(v),
        Err(e) => Err(error_view(e)),
    }
}

/// What a fetch of `module` returns for a given engine outcome: the
/// resolved value unchanged, or the generic error naming the module
/// expression.
pub open spec fn fetch_view<V>(module: Seq<char>, outcome: FetchOutcome<V>) -> Result<V, Seq<char>> {
    match outcome {
        FetchOutcome::Resolved(v) => Ok(v),
        FetchOutcome::Unresolved => Err(missing_module_message(module)),
    }
}

/// The result of a fetch is a function of the module expression and the
/// engine's outcome alone: two fetches between which nothing on the
/// scripting side changed (so the engine hands back the same outcome)
/// return the same result.
pub proof fn lemma_fetch_idempotent<V>(
    module: Seq<char>,
    first: FetchOutcome<V>,
    second: FetchOutcome<V>,
)
    requires
        first == second,
    ensures
        fetch_view(module, first) == fetch_view(module, second),
{
}

/// The message of the generic error embeds the module expression itself,
/// verbatim, right after the `Lua ` prefix.
pub proof fn lemma_missing_message_contains_module(module: Seq<char>)
    ensures
        missing_module_message(module).subrange(4, 4 + module.len() as int) == module,
{
    reveal_strlit("Lua ");
    reveal_strlit(" does not exist");
    assert(missing_module_message(module).subrange(4, 4 + module.len() as int) =~= module);
}

/// The memoized debug-logging flag: unset until the first check, then
/// holding, for the rest of its lifetime, the value the first check
/// obtained from the scripting side (or `false` when that lookup failed).
pub struct DebugLogFlag {
    pub cached: Option<bool>,
}

/// The boolean a fetch of the debug setting yields: the fetched value,
/// with any failure swallowed into `false` — logging configuration is
/// non-critical, so availability wins over strictness here.
pub open spec fn log_flag_of(fetched: Result<bool, SpringtimeError>) -> bool {
    match fetched {
        Ok(b) => b,
        Err(_) => false,
    }
}

/// One debug-logging check, at the specification level: from the flag
/// before the check and the outcome a fetch of the setting would have at
/// that moment, to the value returned and the flag afterwards. A set flag
/// answers from the cache; an unset one takes what the fetch yields.
pub open spec fn check_step(cached: Option<bool>, fetched: Result<bool, SpringtimeError>) -> (
    bool,
    Option<bool>,
) {
    match cached {
        Some(v) => (v, Some(v)),
        None => (log_flag_of(fetched), Some(log_flag_of(fetched))),
    }
}

/// One-shot memoization: whatever outcome the first check of the
/// debug-logging setting saw, every later check returns the same boolean
/// and leaves the flag as it is, regardless of what the scripting side
/// would yield by then.
pub proof fn lemma_one_shot_memoization(
    first: Result<bool, SpringtimeError>,
    later: Result<bool, SpringtimeError>,
)
    ensures
        check_step(check_step(None, first).1, later) == check_step(None, first),
{
}

impl DebugLogFlag {
    /// A fresh, unset flag.
    pub fn new() -> (f: Self)
        ensures
            f.cached is None,
    {
        DebugLogFlag { cached: None }
    }

    /// Records the outcome of the first fetch of the debug setting:
    /// stores the fetched value, or `false` when the fetch failed, and
    /// returns what was stored.
    pub fn record(&mut self, fetched: Result<bool, SpringtimeError>) -> (r: bool)
        requires
            old(self).cached is None,
        ensures
            r == log_flag_of(fetched),
            (r, final(self).cached) == check_step(old(self).cached, fetched),
    {
        let value = match fetched {
            Ok(b) => b,
            Err(_) => false,
        };
        self.cached = Some(value);
        value
    }
}

pub struct LuaUtils;

impl LuaUtils {
    /// Builds the one-line script that assigns the module expression to
    /// the temporary global.
    pub fn assignment_statement(module: &Module, variable: &Variable) -> (s: String)
        ensures
            s@ == assignment_script(variable.0@, module.0@),
    {
        let s = String::from_str(variable.0).concat(" = ").concat(module.0);
        proof {
            assert(s@ =~= assignment_script(variable.0@, module.0@));
        }
        s
    }

    /// The generic error raised when a module expression cannot be
    /// fetched.
    pub fn module_missing_error(module: &Module) -> (e: SpringtimeError)
        ensures
            error_view(e) == missing_module_message(module.0@),
    {
        let m = String::from_str("Lua ").concat(module.0).concat(" does not exist");
        proof {
            assert(m@ =~= missing_module_message(module.0@));
        }
        SpringtimeError::Generic(m)
    }

    /// Turns the engine's outcome for `module` into the bridge's result:
    /// the value bound to the requested path on success, the generic
    /// error naming the module expression otherwise.
    pub fn resolve_fetched<V>(module: &Module, outcome: FetchOutcome<V>) -> (r: Result<
        V,
        SpringtimeError,
    >)
        ensures
            fetch_result_view(r) == fetch_view(module.0@, outcome),
    {
        match outcome {
            FetchOutcome::Resolved(v) => Ok(v),
            FetchOutcome::Unresolved => Err(Self::module_missing_error(module)),
        }
    }

    /// Relies on `nvim_oxi::mlua::lua`, `mlua::Lua::load` and
    /// `mlua::Chunk::exec`: submits the statement to the host scripting
    /// engine and reports whether it executed without error. Whether it
    /// does depends on the engine's current state, so nothing is promised
    /// of the answer.
    #[verifier::external_body]
    fn exec_statement(script: &String) -> bool {
        nvim_oxi::mlua::lua().load(script.as_str()).exec().is_ok()
    }

    /// Relies on `nvim_oxi::mlua::lua`, `mlua::Lua::globals` and
    /// `mlua::Table::get` at type `String`: reads the named global back
    /// from the engine, `None` when it is absent or does not convert to a
    /// string. The answer depends on the engine's current state, so
    /// nothing is promised of it.
    #[verifier::external_body]
    fn read_global_string(variable: &Variable) -> Option<String> {
        nvim_oxi::mlua::lua().globals().get::<_, String>(variable.0).ok()
    }

    /// Relies on `nvim_oxi::mlua::lua`, `mlua::Lua::globals` and
    /// `mlua::Table::get` at type `bool`: reads the named global back
    /// from the engine, `None` when it is absent or does not convert to a
    /// boolean. The answer depends on the engine's current state, so
    /// nothing is promised of it.
    #[verifier::external_body]
    fn read_global_bool(variable: &Variable) -> Option<bool> {
        nvim_oxi::mlua::lua().globals().get::<_, bool>(variable.0).ok()
    }

    /// Runs one string-typed fetch against the engine: submits
    /// `<variable> = <module>` and reads the global back. The engine
    /// decides the outcome; a read-back that fails to convert counts as
    /// unresolved, the bridge making no finer distinction.
    fn fetch_string(module: &Module, variable: &Variable) -> FetchOutcome<String> {
        let script = Self::assignment_statement(module, variable);
        if Self::exec_statement(&script) {
            match Self::read_global_string(variable) {
                Some(v) => FetchOutcome::Resolved(v),
                None => FetchOutcome::Unresolved,
            }
        } else {
            FetchOutcome::Unresolved
        }
    }

    /// Runs one boolean-typed fetch against the engine, in the same shape
    /// as `fetch_string`.
    fn fetch_bool(module: &Module, variable: &Variable) -> FetchOutcome<bool> {
        let script = Self::assignment_statement(module, variable);
        if Self::exec_statement(&script) {
            match Self::read_global_bool(variable) {
                Some(v) => FetchOutcome::Resolved(v),
                None => FetchOutcome::Unresolved,
            }
        } else {
            FetchOutcome::Unresolved
        }
    }

    /// Fetches a string-typed global by module path: synthesizes the
    /// assignment, executes it against the shared engine, and reads the
    /// global back. Which outcome comes back is the engine's to decide;
    /// whatever it is, the result is that of `fetch_view`: the resolved
    /// value, or the generic error naming the module expression.
    pub fn get_lua_module(module: Module, variable: Variable) -> (r: Result<
        String,
        SpringtimeError,
    >)
        ensures
            r matches Err(e) ==> error_view(e) == missing_module_message(module.0@),
    {
        let outcome = Self::fetch_string(&module, &variable);
        Self::resolve_fetched(&module, outcome)
    }

    /// Fetches a boolean-typed global by module path, in the same shape
    /// as `get_lua_module`.
    pub fn get_lua_bool_module(module: Module, variable: Variable) -> (r: Result<
        bool,
        SpringtimeError,
    >)
        ensures
            r matches Err(e) ==> error_view(e) == missing_module_message(module.0@),
    {
        let outcome = Self::fetch_bool(&module, &variable);
        Self::resolve_fetched(&module, outcome)
    }

    /// Fetches the plugin's installation path from the scripting side:
    /// the fixed module expression
    /// `require'springtime.util'.lua_springtime_path`, read back through
    /// the temporary global `path`.
    pub fn get_springtime_plugin_path() -> (r: Result<String, SpringtimeError>)
        ensures
            r matches Err(e) ==> error_view(e) == missing_module_message(
                "require'springtime.util'.lua_springtime_path"@,
            ),
    {
        let lua_path = Self::get_lua_module(
            Module("require'springtime.util'.lua_springtime_path"),
            Variable("path"),
        )?;
        Ok(lua_path)
    }

    /// Whether debug logging is enabled on the scripting side, fetched
    /// through `flag`'s one-shot cache: the first check queries the fixed
    /// module expression `require'springtime'.SETTINGS.internal.log_debug`
    /// and memoizes what it yields; later checks return the memoized
    /// value without touching the engine again.
    pub fn is_log_enabled(flag: &mut DebugLogFlag) -> (r: bool)
        ensures
            old(flag).cached matches Some(v) ==> r == v && *final(flag) == *old(flag),
            old(flag).cached is Some ==> forall|fetched: Result<bool, SpringtimeError>|
                (r, final(flag).cached) == #[trigger] check_step(old(flag).cached, fetched),
            final(flag).cached == Some(r),
    {
        match flag.cached {
            Some(value) => value,
            None => {
                let fetched = Self::get_lua_bool_module(
                    Module("require'springtime'.SETTINGS.internal.log_debug"),
                    Variable("log_debug"),
                );
                flag.record(fetched)
            },
        }
    }

    /// Fetches the plugin's log file location from the scripting side:
    /// the fixed module expression
    /// `require'springtime.util'.springtime_log_file`, read back through
    /// the temporary global `log_file`.
    pub fn get_springtime_log_file() -> (r: Result<String, SpringtimeError>)
        ensures
            r matches Err(e) ==> error_view(e) == missing_module_message(
                "require'springtime.util'.springtime_log_file"@,
            ),
    {
        let lua_log_file = Self::get_lua_module(
            Module("require'springtime.util'.springtime_log_file"),
            Variable("log_file"),
        )?;
        Ok(lua_log_file)
    }
}

} // verus!
