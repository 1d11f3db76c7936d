//! The scripting engine's integration contract: load and execute script
//! source on demand, and once per frame invoke an optional script-defined
//! entry point by its reserved name.
//!
//! A script error never aborts the host: a failed load leaves the engine in
//! its previous state with the error recorded, and a missing frame-entry
//! function is no error at all.  The engine itself is an embedded Lua
//! interpreter reached through a handful of trusted wrappers; everything the
//! host decides from its outcomes is verified here.

use vstd::prelude::*;

verus! {

/// The embedded interpreter state, opaque to the verifier.
#[verifier::external_type_specification]
#[verifier::external_body]
pub struct ExLua(mlua::Lua);

/// A reference to a script-defined function, opaque to the verifier.
#[verifier::external_type_specification]
#[verifier::external_body]
pub struct ExLuaFunction(mlua::Function);

/// The interpreter's error value, opaque to the verifier.
#[verifier::external_type_specification]
#[verifier::external_body]
pub struct ExLuaError(mlua::Error);

/// Relies on `mlua::Lua::new`: builds a fresh interpreter with the safe
/// subset of the standard libraries loaded and no script state.
#[verifier::external_body]
fn lua_new() -> mlua::Lua {
    mlua::Lua::new()
}

/// Relies on `mlua::Lua::load` and `mlua::Chunk::exec`: compiles the source
/// text and runs it at top level, returning any compile or runtime error.
/// Whether it succeeds depends on the script alone; nothing is assumed of
/// the outcome.
#[verifier::external_body]
fn lua_exec(lua: &mlua::Lua, src: &str) -> Result<(), mlua::Error> {
    lua.load(src).exec()
}

/// Relies on `mlua::Lua::globals` and `mlua::Table::get`: looks the name up
/// in the script's global table, yielding the function found there or `None`
/// where the global is absent or not a function.
#[verifier::external_body]
fn lua_global_function(lua: &mlua::Lua, name: &str) -> Option<mlua::Function> {
    lua.globals().get::<mlua::Function>(name).ok()
}

/// Relies on `mlua::Function::call`: invokes the script function
/// synchronously with no arguments, discarding its results, and returns any
/// error the script raised.
#[verifier::external_body]
fn lua_call_unit(f: &mlua::Function) -> Result<(), mlua::Error> {
    f.call::<()>(())
}

/// Relies on the `core::fmt::Display` impl of `mlua::Error`: renders the
/// error as text for reporting.
#[verifier::external_body]
fn lua_error_message(e: &mlua::Error) -> String {
    e.to_string()
}

/// What one frame's probe of the script's entry point came to.
pub enum FrameOutcome {
    /// The script defines no entry point under the reserved name: not an
    /// error, the frame renders whatever the registry already holds.
    Missing,
    /// The entry point ran to completion.
    Ran,
    /// The entry point raised this error; the engine stays usable.
    Failed(String),
}

/// The reserved name under which the engine probes for the script's
/// optional per-frame entry point.
pub fn frame_entry_name() -> (s: &'static str)
    ensures
        s@ == "on_draw"@,
{
    "on_draw"
}

/// The embedded scripting engine together with the host's record of it:
/// whether any script source has been executed successfully, and the last
/// error a script raised.  A script error leaves the engine usable; there is
/// no crashed state.
pub struct ScriptHost {
    /// The interpreter handle; the host registers binding functions on it
    /// before any script executes.
    pub engine: mlua::Lua,
    pub loaded: bool,
    pub last_error: Option<String>,
}

impl ScriptHost {
    /// A fresh engine: nothing loaded, no error recorded.
    pub fn new() -> (h: ScriptHost)
        ensures
            !h.loaded,
            h.last_error is None,
    {
        ScriptHost { engine: lua_new(), loaded: false, last_error: None }
    }

    /// Executes script source at top level.  On success the host is loaded
    /// with no error recorded; on failure the error is recorded and the
    /// previous loaded state stands, so widgets already registered stay
    /// registered and the engine stays usable.
    pub fn load_source(&mut self, src: &str) -> (ok: bool)
        ensures
            final(self).loaded == (ok || old(self).loaded),
            ok ==> final(self).last_error is None,
            !ok ==> final(self).last_error is Some,
    {
        match lua_exec(&self.engine, src) {
            Ok(()) => {
                self.loaded = true;
                self.last_error = None;
                true
            },
            Err(e) => {
                self.last_error = Some(lua_error_message(&e));
                false
            },
        }
    }

    /// Probes the script's global table for a function under `name` and
    /// invokes it.  A missing entry point is no error and changes nothing; a
    /// raised error is recorded and reported, and the loaded state never
    /// changes: a script error does not reset the engine.
    pub fn run_frame_entry(&mut self, name: &str) -> (out: FrameOutcome)
        ensures
            final(self).loaded == old(self).loaded,
            !(out is Failed) ==> final(self).last_error == old(self).last_error,
            out matches FrameOutcome::Failed(m) ==> final(self).last_error == Some(m),
    {
        match lua_global_function(&self.engine, name) {
            None => FrameOutcome::Missing,
            Some(f) => match lua_call_unit(&f) {
                Ok(()) => FrameOutcome::Ran,
                Err(e) => {
                    let msg = lua_error_message(&e);
                    self.last_error = Some(msg.clone());
                    FrameOutcome::Failed(msg)
                },
            },
        }
    }
}

} // verus!
