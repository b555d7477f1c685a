//! The puzzle: one guest script loaded into a restricted Lua context, stepped
//! repeatedly to produce samples.  The context is built with an explicit
//! capability allow-list (base language, tables, math — no io, no os, no
//! module loading), the four boolean domain markers are installed as globals
//! before any guest code runs, and each step exposes the channel-declaration
//! callback to the guest for that call only.
//!
//! All Lua calls go through the trusted wrappers below; everything the guest
//! hands back is validated by the verified marshaller and registry.

use vstd::prelude::*;

use crate::domain::{sample_wf, Owner, PortType, Sample};
use crate::marshal::{owner_marker, port_type_marker, ConversionError, Guest};
use crate::registry::{DeclareError, Registry, RegistrationError};

verus! {

#[verifier::external_type_specification]
#[verifier::external_body]
pub struct ExLua(rlua::Lua);

#[verifier::external_type_specification]
#[verifier::external_body]
pub struct ExLuaError(rlua::Error);

#[verifier::external_type_specification]
#[verifier::external_body]
pub struct ExLuaContext<'lua>(rlua::Context<'lua>);

#[verifier::external_type_specification]
#[verifier::external_body]
pub struct ExLuaValue<'lua>(rlua::Value<'lua>);

/// Relies on rlua::Lua::new_with: builds a fresh Lua context whose loaded
/// libraries are exactly the base, table and math libraries — no io, os,
/// package, string, debug or coroutine library is available to the guest.
#[verifier::external_body]
fn lua_new_sandboxed() -> rlua::Lua {
    rlua::Lua::new_with(rlua::StdLib::BASE | rlua::StdLib::TABLE | rlua::StdLib::MATH)
}

/// Relies on rlua::Context::globals and rlua::Table::set: binds one global
/// boolean variable in the guest context.
#[verifier::external_body]
fn lua_set_global_bool(lua: &rlua::Lua, name: &str, value: bool) -> (r: Result<(), rlua::Error>) {
    lua.context(|ctx| ctx.globals().set(name, value))
}

/// Relies on rlua::Chunk::exec (via Context::load and Chunk::set_name):
/// compiles the source and runs its body exactly once; a compile failure or a
/// top-level runtime failure is the error.
#[verifier::external_body]
fn lua_exec(lua: &rlua::Lua, source: &str, chunk_name: &str) -> (r: Result<(), rlua::Error>) {
    lua.context(|ctx| ctx.load(source).set_name(chunk_name)?.exec())
}

/// Relies on rlua::Table::get and rlua::Function::call: fetches the guest's
/// global `get_name` function, calls it once, and converts the result to a
/// string; a missing or uncallable entry point or a non-string result is the
/// error.
#[verifier::external_body]
fn lua_call_get_name(lua: &rlua::Lua) -> (r: Result<String, rlua::Error>) {
    lua.context(|ctx| ctx.globals().get::<_, rlua::Function>("get_name")?.call::<_, String>(()))
}

/// Relies on the rlua::Value variants, rlua::String::to_str and the FromLua
/// conversion of integer arrays: maps one guest value onto the host's model of
/// guest values; any shape the model does not distinguish becomes
/// `Guest::Other`.
#[verifier::external_body]
fn guest_of_lua<'lua>(ctx: rlua::Context<'lua>, v: rlua::Value<'lua>) -> (g: Guest) {
    match v {
        rlua::Value::Boolean(b) => Guest::Bool(b),
        rlua::Value::Integer(x) => Guest::Int(x),
        rlua::Value::String(s) => match s.to_str() {
            Ok(t) => Guest::Text(String::from(t)),
            Err(_) => Guest::Other,
        },
        t @ rlua::Value::Table(_) => match <Vec<i64> as rlua::FromLua>::from_lua(t, ctx) {
            Ok(xs) => Guest::IntArray(xs),
            Err(_) => Guest::Other,
        },
        _ => Guest::Other,
    }
}

/// Relies on rlua::Context::scope, rlua::Scope::create_function_mut,
/// rlua::Table::set/get and rlua::Function::call: runs the guest's global
/// `step` function once; for exactly that call the guest sees a global
/// `declare_channel` whose every invocation converts its guest arguments and
/// hands them to `Registry::declare` on `reg`, in call order, raising a Lua
/// error whenever `declare` reports rejection.  The registry is mutated only
/// through `Registry::declare`, so its invariant is preserved.
#[verifier::external_body]
fn lua_run_step(lua: &rlua::Lua, reg: &mut Registry) -> (r: Result<(), rlua::Error>)
    ensures
        old(reg).inv() ==> final(reg).inv(),
{
    lua.context(|ctx| ctx.scope(|scope| {
        let cb = scope.create_function_mut(
            |c, (n, i, p, o, v): (String, rlua::Value, rlua::Value, rlua::Value, rlua::Value)| {
                if reg.declare(&n, guest_of_lua(c, i), &guest_of_lua(c, p), &guest_of_lua(c, o), guest_of_lua(c, v)) {
                    Ok(())
                } else {
                    Err(rlua::Error::RuntimeError(String::from("channel declaration rejected")))
                }
            },
        )?;
        ctx.globals().set("declare_channel", cb)?;
        ctx.globals().get::<_, rlua::Function>("step")?.call::<_, ()>(())
    }))
}

/// Relies on the Display implementation of rlua::Error: renders the cause of a
/// guest failure for diagnostics.
#[verifier::external_body]
fn lua_error_message(e: &rlua::Error) -> String {
    format!("{}", e)
}

/// The load stage at which constructing a puzzle failed.
#[derive(Clone, Copy, Debug, PartialEq, Eq, Structural)]
pub enum LoadStage {
    /// The guest context could not be initialized with the domain markers.
    ContextInit,
    /// The script failed to compile or failed during top-level execution.
    Execution,
    /// The `get_name` entry point is missing, not callable, or did not return
    /// a string.
    NameEntry,
}

/// A script that could not be loaded: no puzzle is produced.
#[derive(Clone, Debug, PartialEq, Eq)]
pub struct LoadError {
    /// The identifier the caller gave for the script.
    pub script: String,
    pub stage: LoadStage,
    /// The underlying cause, as the scripting engine reports it.
    pub cause: String,
}

/// Why one step failed.
#[derive(Clone, Debug, PartialEq, Eq)]
pub enum SampleErrorKind {
    /// A declared guest value could not be converted to a domain type.
    Conversion(ConversionError),
    /// A declaration violated a registration rule.
    Registration(RegistrationError),
    /// The guest step function itself signalled a runtime failure.
    Step(String),
}

/// A failed step, with the zero-based index of the step at which the batch
/// stopped.
#[derive(Clone, Debug, PartialEq, Eq)]
pub struct SampleError {
    pub step: usize,
    pub kind: SampleErrorKind,
}

/// One loaded guest script with its private scripting context.  Name and
/// identifier are immutable after load; the internal script state mutates
/// across steps.
pub struct Puzzle {
    /// The identifier the script was loaded under.
    pub path: String,
    /// What the script's `get_name` entry point returned, once, at load.
    pub name: String,
    lua: rlua::Lua,
}

/// Installs the four domain markers as guest globals: the two port type
/// markers and the two owner markers, in the library's fixed boolean encoding.
fn install_markers(lua: &rlua::Lua) -> (r: Result<(), rlua::Error>) {
    match lua_set_global_bool(lua, "TYPE_SIMPLE", port_type_marker(PortType::Simple)) {
        Ok(()) => {}
        Err(e) => {
            return Err(e);
        }
    }
    match lua_set_global_bool(lua, "TYPE_XBUS", port_type_marker(PortType::Xbus)) {
        Ok(()) => {}
        Err(e) => {
            return Err(e);
        }
    }
    match lua_set_global_bool(lua, "DIR_INPUT", owner_marker(Owner::Environment)) {
        Ok(()) => {}
        Err(e) => {
            return Err(e);
        }
    }
    match lua_set_global_bool(lua, "DIR_OUTPUT", owner_marker(Owner::Agent)) {
        Ok(()) => {}
        Err(e) => {
            return Err(e);
        }
    }
    Ok(())
}

impl Puzzle {
    /// The identifier the script was loaded under.
    pub closed spec fn spec_path(&self) -> Seq<char> {
        self.path@
    }

    /// The puzzle's immutable name.
    pub closed spec fn spec_name(&self) -> Seq<char> {
        self.name@
    }

    /// Loads a puzzle from script source text: builds the restricted context,
    /// installs the domain markers, executes the script body once, and stores
    /// what `get_name` returns as the puzzle's immutable name.  On any failure
    /// no puzzle is produced and the error names the script and the stage.
    pub fn open(source: &str, identifier: &str) -> (r: Result<Puzzle, LoadError>)
        ensures
            r matches Ok(p) ==> p.spec_path() == identifier@,
            r matches Err(e) ==> e.script@ == identifier@,
    {
        let lua = lua_new_sandboxed();
        match install_markers(&lua) {
            Ok(()) => {}
            Err(e) => {
                return Err(
                    LoadError {
                        script: identifier.to_owned(),
                        stage: LoadStage::ContextInit,
                        cause: lua_error_message(&e),
                    },
                );
            }
        }
        match lua_exec(&lua, source, identifier) {
            Ok(()) => {}
            Err(e) => {
                return Err(
                    LoadError {
                        script: identifier.to_owned(),
                        stage: LoadStage::Execution,
                        cause: lua_error_message(&e),
                    },
                );
            }
        }
        let name = match lua_call_get_name(&lua) {
            Ok(n) => n,
            Err(e) => {
                return Err(
                    LoadError {
                        script: identifier.to_owned(),
                        stage: LoadStage::NameEntry,
                        cause: lua_error_message(&e),
                    },
                );
            }
        };
        Ok(Puzzle { path: identifier.to_owned(), name, lua })
    }

    /// Performs one step: resets the accumulator, runs the guest's step entry
    /// point, and closes the accumulator into a sample.  A recorded
    /// declaration failure wins over the propagated guest error it caused; a
    /// guest failure with a clean accumulator is the guest's own.
    fn step_once(&mut self) -> (r: Result<Sample, SampleErrorKind>)
        ensures
            final(self).spec_path() == old(self).spec_path(),
            final(self).spec_name() == old(self).spec_name(),
            r matches Ok(s) ==> sample_wf(s),
    {
        let mut reg = Registry::new();
        let call = lua_run_step(&self.lua, &mut reg);
        match reg.finish() {
            Err(DeclareError::Conversion(e)) => Err(SampleErrorKind::Conversion(e)),
            Err(DeclareError::Registration(e)) => Err(SampleErrorKind::Registration(e)),
            Ok(sample) => match call {
                Ok(()) => Ok(sample),
                Err(e) => Err(SampleErrorKind::Step(lua_error_message(&e))),
            },
        }
    }

    /// Performs one step and returns its sample, or the error that failed it.
    pub fn next(&mut self) -> (r: Result<Sample, SampleError>)
        ensures
            final(self).spec_path() == old(self).spec_path(),
            final(self).spec_name() == old(self).spec_name(),
            r matches Ok(s) ==> sample_wf(s),
            r matches Err(e) ==> e.step == 0,
    {
        match self.step_once() {
            Ok(s) => Ok(s),
            Err(kind) => Err(SampleError { step: 0, kind }),
        }
    }

    /// Performs `n` steps and appends their samples to a caller-owned buffer,
    /// preserving its existing contents and capacity.  The first failing step
    /// aborts the batch: samples of earlier steps stay appended, nothing is
    /// appended for the failing or any later step, and the error carries the
    /// zero-based index of the failing step.
    #[verifier::loop_isolation(false)]
    pub fn sample_into(&mut self, n: usize, buffer: &mut Vec<Sample>) -> (r: Result<
        (),
        SampleError,
    >)
        ensures
            final(self).spec_path() == old(self).spec_path(),
            final(self).spec_name() == old(self).spec_name(),
            final(buffer)@.len() >= old(buffer)@.len(),
            forall|i: int|
                0 <= i < old(buffer)@.len() ==> final(buffer)@[i] == old(buffer)@[i],
            forall|i: int|
                old(buffer)@.len() <= i < final(buffer)@.len() ==> sample_wf(final(buffer)@[i]),
            r matches Ok(()) ==> final(buffer)@.len() == old(buffer)@.len() + n,
            r matches Err(e) ==> e.step < n && final(buffer)@.len() == old(buffer)@.len() + e.step,
    {
        let mut i: usize = 0;
        while i < n
            invariant
                i <= n,
                buffer@.len() == old(buffer)@.len() + i,
                self.spec_path() == old(self).spec_path(),
                self.spec_name() == old(self).spec_name(),
                forall|k: int| 0 <= k < old(buffer)@.len() ==> buffer@[k] == old(buffer)@[k],
                forall|k: int|
                    old(buffer)@.len() <= k < buffer@.len() ==> sample_wf(buffer@[k]),
            decreases n - i,
        {
            match self.step_once() {
                Ok(s) => {
                    buffer.push(s);
                }
                Err(kind) => {
                    return Err(SampleError { step: i, kind });
                }
            }
            i += 1;
        }
        Ok(())
    }

    /// Performs `n` steps and returns their samples in step order (step 0
    /// first); the first failing step aborts the batch and the error carries
    /// its index.
    pub fn sample(&mut self, n: usize) -> (r: Result<Vec<Sample>, SampleError>)
        ensures
            final(self).spec_path() == old(self).spec_path(),
            final(self).spec_name() == old(self).spec_name(),
            r matches Ok(v) ==> v@.len() == n && forall|i: int|
                0 <= i < v@.len() ==> sample_wf(#[trigger] v@[i]),
            r matches Err(e) ==> e.step < n,
    {
        let mut buffer: Vec<Sample> = Vec::new();
        match self.sample_into(n, &mut buffer) {
            Ok(()) => Ok(buffer),
            Err(e) => Err(e),
        }
    }
}

} // verus!
