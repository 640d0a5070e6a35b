//! The sandbox executor: loads a named unit's WebAssembly and runs it in an
//! isolated store with a fuel ceiling and a wall-clock deadline, then
//! classifies what happened.
//!
//! The store gets no imports, so a unit has no file, network or process
//! access. The deadline is enforced through the engine's epoch: whoever runs
//! the executor advances the epoch every `EPOCH_TICK_MS` milliseconds.
use vstd::prelude::*;

use crate::errors::CastError;
use vstd::string::StringExecFns;

verus! {

/// Fuel a unit may burn in one run unless configured otherwise.
pub const DEFAULT_FUEL_LIMIT: u64 = 100_000_000;

/// Wall-clock deadline of one run unless configured otherwise.
pub const DEFAULT_TIMEOUT_MS: u64 = 10_000;

/// Milliseconds between two advances of the engine's epoch.
pub const EPOCH_TICK_MS: u64 = 10;

#[verifier::external_type_specification]
#[verifier::external_body]
pub struct ExEngine(wasmtime::Engine);

#[verifier::external_type_specification]
#[verifier::external_body]
pub struct ExModule(wasmtime::Module);

#[verifier::external_type_specification]
#[verifier::external_body]
#[verifier::reject_recursive_types(T)]
pub struct ExStore<T: 'static>(wasmtime::Store<T>);

#[verifier::external_type_specification]
#[verifier::external_body]
pub struct ExWasmError(wasmtime::Error);

/// Relies on `wasmtime::Engine::new`, given a `wasmtime::Config` with fuel
/// consumption and epoch interruption switched on.
#[verifier::external_body]
fn metered_engine() -> (r: Result<wasmtime::Engine, wasmtime::Error>) {
    let mut config = wasmtime::Config::new();
    config.consume_fuel(true);
    config.epoch_interruption(true);
    wasmtime::Engine::new(&config)
}

/// Relies on `wasmtime::Module::new`: validates and compiles the binary.
#[verifier::external_body]
fn compile_unit(engine: &wasmtime::Engine, bytes: &[u8]) -> (r: Result<wasmtime::Module, wasmtime::Error>) {
    wasmtime::Module::new(engine, bytes)
}

/// Relies on `wasmtime::Store::new`: a fresh store with no host state.
#[verifier::external_body]
fn fresh_store(engine: &wasmtime::Engine) -> (r: wasmtime::Store<()>) {
    wasmtime::Store::new(engine, ())
}

/// Relies on `wasmtime::Store::set_fuel`.
#[verifier::external_body]
fn fill_fuel(store: &mut wasmtime::Store<()>, fuel: u64) -> (r: Result<(), wasmtime::Error>) {
    store.set_fuel(fuel)
}

/// Relies on `wasmtime::Store::set_epoch_deadline`: the store traps once the
/// epoch has advanced `ticks` times. The deadline is the current epoch plus
/// `ticks`, so `ticks` is kept far from overflow.
#[verifier::external_body]
fn arm_deadline(store: &mut wasmtime::Store<()>, ticks: u64)
    requires
        ticks <= u64::MAX / 2,
{
    store.set_epoch_deadline(ticks)
}

/// Relies on `wasmtime::Linker::instantiate` with an empty linker built for
/// the store's own engine, which runs the module's start function under the
/// store's fuel and deadline.
#[verifier::external_body]
fn instantiate_unit(store: &mut wasmtime::Store<()>, module: &wasmtime::Module) -> (r: Result<(), wasmtime::Error>) {
    let linker = wasmtime::Linker::new(store.engine());
    linker.instantiate(store, module).map(|_| ())
}

/// Relies on `wasmtime::Store::get_fuel`: the fuel left in the store.
#[verifier::external_body]
fn fuel_left(store: &wasmtime::Store<()>) -> (r: Result<u64, wasmtime::Error>) {
    store.get_fuel()
}

/// Why an instantiation failed.
#[derive(Debug, Clone, Copy, PartialEq, Eq, Structural)]
pub enum Fault {
    /// The epoch deadline passed.
    Deadline,
    /// The fuel ceiling was reached.
    OutOfFuel,
    /// Any other trap or error.
    Other,
}

/// Relies on `wasmtime::Error::downcast_ref` to `wasmtime::Trap`: which trap,
/// if any, ended the run.
#[verifier::external_body]
fn fault_of(e: &wasmtime::Error) -> (r: Fault) {
    match e.downcast_ref::<wasmtime::Trap>() {
        Some(wasmtime::Trap::Interrupt) => Fault::Deadline,
        Some(wasmtime::Trap::OutOfFuel) => Fault::OutOfFuel,
        _ => Fault::Other,
    }
}

/// A store for one run, with the fuel and the deadline that were given to
/// it.
pub struct UnitStore {
    store: wasmtime::Store<()>,
    fuel: Ghost<Option<u64>>,
    deadline_ticks: Ghost<Option<u64>>,
}

impl UnitStore {
    /// The fuel the store was given, once it took it.
    pub closed spec fn spec_fuel(&self) -> Option<u64> {
        self.fuel@
    }

    /// The deadline the store was armed with, in epoch ticks.
    pub closed spec fn spec_deadline_ticks(&self) -> Option<u64> {
        self.deadline_ticks@
    }

    pub fn new(engine: &wasmtime::Engine) -> (r: UnitStore)
        ensures
            r.spec_fuel() is None,
            r.spec_deadline_ticks() is None,
    {
        UnitStore { store: fresh_store(engine), fuel: Ghost(None), deadline_ticks: Ghost(None) }
    }

    /// Gives the store `fuel`; `false` when it would not take it.
    pub fn fill(&mut self, fuel: u64) -> (r: bool)
        ensures
            r ==> final(self).spec_fuel() == Some(fuel),
            !r ==> final(self).spec_fuel() == old(self).spec_fuel(),
            final(self).spec_deadline_ticks() == old(self).spec_deadline_ticks(),
    {
        match fill_fuel(&mut self.store, fuel) {
            Ok(()) => {
                self.fuel = Ghost(Some(fuel));
                true
            },
            Err(_) => false,
        }
    }

    /// Arms the store to trap once the epoch advances `ticks` times.
    pub fn arm(&mut self, ticks: u64)
        requires
            ticks <= u64::MAX / 2,
        ensures
            final(self).spec_deadline_ticks() == Some(ticks),
            final(self).spec_fuel() == old(self).spec_fuel(),
    {
        arm_deadline(&mut self.store, ticks);
        self.deadline_ticks = Ghost(Some(ticks));
    }

    /// Instantiates `module` in the store, which must hold fuel and a
    /// deadline.
    pub fn instantiate(&mut self, module: &wasmtime::Module) -> (r: Result<(), Fault>)
        requires
            old(self).spec_fuel() is Some,
            old(self).spec_deadline_ticks() is Some,
        ensures
            final(self).spec_fuel() == old(self).spec_fuel(),
            final(self).spec_deadline_ticks() == old(self).spec_deadline_ticks(),
    {
        match instantiate_unit(&mut self.store, module) {
            Ok(()) => Ok(()),
            Err(e) => Err(fault_of(&e)),
        }
    }

    /// The fuel left, when it can be read.
    pub fn fuel_left(&self) -> (r: Option<u64>) {
        match fuel_left(&self.store) {
            Ok(l) => Some(l),
            Err(_) => None,
        }
    }
}

/// How one run of a unit ended, before classification.
#[derive(Debug, Clone, Copy, PartialEq, Eq, Structural)]
pub enum UnitRun {
    /// The binary could not be validated or compiled.
    LoadFailed,
    /// The store would not take its fuel.
    FuelUnavailable,
    /// The unit trapped: on its fuel ceiling, or on a runtime fault.
    Trapped { out_of_fuel: bool },
    /// The wall-clock deadline passed before the unit finished.
    DeadlinePassed,
    /// The unit finished, with the fuel left when it could be read.
    Completed { fuel_left: Option<u64> },
}

/// The run that an instantiation ending as `instantiated` amounts to, with
/// `fuel_left` read after it.
pub open spec fn spec_classify(instantiated: Result<(), Fault>, fuel_left: Option<u64>) -> UnitRun {
    match instantiated {
        Ok(()) => UnitRun::Completed { fuel_left },
        Err(Fault::Deadline) => UnitRun::DeadlinePassed,
        Err(Fault::OutOfFuel) => UnitRun::Trapped { out_of_fuel: true },
        Err(Fault::Other) => UnitRun::Trapped { out_of_fuel: false },
    }
}

/// What a completed run reports.
#[derive(Debug, Clone)]
pub struct SpellOutput {
    pub spell: String,
    /// The payload, as the JSON text the unit was given.
    pub input: String,
    pub output: String,
    pub fuel_consumed: u64,
}

impl SpellOutput {
    /// Same text in every field and the same fuel figure.
    pub open spec fn same_as(&self, o: &SpellOutput) -> bool {
        &&& self.spell@ == o.spell@
        &&& self.input@ == o.input@
        &&& self.output@ == o.output@
        &&& self.fuel_consumed == o.fuel_consumed
    }

    /// A copy of this output.
    pub fn duplicate(&self) -> (r: SpellOutput)
        ensures
            r.same_as(self),
    {
        SpellOutput {
            spell: self.spell.clone(),
            input: self.input.clone(),
            output: self.output.clone(),
            fuel_consumed: self.fuel_consumed,
        }
    }
}

/// Fuel burnt by a run that left `left` of `limit`.
pub open spec fn spec_consumed(limit: u64, left: Option<u64>) -> u64 {
    match left {
        Some(l) => if l <= limit { (limit - l) as u64 } else { 0 },
        None => 0,
    }
}

/// Whether `r` is the classification of `run` of the unit `name` given
/// `input` under `limit`. Failure messages are fixed texts that show
/// nothing of the host or of the unit's stack.
pub open spec fn is_outcome(
    r: Result<SpellOutput, CastError>,
    name: Seq<char>,
    input: Seq<char>,
    limit: u64,
    run: UnitRun,
) -> bool {
    match run {
        UnitRun::LoadFailed => r matches Err(CastError::WasmExecutionFailed(t)) && t@ == "Failed to load module"@,
        UnitRun::FuelUnavailable => r matches Err(CastError::InternalError(t)) && t@ == "Failed to add fuel"@,
        UnitRun::Trapped { out_of_fuel } => r matches Err(CastError::WasmExecutionFailed(t))
            && t@ == (if out_of_fuel { "Execution trapped: fuel exhausted"@ } else { "Execution trapped: runtime fault"@ }),
        UnitRun::DeadlinePassed => r matches Err(CastError::WasmTimeout),
        UnitRun::Completed { fuel_left } => r matches Ok(o)
            && o.spell@ == name
            && o.input@ == input
            && o.output@ == "WASM execution successful"@
            && o.fuel_consumed == spec_consumed(limit, fuel_left),
    }
}

/// Epoch ticks that cover `timeout_ms`, at least one.
pub open spec fn spec_deadline_ticks(timeout_ms: u64) -> u64 {
    if timeout_ms <= EPOCH_TICK_MS {
        1
    } else {
        ((timeout_ms as int + EPOCH_TICK_MS - 1) / EPOCH_TICK_MS as int) as u64
    }
}

/// A compiled-code engine and the limits of each run.
pub struct WasmRuntime {
    engine: wasmtime::Engine,
    units_dir: String,
    fuel_limit: u64,
    timeout_ms: u64,
}

impl WasmRuntime {
    pub closed spec fn spec_units_dir(&self) -> Seq<char> {
        self.units_dir@
    }

    pub closed spec fn spec_fuel_limit(&self) -> u64 {
        self.fuel_limit
    }

    pub closed spec fn spec_timeout_ms(&self) -> u64 {
        self.timeout_ms
    }

    /// A runtime whose units are looked up under `units_dir`, with the
    /// default fuel ceiling and deadline.
    pub fn new(units_dir: &str) -> (r: Result<WasmRuntime, CastError>)
        ensures
            r matches Ok(rt) ==> rt.spec_units_dir() == units_dir@
                && rt.spec_fuel_limit() == DEFAULT_FUEL_LIMIT
                && rt.spec_timeout_ms() == DEFAULT_TIMEOUT_MS,
            r matches Err(e) ==> e is InternalError,
    {
        Self::with_limits(units_dir, DEFAULT_FUEL_LIMIT, DEFAULT_TIMEOUT_MS)
    }

    /// A runtime with the given fuel ceiling and deadline per run.
    pub fn with_limits(units_dir: &str, fuel_limit: u64, timeout_ms: u64) -> (r: Result<WasmRuntime, CastError>)
        ensures
            r matches Ok(rt) ==> rt.spec_units_dir() == units_dir@
                && rt.spec_fuel_limit() == fuel_limit
                && rt.spec_timeout_ms() == timeout_ms,
            r matches Err(e) ==> e is InternalError,
    {
        match metered_engine() {
            Ok(engine) => Ok(WasmRuntime { engine, units_dir: units_dir.to_string(), fuel_limit, timeout_ms }),
            Err(_) => Err(CastError::InternalError("Failed to create WASM engine".to_string())),
        }
    }

    /// The engine, so that its epoch can be advanced from outside.
    pub fn engine(&self) -> (r: &wasmtime::Engine) {
        &self.engine
    }

    pub fn fuel_limit(&self) -> (r: u64)
        ensures
            r == self.spec_fuel_limit(),
    {
        self.fuel_limit
    }

    pub fn timeout_ms(&self) -> (r: u64)
        ensures
            r == self.spec_timeout_ms(),
    {
        self.timeout_ms
    }

    /// Where the binary of `spell_name` is kept: `<units_dir>/<name>.wasm`.
    pub fn artifact_path(&self, spell_name: &str) -> (r: String)
        ensures
            r@ == self.spec_units_dir() + "/"@ + spell_name@ + ".wasm"@,
    {
        let mut p = self.units_dir.clone();
        p.append("/");
        p.append(spell_name);
        p.append(".wasm");
        p
    }

    /// Epoch ticks after which a run is interrupted.
    pub fn deadline_ticks(&self) -> (r: u64)
        ensures
            r == spec_deadline_ticks(self.spec_timeout_ms()),
            1 <= r <= u64::MAX / 2,
    {
        if self.timeout_ms <= EPOCH_TICK_MS {
            1
        } else {
            (self.timeout_ms - 1) / EPOCH_TICK_MS + 1
        }
    }

    /// The result of a run that ended as `run`.
    pub fn outcome(spell_name: &str, input: String, fuel_limit: u64, run: UnitRun) -> (r: Result<SpellOutput, CastError>)
        ensures
            is_outcome(r, spell_name@, input@, fuel_limit, run),
    {
        match run {
            UnitRun::LoadFailed => Err(CastError::WasmExecutionFailed("Failed to load module".to_string())),
            UnitRun::FuelUnavailable => Err(CastError::InternalError("Failed to add fuel".to_string())),
            UnitRun::Trapped { out_of_fuel } => {
                let m = if out_of_fuel {
                    "Execution trapped: fuel exhausted"
                } else {
                    "Execution trapped: runtime fault"
                };
                Err(CastError::WasmExecutionFailed(m.to_string()))
            },
            UnitRun::DeadlinePassed => Err(CastError::WasmTimeout),
            UnitRun::Completed { fuel_left } => {
                let fuel_consumed = match fuel_left {
                    Some(l) => if l <= fuel_limit { fuel_limit - l } else { 0 },
                    None => 0,
                };
                Ok(SpellOutput {
                    spell: spell_name.to_string(),
                    input,
                    output: "WASM execution successful".to_string(),
                    fuel_consumed,
                })
            },
        }
    }

    /// The run that an instantiation ending as `instantiated` amounts to:
    /// success completes, the deadline trap is a timeout, and any other
    /// failure is a trap.
    pub fn classify(instantiated: Result<(), Fault>, fuel_left: Option<u64>) -> (r: UnitRun)
        ensures
            r == spec_classify(instantiated, fuel_left),
    {
        match instantiated {
            Ok(()) => UnitRun::Completed { fuel_left },
            Err(Fault::Deadline) => UnitRun::DeadlinePassed,
            Err(Fault::OutOfFuel) => UnitRun::Trapped { out_of_fuel: true },
            Err(Fault::Other) => UnitRun::Trapped { out_of_fuel: false },
        }
    }

    /// Compiles `bytes` and runs them in a fresh store given this runtime's
    /// fuel ceiling and deadline. Next to the run comes the fuel and the
    /// deadline the store held when the unit ran, absent when it never ran.
    pub fn run_unit(&self, bytes: &[u8]) -> (r: (UnitRun, Ghost<Option<(u64, u64)>>))
        ensures
            r.1@ is None <==> (r.0 == UnitRun::LoadFailed || r.0 == UnitRun::FuelUnavailable),
            r.1@ is Some ==> r.1@ == Some((self.spec_fuel_limit(), spec_deadline_ticks(self.spec_timeout_ms()))),
            r.1@ is Some ==> exists|i: Result<(), Fault>, left: Option<u64>| r.0 == spec_classify(i, left),
    {
        let module = match compile_unit(&self.engine, bytes) {
            Ok(m) => m,
            Err(_) => return (UnitRun::LoadFailed, Ghost(None)),
        };
        let mut store = UnitStore::new(&self.engine);
        if !store.fill(self.fuel_limit) {
            return (UnitRun::FuelUnavailable, Ghost(None));
        }
        store.arm(self.deadline_ticks());
        let instantiated = store.instantiate(&module);
        let left = if instantiated.is_ok() {
            store.fuel_left()
        } else {
            None
        };
        let run = Self::classify(instantiated, left);
        let ghost settings = Some((store.spec_fuel()->0, store.spec_deadline_ticks()->0));
        (run, Ghost(settings))
    }

    /// Runs the unit: `artifact` is its binary, or `None` when no binary
    /// exists under its name. The run is `run_unit`'s; the payload is not
    /// copied into the unit's memory but returned with the output.
    pub fn execute_spell(&self, spell_name: &str, artifact: Option<&[u8]>, input: String) -> (r: Result<SpellOutput, CastError>)
        ensures
            artifact is None ==> (r matches Err(CastError::WasmNotFound(n)) && n@ == spell_name@),
            artifact is Some ==> exists|run: UnitRun| is_outcome(r, spell_name@, input@, self.spec_fuel_limit(), run),
    {
        let bytes = match artifact {
            None => return Err(CastError::WasmNotFound(spell_name.to_string())),
            Some(b) => b,
        };
        let (run, _) = self.run_unit(bytes);
        let r = Self::outcome(spell_name, input, self.fuel_limit, run);
        assert(is_outcome(r, spell_name@, input@, self.spec_fuel_limit(), run));
        r
    }

    /// The result once the watchdog has waited out the deadline: `None` when
    /// the run had not finished by then.
    pub fn after_deadline(finished: Option<Result<SpellOutput, CastError>>) -> (r: Result<SpellOutput, CastError>)
        ensures
            finished is None ==> r matches Err(CastError::WasmTimeout),
            finished matches Some(f) ==> r == f,
    {
        match finished {
            Some(f) => f,
            None => Err(CastError::WasmTimeout),
        }
    }
}

/// A unit whose deadline passes is reported as a timeout, which callers may
/// retry, and never as an execution failure.
pub proof fn lemma_deadline_is_timeout(r: Result<SpellOutput, CastError>, name: Seq<char>, input: Seq<char>, limit: u64)
    requires
        is_outcome(r, name, input, limit, UnitRun::DeadlinePassed),
    ensures
        r matches Err(e) && e is WasmTimeout && !(e is WasmExecutionFailed),
        r->Err_0.spec_retryable(),
        r->Err_0.spec_status_code() == 408,
{
}

} // verus!
