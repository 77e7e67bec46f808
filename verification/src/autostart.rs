//! Starting with the user's session: a value under the current user's `Run` registry key.
//!
//! Switching is a short sequence of registry work. Each [`AutostartStep`] names the next piece
//! of work; whoever runs it performs that work and passes the outcome to the step's `after_*`
//! function, until [`AutostartStep::Done`].
use vstd::prelude::*;

verus! {

/// The registry key, under the current user's hive, whose values start programs at log-on.
pub const RUN_KEY: &'static str = "Software\\Microsoft\\Windows\\CurrentVersion\\Run";

/// The name of the board's value under the `Run` key.
pub open spec fn autostart_value_name() -> Seq<char> {
    "MistBoard"@
}

/// The name of the board's value under the `Run` key.
pub fn autostart_value() -> (r: String)
    ensures
        r@ == autostart_value_name(),
{
    String::from_str("MistBoard")
}

/// Whether the board starts with the session, given the outcome of opening the `Run` key for
/// querying and reading the board's value there as a string: it does exactly when both
/// succeeded.
pub fn autostart_enabled(lookup: &Result<String, String>) -> (r: bool)
    ensures
        r == (lookup is Ok),
{
    lookup.is_ok()
}

/// The next piece of registry work in switching autostart on or off, or the end.
pub enum AutostartStep {
    /// Open the `Run` key for querying and setting values; then call
    /// [`after_run_key_opened`] with `enable`.
    OpenRunKey { enable: bool },
    /// Find the path of the running executable; then call [`after_executable_located`].
    LocateExecutable,
    /// Set the value `name` to the string `data`; then call [`after_value_written`].
    WriteValue { name: String, data: String },
    /// Delete the value `name`; then call [`after_value_deleted`].
    DeleteValue { name: String },
    /// Switching is over, successfully or with the error's text.
    Done { outcome: Result<(), String> },
}

/// The mathematical value of an [`AutostartStep`].
pub enum AutostartStepView {
    OpenRunKey { enable: bool },
    LocateExecutable,
    WriteValue { name: Seq<char>, data: Seq<char> },
    DeleteValue { name: Seq<char> },
    Done { outcome: Result<(), Seq<char>> },
}

/// The view of an outcome that carries no value.
pub open spec fn unit_view(r: Result<(), String>) -> Result<(), Seq<char>> {
    match r {
        Ok(()) => Ok(()),
        Err(e) => Err(e@),
    }
}

/// The view of an outcome that carries a string.
pub open spec fn text_view(r: Result<String, String>) -> Result<Seq<char>, Seq<char>> {
    match r {
        Ok(s) => Ok(s@),
        Err(e) => Err(e@),
    }
}

impl View for AutostartStep {
    type V = AutostartStepView;

    open spec fn view(&self) -> AutostartStepView {
        match self {
            AutostartStep::OpenRunKey { enable } => AutostartStepView::OpenRunKey {
                enable: *enable,
            },
            AutostartStep::LocateExecutable => AutostartStepView::LocateExecutable,
            AutostartStep::WriteValue { name, data } => AutostartStepView::WriteValue {
                name: name@,
                data: data@,
            },
            AutostartStep::DeleteValue { name } => AutostartStepView::DeleteValue { name: name@ },
            AutostartStep::Done { outcome } => AutostartStepView::Done {
                outcome: unit_view(*outcome),
            },
        }
    }
}

/// How many more outcomes switching can take at most from this step on.
pub open spec fn autostart_rank(s: AutostartStepView) -> nat {
    match s {
        AutostartStepView::OpenRunKey { .. } => 3,
        AutostartStepView::LocateExecutable => 2,
        AutostartStepView::WriteValue { .. } => 1,
        AutostartStepView::DeleteValue { .. } => 1,
        AutostartStepView::Done { .. } => 0,
    }
}

/// After opening the `Run` key: switching on looks for the executable, switching off deletes
/// the board's value; a key that does not open ends switching with its error.
pub open spec fn next_after_run_key_opened(
    enable: bool,
    opened: Result<(), Seq<char>>,
) -> AutostartStepView {
    match opened {
        Err(e) => AutostartStepView::Done { outcome: Err(e) },
        Ok(()) => if enable {
            AutostartStepView::LocateExecutable
        } else {
            AutostartStepView::DeleteValue { name: autostart_value_name() }
        },
    }
}

/// After looking for the executable: its path is written as the board's value, or switching
/// ends with the error.
pub open spec fn next_after_executable_located(exe: Result<Seq<char>, Seq<char>>) -> AutostartStepView {
    match exe {
        Ok(path) => AutostartStepView::WriteValue { name: autostart_value_name(), data: path },
        Err(e) => AutostartStepView::Done { outcome: Err(e) },
    }
}

/// The first step of switching autostart on (`enable`) or off.
pub fn set_autostart_registry(enable: bool) -> (r: AutostartStep)
    ensures
        r@ == (AutostartStepView::OpenRunKey { enable }),
{
    AutostartStep::OpenRunKey { enable }
}

/// The step after opening the `Run` key.
pub fn after_run_key_opened(enable: bool, opened: Result<(), String>) -> (r: AutostartStep)
    ensures
        r@ == next_after_run_key_opened(enable, unit_view(opened)),
{
    match opened {
        Err(e) => AutostartStep::Done { outcome: Err(e) },
        Ok(()) => {
            if enable {
                AutostartStep::LocateExecutable
            } else {
                AutostartStep::DeleteValue { name: autostart_value() }
            }
        },
    }
}

/// The step after looking for the executable's path.
pub fn after_executable_located(exe: Result<String, String>) -> (r: AutostartStep)
    ensures
        r@ == next_after_executable_located(text_view(exe)),
{
    match exe {
        Ok(path) => AutostartStep::WriteValue { name: autostart_value(), data: path },
        Err(e) => AutostartStep::Done { outcome: Err(e) },
    }
}

/// The step after writing the board's value: switching ends with the write's outcome.
pub fn after_value_written(written: Result<(), String>) -> (r: AutostartStep)
    ensures
        r@ == (AutostartStepView::Done { outcome: unit_view(written) }),
{
    AutostartStep::Done { outcome: written }
}

/// The step after deleting the board's value: switching off succeeds whether or not the
/// deletion did (a value that is not there needs no deleting).
pub fn after_value_deleted(deleted: Result<(), String>) -> (r: AutostartStep)
    ensures
        r@ == (AutostartStepView::Done { outcome: Ok(()) }),
{
    AutostartStep::Done { outcome: Ok(()) }
}

/// Every outcome brings switching strictly closer to its end, and only the end has rank 0:
/// switching ends after at most three outcomes.
pub proof fn lemma_switching_ends()
    ensures
        forall|s: AutostartStepView| autostart_rank(s) == 0 <==> s is Done,
        forall|enable: bool, o: Result<(), Seq<char>>|
            #[trigger] autostart_rank(next_after_run_key_opened(enable, o)) < autostart_rank(
                AutostartStepView::OpenRunKey { enable },
            ),
        forall|e: Result<Seq<char>, Seq<char>>|
            #[trigger] autostart_rank(next_after_executable_located(e)) < autostart_rank(
                AutostartStepView::LocateExecutable,
            ),
{
}

/// Switching on, once the key is open and the executable found, writes exactly the
/// executable's path under the board's value name, the name that the query reads.
pub proof fn lemma_enabling_writes_executable_path(path: Seq<char>)
    ensures
        next_after_run_key_opened(true, Ok(())) == AutostartStepView::LocateExecutable,
        next_after_executable_located(Ok(path)) == (AutostartStepView::WriteValue {
            name: autostart_value_name(),
            data: path,
        }),
{
}

/// Switching off, once the key is open, deletes the board's value and reports success.
pub proof fn lemma_disabling_deletes_value()
    ensures
        next_after_run_key_opened(false, Ok(())) == (AutostartStepView::DeleteValue {
            name: autostart_value_name(),
        }),
{
}

/// The values under the `Run` key, by name, once the registry work of `step` is done:
/// writing sets the named value to its data, deleting removes the named value, and the other
/// steps write nothing.
pub open spec fn run_key_after(
    values: Map<Seq<char>, Seq<char>>,
    step: AutostartStepView,
) -> Map<Seq<char>, Seq<char>> {
    match step {
        AutostartStepView::WriteValue { name, data } => values.insert(name, data),
        AutostartStepView::DeleteValue { name } => values.remove(name),
        _ => values,
    }
}

/// Whether the `Run` key holds the board's value, which is what the query reads.
pub open spec fn registered(values: Map<Seq<char>, Seq<char>>) -> bool {
    values.contains_key(autostart_value_name())
}

/// Switching on leaves the board registered with the executable's path, switching off leaves
/// it unregistered, other values under the key are untouched, and switching the same way a
/// second time leaves the key as the first time did.
pub proof fn lemma_switching_round_trip(values: Map<Seq<char>, Seq<char>>, path: Seq<char>)
    ensures
        registered(run_key_after(values, next_after_executable_located(Ok(path)))),
        run_key_after(values, next_after_executable_located(Ok(path)))[autostart_value_name()]
            == path,
        !registered(run_key_after(values, next_after_run_key_opened(false, Ok(())))),
        forall|k: Seq<char>|
            k != autostart_value_name() ==> (#[trigger] run_key_after(
                values,
                next_after_executable_located(Ok(path)),
            ).contains_key(k) == values.contains_key(k) && run_key_after(
                values,
                next_after_run_key_opened(false, Ok(())),
            ).contains_key(k) == values.contains_key(k)),
        run_key_after(
            run_key_after(values, next_after_executable_located(Ok(path))),
            next_after_executable_located(Ok(path)),
        ) == run_key_after(values, next_after_executable_located(Ok(path))),
        run_key_after(
            run_key_after(values, next_after_run_key_opened(false, Ok(()))),
            next_after_run_key_opened(false, Ok(())),
        ) == run_key_after(values, next_after_run_key_opened(false, Ok(()))),
{
    let name = autostart_value_name();
    assert(values.insert(name, path).insert(name, path) =~= values.insert(name, path));
    assert(values.remove(name).remove(name) =~= values.remove(name));
}

} // verus!
