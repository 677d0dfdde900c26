//! The initialisation state of the native library.
//!
//! `init` initialises the library when it is not initialised yet: it looks
//! at whether the native library can be loaded, and fails with a library
//! error when it cannot. Once initialised, `init` does nothing. `shutdown`
//! clears the initialised flag, so a later `init` initialises again.

use vstd::prelude::*;

use crate::error::Error;

verus! {

/// The process-wide initialisation state.
#[derive(Debug)]
pub struct Runtime {
    /// Whether the library is initialised.
    initialized: bool,
}

/// The initialisation state as plain values.
pub struct RuntimeView {
    pub initialized: bool,
}

impl View for Runtime {
    type V = RuntimeView;

    closed spec fn view(&self) -> RuntimeView {
        RuntimeView { initialized: self.initialized }
    }
}

impl Runtime {
    /// The state before anything was initialised.
    pub fn new() -> (r: Self)
        ensures
            r@ == (RuntimeView { initialized: false }),
    {
        Runtime { initialized: false }
    }
}

/// The message of the error that `init` returns when the native library
/// cannot be loaded.
pub open spec fn load_failure_msg() -> Seq<char> {
    "Failed to load gopher-orch native library"@
}

/// The state after `init`, and whether it returned `Ok`: an initialised
/// library stays so; otherwise the library becomes initialised exactly when
/// it can be loaded.
pub open spec fn init_spec(v: RuntimeView, native_available: bool) -> (RuntimeView, bool) {
    if v.initialized {
        (v, true)
    } else {
        (RuntimeView { initialized: native_available }, native_available)
    }
}

/// The state after `shutdown`.
pub open spec fn shutdown_spec(v: RuntimeView) -> RuntimeView {
    RuntimeView { initialized: false }
}

/// Initialize the gopher-orch library if it is not initialized yet.
/// `native_available` is whether the native library can be loaded; it is
/// looked at only when the library is not initialized.
pub fn init(state: &mut Runtime, native_available: bool) -> (r: Result<(), Error>)
    ensures
        final(state)@ == init_spec(old(state)@, native_available).0,
        r is Ok <==> init_spec(old(state)@, native_available).1,
        r is Err ==> r->Err_0 is Library && r->Err_0.msg() == load_failure_msg(),
{
    if state.initialized {
        return Ok(());
    }
    if !native_available {
        return Err(Error::library("Failed to load gopher-orch native library"));
    }
    state.initialized = true;
    Ok(())
}

/// Returns true if the library is initialized.
pub fn is_initialized(state: &Runtime) -> (r: bool)
    ensures
        r == state@.initialized,
{
    state.initialized
}

/// Shutdown the gopher-orch library.
pub fn shutdown(state: &mut Runtime)
    ensures
        final(state)@ == shutdown_spec(old(state)@),
{
    state.initialized = false;
}

/// A call that changes the initialisation state: `init`, given whether the
/// native library can be loaded, or `shutdown`.
pub enum RuntimeEvent {
    Init(bool),
    Shutdown,
}

/// The state after a history of calls, from a given state.
pub open spec fn run_history(v: RuntimeView, history: Seq<RuntimeEvent>) -> RuntimeView
    decreases history.len(),
{
    if history.len() == 0 {
        v
    } else {
        let before = run_history(v, history.drop_last());
        match history.last() {
            RuntimeEvent::Init(available) => init_spec(before, available).0,
            RuntimeEvent::Shutdown => shutdown_spec(before),
        }
    }
}

/// Whether some `init` of the history found the native library loadable
/// and no `shutdown` came after it.
pub open spec fn initialized_by(history: Seq<RuntimeEvent>) -> bool {
    exists|i: int|
        0 <= i < history.len() && #[trigger] history[i] == RuntimeEvent::Init(true) && (forall|j: int|
            i < j < history.len() ==> !(history[j] is Shutdown))
}

/// From the fresh state, the library is initialised after a history of
/// calls exactly when some `init` found the native library loadable and no
/// `shutdown` came after it.
pub proof fn law_initialized_after_history(history: Seq<RuntimeEvent>)
    ensures
        run_history(RuntimeView { initialized: false }, history).initialized == initialized_by(
            history,
        ),
    decreases history.len(),
{
    if history.len() > 0 {
        let h = history.drop_last();
        let n = history.len() - 1;
        law_initialized_after_history(h);
        match history.last() {
            RuntimeEvent::Shutdown => {
                if initialized_by(history) {
                    let i = choose|i: int|
                        0 <= i < history.len() && #[trigger] history[i] == RuntimeEvent::Init(true)
                            && (forall|j: int| i < j < history.len() ==> !(history[j] is Shutdown));
                    assert(i != n);
                    assert(!(history[n] is Shutdown));
                }
            },
            RuntimeEvent::Init(available) => {
                if initialized_by(h) {
                    let i = choose|i: int|
                        0 <= i < h.len() && #[trigger] h[i] == RuntimeEvent::Init(true) && (forall|j: int|
                            i < j < h.len() ==> !(h[j] is Shutdown));
                    assert(history[i] == RuntimeEvent::Init(true));
                    assert forall|j: int| i < j < history.len() implies !(history[j] is Shutdown) by {
                        if j < n {
                            assert(history[j] == h[j]);
                        }
                    }
                    assert(initialized_by(history));
                } else if available {
                    assert(history[n] == RuntimeEvent::Init(true));
                    assert(initialized_by(history));
                } else {
                    if initialized_by(history) {
                        let i = choose|i: int|
                            0 <= i < history.len() && #[trigger] history[i] == RuntimeEvent::Init(true)
                                && (forall|j: int| i < j < history.len() ==> !(history[j] is Shutdown));
                        assert(i != n);
                        assert(h[i] == RuntimeEvent::Init(true));
                        assert forall|j: int| i < j < h.len() implies !(h[j] is Shutdown) by {
                            assert(history[j] == h[j]);
                        }
                        assert(initialized_by(h));
                    }
                }
            },
        }
    }
}

/// `init` on an initialised library returns `Ok` and changes nothing; on a
/// library that is not initialised, in particular after `shutdown`, it
/// returns `Ok` and initialises exactly when the native library can be
/// loaded, so a failed `init` is followed by the same failure while the
/// library stays unloadable.
pub proof fn law_init_initializes_when_needed(v: RuntimeView, available: bool)
    ensures
        v.initialized ==> init_spec(v, available) == (v, true),
        !v.initialized ==> init_spec(v, available).1 == available && init_spec(v, available).0.initialized
            == available,
        init_spec(shutdown_spec(v), available).0.initialized == available,
        init_spec(shutdown_spec(v), available).1 == available,
        !available ==> init_spec(init_spec(RuntimeView { initialized: false }, available).0, available)
            == (RuntimeView { initialized: false }, false),
{
}

} // verus!
