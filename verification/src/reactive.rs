//! The reactive runtime of `floem_reactive`, as far as the bridge calls it: scopes,
//! triggers and the two halves of a cell.
//!
//! The runtime keeps its signals and effects in a registry of the thread that made
//! them. Every function here acts on the registry of the calling thread, and what it
//! does there cannot be told from its arguments: none of them claims anything of its
//! result. Each returns on every input.
//!
//! The calls of the runtime that can panic, which are installing an effect,
//! subscribing to a trigger and writing to a cell, are not made here: the bridge
//! tells its caller what to subscribe to and what to write.

use floem_reactive::{ReadSignal, RwSignal, Scope, SignalRead, Trigger, WriteSignal};
use vstd::prelude::*;

verus! {

/// `floem_reactive::Scope`, as an opaque value.
#[verifier::external_type_specification]
#[verifier::external_body]
pub struct ExScope(Scope);

/// `floem_reactive::Trigger`, as an opaque value.
#[verifier::external_type_specification]
#[verifier::external_body]
pub struct ExTrigger(Trigger);

/// `floem_reactive::RwSignal`, as an opaque value.
#[verifier::external_type_specification]
#[verifier::external_body]
#[verifier::reject_recursive_types(T)]
pub struct ExRwSignal<T>(RwSignal<T>);

/// `floem_reactive::ReadSignal`, as an opaque value.
#[verifier::external_type_specification]
#[verifier::external_body]
#[verifier::reject_recursive_types(T)]
pub struct ExReadSignal<T>(ReadSignal<T>);

/// `floem_reactive::WriteSignal`, as an opaque value.
#[verifier::external_type_specification]
#[verifier::external_body]
#[verifier::reject_recursive_types(T)]
pub struct ExWriteSignal<T>(WriteSignal<T>);

/// `Scope::current`: the scope that is current on the calling thread, which owns
/// every signal and effect that is made without naming a scope.
#[verifier::external_body]
pub(crate) fn current_scope() -> (scope: Scope) {
    Scope::current()
}

/// `Scope::create_trigger`: a new trigger that `scope` owns, registered with the
/// calling thread.
#[verifier::external_body]
pub(crate) fn trigger_in(scope: Scope) -> (trigger: Trigger) {
    scope.create_trigger()
}

/// `Scope::create_rw_signal` with the unit value: a new signal that `scope` owns,
/// registered with the calling thread. It is removed from the registry when `scope`
/// is disposed, as everything else that `scope` owns is.
#[verifier::external_body]
pub(crate) fn marker_in(scope: Scope) -> (marker: RwSignal<()>) {
    scope.create_rw_signal(())
}

/// `SignalRead::try_read_untracked` of an `RwSignal`: whether the calling thread's
/// registry holds `marker`. The call looks the signal up and borrows nothing of it.
/// What the registry holds is not told by `marker`, so nothing is claimed of the
/// result.
#[verifier::external_body]
pub(crate) fn is_registered(marker: &RwSignal<()>) -> (registered: bool) {
    marker.try_read_untracked().is_some()
}

/// `floem_reactive::create_rw_signal`: a new cell that holds `initial`, owned by the
/// scope that is current on the calling thread.
#[verifier::external_body]
pub(crate) fn new_cell<V: 'static>(initial: V) -> (cell: RwSignal<V>) {
    floem_reactive::create_rw_signal(initial)
}

/// `RwSignal::write_only`: the write half of `cell`.
#[verifier::external_body]
pub(crate) fn write_half<V>(cell: &RwSignal<V>) -> (writer: WriteSignal<V>) {
    cell.write_only()
}

/// `RwSignal::read_only`: the read half of `cell`.
#[verifier::external_body]
pub(crate) fn read_half<V>(cell: &RwSignal<V>) -> (reader: ReadSignal<V>) {
    cell.read_only()
}

} // verus!
