//! The lifecycle guarantees of the layer, stated over the abstract
//! subsystem state.
//!
//! Each proof here composes the transitions that the operations'
//! contracts pin down, so the guarantees hold of every sequence of
//! calls, not just of particular test runs.

use vstd::prelude::*;

use crate::subsystem::Model;

verus! {

use crate::text::chars_have_nul;

/// While a context lives, no second one can be created: after a
/// successful initialization the subsystem is initialized, and a
/// creation attempt with any further name no longer goes through (it is
/// refused as already existing).
pub proof fn lemma_context_is_exclusive(m: Model, name: Seq<char>, other: Seq<char>)
    requires
        m.init_ok(name),
    ensures
        m.after_init(name).initted,
        !m.after_init(name).init_ok(other),
{
}

/// Create and destroy cycle freely: destroying the context returns the
/// subsystem to a state from which a fresh context can be created, with
/// any clean name, no matter what was created or shown in between.
pub proof fn lemma_destroy_enables_recreation(m: Model, other: Seq<char>)
    requires
        !chars_have_nul(other),
        !m.refuse_init,
    ensures
        m.after_uninit().init_ok(other),
{
}

/// An update renders nothing: whatever fields it replaces, the log of
/// rendered handles is untouched, so the shown state of every
/// notification is exactly what it was.
pub proof fn lemma_update_does_not_render(
    m: Model,
    handle: u64,
    summary: Seq<char>,
    body: Option<Seq<char>>,
    icon: Option<Seq<char>>,
)
    ensures
        m.after_update(handle, summary, body, icon).render_log == m.render_log,
        forall|h: u64| m.after_update(handle, summary, body, icon).shown(h) == m.shown(h),
{
}

/// Showing is idempotent: after a successful show the same show still
/// goes through, and after showing twice the notification is shown.
pub proof fn lemma_show_is_idempotent(m: Model, handle: u64)
    requires
        m.show_ok(handle),
    ensures
        m.after_show(handle).show_ok(handle),
        m.after_show(handle).after_show(handle).shown(handle),
        m.after_show(handle).shown(handle),
{
    let once = m.after_show(handle);
    assert(once.render_log[once.render_log.len() - 1] == handle);
    let twice = once.after_show(handle);
    assert(twice.render_log[twice.render_log.len() - 1] == handle);
}

/// Once the context is destroyed, the notifications it created are
/// rejected: no handle can be shown, and no update goes through.
pub proof fn lemma_destroyed_context_rejects(m: Model, handle: u64)
    ensures
        !m.after_uninit().show_ok(handle),
        !m.after_uninit().has_note(handle),
{
}

} // verus!
