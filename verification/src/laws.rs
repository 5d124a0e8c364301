//! Bootstrap laws, each proved once for every configuration.

use vstd::prelude::*;

use crate::bootstrap::{
    all_succeed, boot_trace, boot_verdict, init_events, invoked_count,
    lemma_invoked_count_all_ok, lemma_invoked_count_bounds, lemma_invoked_count_le_err,
    with_setup_model, BootEvent, ConfigModel,
};
use crate::error::FatalStartupError;
use crate::plugin::SetupOutcome;

verus! {

/// The runner invokes initialization routines in exactly registration
/// order: the first `invoked_count` trace entries are the `PluginInit`
/// events of the plugins at those positions, and no other trace entry is a
/// `PluginInit` event.
pub proof fn lemma_inits_follow_registration_order(c: ConfigModel)
    ensures
        invoked_count(c.plugins) <= boot_trace(c).len(),
        forall|i: int| 0 <= i < invoked_count(c.plugins) ==> boot_trace(c)[i]
            == (BootEvent::PluginInit { plugin: c.plugins[i].name }),
        forall|i: int|
            invoked_count(c.plugins) <= i < boot_trace(c).len() ==> !(boot_trace(c)[i]
                is PluginInit),
{
    lemma_invoked_count_bounds(c.plugins);
    let t = boot_trace(c);
    let k = invoked_count(c.plugins) as int;
    assert forall|i: int| 0 <= i < k implies t[i] == (BootEvent::PluginInit {
        plugin: c.plugins[i].name,
    }) by {
        assert(t[i] == init_events(c.plugins)[i]);
    }
    assert forall|i: int| k <= i < t.len() implies !(t[i] is PluginInit) by {
        assert(all_succeed(c.plugins));
    }
}

/// Fail-fast: when the plugin at position `i` fails to initialize, no
/// routine past position `i` is invoked — the trace is the invoked prefix
/// alone, with no setup invocation and no handoff — and the bootstrap ends
/// in a `PluginInit` error.
pub proof fn lemma_fail_fast(c: ConfigModel, i: int)
    requires
        0 <= i < c.plugins.len(),
        c.plugins[i].init is Err,
    ensures
        invoked_count(c.plugins) <= i + 1,
        boot_trace(c) == init_events(c.plugins),
        boot_trace(c).len() == invoked_count(c.plugins),
        boot_verdict(c) is Err,
        boot_verdict(c)->Err_0 is PluginInit,
{
    assert(!all_succeed(c.plugins));
    lemma_invoked_count_le_err(c.plugins, i);
    lemma_invoked_count_bounds(c.plugins);
}

/// With every plugin succeeding and no setup callback registered, the
/// bootstrap reaches `Ready` without invoking any callback: the verdict is
/// success, no `SetupInvoked` event appears, and the trace closes with the
/// event-loop handoff.
pub proof fn lemma_no_setup_reaches_ready(c: ConfigModel)
    requires
        all_succeed(c.plugins),
        c.setup is None,
    ensures
        boot_verdict(c) == Ok::<(), FatalStartupError>(()),
        boot_trace(c) == init_events(c.plugins).push(BootEvent::Handoff),
        forall|i: int| 0 <= i < boot_trace(c).len() ==> !(boot_trace(c)[i] is SetupInvoked),
        boot_trace(c).last() == BootEvent::Handoff,
{
    lemma_invoked_count_all_ok(c.plugins);
    let t = boot_trace(c);
    let ie = init_events(c.plugins);
    assert forall|i: int| 0 <= i < t.len() implies !(t[i] is SetupInvoked) by {
        if i < ie.len() {
            assert(t[i] == ie[i]);
        } else {
            assert(t[i] == BootEvent::Handoff);
        }
    }
}

/// With every plugin succeeding and a failing setup callback, the runner
/// reports a `Setup` error and does not reach `Ready`: no handoff event
/// appears in the trace.
pub proof fn lemma_setup_failure_blocks_ready(c: ConfigModel, message: String)
    requires
        all_succeed(c.plugins),
        c.setup == Some(Err::<(), String>(message)),
    ensures
        boot_verdict(c) == Err::<(), FatalStartupError>(
            (FatalStartupError::Setup { message }),
        ),
        forall|i: int| 0 <= i < boot_trace(c).len() ==> boot_trace(c)[i] != BootEvent::Handoff,
{
    lemma_invoked_count_all_ok(c.plugins);
    let t = boot_trace(c);
    let ie = init_events(c.plugins);
    assert forall|i: int| 0 <= i < t.len() implies t[i] != BootEvent::Handoff by {
        if i < ie.len() {
            assert(t[i] == ie[i]);
            assert(t[i] is PluginInit);
        } else {
            assert(t[i] == BootEvent::SetupInvoked);
        }
    }
}

/// On success the event-loop handoff happens exactly once, as the very last
/// step of the bootstrap.
pub proof fn lemma_handoff_exactly_once_on_success(c: ConfigModel)
    requires
        boot_verdict(c) is Ok,
    ensures
        boot_trace(c).len() > 0,
        boot_trace(c).last() == BootEvent::Handoff,
        forall|i: int| 0 <= i < boot_trace(c).len() - 1 ==> boot_trace(c)[i] != BootEvent::Handoff,
{
    assert(all_succeed(c.plugins));
    lemma_invoked_count_all_ok(c.plugins);
    let t = boot_trace(c);
    let ie = init_events(c.plugins);
    assert forall|i: int| 0 <= i < t.len() - 1 implies t[i] != BootEvent::Handoff by {
        if i < ie.len() {
            assert(t[i] == ie[i]);
            assert(t[i] is PluginInit);
        } else {
            assert(t[i] == BootEvent::SetupInvoked);
        }
    }
}

/// Registering a setup callback twice keeps only the second registration:
/// the configuration — and with it the runner's whole behavior — is the
/// same as if only the second callback had ever been registered.
pub proof fn lemma_with_setup_last_write_wins(
    c: ConfigModel,
    first: SetupOutcome,
    second: SetupOutcome,
)
    ensures
        with_setup_model(with_setup_model(c, first), second) == with_setup_model(c, second),
        boot_trace(with_setup_model(with_setup_model(c, first), second)) == boot_trace(
            with_setup_model(c, second),
        ),
        boot_verdict(with_setup_model(with_setup_model(c, first), second)) == boot_verdict(
            with_setup_model(c, second),
        ),
{
}

} // verus!
