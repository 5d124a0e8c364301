//! The builder and the runner: assembling an application configuration and
//! driving it through the linear bootstrap state machine
//! (`Uninitialized` -> `PluginsReady` -> `Ready`, or `Failed`).

use vstd::prelude::*;

use crate::error::FatalStartupError;
use crate::plugin::{PluginDescriptor, SetupOutcome};

verus! {

/// One step the runner took, in the order taken. `PluginInit` records that
/// the named plugin's initialization routine was invoked (whatever its
/// outcome), `SetupInvoked` that the setup callback ran, and `Handoff` that
/// control passed to the platform event loop.
#[derive(Clone, Debug, PartialEq, Eq)]
pub enum BootEvent {
    PluginInit { plugin: String },
    SetupInvoked,
    Handoff,
}

/// Mathematical content of a builder or of a frozen application
/// configuration: the registered plugins in registration order, and the
/// outcome of the setup callback where one is registered.
#[verifier::ext_equal]
pub ghost struct ConfigModel {
    pub plugins: Seq<PluginDescriptor>,
    pub setup: Option<SetupOutcome>,
}

/// `with_setup` on the model: the plugins are untouched and the callback is
/// replaced outright.
pub open spec fn with_setup_model(c: ConfigModel, setup: SetupOutcome) -> ConfigModel {
    ConfigModel { setup: Some(setup), ..c }
}

/// Accumulates plugin descriptors and an optional setup callback, and
/// freezes them into an `AppConfig`. Pure accumulation: duplicate names and
/// repeated setup registration are deliberately not rejected here.
pub struct Builder {
    plugins: Vec<PluginDescriptor>,
    setup: Option<SetupOutcome>,
}

impl View for Builder {
    type V = ConfigModel;

    closed spec fn view(&self) -> ConfigModel {
        ConfigModel { plugins: self.plugins@, setup: self.setup }
    }
}

/// Immutable snapshot produced by `Builder::build`, consumed exactly once:
/// `run` takes it by value, so a configuration cannot be rerun.
pub struct AppConfig {
    plugins: Vec<PluginDescriptor>,
    setup: Option<SetupOutcome>,
}

impl View for AppConfig {
    type V = ConfigModel;

    closed spec fn view(&self) -> ConfigModel {
        ConfigModel { plugins: self.plugins@, setup: self.setup }
    }
}

impl Builder {
    /// The empty builder: no plugins, no setup callback.
    pub fn new() -> (b: Builder)
        ensures
            b@.plugins == Seq::<PluginDescriptor>::empty(),
            b@.setup is None,
    {
        Builder { plugins: Vec::new(), setup: None }
    }

    /// Appends `plugin` at the end of the registration order.
    pub fn with_plugin(self, plugin: PluginDescriptor) -> (b: Builder)
        ensures
            b@.plugins == self@.plugins.push(plugin),
            b@.setup == self@.setup,
    {
        let mut b = self;
        b.plugins.push(plugin);
        b
    }

    /// Registers the setup callback's outcome. Registering again replaces
    /// the earlier registration: last write wins.
    pub fn with_setup(self, setup: SetupOutcome) -> (b: Builder)
        ensures
            b@ == with_setup_model(self@, setup),
    {
        let mut b = self;
        b.setup = Some(setup);
        b
    }

    /// Freezes the accumulated state. Always succeeds; all validation is
    /// deferred to the runner and to the plugins themselves.
    pub fn build(self) -> (c: AppConfig)
        ensures
            c@ == self@,
    {
        AppConfig { plugins: self.plugins, setup: self.setup }
    }
}

impl Default for Builder {
    /// Same as `Builder::new`.
    fn default() -> (b: Builder)
        ensures
            b@.plugins == Seq::<PluginDescriptor>::empty(),
            b@.setup is None,
    {
        Builder::new()
    }
}

/// Opaque handle to the live application instance. The runner owns it
/// while the setup callback runs and, on success, moves it out to the
/// caller, which hands it to the platform event loop: a one-way transfer.
pub struct RuntimeContext {
    capabilities: Vec<String>,
}

impl View for RuntimeContext {
    type V = Seq<String>;

    closed spec fn view(&self) -> Seq<String> {
        self.capabilities@
    }
}

impl RuntimeContext {
    /// Names of the capabilities that initialized, in registration order.
    pub fn capabilities(&self) -> (r: &Vec<String>)
        ensures
            r@ == self@,
    {
        &self.capabilities
    }
}

/// What the runner did and how it ended: the full trace of lifecycle steps
/// in the order taken, and either the runtime context ready for the
/// event-loop handoff or the fatal startup error.
pub struct BootReport {
    pub trace: Vec<BootEvent>,
    pub outcome: Result<RuntimeContext, FatalStartupError>,
}

/// Whether every plugin's initialization routine succeeds.
pub open spec fn all_succeed(plugins: Seq<PluginDescriptor>) -> bool {
    forall|i: int| 0 <= i < plugins.len() ==> plugins[i].init is Ok
}

/// How many initialization routines the runner invokes: every routine up
/// to and including the first failing one, or all of them when none fails.
pub open spec fn invoked_count(plugins: Seq<PluginDescriptor>) -> nat
    decreases plugins.len(),
{
    if plugins.len() == 0 {
        0
    } else if plugins[0].init is Err {
        1
    } else {
        1 + invoked_count(plugins.drop_first())
    }
}

/// The per-plugin part of the trace: one `PluginInit` event per invoked
/// routine, in registration order.
pub open spec fn init_events(plugins: Seq<PluginDescriptor>) -> Seq<BootEvent> {
    Seq::new(invoked_count(plugins), |i: int| BootEvent::PluginInit { plugin: plugins[i].name })
}

/// The plugins' names, in registration order.
pub open spec fn plugin_names(plugins: Seq<PluginDescriptor>) -> Seq<String> {
    plugins.map_values(|p: PluginDescriptor| p.name)
}

/// The trace the runner leaves behind for a given configuration: the
/// invoked initialization routines in registration order, then — when all
/// of them succeed — the setup invocation where a callback is registered,
/// then the event-loop handoff unless the callback failed.
pub open spec fn boot_trace(c: ConfigModel) -> Seq<BootEvent> {
    if all_succeed(c.plugins) {
        match c.setup {
            None => init_events(c.plugins).push(BootEvent::Handoff),
            Some(Ok(())) => init_events(c.plugins).push(BootEvent::SetupInvoked).push(
                BootEvent::Handoff,
            ),
            Some(Err(_)) => init_events(c.plugins).push(BootEvent::SetupInvoked),
        }
    } else {
        init_events(c.plugins)
    }
}

/// How the bootstrap ends: `Ok` exactly when every plugin initializes and
/// the setup callback (where registered) succeeds; otherwise the fatal
/// error carrying the failing plugin's name and message, or the setup
/// callback's message.
pub open spec fn boot_verdict(c: ConfigModel) -> Result<(), FatalStartupError> {
    if !all_succeed(c.plugins) {
        let k = invoked_count(c.plugins) as int;
        Err(FatalStartupError::PluginInit {
            plugin: c.plugins[k - 1].name,
            message: c.plugins[k - 1].init->Err_0,
        })
    } else {
        match c.setup {
            Some(Err(m)) => Err(FatalStartupError::Setup { message: m }),
            _ => Ok(()),
        }
    }
}

/// `invoked_count` never exceeds the number of plugins, and at least one
/// routine is invoked as soon as any plugin is registered.
pub proof fn lemma_invoked_count_bounds(plugins: Seq<PluginDescriptor>)
    ensures
        invoked_count(plugins) <= plugins.len(),
        plugins.len() > 0 ==> invoked_count(plugins) >= 1,
    decreases plugins.len(),
{
    if plugins.len() == 0 {
    } else if plugins[0].init is Err {
    } else {
        lemma_invoked_count_bounds(plugins.drop_first());
    }
}

/// When every routine succeeds, every routine is invoked.
pub proof fn lemma_invoked_count_all_ok(plugins: Seq<PluginDescriptor>)
    requires
        all_succeed(plugins),
    ensures
        invoked_count(plugins) == plugins.len(),
    decreases plugins.len(),
{
    if plugins.len() == 0 {
    } else {
        assert(plugins[0].init is Ok);
        assert forall|i: int| 0 <= i < plugins.drop_first().len() implies plugins.drop_first()[i].init
            is Ok by {
            assert(plugins.drop_first()[i] == plugins[i + 1]);
        }
        lemma_invoked_count_all_ok(plugins.drop_first());
    }
}

/// When position `i` holds the first failing routine, the invoked routines
/// are exactly those at positions `0 ..= i`.
pub proof fn lemma_invoked_count_first_err(plugins: Seq<PluginDescriptor>, i: int)
    requires
        0 <= i < plugins.len(),
        plugins[i].init is Err,
        forall|j: int| 0 <= j < i ==> plugins[j].init is Ok,
    ensures
        invoked_count(plugins) == i + 1,
    decreases i,
{
    if i == 0 {
    } else {
        assert(plugins[0].init is Ok);
        assert(plugins.drop_first()[i - 1] == plugins[i]);
        assert forall|j: int| 0 <= j < i - 1 implies plugins.drop_first()[j].init is Ok by {
            assert(plugins.drop_first()[j] == plugins[j + 1]);
        }
        lemma_invoked_count_first_err(plugins.drop_first(), i - 1);
    }
}

/// A failing routine anywhere caps the invoked prefix: nothing past it is
/// invoked.
pub proof fn lemma_invoked_count_le_err(plugins: Seq<PluginDescriptor>, i: int)
    requires
        0 <= i < plugins.len(),
        plugins[i].init is Err,
    ensures
        invoked_count(plugins) <= i + 1,
    decreases i,
{
    if plugins[0].init is Err {
    } else {
        assert(plugins.drop_first()[i - 1] == plugins[i]);
        lemma_invoked_count_le_err(plugins.drop_first(), i - 1);
    }
}

/// Drives a configuration through the bootstrap state machine: invokes each
/// plugin's initialization routine in registration order, stopping at the
/// first failure; then the setup callback where one is registered; then
/// hands the runtime context back for the event-loop handoff. The report
/// holds the trace of every step taken and the verdict.
#[verifier::loop_isolation(false)]
pub fn run(config: AppConfig) -> (r: BootReport)
    ensures
        r.trace@ == boot_trace(config@),
        r.outcome is Ok <==> boot_verdict(config@) is Ok,
        r.outcome matches Err(e) ==> boot_verdict(config@) == Err::<(), FatalStartupError>(e),
        r.outcome matches Ok(context) ==> context@ == plugin_names(config@.plugins),
{
    let ghost cm = config@;
    let AppConfig { plugins, setup } = config;
    let mut trace: Vec<BootEvent> = Vec::new();
    let mut capabilities: Vec<String> = Vec::new();
    let n: usize = plugins.len();
    let mut i: usize = 0;
    while i < n
        invariant
            n == plugins@.len(),
            i <= n,
            cm.plugins == plugins@,
            cm.setup == setup,
            forall|j: int| 0 <= j < i ==> plugins@[j].init is Ok,
            trace@.len() == i as int,
            forall|j: int| 0 <= j < i ==> trace@[j] == (BootEvent::PluginInit {
                plugin: plugins@[j].name,
            }),
            capabilities@.len() == i as int,
            forall|j: int| 0 <= j < i ==> capabilities@[j] == plugins@[j].name,
        decreases n - i,
    {
        let p = &plugins[i];
        trace.push(BootEvent::PluginInit { plugin: p.name.clone() });
        match &p.init {
            Ok(_) => {
                capabilities.push(p.name.clone());
            },
            Err(m) => {
                let failure = FatalStartupError::PluginInit {
                    plugin: p.name.clone(),
                    message: m.clone(),
                };
                proof {
                    assert(plugins@[i as int].init is Err);
                    assert(!all_succeed(plugins@));
                    lemma_invoked_count_first_err(plugins@, i as int);
                    assert(trace@ =~= init_events(plugins@));
                }
                return BootReport { trace, outcome: Err(failure) };
            },
        }
        i += 1;
    }
    proof {
        assert(all_succeed(plugins@));
        lemma_invoked_count_all_ok(plugins@);
        assert(trace@ =~= init_events(plugins@));
        assert(capabilities@ =~= plugin_names(plugins@));
    }
    let context = RuntimeContext { capabilities };
    match setup {
        None => {
            trace.push(BootEvent::Handoff);
            BootReport { trace, outcome: Ok(context) }
        },
        Some(Ok(_)) => {
            trace.push(BootEvent::SetupInvoked);
            trace.push(BootEvent::Handoff);
            BootReport { trace, outcome: Ok(context) }
        },
        Some(Err(message)) => {
            trace.push(BootEvent::SetupInvoked);
            BootReport { trace, outcome: Err(FatalStartupError::Setup { message }) }
        },
    }
}

} // verus!
