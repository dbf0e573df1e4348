use vstd::prelude::*;
use crate::context::{ControlFlow, Event, PluginContext, PluginRegistrationContext};
use crate::handle::Handle;
use crate::lifecycle::{
    after, inside_init, lemma_deinit_matches_init, lemma_init_after_register,
    lemma_no_calls_after_deinit, lemma_register_once_and_first, permitted, run, step, valid_trace,
    LifecycleEvent, LifecycleState,
};
use crate::plugin::Plugin;
use crate::uuid::Uuid;

verus! {

/// The host's slot for one plugin instance: it makes a lifecycle call only
/// when the plugin's state permits it, and keeps the calls made so far.
pub struct PluginEntry<P: Plugin> {
    plugin: P,
    state: LifecycleState,
    history: Ghost<Seq<LifecycleEvent>>,
}

impl<P: Plugin> PluginEntry<P> {
    /// The plugin instance.
    pub closed spec fn spec_plugin(&self) -> P {
        self.plugin
    }

    /// The lifecycle state of the instance.
    pub closed spec fn spec_state(&self) -> LifecycleState {
        self.state
    }

    /// The lifecycle calls made on the instance, in order.
    pub closed spec fn history(&self) -> Seq<LifecycleEvent> {
        self.history@
    }

    /// Every call was permitted when it was made, and the state is the one
    /// those calls reach.
    pub open spec fn wf(&self) -> bool {
        valid_trace(self.history()) && run(self.history()) == self.spec_state()
    }

    /// A slot for a plugin that has received no call yet.
    pub fn new(plugin: P) -> (r: Self)
        ensures
            r.wf(),
            r.spec_plugin() == plugin,
            r.spec_state() == LifecycleState::Unregistered,
            r.history() == Seq::<LifecycleEvent>::empty(),
    {
        PluginEntry { plugin, state: LifecycleState::Unregistered, history: Ghost(Seq::empty()) }
    }

    /// The plugin instance.
    pub fn plugin(&self) -> (r: &P)
        ensures
            *r == self.spec_plugin(),
    {
        &self.plugin
    }

    /// The lifecycle state of the instance.
    pub fn state(&self) -> (r: LifecycleState)
        ensures
            r == self.spec_state(),
    {
        self.state
    }

    /// The persistent identifier of the plugin, the same for the whole life
    /// of the slot.
    pub fn id(&self) -> (r: Uuid)
        ensures
            r == P::persistent_id(),
    {
        self.plugin.id()
    }

    /// Records call `e`, which the current state permits.
    fn advance(&mut self, e: LifecycleEvent)
        requires
            old(self).wf(),
            permitted(old(self).spec_state(), e),
        ensures
            final(self).wf(),
            final(self).spec_plugin() == old(self).spec_plugin(),
            final(self).spec_state() == after(old(self).spec_state(), e),
            final(self).history() == old(self).history().push(e),
    {
        let ghost t = self.history@.push(e);
        proof {
            assert(t.drop_last() =~= self.history@);
        }
        match step(self.state, e) {
            Some(s) => {
                self.state = s;
            },
            None => {},
        }
        self.history = Ghost(t);
    }

    /// Calls `on_register` if the plugin was never registered; returns
    /// whether it did. The plugin then changes as `P::registered` says;
    /// otherwise neither the slot nor the registry changes.
    pub fn on_register(&mut self, context: PluginRegistrationContext) -> (r: bool)
        requires
            old(self).wf(),
        ensures
            final(self).wf(),
            r == permitted(old(self).spec_state(), LifecycleEvent::Register),
            r ==> final(self).history() == old(self).history().push(LifecycleEvent::Register),
            r ==> final(self).spec_state() == LifecycleState::Registered,
            r ==> P::registered(old(self).spec_plugin(), final(self).spec_plugin()),
            !r ==> *final(self) == *old(self),
            !r ==> (*final(context.serialization_context))@ == (*old(context.serialization_context))@,
    {
        if self.state == LifecycleState::Unregistered {
            self.plugin.on_register(context);
            self.advance(LifecycleEvent::Register);
            true
        } else {
            false
        }
    }

    /// Calls `on_init` if the plugin is registered and not active; returns
    /// whether it did. The plugin then changes as `P::initialized` says;
    /// otherwise neither the slot nor the scenes change.
    pub fn on_init(&mut self, override_scene: Handle, context: PluginContext) -> (r: bool)
        requires
            old(self).wf(),
        ensures
            final(self).wf(),
            r == permitted(old(self).spec_state(), LifecycleEvent::Init),
            r ==> final(self).history() == old(self).history().push(LifecycleEvent::Init),
            r ==> final(self).spec_state() == LifecycleState::Active,
            r ==> P::initialized(old(self).spec_plugin(), override_scene, final(self).spec_plugin()),
            !r ==> *final(self) == *old(self),
            !r ==> *final(context.scenes) == *old(context.scenes),
    {
        if self.state == LifecycleState::Registered || self.state == LifecycleState::Inactive {
            self.plugin.on_init(override_scene, context);
            self.advance(LifecycleEvent::Init);
            true
        } else {
            false
        }
    }

    /// Calls `update` if the plugin is active; returns whether it did. The
    /// plugin then changes as `P::updated` says, with the context's elapsed
    /// time; otherwise neither the slot, the context nor the directive
    /// changes.
    pub fn update(&mut self, context: &mut PluginContext, control_flow: &mut ControlFlow) -> (r:
        bool)
        requires
            old(self).wf(),
        ensures
            final(self).wf(),
            r == permitted(old(self).spec_state(), LifecycleEvent::Update),
            r ==> final(self).history() == old(self).history().push(LifecycleEvent::Update),
            final(self).spec_state() == old(self).spec_state(),
            !r ==> *final(self) == *old(self),
            r ==> P::updated(old(self).spec_plugin(), old(context).dt, final(self).spec_plugin()),
            !r ==> *final(control_flow) == *old(control_flow),
            !r ==> *final(context) == *old(context),
    {
        if self.state == LifecycleState::Active {
            self.plugin.update(context, control_flow);
            self.advance(LifecycleEvent::Update);
            true
        } else {
            false
        }
    }

    /// Calls `on_os_event` if the plugin is active; returns whether it did.
    /// The plugin then changes as `P::handled_event` says; otherwise neither
    /// the slot, the scenes nor the directive changes.
    pub fn on_os_event(
        &mut self,
        event: &Event,
        context: PluginContext,
        control_flow: &mut ControlFlow,
    ) -> (r: bool)
        requires
            old(self).wf(),
        ensures
            final(self).wf(),
            r == permitted(old(self).spec_state(), LifecycleEvent::OsEvent),
            r ==> final(self).history() == old(self).history().push(LifecycleEvent::OsEvent),
            final(self).spec_state() == old(self).spec_state(),
            r ==> P::handled_event(old(self).spec_plugin(), *event, final(self).spec_plugin()),
            !r ==> *final(self) == *old(self),
            !r ==> *final(control_flow) == *old(control_flow),
            !r ==> *final(context.scenes) == *old(context.scenes),
    {
        if self.state == LifecycleState::Active {
            self.plugin.on_os_event(event, context, control_flow);
            self.advance(LifecycleEvent::OsEvent);
            true
        } else {
            false
        }
    }

    /// Calls `on_deinit` if the plugin is active; returns whether it did.
    /// The plugin then changes as `P::deinitialized` says, and none of the
    /// scenes it had attached is left in the container; otherwise neither
    /// the slot nor the scenes change.
    pub fn on_deinit(&mut self, context: PluginContext) -> (r: bool)
        requires
            old(self).wf(),
        ensures
            final(self).wf(),
            r == permitted(old(self).spec_state(), LifecycleEvent::Deinit),
            r ==> final(self).history() == old(self).history().push(LifecycleEvent::Deinit),
            r ==> final(self).spec_state() == LifecycleState::Inactive,
            r ==> P::deinitialized(old(self).spec_plugin(), final(self).spec_plugin()),
            r ==> forall|h: Handle|
                old(self).spec_plugin().attached_scenes().contains(h) ==> !(*final(context.scenes)).is_live(h),
            !r ==> *final(self) == *old(self),
            !r ==> *final(context.scenes) == *old(context.scenes),
    {
        if self.state == LifecycleState::Active {
            self.plugin.on_deinit(context);
            self.advance(LifecycleEvent::Deinit);
            true
        } else {
            false
        }
    }

    /// Replaces the plugin by a fresh instance in its default state. The
    /// lifecycle state and the calls made so far stay.
    pub fn reset(&mut self)
        requires
            old(self).wf(),
        ensures
            final(self).wf(),
            final(self).spec_plugin() == P::default_value(),
            final(self).spec_state() == old(self).spec_state(),
            final(self).history() == old(self).history(),
    {
        self.plugin = P::default_instance();
    }
}

/// The calls a host makes through a slot keep the lifecycle order: `Register`
/// at most once and before everything else, `Init` after it, and `Update`,
/// `OsEvent` and `Deinit` only after an `Init` with no `Deinit` since.
pub proof fn lemma_entry_keeps_lifecycle_order<P: Plugin>(e: &PluginEntry<P>, i: int)
    requires
        e.wf(),
        0 <= i < e.history().len(),
    ensures
        e.history()[0] == LifecycleEvent::Register,
        e.history()[i] == LifecycleEvent::Register ==> i == 0,
        e.history()[i] != LifecycleEvent::Register && e.history()[i] != LifecycleEvent::Init
            ==> inside_init(e.history(), i),
{
    let t = e.history();
    lemma_register_once_and_first(t, i);
    if t[i] == LifecycleEvent::Init {
        lemma_init_after_register(t, i);
    } else if t[i] == LifecycleEvent::Deinit {
        lemma_deinit_matches_init(t, i);
    } else if t[i] == LifecycleEvent::Update || t[i] == LifecycleEvent::OsEvent {
        lemma_no_calls_after_deinit(t, i);
    }
}

} // verus!
