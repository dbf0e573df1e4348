use vstd::prelude::*;
use crate::context::{
    ControlFlow, Event, PluginContext, PluginRegistrationContext, Scene, SceneContainer,
};
use crate::handle::Handle;
use crate::lifecycle::LifecycleEvent;
use crate::plugin::Plugin;
use crate::uuid::Uuid;

verus! {

/// Identifier of `RecordingPlugin`.
pub const RECORDING_PLUGIN_ID: u128 = 0x5d1e_4b8a_93c2_4f07_a6e1_0c7b_2f94_d318;

/// Identifier of `NullPlugin`.
pub const NULL_PLUGIN_ID: u128 = 0x0e7f_39a4_6b52_4c1d_8d90_f3a2_71c6_5be4;

/// A plugin that does nothing in any lifecycle call.
#[derive(Clone, Copy, Debug, PartialEq, Eq, Structural)]
pub struct NullPlugin {}

impl Plugin for NullPlugin {
    open spec fn persistent_id() -> Uuid {
        Uuid { value: NULL_PLUGIN_ID }
    }

    open spec fn default_value() -> Self {
        NullPlugin {  }
    }

    open spec fn attached_scenes(&self) -> Set<Handle> {
        Set::empty()
    }

    open spec fn registered(before: Self, after: Self) -> bool {
        after == before
    }

    open spec fn initialized(before: Self, override_scene: Handle, after: Self) -> bool {
        after == before
    }

    open spec fn deinitialized(before: Self, after: Self) -> bool {
        after == before
    }

    open spec fn updated(before: Self, dt: u64, after: Self) -> bool {
        after == before
    }

    open spec fn handled_event(before: Self, event: Event, after: Self) -> bool {
        after == before
    }

    fn type_uuid() -> (r: Uuid) {
        Uuid { value: NULL_PLUGIN_ID }
    }

    fn default_instance() -> (r: Self) {
        NullPlugin {  }
    }

    fn id(&self) -> (r: Uuid) {
        Uuid { value: NULL_PLUGIN_ID }
    }

    fn on_register(&mut self, context: PluginRegistrationContext)
        ensures
            (*final(context.serialization_context))@ == (*old(context.serialization_context))@,
    {
    }

    fn on_init(&mut self, override_scene: Handle, context: PluginContext)
        ensures
            *final(context.scenes) == *old(context.scenes),
    {
    }

    fn on_deinit(&mut self, context: PluginContext)
        ensures
            *final(context.scenes) == *old(context.scenes),
    {
    }

    fn update(&mut self, context: &mut PluginContext, control_flow: &mut ControlFlow)
        ensures
            *final(context) == *old(context),
            *final(control_flow) == *old(control_flow),
    {
    }

    fn on_os_event(&mut self, event: &Event, context: PluginContext, control_flow: &mut ControlFlow)
        ensures
            *final(context.scenes) == *old(context.scenes),
            *final(control_flow) == *old(control_flow),
    {
    }
}

/// `n + 1`, saturated at the largest `u64`.
pub open spec fn bump(n: u64) -> u64 {
    if n < u64::MAX {
        (n + 1) as u64
    } else {
        n
    }
}

/// `a + b`, saturated at the largest `u64`.
pub open spec fn sat_add(a: u64, b: u64) -> u64 {
    if a + b > u64::MAX {
        u64::MAX
    } else {
        (a + b) as u64
    }
}

/// A plugin that records the lifecycle calls it receives: how many, how many
/// of them were updates, and the latest. At registration it registers its own
/// identifier; at activation it works on the override scene, or else adds a
/// scene of its own, which it removes at deactivation; it sums the elapsed
/// time of its updates; and it asks the host to exit when the window is asked
/// to close. Counters saturate at the largest `u64`.
#[derive(Clone, Copy, Debug, PartialEq, Eq, Structural)]
pub struct RecordingPlugin {
    /// Number of lifecycle calls received.
    pub calls: u64,
    /// Number of updates received.
    pub updates: u64,
    /// The latest lifecycle call received.
    pub last_call: Option<LifecycleEvent>,
    /// Sum of the elapsed times of the updates received, in microseconds.
    pub elapsed: u64,
    /// The scene the plugin works on since its latest activation, or the none
    /// handle.
    pub own_scene: Handle,
    /// Whether the plugin added that scene itself.
    pub owns_scene: bool,
}

impl Plugin for RecordingPlugin {
    open spec fn persistent_id() -> Uuid {
        Uuid { value: RECORDING_PLUGIN_ID }
    }

    open spec fn default_value() -> Self {
        RecordingPlugin {
            calls: 0,
            updates: 0,
            last_call: None,
            elapsed: 0,
            own_scene: Handle { index: 0, generation: 0 },
            owns_scene: false,
        }
    }

    open spec fn attached_scenes(&self) -> Set<Handle> {
        if self.owns_scene {
            set![self.own_scene]
        } else {
            Set::empty()
        }
    }

    open spec fn registered(before: Self, after: Self) -> bool {
        after == RecordingPlugin {
            calls: bump(before.calls),
            last_call: Some(LifecycleEvent::Register),
            ..before
        }
    }

    open spec fn initialized(before: Self, override_scene: Handle, after: Self) -> bool {
        &&& after.calls == bump(before.calls)
        &&& after.updates == before.updates
        &&& after.last_call == Some(LifecycleEvent::Init)
        &&& after.elapsed == before.elapsed
        &&& if override_scene.spec_is_none() {
            after.owns_scene == !after.own_scene.spec_is_none()
        } else {
            after.own_scene == override_scene && !after.owns_scene
        }
    }

    open spec fn deinitialized(before: Self, after: Self) -> bool {
        after == RecordingPlugin {
            calls: bump(before.calls),
            last_call: Some(LifecycleEvent::Deinit),
            own_scene: Handle { index: 0, generation: 0 },
            owns_scene: false,
            ..before
        }
    }

    open spec fn updated(before: Self, dt: u64, after: Self) -> bool {
        after == RecordingPlugin {
            calls: bump(before.calls),
            updates: bump(before.updates),
            last_call: Some(LifecycleEvent::Update),
            elapsed: sat_add(before.elapsed, dt),
            ..before
        }
    }

    open spec fn handled_event(before: Self, event: Event, after: Self) -> bool {
        after == RecordingPlugin {
            calls: bump(before.calls),
            last_call: Some(LifecycleEvent::OsEvent),
            ..before
        }
    }

    fn type_uuid() -> (r: Uuid) {
        Uuid { value: RECORDING_PLUGIN_ID }
    }

    fn default_instance() -> (r: Self) {
        RecordingPlugin {
            calls: 0,
            updates: 0,
            last_call: None,
            elapsed: 0,
            own_scene: Handle::none(),
            owns_scene: false,
        }
    }

    fn id(&self) -> (r: Uuid) {
        Uuid { value: RECORDING_PLUGIN_ID }
    }

    fn on_register(&mut self, context: PluginRegistrationContext)
        ensures
            (*final(context.serialization_context))@.contains(Uuid { value: RECORDING_PLUGIN_ID }),
    {
        let registry = context.serialization_context;
        registry.register(Uuid { value: RECORDING_PLUGIN_ID });
        self.calls = self.calls.saturating_add(1);
        self.last_call = Some(LifecycleEvent::Register);
    }

    fn on_init(&mut self, override_scene: Handle, context: PluginContext)
        ensures
            override_scene.spec_is_none() && (*old(context.scenes)).spec_len() < u32::MAX ==> ({
                &&& final(self).own_scene == SceneContainer::handle_at(
                    (*old(context.scenes)).spec_len() as int,
                )
                &&& final(self).owns_scene
                &&& (*final(context.scenes)).is_live(final(self).own_scene)
                &&& (*final(context.scenes)).spec_len() == (*old(context.scenes)).spec_len() + 1
            }),
            override_scene.spec_is_none() && (*old(context.scenes)).spec_len() >= u32::MAX ==> ({
                &&& final(self).own_scene.spec_is_none()
                &&& !final(self).owns_scene
                &&& *final(context.scenes) == *old(context.scenes)
            }),
            !override_scene.spec_is_none() ==> *final(context.scenes) == *old(context.scenes),
    {
        let scenes = context.scenes;
        if override_scene.is_none() {
            if scenes.len() < u32::MAX as usize {
                self.own_scene = scenes.add(Scene { name: String::new() });
                self.owns_scene = true;
            } else {
                self.own_scene = Handle::none();
                self.owns_scene = false;
            }
        } else {
            self.own_scene = override_scene;
            self.owns_scene = false;
        }
        self.calls = self.calls.saturating_add(1);
        self.last_call = Some(LifecycleEvent::Init);
    }

    fn on_deinit(&mut self, context: PluginContext)
        ensures
            !old(self).owns_scene ==> *final(context.scenes) == *old(context.scenes),
    {
        let scenes = context.scenes;
        if self.owns_scene {
            scenes.remove(self.own_scene);
        }
        self.own_scene = Handle::none();
        self.owns_scene = false;
        self.calls = self.calls.saturating_add(1);
        self.last_call = Some(LifecycleEvent::Deinit);
    }

    fn update(&mut self, context: &mut PluginContext, control_flow: &mut ControlFlow)
        ensures
            *final(control_flow) == *old(control_flow),
            *final(context) == *old(context),
    {
        self.elapsed = self.elapsed.saturating_add(context.dt);
        self.updates = self.updates.saturating_add(1);
        self.calls = self.calls.saturating_add(1);
        self.last_call = Some(LifecycleEvent::Update);
    }

    fn on_os_event(&mut self, event: &Event, context: PluginContext, control_flow: &mut ControlFlow)
        ensures
            *final(context.scenes) == *old(context.scenes),
            *event == Event::CloseRequested ==> *final(control_flow) == ControlFlow::Exit,
            *event != Event::CloseRequested ==> *final(control_flow) == *old(control_flow),
    {
        if *event == Event::CloseRequested {
            *control_flow = ControlFlow::Exit;
        }
        self.calls = self.calls.saturating_add(1);
        self.last_call = Some(LifecycleEvent::OsEvent);
    }
}

} // verus!
