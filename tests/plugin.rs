use plugin_lifecycle::context::{
    ControlFlow, Event, PluginContext, PluginRegistrationContext, Scene, SceneContainer,
    SerializationContext,
};
use plugin_lifecycle::handle::Handle;
use plugin_lifecycle::host::PluginEntry;
use plugin_lifecycle::lifecycle::{step, LifecycleEvent, LifecycleState};
use plugin_lifecycle::plugin::{is_instance, Plugin};
use plugin_lifecycle::plugins::{NullPlugin, RecordingPlugin, NULL_PLUGIN_ID, RECORDING_PLUGIN_ID};
use plugin_lifecycle::uuid::Uuid;

fn fresh_recording() -> RecordingPlugin {
    RecordingPlugin::default_instance()
}

#[test]
fn id_is_stable_across_calls_and_instances() {
    let a = fresh_recording();
    let mut b = fresh_recording();
    let first = a.id();
    assert_eq!(first, a.id());
    assert_eq!(first, b.id());
    let mut registry = SerializationContext::new();
    b.on_register(PluginRegistrationContext { serialization_context: &mut registry });
    assert_eq!(first, b.id());
    assert_eq!(first, RecordingPlugin::type_uuid());
    assert_eq!(first.as_u128(), RECORDING_PLUGIN_ID);
}

#[test]
fn type_query_matches_only_own_type() {
    let a = NullPlugin {};
    let b = fresh_recording();
    assert!(is_instance::<NullPlugin, NullPlugin>(&a));
    assert!(!is_instance::<NullPlugin, RecordingPlugin>(&a));
    assert!(is_instance::<RecordingPlugin, RecordingPlugin>(&b));
    assert!(!is_instance::<RecordingPlugin, NullPlugin>(&b));
}

#[test]
fn default_instance_is_own_type_and_fresh() {
    let mut used = fresh_recording();
    let mut registry = SerializationContext::new();
    used.on_register(PluginRegistrationContext { serialization_context: &mut registry });
    let fresh = RecordingPlugin::default_instance();
    let direct = RecordingPlugin::default_instance();
    assert!(is_instance::<RecordingPlugin, RecordingPlugin>(&fresh));
    assert_eq!(fresh, direct);
    assert_eq!(fresh.calls, 0);
    assert_eq!(fresh.last_call, None);
    assert!(fresh.own_scene.is_none());
    assert_ne!(used, fresh);
    assert_eq!(NullPlugin::default_instance(), NullPlugin {});
}

#[test]
fn two_plugin_types_have_distinct_ids_and_query_fails() {
    let a = NullPlugin::default_instance();
    let b = fresh_recording();
    assert_ne!(a.id(), b.id());
    assert_eq!(a.id(), Uuid::from_u128(NULL_PLUGIN_ID));
    assert!(!is_instance::<NullPlugin, RecordingPlugin>(&a));
}

#[test]
fn register_init_three_updates_then_deinit() {
    let mut registry = SerializationContext::new();
    let mut scenes = SceneContainer::new();
    let mut entry = PluginEntry::new(fresh_recording());

    assert!(entry.on_register(PluginRegistrationContext { serialization_context: &mut registry }));
    assert!(registry.is_registered(Uuid::from_u128(RECORDING_PLUGIN_ID)));
    assert_eq!(registry.len(), 1);
    assert_eq!(scenes.len(), 0);

    let ctx = PluginContext { scenes: &mut scenes, dt: 0, serialization_context: &registry };
    assert!(entry.on_init(Handle::none(), ctx));
    assert_eq!(scenes.len(), 1);
    assert_eq!(entry.plugin().own_scene, Handle::new(0, 1));
    assert!(entry.plugin().owns_scene);
    assert_eq!(entry.state(), LifecycleState::Active);

    let mut flow = ControlFlow::Poll;
    for _ in 0..3 {
        let mut ctx = PluginContext { scenes: &mut scenes, dt: 16_667, serialization_context: &registry };
        assert!(entry.update(&mut ctx, &mut flow));
    }
    assert_eq!(flow, ControlFlow::Poll);
    assert_eq!(entry.plugin().elapsed, 50_001);
    assert_eq!(entry.plugin().updates, 3);

    let ctx = PluginContext { scenes: &mut scenes, dt: 0, serialization_context: &registry };
    assert!(entry.on_deinit(ctx));
    assert_eq!(entry.state(), LifecycleState::Inactive);
    assert!(entry.plugin().own_scene.is_none());
    assert!(!scenes.contains(Handle::new(0, 1)));

    let mut ctx = PluginContext { scenes: &mut scenes, dt: 5, serialization_context: &registry };
    assert!(!entry.update(&mut ctx, &mut flow));
    let ctx = PluginContext { scenes: &mut scenes, dt: 0, serialization_context: &registry };
    assert!(!entry.on_os_event(&Event::CloseRequested, ctx, &mut flow));
    assert_eq!(flow, ControlFlow::Poll);
    let ctx = PluginContext { scenes: &mut scenes, dt: 0, serialization_context: &registry };
    assert!(!entry.on_deinit(ctx));

    assert_eq!(entry.plugin().calls, 6);
    assert_eq!(entry.plugin().updates, 3);
    assert_eq!(entry.plugin().last_call, Some(LifecycleEvent::Deinit));
    assert_eq!(registry.len(), 1);
}

#[test]
fn register_happens_once_and_before_init() {
    let mut registry = SerializationContext::new();
    let mut scenes = SceneContainer::new();
    let mut entry = PluginEntry::new(fresh_recording());
    let ctx = PluginContext { scenes: &mut scenes, dt: 0, serialization_context: &registry };
    assert!(!entry.on_init(Handle::none(), ctx));
    assert_eq!(scenes.len(), 0);
    assert_eq!(entry.state(), LifecycleState::Unregistered);
    assert!(entry.on_register(PluginRegistrationContext { serialization_context: &mut registry }));
    assert!(!entry.on_register(PluginRegistrationContext { serialization_context: &mut registry }));
    assert_eq!(entry.plugin().calls, 1);
    assert_eq!(entry.plugin().last_call, Some(LifecycleEvent::Register));
}

#[test]
fn deinit_without_init_is_refused() {
    let mut registry = SerializationContext::new();
    let mut scenes = SceneContainer::new();
    let mut entry = PluginEntry::new(fresh_recording());
    assert!(entry.on_register(PluginRegistrationContext { serialization_context: &mut registry }));
    let ctx = PluginContext { scenes: &mut scenes, dt: 0, serialization_context: &registry };
    assert!(!entry.on_deinit(ctx));
    assert_eq!(entry.state(), LifecycleState::Registered);
    assert_eq!(entry.plugin().calls, 1);
}

#[test]
fn reactivation_after_deinit_resumes_updates() {
    let mut registry = SerializationContext::new();
    let mut scenes = SceneContainer::new();
    let mut entry = PluginEntry::new(fresh_recording());
    assert!(entry.on_register(PluginRegistrationContext { serialization_context: &mut registry }));
    let ctx = PluginContext { scenes: &mut scenes, dt: 0, serialization_context: &registry };
    assert!(entry.on_init(Handle::none(), ctx));
    let ctx = PluginContext { scenes: &mut scenes, dt: 0, serialization_context: &registry };
    assert!(entry.on_deinit(ctx));
    let mut flow = ControlFlow::Wait;
    let mut ctx = PluginContext { scenes: &mut scenes, dt: 10, serialization_context: &registry };
    assert!(!entry.update(&mut ctx, &mut flow));
    let override_scene = scenes.add(Scene { name: String::from("edited") });
    let ctx = PluginContext { scenes: &mut scenes, dt: 0, serialization_context: &registry };
    assert!(entry.on_init(override_scene, ctx));
    assert_eq!(entry.plugin().own_scene, override_scene);
    assert!(!entry.plugin().owns_scene);
    assert_eq!(scenes.len(), 2);
    let mut ctx = PluginContext { scenes: &mut scenes, dt: 10, serialization_context: &registry };
    assert!(entry.update(&mut ctx, &mut flow));
    assert_eq!(entry.plugin().elapsed, 10);
    let ctx = PluginContext { scenes: &mut scenes, dt: 0, serialization_context: &registry };
    assert!(entry.on_deinit(ctx));
    assert!(scenes.contains(override_scene));
}

#[test]
fn os_event_close_requests_exit() {
    let mut registry = SerializationContext::new();
    let mut scenes = SceneContainer::new();
    let mut entry = PluginEntry::new(fresh_recording());
    assert!(entry.on_register(PluginRegistrationContext { serialization_context: &mut registry }));
    let ctx = PluginContext { scenes: &mut scenes, dt: 0, serialization_context: &registry };
    assert!(entry.on_init(Handle::none(), ctx));
    let mut flow = ControlFlow::Poll;
    let ctx = PluginContext { scenes: &mut scenes, dt: 0, serialization_context: &registry };
    let key = Event::KeyboardInput { key_code: 32, pressed: true };
    assert!(entry.on_os_event(&key, ctx, &mut flow));
    assert_eq!(flow, ControlFlow::Poll);
    let ctx = PluginContext { scenes: &mut scenes, dt: 0, serialization_context: &registry };
    assert!(entry.on_os_event(&Event::CloseRequested, ctx, &mut flow));
    assert_eq!(flow, ControlFlow::Exit);
    assert_eq!(entry.plugin().last_call, Some(LifecycleEvent::OsEvent));
    assert_eq!(entry.plugin().own_scene, Handle::new(0, 1));
}

#[test]
fn update_elapsed_time_saturates() {
    let mut registry = SerializationContext::new();
    let mut scenes = SceneContainer::new();
    let mut entry = PluginEntry::new(fresh_recording());
    assert!(entry.on_register(PluginRegistrationContext { serialization_context: &mut registry }));
    let ctx = PluginContext { scenes: &mut scenes, dt: 0, serialization_context: &registry };
    assert!(entry.on_init(Handle::none(), ctx));
    let mut flow = ControlFlow::Poll;
    let mut ctx = PluginContext { scenes: &mut scenes, dt: u64::MAX - 1, serialization_context: &registry };
    assert!(entry.update(&mut ctx, &mut flow));
    let mut ctx = PluginContext { scenes: &mut scenes, dt: 7, serialization_context: &registry };
    assert!(entry.update(&mut ctx, &mut flow));
    assert_eq!(entry.plugin().elapsed, u64::MAX);
}

#[test]
fn reset_gives_a_fresh_plugin_and_keeps_the_state() {
    let mut registry = SerializationContext::new();
    let mut scenes = SceneContainer::new();
    let mut entry = PluginEntry::new(fresh_recording());
    assert!(entry.on_register(PluginRegistrationContext { serialization_context: &mut registry }));
    let ctx = PluginContext { scenes: &mut scenes, dt: 0, serialization_context: &registry };
    assert!(entry.on_init(Handle::none(), ctx));
    assert_eq!(entry.plugin().calls, 2);
    entry.reset();
    assert_eq!(*entry.plugin(), RecordingPlugin::default_instance());
    assert_eq!(entry.state(), LifecycleState::Active);
    assert_eq!(entry.id(), Uuid::from_u128(RECORDING_PLUGIN_ID));
}

#[test]
fn null_plugin_goes_through_lifecycle() {
    let mut registry = SerializationContext::new();
    let mut scenes = SceneContainer::new();
    let mut entry = PluginEntry::new(NullPlugin {});
    assert_eq!(entry.state(), LifecycleState::Unregistered);
    assert!(entry.on_register(PluginRegistrationContext { serialization_context: &mut registry }));
    assert_eq!(registry.len(), 0);
    let ctx = PluginContext { scenes: &mut scenes, dt: 0, serialization_context: &registry };
    assert!(entry.on_init(Handle::none(), ctx));
    assert_eq!(scenes.len(), 0);
    let mut flow = ControlFlow::Wait;
    let mut ctx = PluginContext { scenes: &mut scenes, dt: 1, serialization_context: &registry };
    assert!(entry.update(&mut ctx, &mut flow));
    assert_eq!(flow, ControlFlow::Wait);
    let ctx = PluginContext { scenes: &mut scenes, dt: 0, serialization_context: &registry };
    assert!(entry.on_os_event(&Event::CloseRequested, ctx, &mut flow));
    assert_eq!(flow, ControlFlow::Wait);
    assert_eq!(entry.id(), Uuid::from_u128(NULL_PLUGIN_ID));
}

#[test]
fn step_follows_the_state_machine() {
    assert_eq!(step(LifecycleState::Unregistered, LifecycleEvent::Register), Some(LifecycleState::Registered));
    assert_eq!(step(LifecycleState::Registered, LifecycleEvent::Register), None);
    assert_eq!(step(LifecycleState::Unregistered, LifecycleEvent::Init), None);
    assert_eq!(step(LifecycleState::Registered, LifecycleEvent::Init), Some(LifecycleState::Active));
    assert_eq!(step(LifecycleState::Inactive, LifecycleEvent::Init), Some(LifecycleState::Active));
    assert_eq!(step(LifecycleState::Active, LifecycleEvent::Init), None);
    assert_eq!(step(LifecycleState::Active, LifecycleEvent::Update), Some(LifecycleState::Active));
    assert_eq!(step(LifecycleState::Active, LifecycleEvent::OsEvent), Some(LifecycleState::Active));
    assert_eq!(step(LifecycleState::Inactive, LifecycleEvent::Update), None);
    assert_eq!(step(LifecycleState::Registered, LifecycleEvent::OsEvent), None);
    assert_eq!(step(LifecycleState::Active, LifecycleEvent::Deinit), Some(LifecycleState::Inactive));
    assert_eq!(step(LifecycleState::Inactive, LifecycleEvent::Deinit), None);
    assert_eq!(step(LifecycleState::Registered, LifecycleEvent::Deinit), None);
}
