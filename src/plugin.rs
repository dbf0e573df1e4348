use vstd::prelude::*;
use crate::context::{ControlFlow, Event, PluginContext, PluginRegistrationContext};
use crate::handle::Handle;
use crate::uuid::Uuid;

verus! {

/// An extension of the engine. The host calls `on_register` once, then
/// `on_init` to activate the plugin, `update` and `on_os_event` while it is
/// active, and `on_deinit` to deactivate it; see `crate::lifecycle`.
///
/// Every implementing type has one persistent identifier, which `id` returns
/// for each of its instances, and one default value, which
/// `default_instance` builds afresh whatever state the plugin is in. Each
/// lifecycle method states its effect on the plugin through a relation that
/// the implementing type names (`registered`, `initialized`, ...); a plugin
/// that ignores a call names equality. Hosts hold plugins by their concrete
/// type (see `crate::host::PluginEntry`), and recover a type with
/// `is_instance`, which compares persistent identifiers.
pub trait Plugin: Sized {
    /// The persistent identifier of the implementing type. Two plugin types
    /// must not share one.
    spec fn persistent_id() -> Uuid;

    /// The default state of the implementing type.
    spec fn default_value() -> Self;

    /// The scenes this plugin added to the host's container, which it must
    /// remove when it is deactivated.
    spec fn attached_scenes(&self) -> Set<Handle>;

    /// The plugin `after` is `before` once registered.
    spec fn registered(before: Self, after: Self) -> bool;

    /// The plugin `after` is `before` once activated with `override_scene`.
    spec fn initialized(before: Self, override_scene: Handle, after: Self) -> bool;

    /// The plugin `after` is `before` once deactivated.
    spec fn deinitialized(before: Self, after: Self) -> bool;

    /// The plugin `after` is `before` once updated after `dt` microseconds.
    spec fn updated(before: Self, dt: u64, after: Self) -> bool;

    /// The plugin `after` is `before` once it handled `event`.
    spec fn handled_event(before: Self, event: Event, after: Self) -> bool;

    /// The persistent identifier of the implementing type, without an instance.
    fn type_uuid() -> (r: Uuid)
        ensures
            r == Self::persistent_id(),
    ;

    /// A fresh instance in the default state, used to reset a plugin.
    fn default_instance() -> (r: Self)
        ensures
            r == Self::default_value(),
    ;

    /// The persistent identifier of this plugin; the host stores it to find
    /// the plugin again when it loads saved data.
    fn id(&self) -> (r: Uuid)
        ensures
            r == Self::persistent_id(),
    ;

    /// Called once, when the plugin is registered; it may register custom
    /// types in the context's registry.
    fn on_register(&mut self, context: PluginRegistrationContext)
        ensures
            Self::registered(*old(self), *final(self)),
    ;

    /// Called when the plugin becomes active. `override_scene` is the none
    /// handle, or a scene that the host wants the plugin to work on instead of
    /// one of its own: then the plugin adds no scene.
    fn on_init(&mut self, override_scene: Handle, context: PluginContext)
        ensures
            Self::initialized(*old(self), override_scene, *final(self)),
            !override_scene.spec_is_none() ==> (*final(context.scenes)).spec_len() == (*old(context.scenes)).spec_len(),
    ;

    /// Called when the plugin becomes inactive; it removes the scenes it
    /// attached to the host's container.
    fn on_deinit(&mut self, context: PluginContext)
        ensures
            Self::deinitialized(*old(self), *final(self)),
            forall|h: Handle|
                old(self).attached_scenes().contains(h) ==> !(*final(context.scenes)).is_live(h),
    ;

    /// Called once per tick while the plugin is active.
    fn update(&mut self, context: &mut PluginContext, control_flow: &mut ControlFlow)
        ensures
            Self::updated(*old(self), old(context).dt, *final(self)),
    ;

    /// Called when the main window receives an event, while the plugin is
    /// active.
    fn on_os_event(&mut self, event: &Event, context: PluginContext, control_flow: &mut ControlFlow)
        ensures
            Self::handled_event(*old(self), *event, *final(self)),
    ;
}

/// Whether `plugin` is an instance of `T`, by persistent identifier: true
/// exactly when `P` and `T` have the same one.
pub fn is_instance<P: Plugin, T: Plugin>(plugin: &P) -> (r: bool)
    ensures
        r == (P::persistent_id() == T::persistent_id()),
{
    plugin.id() == T::type_uuid()
}

} // verus!
