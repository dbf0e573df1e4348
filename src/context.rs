use vstd::prelude::*;
use crate::handle::Handle;
use crate::uuid::Uuid;

verus! {

/// The registry of custom types (scene nodes, scripts) that plugins add to at
/// registration time. Each type identifier is held at most once.
pub struct SerializationContext {
    type_ids: Vec<Uuid>,
}

impl View for SerializationContext {
    type V = Seq<Uuid>;

    closed spec fn view(&self) -> Seq<Uuid> {
        self.type_ids@
    }
}

impl SerializationContext {
    /// No identifier is held twice.
    pub open spec fn wf(&self) -> bool {
        self@.no_duplicates()
    }

    /// An empty registry.
    pub fn new() -> (r: SerializationContext)
        ensures
            r@ == Seq::<Uuid>::empty(),
            r.wf(),
    {
        SerializationContext { type_ids: Vec::new() }
    }

    /// Number of registered types.
    pub fn len(&self) -> (r: usize)
        ensures
            r == self@.len(),
    {
        self.type_ids.len()
    }

    /// Whether `id` is registered.
    pub fn is_registered(&self, id: Uuid) -> (r: bool)
        ensures
            r == self@.contains(id),
    {
        let mut i: usize = 0;
        while i < self.type_ids.len()
            invariant
                0 <= i <= self@.len(),
                forall|j: int| 0 <= j < i ==> self@[j] != id,
            decreases self@.len() - i,
        {
            if self.type_ids[i] == id {
                return true;
            }
            i = i + 1;
        }
        false
    }

    /// Registers `id`; returns false, and changes nothing, when it is already
    /// registered.
    pub fn register(&mut self, id: Uuid) -> (r: bool)
        ensures
            old(self).wf() ==> final(self).wf(),
            r == !old(self)@.contains(id),
            r ==> final(self)@ == old(self)@.push(id),
            !r ==> final(self)@ == old(self)@,
            final(self)@.contains(id),
    {
        if self.is_registered(id) {
            false
        } else {
            self.type_ids.push(id);
            assert(self@[self@.len() - 1] == id);
            true
        }
    }
}

/// A scene held by the engine.
pub struct Scene {
    pub name: String,
}

/// The scenes held by the engine. The scene in slot `i` has the handle with
/// index `i` and generation 1; a removed scene leaves its slot empty.
pub struct SceneContainer {
    scenes: Vec<Option<Scene>>,
}

impl SceneContainer {
    /// Number of slots, taken by a scene or left by a removed one.
    pub closed spec fn spec_len(&self) -> nat {
        self.scenes@.len()
    }

    /// Whether `handle` refers to a scene that is in the container.
    pub closed spec fn is_live(&self, handle: Handle) -> bool {
        &&& handle.generation == 1
        &&& handle.index < self.scenes@.len()
        &&& self.scenes@[handle.index as int] is Some
    }

    /// The handle that `add` gives the scene in slot `i`.
    pub open spec fn handle_at(i: int) -> Handle {
        Handle { index: i as u32, generation: 1 }
    }

    /// A container with no scene.
    pub fn new() -> (r: SceneContainer)
        ensures
            r.spec_len() == 0,
            forall|h: Handle| !r.is_live(h),
    {
        SceneContainer { scenes: Vec::new() }
    }

    /// Number of slots, taken by a scene or left by a removed one.
    pub fn len(&self) -> (r: usize)
        ensures
            r == self.spec_len(),
    {
        self.scenes.len()
    }

    /// Adds a scene in a new slot and returns its handle.
    pub fn add(&mut self, scene: Scene) -> (r: Handle)
        requires
            old(self).spec_len() < u32::MAX,
        ensures
            final(self).spec_len() == old(self).spec_len() + 1,
            r == Self::handle_at(old(self).spec_len() as int),
            !r.spec_is_none(),
            final(self).is_live(r),
            forall|h: Handle| h != r ==> final(self).is_live(h) == old(self).is_live(h),
    {
        let index = self.scenes.len() as u32;
        self.scenes.push(Some(scene));
        Handle { index, generation: 1 }
    }

    /// Removes the scene of `handle`; returns whether there was one.
    pub fn remove(&mut self, handle: Handle) -> (r: bool)
        ensures
            r == old(self).is_live(handle),
            !final(self).is_live(handle),
            final(self).spec_len() == old(self).spec_len(),
            forall|h: Handle| h != handle ==> final(self).is_live(h) == old(self).is_live(h),
    {
        if handle.generation == 1 && (handle.index as usize) < self.scenes.len() {
            let i = handle.index as usize;
            let was = self.scenes[i].is_some();
            self.scenes.set(i, None);
            was
        } else {
            false
        }
    }

    /// Whether `handle` refers to a scene that is in the container.
    pub fn contains(&self, handle: Handle) -> (r: bool)
        ensures
            r == self.is_live(handle),
    {
        handle.generation == 1 && (handle.index as usize) < self.scenes.len()
            && self.scenes[handle.index as usize].is_some()
    }
}

/// Plugin environment for the registration stage.
pub struct PluginRegistrationContext<'a> {
    /// The engine's type registry, which the plugin may extend.
    pub serialization_context: &'a mut SerializationContext,
}

/// Plugin environment for every lifecycle call after registration. The
/// references are valid for the duration of one call.
pub struct PluginContext<'a> {
    /// The engine's scenes; a plugin may add its own.
    pub scenes: &'a mut SceneContainer,
    /// Time that passed since the previous call that got a context, in
    /// microseconds.
    pub dt: u64,
    /// The engine's type registry.
    pub serialization_context: &'a SerializationContext,
}

/// A directive by which a plugin asks the host for a change of flow.
#[derive(Clone, Copy, Debug, PartialEq, Eq, Structural)]
pub enum ControlFlow {
    /// Keep running, polling for events.
    Poll,
    /// Keep running, waiting for the next event.
    Wait,
    /// Shut down.
    Exit,
}

/// An event that the main window received from the platform.
#[derive(Clone, Copy, Debug, PartialEq, Eq, Structural)]
pub enum Event {
    CloseRequested,
    Resized { width: u32, height: u32 },
    KeyboardInput { key_code: u32, pressed: bool },
}

} // verus!
