use vstd::prelude::*;
use vstd::string::StringExecFns;
use crate::handle::Handle;

verus! {

/// A menu item of the editor's user interface: its text and its sub-items.
pub struct MenuItem {
    pub text: String,
    pub items: Vec<Handle>,
}

/// Builds the nodes of the user interface. The node at position `i` has the
/// handle with index `i` and generation 1.
pub struct BuildContext {
    nodes: Vec<MenuItem>,
}

impl BuildContext {
    /// The text and sub-items of each node, in order of creation.
    pub closed spec fn spec_nodes(&self) -> Seq<(Seq<char>, Seq<Handle>)> {
        self.nodes@.map_values(|m: MenuItem| (m.text@, m.items@))
    }

    /// The handle of the node at position `i`.
    pub open spec fn handle_at(i: int) -> Handle {
        Handle { index: i as u32, generation: 1 }
    }

    /// A context with no node.
    pub fn new() -> (r: BuildContext)
        ensures
            r.spec_nodes() == Seq::<(Seq<char>, Seq<Handle>)>::empty(),
    {
        let r = BuildContext { nodes: Vec::new() };
        assert(r.spec_nodes() =~= Seq::<(Seq<char>, Seq<Handle>)>::empty());
        r
    }

    /// Number of nodes built.
    pub fn len(&self) -> (r: usize)
        ensures
            r == self.spec_nodes().len(),
    {
        self.nodes.len()
    }

    /// Builds a menu item with `text` and sub-items `items`, and returns its
    /// handle.
    pub fn create_menu_item(&mut self, text: &str, items: Vec<Handle>) -> (r: Handle)
        requires
            old(self).spec_nodes().len() < u32::MAX,
        ensures
            final(self).spec_nodes() == old(self).spec_nodes().push((text@, items@)),
            r == Self::handle_at(old(self).spec_nodes().len() as int),
    {
        let index = self.nodes.len() as u32;
        let item = MenuItem { text: String::from_str(text), items };
        let ghost pair = (item.text@, item.items@);
        self.nodes.push(item);
        assert(self.spec_nodes() =~= old(self).spec_nodes().push(pair));
        Handle { index, generation: 1 }
    }
}

/// A physics scene node that the menu can add.
#[derive(Clone, Copy, Debug, PartialEq, Eq, Structural)]
pub enum PhysicsNodeKind {
    RigidBody,
    /// A collider with a cuboid shape of default size.
    Collider,
    RevoluteJoint,
    BallJoint,
    PrismaticJoint,
    FixedJoint,
}

/// The name a new node of kind `k` gets.
pub open spec fn kind_name(k: PhysicsNodeKind) -> Seq<char> {
    match k {
        PhysicsNodeKind::RigidBody => "Rigid Body"@,
        PhysicsNodeKind::Collider => "Collider"@,
        PhysicsNodeKind::RevoluteJoint => "Revolute Joint"@,
        PhysicsNodeKind::BallJoint => "Ball Joint"@,
        PhysicsNodeKind::PrismaticJoint => "Prismatic Joint"@,
        PhysicsNodeKind::FixedJoint => "Fixed Joint"@,
    }
}

impl PhysicsNodeKind {
    /// The name a new node of this kind gets, which is also the text of its
    /// menu item.
    pub fn name(&self) -> (r: &'static str)
        ensures
            r@ == kind_name(*self),
    {
        match self {
            PhysicsNodeKind::RigidBody => "Rigid Body",
            PhysicsNodeKind::Collider => "Collider",
            PhysicsNodeKind::RevoluteJoint => "Revolute Joint",
            PhysicsNodeKind::BallJoint => "Ball Joint",
            PhysicsNodeKind::PrismaticJoint => "Prismatic Joint",
            PhysicsNodeKind::FixedJoint => "Fixed Joint",
        }
    }
}

/// A scene command: add a new node of `kind`, with its default parameters and
/// its kind's name, under `parent`.
#[derive(Clone, Copy, Debug, PartialEq, Eq, Structural)]
pub struct AddNodeCommand {
    pub kind: PhysicsNodeKind,
    pub parent: Handle,
}

/// A message of a menu item.
#[derive(Clone, Copy, Debug, PartialEq, Eq, Structural)]
pub enum MenuItemMessage {
    Open,
    Close,
    Click,
}

/// What a user interface message carries.
#[derive(Clone, Copy, Debug, PartialEq, Eq, Structural)]
pub enum UiMessageData {
    MenuItem(MenuItemMessage),
    Other,
}

/// A message of the user interface, sent to the node `destination`.
#[derive(Clone, Copy, Debug, PartialEq, Eq, Structural)]
pub struct UiMessage {
    pub destination: Handle,
    pub data: UiMessageData,
}

/// The "Physics" menu of the editor, with one item per kind of physics node.
pub struct PhysicsMenu {
    pub menu: Handle,
    create_rigid_body: Handle,
    create_revolute_joint: Handle,
    create_ball_joint: Handle,
    create_prismatic_joint: Handle,
    create_fixed_joint: Handle,
    create_collider: Handle,
}

impl PhysicsMenu {
    /// The handle of the "Physics" item.
    pub closed spec fn spec_menu(&self) -> Handle {
        self.menu
    }

    /// The handle of the item that adds nodes of kind `k`.
    pub closed spec fn item_of(&self, k: PhysicsNodeKind) -> Handle {
        match k {
            PhysicsNodeKind::RigidBody => self.create_rigid_body,
            PhysicsNodeKind::Collider => self.create_collider,
            PhysicsNodeKind::RevoluteJoint => self.create_revolute_joint,
            PhysicsNodeKind::BallJoint => self.create_ball_joint,
            PhysicsNodeKind::PrismaticJoint => self.create_prismatic_joint,
            PhysicsNodeKind::FixedJoint => self.create_fixed_joint,
        }
    }

    /// The six item handles are distinct.
    pub open spec fn wf(&self) -> bool {
        forall|a: PhysicsNodeKind, b: PhysicsNodeKind|
            a != b ==> #[trigger] self.item_of(a) != #[trigger] self.item_of(b)
    }

    /// The kind of node that a click on `destination` adds, if any. The items
    /// are tried in the order rigid body, revolute, ball, prismatic and fixed
    /// joint, collider.
    pub open spec fn clicked_kind(&self, destination: Handle) -> Option<PhysicsNodeKind> {
        if destination == self.item_of(PhysicsNodeKind::RigidBody) {
            Some(PhysicsNodeKind::RigidBody)
        } else if destination == self.item_of(PhysicsNodeKind::RevoluteJoint) {
            Some(PhysicsNodeKind::RevoluteJoint)
        } else if destination == self.item_of(PhysicsNodeKind::BallJoint) {
            Some(PhysicsNodeKind::BallJoint)
        } else if destination == self.item_of(PhysicsNodeKind::PrismaticJoint) {
            Some(PhysicsNodeKind::PrismaticJoint)
        } else if destination == self.item_of(PhysicsNodeKind::FixedJoint) {
            Some(PhysicsNodeKind::FixedJoint)
        } else if destination == self.item_of(PhysicsNodeKind::Collider) {
            Some(PhysicsNodeKind::Collider)
        } else {
            None
        }
    }

    /// The order of the items in the menu.
    pub open spec fn item_order() -> Seq<PhysicsNodeKind> {
        seq![
            PhysicsNodeKind::RigidBody,
            PhysicsNodeKind::Collider,
            PhysicsNodeKind::RevoluteJoint,
            PhysicsNodeKind::BallJoint,
            PhysicsNodeKind::PrismaticJoint,
            PhysicsNodeKind::FixedJoint,
        ]
    }

    /// Builds the menu: one item per kind, named after it, and the "Physics"
    /// item that holds them in `item_order`.
    pub fn new(ctx: &mut BuildContext) -> (r: PhysicsMenu)
        requires
            old(ctx).spec_nodes().len() + 7 <= u32::MAX,
        ensures
            ({
                let n = old(ctx).spec_nodes().len() as int;
                let nodes = final(ctx).spec_nodes();
                &&& nodes.len() == n + 7
                &&& nodes.take(n) == old(ctx).spec_nodes()
                &&& forall|i: int|
                    0 <= i < 6 ==> r.item_of(#[trigger] Self::item_order()[i])
                        == BuildContext::handle_at(n + i) && nodes[n + i] == (
                        kind_name(Self::item_order()[i]),
                        Seq::<Handle>::empty(),
                    )
                &&& r.wf()
                &&& r.spec_menu() == BuildContext::handle_at(n + 6)
                &&& nodes[n + 6].0 == "Physics"@
                &&& nodes[n + 6].1 == Self::item_order().map_values(|k| r.item_of(k))
            }),
    {
        let create_rigid_body = ctx.create_menu_item(PhysicsNodeKind::RigidBody.name(), Vec::new());
        let create_collider = ctx.create_menu_item(PhysicsNodeKind::Collider.name(), Vec::new());
        let create_revolute_joint = ctx.create_menu_item(
            PhysicsNodeKind::RevoluteJoint.name(),
            Vec::new(),
        );
        let create_ball_joint = ctx.create_menu_item(PhysicsNodeKind::BallJoint.name(), Vec::new());
        let create_prismatic_joint = ctx.create_menu_item(
            PhysicsNodeKind::PrismaticJoint.name(),
            Vec::new(),
        );
        let create_fixed_joint = ctx.create_menu_item(
            PhysicsNodeKind::FixedJoint.name(),
            Vec::new(),
        );
        let items = vec![
            create_rigid_body,
            create_collider,
            create_revolute_joint,
            create_ball_joint,
            create_prismatic_joint,
            create_fixed_joint,
        ];
        let menu = ctx.create_menu_item("Physics", items);
        let r = PhysicsMenu {
            menu,
            create_rigid_body,
            create_revolute_joint,
            create_ball_joint,
            create_prismatic_joint,
            create_fixed_joint,
            create_collider,
        };
        assert(final(ctx).spec_nodes().take(old(ctx).spec_nodes().len() as int) =~= old(ctx).spec_nodes());
        assert(items@ =~= Self::item_order().map_values(|k| r.item_of(k)));
        r
    }

    /// The kind of node that a click on `destination` adds, if any.
    pub fn kind_for(&self, destination: Handle) -> (r: Option<PhysicsNodeKind>)
        ensures
            r == self.clicked_kind(destination),
    {
        if destination == self.create_rigid_body {
            Some(PhysicsNodeKind::RigidBody)
        } else if destination == self.create_revolute_joint {
            Some(PhysicsNodeKind::RevoluteJoint)
        } else if destination == self.create_ball_joint {
            Some(PhysicsNodeKind::BallJoint)
        } else if destination == self.create_prismatic_joint {
            Some(PhysicsNodeKind::PrismaticJoint)
        } else if destination == self.create_fixed_joint {
            Some(PhysicsNodeKind::FixedJoint)
        } else if destination == self.create_collider {
            Some(PhysicsNodeKind::Collider)
        } else {
            None
        }
    }

    /// On a click on one of the menu's items, queues the command that adds a
    /// node of that item's kind under `parent`; queues nothing for any other
    /// message.
    pub fn handle_ui_message(
        &mut self,
        message: &UiMessage,
        sender: &mut Vec<AddNodeCommand>,
        parent: Handle,
    )
        ensures
            *final(self) == *old(self),
            ({
                match (message.data, old(self).clicked_kind(message.destination)) {
                    (UiMessageData::MenuItem(MenuItemMessage::Click), Some(k)) => final(sender)@
                        == old(sender)@.push(AddNodeCommand { kind: k, parent }),
                    _ => final(sender)@ == old(sender)@,
                }
            }),
    {
        if message.data == UiMessageData::MenuItem(MenuItemMessage::Click) {
            match self.kind_for(message.destination) {
                Some(kind) => {
                    sender.push(AddNodeCommand { kind, parent });
                },
                None => {},
            }
        }
    }
}

/// In a well-formed menu a click on the item of kind `k` adds a node of kind
/// `k`.
pub proof fn lemma_click_selects_item(menu: &PhysicsMenu, k: PhysicsNodeKind)
    requires
        menu.wf(),
    ensures
        menu.clicked_kind(menu.item_of(k)) == Some(k),
{
    assert(menu.item_of(PhysicsNodeKind::RigidBody) != menu.item_of(k) || k
        == PhysicsNodeKind::RigidBody);
    assert(menu.item_of(PhysicsNodeKind::RevoluteJoint) != menu.item_of(k) || k
        == PhysicsNodeKind::RevoluteJoint);
    assert(menu.item_of(PhysicsNodeKind::BallJoint) != menu.item_of(k) || k
        == PhysicsNodeKind::BallJoint);
    assert(menu.item_of(PhysicsNodeKind::PrismaticJoint) != menu.item_of(k) || k
        == PhysicsNodeKind::PrismaticJoint);
    assert(menu.item_of(PhysicsNodeKind::FixedJoint) != menu.item_of(k) || k
        == PhysicsNodeKind::FixedJoint);
}

} // verus!
