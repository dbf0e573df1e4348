use vstd::prelude::*;

verus! {

/// Where a plugin instance stands in its lifecycle.
#[derive(Clone, Copy, Debug, PartialEq, Eq, Structural)]
pub enum LifecycleState {
    Unregistered,
    Registered,
    Active,
    Inactive,
}

/// A lifecycle call that the host makes on a plugin.
#[derive(Clone, Copy, Debug, PartialEq, Eq, Structural)]
pub enum LifecycleEvent {
    Register,
    Init,
    Update,
    OsEvent,
    Deinit,
}

/// Whether the host may make call `e` on a plugin in state `s`.
pub open spec fn permitted(s: LifecycleState, e: LifecycleEvent) -> bool {
    match e {
        LifecycleEvent::Register => s == LifecycleState::Unregistered,
        LifecycleEvent::Init => s == LifecycleState::Registered || s == LifecycleState::Inactive,
        LifecycleEvent::Update => s == LifecycleState::Active,
        LifecycleEvent::OsEvent => s == LifecycleState::Active,
        LifecycleEvent::Deinit => s == LifecycleState::Active,
    }
}

/// The state after a permitted call `e` in state `s`.
pub open spec fn after(s: LifecycleState, e: LifecycleEvent) -> LifecycleState {
    match e {
        LifecycleEvent::Register => LifecycleState::Registered,
        LifecycleEvent::Init => LifecycleState::Active,
        LifecycleEvent::Update => s,
        LifecycleEvent::OsEvent => s,
        LifecycleEvent::Deinit => LifecycleState::Inactive,
    }
}

/// The state reached by the calls of `t`, from a new instance.
pub open spec fn run(t: Seq<LifecycleEvent>) -> LifecycleState
    decreases t.len(),
{
    if t.len() == 0 {
        LifecycleState::Unregistered
    } else {
        after(run(t.drop_last()), t.last())
    }
}

/// Whether every call of `t` was permitted when it was made.
pub open spec fn valid_trace(t: Seq<LifecycleEvent>) -> bool
    decreases t.len(),
{
    t.len() == 0 || (valid_trace(t.drop_last()) && permitted(run(t.drop_last()), t.last()))
}

/// Whether call `i` of `t` comes after an `Init` with no `Deinit` in between.
pub open spec fn inside_init(t: Seq<LifecycleEvent>, i: int) -> bool {
    exists|j: int|
        0 <= j < i && #[trigger] t[j] == LifecycleEvent::Init && forall|k: int|
            j < k < i ==> t[k] != LifecycleEvent::Deinit
}

/// The next state and whether call `e` is permitted in state `s`: `None`
/// when it is not.
pub fn step(s: LifecycleState, e: LifecycleEvent) -> (r: Option<LifecycleState>)
    ensures
        r == (if permitted(s, e) {
            Some(after(s, e))
        } else {
            None::<LifecycleState>
        }),
{
    match e {
        LifecycleEvent::Register => {
            if s == LifecycleState::Unregistered {
                Some(LifecycleState::Registered)
            } else {
                None
            }
        },
        LifecycleEvent::Init => {
            if s == LifecycleState::Registered || s == LifecycleState::Inactive {
                Some(LifecycleState::Active)
            } else {
                None
            }
        },
        LifecycleEvent::Update | LifecycleEvent::OsEvent => {
            if s == LifecycleState::Active {
                Some(s)
            } else {
                None
            }
        },
        LifecycleEvent::Deinit => {
            if s == LifecycleState::Active {
                Some(LifecycleState::Inactive)
            } else {
                None
            }
        },
    }
}

/// Every prefix of a valid trace is valid, and each of its calls was
/// permitted in the state its prefix reached.
pub proof fn lemma_prefix(t: Seq<LifecycleEvent>, i: int)
    requires
        valid_trace(t),
        0 <= i < t.len(),
    ensures
        valid_trace(t.take(i)),
        valid_trace(t.take(i + 1)),
        permitted(run(t.take(i)), t[i]),
        run(t.take(i + 1)) == after(run(t.take(i)), t[i]),
    decreases t.len(),
{
    let p = t.take(i + 1);
    assert(p.drop_last() =~= t.take(i));
    assert(p.last() == t[i]);
    if i + 1 < t.len() {
        lemma_prefix(t.drop_last(), i);
        assert(t.drop_last().take(i) =~= t.take(i));
        assert(t.drop_last().take(i + 1) =~= t.take(i + 1));
    } else {
        assert(t.take(i + 1) =~= t);
    }
}

/// After a non-empty valid trace a plugin is never unregistered again.
proof fn lemma_registered_after_first(t: Seq<LifecycleEvent>)
    requires
        valid_trace(t),
        t.len() > 0,
    ensures
        run(t) != LifecycleState::Unregistered,
    decreases t.len(),
{
    if t.len() > 1 {
        lemma_registered_after_first(t.drop_last());
    }
}

/// The witness of `inside_init` for call `i`, given an `Init` at `j`.
proof fn lemma_inside_init_at(t: Seq<LifecycleEvent>, i: int, j: int)
    requires
        0 <= j < i,
        t[j] == LifecycleEvent::Init,
        forall|k: int| j < k < i ==> t[k] != LifecycleEvent::Deinit,
    ensures
        inside_init(t, i),
{
}

/// A plugin is active after a prefix exactly when that prefix ends inside an
/// `Init` that no `Deinit` has closed.
proof fn lemma_active_inside_init(t: Seq<LifecycleEvent>, i: int)
    requires
        valid_trace(t),
        0 <= i <= t.len(),
        run(t.take(i)) == LifecycleState::Active,
    ensures
        inside_init(t, i),
    decreases i,
{
    if i == 0 {
        assert(t.take(0) =~= Seq::<LifecycleEvent>::empty());
    } else {
        lemma_prefix(t, i - 1);
        if t[i - 1] == LifecycleEvent::Init {
            lemma_inside_init_at(t, i, i - 1);
        } else {
            lemma_active_inside_init(t, i - 1);
            let j = choose|j: int|
                0 <= j < i - 1 && #[trigger] t[j] == LifecycleEvent::Init && forall|k: int|
                    j < k < i - 1 ==> t[k] != LifecycleEvent::Deinit;
            lemma_inside_init_at(t, i, j);
        }
    }
}

/// `Register` is called at most once, and first: every other call of a valid
/// trace comes after it.
pub proof fn lemma_register_once_and_first(t: Seq<LifecycleEvent>, i: int)
    requires
        valid_trace(t),
        0 <= i < t.len(),
    ensures
        t[0] == LifecycleEvent::Register,
        t[i] == LifecycleEvent::Register ==> i == 0,
{
    lemma_prefix(t, 0);
    assert(t.take(0) =~= Seq::<LifecycleEvent>::empty());
    lemma_prefix(t, i);
    if i > 0 {
        lemma_prefix(t, i - 1);
        lemma_registered_after_first(t.take(i));
    }
}

/// An `Init` comes strictly after `Register`.
pub proof fn lemma_init_after_register(t: Seq<LifecycleEvent>, i: int)
    requires
        valid_trace(t),
        0 <= i < t.len(),
        t[i] == LifecycleEvent::Init,
    ensures
        0 < i,
        t[0] == LifecycleEvent::Register,
{
    lemma_register_once_and_first(t, i);
}

/// A `Deinit` closes an earlier `Init` that no other `Deinit` closed.
pub proof fn lemma_deinit_matches_init(t: Seq<LifecycleEvent>, i: int)
    requires
        valid_trace(t),
        0 <= i < t.len(),
        t[i] == LifecycleEvent::Deinit,
    ensures
        inside_init(t, i),
{
    lemma_prefix(t, i);
    lemma_active_inside_init(t, i);
}

/// `Update` and `OsEvent` come only after an `Init`, with no `Deinit` since.
pub proof fn lemma_no_calls_after_deinit(t: Seq<LifecycleEvent>, i: int)
    requires
        valid_trace(t),
        0 <= i < t.len(),
        t[i] == LifecycleEvent::Update || t[i] == LifecycleEvent::OsEvent,
    ensures
        inside_init(t, i),
{
    lemma_prefix(t, i);
    lemma_active_inside_init(t, i);
}

} // verus!
