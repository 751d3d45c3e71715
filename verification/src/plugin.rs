//! The capability plugins the bootstrapper attaches, and the registry
//! that records their registration order.
//!
//! Registering a plugin makes it active; which plugins end up active
//! depends only on which were registered, never on the order.

use vstd::prelude::*;

verus! {

/// A capability plugin of the host framework. The bootstrapper attaches
/// exactly these five; each exposes its capability surface to the front
/// end and none depends on another.
#[derive(Clone, Copy, PartialEq, Eq, Structural, Debug)]
pub enum Plugin {
    /// Shell-command execution.
    Shell,
    /// Native dialog boxes.
    Dialog,
    /// Filesystem access.
    Fs,
    /// Operating-system information queries.
    Os,
    /// Persistent key-value storage.
    Store,
}

/// The fixed order in which the bootstrapper registers the plugins.
pub open spec fn required_plugins() -> Seq<Plugin> {
    seq![Plugin::Shell, Plugin::Dialog, Plugin::Fs, Plugin::Os, Plugin::Store]
}

/// The plugins active once every registration in `order` has run.
/// A registration only adds a capability, so activity is membership:
/// repetition and position have no effect.
pub open spec fn active_set(order: Seq<Plugin>) -> Set<Plugin> {
    Set::new(|p: Plugin| order.contains(p))
}

/// Records plugin registrations in the order they were made.
pub struct PluginRegistry {
    plugins: Vec<Plugin>,
}

impl View for PluginRegistry {
    type V = Seq<Plugin>;

    closed spec fn view(&self) -> Seq<Plugin> {
        self.plugins@
    }
}

impl PluginRegistry {
    /// A registry with nothing registered yet.
    pub fn new() -> (r: PluginRegistry)
        ensures
            r@ == Seq::<Plugin>::empty(),
    {
        PluginRegistry { plugins: Vec::new() }
    }

    /// Registers `p` after everything registered so far.
    pub fn register(&mut self, p: Plugin)
        ensures
            final(self)@ == old(self)@.push(p),
    {
        self.plugins.push(p);
    }

    /// How many registrations were made.
    pub fn len(&self) -> (n: usize)
        ensures
            n == self@.len(),
    {
        self.plugins.len()
    }

    /// The plugin registered at position `i`.
    pub fn plugin_at(&self, i: usize) -> (p: Plugin)
        requires
            i < self@.len(),
        ensures
            p == self@[i as int],
    {
        self.plugins[i]
    }

    /// Whether `p` is active, that is, was registered at least once.
    pub fn is_active(&self, p: Plugin) -> (r: bool)
        ensures
            r == active_set(self@).contains(p),
    {
        let n = self.plugins.len();
        let mut i: usize = 0;
        while i < n
            invariant
                n == self@.len(),
                i <= n,
                forall|j: int| 0 <= j < i ==> self@[j] != p,
            decreases n - i,
        {
            if self.plugins[i] == p {
                return true;
            }
            i += 1;
        }
        false
    }
}

/// Builds the registry exactly as the bootstrapper does: the five
/// capability plugins, in their fixed order.
pub fn standard_registry() -> (r: PluginRegistry)
    ensures
        r@ == required_plugins(),
{
    let mut r = PluginRegistry::new();
    r.register(Plugin::Shell);
    r.register(Plugin::Dialog);
    r.register(Plugin::Fs);
    r.register(Plugin::Os);
    r.register(Plugin::Store);
    proof {
        assert(r@ =~= required_plugins());
    }
    r
}

/// Law: after the standard registration, every capability plugin is
/// active.
pub proof fn lemma_all_plugins_active()
    ensures
        forall|p: Plugin| #[trigger] active_set(required_plugins()).contains(p),
{
    let s = required_plugins();
    assert(s[0] == Plugin::Shell);
    assert(s[1] == Plugin::Dialog);
    assert(s[2] == Plugin::Fs);
    assert(s[3] == Plugin::Os);
    assert(s[4] == Plugin::Store);
    assert forall|p: Plugin| #[trigger] active_set(s).contains(p) by {
        match p {
            Plugin::Shell => {
                assert(s.contains(Plugin::Shell));
            },
            Plugin::Dialog => {
                assert(s.contains(Plugin::Dialog));
            },
            Plugin::Fs => {
                assert(s.contains(Plugin::Fs));
            },
            Plugin::Os => {
                assert(s.contains(Plugin::Os));
            },
            Plugin::Store => {
                assert(s.contains(Plugin::Store));
            },
        }
    }
}

/// Law: the registration order does not affect the set of active
/// plugins. Two registration sequences made of the same registrations
/// activate the same plugins.
pub proof fn lemma_order_irrelevant(a: Seq<Plugin>, b: Seq<Plugin>)
    requires
        a.to_multiset() == b.to_multiset(),
    ensures
        active_set(a) == active_set(b),
{
    assert forall|p: Plugin| #[trigger] a.contains(p) == b.contains(p) by {
        vstd::seq_lib::to_multiset_contains(a, p);
        vstd::seq_lib::to_multiset_contains(b, p);
        assert(a.to_multiset().count(p) == b.to_multiset().count(p));
    }
    assert(active_set(a) =~= active_set(b));
}

} // verus!
