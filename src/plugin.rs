use vstd::prelude::*;

verus! {

/// A capability slot that the application attaches before it launches.
#[derive(Clone, Copy, Debug, PartialEq, Eq, Structural)]
pub enum Plugin {
    /// Outbound HTTP requests.
    NetworkTransport,
    /// Invoking external commands in a shell context.
    ShellAccess,
    /// Checking for and applying application updates, with default configuration.
    AutoUpdate,
    /// Spawning, terminating and relaunching the application process.
    ProcessControl,
    /// Persisting and restoring window position and size, with default configuration.
    WindowState,
}

/// Number of plugins that every launch attaches.
pub const PLUGIN_COUNT: usize = 5;

/// The fixed order in which the plugins are attached.
pub open spec fn registration_order() -> Seq<Plugin> {
    seq![
        Plugin::NetworkTransport,
        Plugin::ShellAccess,
        Plugin::AutoUpdate,
        Plugin::ProcessControl,
        Plugin::WindowState,
    ]
}

/// The plugin attached at position `i` of the fixed order.
pub fn plugin_at(i: usize) -> (p: Plugin)
    requires
        i < PLUGIN_COUNT,
    ensures
        p == registration_order()[i as int],
{
    match i {
        0 => Plugin::NetworkTransport,
        1 => Plugin::ShellAccess,
        2 => Plugin::AutoUpdate,
        3 => Plugin::ProcessControl,
        _ => Plugin::WindowState,
    }
}

/// Every plugin, in the order in which it is attached.
pub fn registration_plan() -> (r: Vec<Plugin>)
    ensures
        r@ == registration_order(),
{
    let mut r: Vec<Plugin> = Vec::new();
    let mut i: usize = 0;
    while i < PLUGIN_COUNT
        invariant
            i <= PLUGIN_COUNT,
            r@ == registration_order().take(i as int),
        decreases PLUGIN_COUNT - i,
    {
        let p = plugin_at(i);
        r.push(p);
        assert(registration_order().take(i as int + 1) =~= registration_order().take(i as int).push(p));
        i = i + 1;
    }
    assert(registration_order().take(PLUGIN_COUNT as int) =~= registration_order());
    r
}

} // verus!
