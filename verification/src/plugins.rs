//! The framework plugins that the shell registers before its window exists.

use vstd::prelude::*;

verus! {

/// A plugin of the framework that the shell relies on.
#[derive(Clone, Copy, Debug, PartialEq, Eq, Structural)]
pub enum Plugin {
    /// Opens the shell from links in its own URL scheme.
    DeepLink,
    /// Keeps the front end's stores on disk.
    Store,
    /// Lets one instance run and tells it of further launches.
    SingleInstance,
    /// Tells the front end about the operating system.
    OsInfo,
}

/// The plugins of the shell, in the order of their registration.
pub open spec fn startup_plugins_spec() -> Seq<Plugin> {
    seq![Plugin::DeepLink, Plugin::Store, Plugin::SingleInstance, Plugin::OsInfo]
}

/// The plugins to register at startup, first to last: deep links, the store,
/// the single instance, the operating system's description.
pub fn startup_plugins() -> (plugins: Vec<Plugin>)
    ensures
        plugins@ == startup_plugins_spec(),
{
    let mut plugins: Vec<Plugin> = Vec::new();
    plugins.push(Plugin::DeepLink);
    plugins.push(Plugin::Store);
    plugins.push(Plugin::SingleInstance);
    plugins.push(Plugin::OsInfo);
    plugins
}

/// Every plugin is registered, and none of them twice.
pub proof fn lemma_registered_once(plugin: Plugin)
    ensures
        startup_plugins_spec().contains(plugin),
        forall|i: int, j: int|
            0 <= i < j < startup_plugins_spec().len() ==> startup_plugins_spec()[i]
                != startup_plugins_spec()[j],
{
    let plugins = startup_plugins_spec();
    match plugin {
        Plugin::DeepLink => assert(plugins[0] == plugin),
        Plugin::Store => assert(plugins[1] == plugin),
        Plugin::SingleInstance => assert(plugins[2] == plugin),
        Plugin::OsInfo => assert(plugins[3] == plugin),
    }
}

} // verus!
