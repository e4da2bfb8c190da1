//! The configuration: where plugins go and which plugins there are.

use crate::paths::{expand_path, expand_spec, expand_user_path, has_home_marker, join_spec};
use crate::plugin::Plugin;
use vstd::prelude::*;

verus! {

/// The persisted configuration.
#[derive(Clone, Debug, PartialEq, Eq)]
pub struct Config {
    /// The directory that plugins are extracted into.
    pub plugin_dir: String,
    /// The plugins, in the order of the file; new entries go at the end.
    pub plugins: Vec<Plugin>,
}

impl Config {
    /// Appends one plugin to the list, leaving everything else as it was.
    pub fn add_plugin(&mut self, plugin: Plugin)
        ensures
            final(self).plugins@ == old(self).plugins@.push(plugin),
            final(self).plugin_dir == old(self).plugin_dir,
    {
        self.plugins.push(plugin);
    }

    /// Expands a leading home marker of the plugin directory against `home`.
    pub fn expand_plugin_dir(&mut self, home: &str)
        ensures
            final(self).plugin_dir@ == expand_spec(old(self).plugin_dir@, home@),
            final(self).plugins == old(self).plugins,
    {
        let dir = expand_path(self.plugin_dir.as_str(), home);
        self.plugin_dir = dir;
    }

    /// Expands a leading home marker of the plugin directory against the
    /// user's home directory, as is done on every load. Returns `false`, with
    /// the configuration unchanged, when the marker is there and the home
    /// directory cannot be found.
    pub fn resolve_plugin_dir(&mut self) -> (found: bool)
        ensures
            final(self).plugins == old(self).plugins,
            !has_home_marker(old(self).plugin_dir@) ==> found && final(self).plugin_dir@
                == old(self).plugin_dir@,
            !found ==> final(self).plugin_dir == old(self).plugin_dir,
            found ==> exists|home: Seq<char>|
                final(self).plugin_dir@ == expand_spec(old(self).plugin_dir@, home),
    {
        match expand_user_path(self.plugin_dir.as_str()) {
            Some(dir) => {
                self.plugin_dir = dir;
                true
            },
            None => false,
        }
    }
}

/// Loading a configuration, appending one plugin, saving and loading again:
/// where the saved text reads back as the same directory and list, the
/// reloaded list is the first one followed by the new entry, and the
/// directory, expanded on the first load, is left as it is by the second,
/// for any home directory that is not empty and does not itself start with
/// the marker.
pub proof fn lemma_append_reload(
    dir: Seq<char>,
    plugins: Seq<Plugin>,
    plugin: Plugin,
    home: Seq<char>,
)
    requires
        home.len() > 0,
        !has_home_marker(home),
    ensures
        expand_spec(expand_spec(dir, home), home) == expand_spec(dir, home),
        plugins.push(plugin).len() == plugins.len() + 1,
        plugins.push(plugin).subrange(0, plugins.len() as int) == plugins,
        plugins.push(plugin).last() == plugin,
{
    lemma_expanded_has_no_marker(dir, home);
    assert(plugins.push(plugin).subrange(0, plugins.len() as int) =~= plugins);
}

/// Expanding a marked path against a non-empty home without the marker
/// gives a path without the marker.
proof fn lemma_expanded_has_no_marker(dir: Seq<char>, home: Seq<char>)
    requires
        home.len() > 0,
        !has_home_marker(home),
    ensures
        has_home_marker(dir) ==> !has_home_marker(expand_spec(dir, home)),
{
    if has_home_marker(dir) && dir.len() > 1 {
        let rest = dir.subrange(2, dir.len() as int);
        let e = join_spec(home, rest);
        assert(e[0] == home[0]);
        if home.len() > 1 {
            assert(e[1] == home[1]);
        }
    }
}

} // verus!
