//! Registry of loaded plugins.
//!
//! The registry keeps what is known of each loaded plugin and decides
//! whether a plugin has to be loaded at all. Opening the shared library is
//! the caller's part: it is handed in as a closure, which is called only for
//! a plugin that is not loaded yet.

use crate::names::NameTable;
use crate::text::str_eq;
use vstd::prelude::*;
use vstd::string::*;

verus! {

/// What a plugin says of itself.
#[derive(Debug, PartialEq, Eq)]
pub struct PluginInfo {
    /// Plugin name.
    pub name: String,
    /// Plugin version.
    pub version: String,
    /// Plugin author.
    pub author: String,
    /// Plugin description.
    pub description: String,
}

impl Clone for PluginInfo {
    fn clone(&self) -> (copy: Self)
        ensures
            copy == *self,
    {
        Self {
            name: self.name.clone(),
            version: self.version.clone(),
            author: self.author.clone(),
            description: self.description.clone(),
        }
    }
}

/// Whether the dot at position `i` is the last dot of the name.
pub open spec fn is_last_dot(name: Seq<char>, i: int) -> bool {
    &&& 0 <= i < name.len()
    &&& name[i] == '.'
    &&& forall|j: int| i < j < name.len() ==> name[j] != '.'
}

/// Whether the extension is that of a shared library: `so`, `dylib` or
/// `dll`, in lower case.
pub open spec fn is_library_extension(extension: Seq<char>) -> bool {
    extension == "so"@ || extension == "dylib"@ || extension == "dll"@
}

/// The name under which a file of the given name is loaded as a plugin:
/// what stands before the last dot of the file name, where that is not
/// empty and what stands after the dot is the extension of a shared
/// library. Any other file is no plugin.
pub open spec fn spec_plugin_name(file_name: Seq<char>) -> Option<Seq<char>> {
    if exists|i: int| is_last_dot(file_name, i) {
        let dot = choose|i: int| is_last_dot(file_name, i);
        if dot > 0 && is_library_extension(file_name.subrange(dot + 1, file_name.len() as int)) {
            Some(file_name.subrange(0, dot))
        } else {
            None
        }
    } else {
        None
    }
}

/// A name has at most one last dot.
pub proof fn lemma_last_dot_is_unique(name: Seq<char>, i: int, j: int)
    requires
        is_last_dot(name, i),
        is_last_dot(name, j),
    ensures
        i == j,
{
}

/// The name under which a file of the given name is loaded as a plugin, if
/// the file is a plugin at all.
pub fn plugin_name_of(file_name: &str) -> (name: Option<String>)
    ensures
        name is Some == spec_plugin_name(file_name@) is Some,
        name matches Some(found) ==> Some(found@) == spec_plugin_name(file_name@),
{
    let len = file_name.unicode_len();
    let mut dot: Option<usize> = None;
    let mut i: usize = 0;
    while i < len
        invariant
            i <= len,
            len == file_name@.len(),
            dot matches Some(d) ==> d < i && file_name@[d as int] == '.' && forall|j: int|
                d < j < i ==> file_name@[j] != '.',
            dot is None ==> forall|j: int| 0 <= j < i ==> file_name@[j] != '.',
        decreases len - i,
    {
        if file_name.get_char(i) == '.' {
            dot = Some(i);
        }
        i += 1;
    }
    match dot {
        None => {
            assert forall|k: int| !is_last_dot(file_name@, k) by {}
            None
        },
        Some(d) => {
            proof {
                assert(is_last_dot(file_name@, d as int));
                let chosen = choose|k: int| is_last_dot(file_name@, k);
                lemma_last_dot_is_unique(file_name@, chosen, d as int);
            }
            if d == 0 {
                return None;
            }
            let extension = file_name.substring_char(d + 1, len);
            if str_eq(extension, "so") || str_eq(extension, "dylib") || str_eq(extension, "dll") {
                Some(String::from_str(file_name.substring_char(0, d)))
            } else {
                None
            }
        },
    }
}

/// Why a plugin could not be loaded or unloaded.
#[derive(Debug, PartialEq, Eq)]
pub enum PluginError {
    /// The shared library could not be opened.
    LibraryNotLoaded(String),
    /// The shared library lacks an entry point that every plugin has.
    MissingExport(String),
    /// No plugin of the name is loaded.
    NotLoaded,
}

/// Registry of loaded plugins.
pub struct PluginRegistry {
    info: NameTable<PluginInfo>,
    search_paths: Vec<String>,
}

impl PluginRegistry {
    /// What is known of each loaded plugin.
    pub closed spec fn loaded(&self) -> Map<Seq<char>, PluginInfo> {
        self.info@
    }

    /// The names of the loaded plugins, in the order in which they were
    /// loaded.
    pub closed spec fn loaded_names(&self) -> Seq<Seq<char>> {
        self.info.names()
    }

    /// The directories in which plugins are looked for.
    pub closed spec fn paths(&self) -> Seq<Seq<char>> {
        self.search_paths@.map_values(|path: String| path@)
    }

    /// No plugin is loaded twice. Every registry that this library hands
    /// out is well formed, and every operation keeps it so.
    pub closed spec fn well_formed(&self) -> bool {
        self.info.well_formed()
    }

    /// A registry without plugins that looks into `./plugins`,
    /// `/usr/lib/enviro/plugins` and `/usr/local/lib/enviro/plugins`.
    pub fn new() -> (registry: Self)
        ensures
            registry.well_formed(),
            registry.loaded() == Map::<Seq<char>, PluginInfo>::empty(),
            registry.loaded_names() == Seq::<Seq<char>>::empty(),
            registry.paths() == seq![
                "./plugins"@,
                "/usr/lib/enviro/plugins"@,
                "/usr/local/lib/enviro/plugins"@,
            ],
    {
        let mut search_paths: Vec<String> = Vec::new();
        search_paths.push(String::from_str("./plugins"));
        search_paths.push(String::from_str("/usr/lib/enviro/plugins"));
        search_paths.push(String::from_str("/usr/local/lib/enviro/plugins"));
        let registry = Self { info: NameTable::new(), search_paths };
        assert(registry.paths() =~= seq![
            "./plugins"@,
            "/usr/lib/enviro/plugins"@,
            "/usr/local/lib/enviro/plugins"@,
        ]);
        registry
    }

    /// Adds a directory in which plugins are looked for.
    pub fn add_search_path(&mut self, path: String)
        ensures
            final(self).paths() == old(self).paths().push(path@),
            final(self).loaded() == old(self).loaded(),
            final(self).loaded_names() == old(self).loaded_names(),
            old(self).well_formed() ==> final(self).well_formed(),
    {
        self.search_paths.push(path);
        assert(self.paths() =~= old(self).paths().push(path@));
    }

    /// The directories in which plugins are looked for.
    pub fn search_paths(&self) -> (paths: &Vec<String>)
        ensures
            paths@.map_values(|path: String| path@) == self.paths(),
    {
        &self.search_paths
    }

    /// Whether a plugin of the name is loaded.
    pub fn is_loaded(&self, name: &str) -> (loaded: bool)
        requires
            self.well_formed(),
        ensures
            loaded == self.loaded().contains_key(name@),
    {
        self.info.contains_key(name)
    }

    /// Loads the plugin of the name from the shared library at `path`.
    ///
    /// A plugin that is loaded is left as it is, and `open` is not called.
    /// Otherwise `open` is called with the path. What it found of the
    /// plugin is kept under the name; its error is handed on, and nothing
    /// is kept.
    pub fn load_plugin<F>(&mut self, name: String, path: String, open: F) -> (outcome: Result<
        (),
        PluginError,
    >) where F: FnOnce(String) -> Result<PluginInfo, PluginError>
        requires
            old(self).well_formed(),
            !old(self).loaded().contains_key(name@) ==> open.requires((path,)),
        ensures
            final(self).well_formed(),
            final(self).paths() == old(self).paths(),
            old(self).loaded().contains_key(name@) ==> outcome is Ok && final(self).loaded() == old(
                self,
            ).loaded() && final(self).loaded_names() == old(self).loaded_names(),
            !old(self).loaded().contains_key(name@) ==> exists|found: Result<PluginInfo, PluginError>|
                #![auto]
                {
                    &&& open.ensures((path,), found)
                    &&& match found {
                        Ok(info) => outcome is Ok && final(self).loaded() == old(self).loaded().insert(
                            name@,
                            info,
                        ) && final(self).loaded_names() == old(self).loaded_names().push(name@),
                        Err(error) => outcome == Err::<(), PluginError>(error) && final(self).loaded()
                            == old(self).loaded() && final(self).loaded_names() == old(
                            self,
                        ).loaded_names(),
                    }
                },
    {
        if self.info.contains_key(name.as_str()) {
            return Ok(());
        }
        let found = open(path);
        match found {
            Ok(info) => {
                self.info.insert(name, info);
                Ok(())
            },
            Err(error) => Err(error),
        }
    }

    /// Unloads the plugin of the name. Where none is loaded the registry
    /// stays as it is and the call fails.
    pub fn unload_plugin(&mut self, name: &str) -> (outcome: Result<(), PluginError>)
        requires
            old(self).well_formed(),
        ensures
            final(self).well_formed(),
            final(self).paths() == old(self).paths(),
            final(self).loaded() == old(self).loaded().remove(name@),
            outcome == (if old(self).loaded().contains_key(name@) {
                Ok::<(), PluginError>(())
            } else {
                Err(PluginError::NotLoaded)
            }),
    {
        match self.info.remove(name) {
            Some(_) => Ok(()),
            None => Err(PluginError::NotLoaded),
        }
    }

    /// What is known of the loaded plugin of the name.
    pub fn get_plugin_info(&self, name: &str) -> (info: Option<&PluginInfo>)
        requires
            self.well_formed(),
        ensures
            info is Some == self.loaded().contains_key(name@),
            info matches Some(found) ==> *found == self.loaded()[name@],
    {
        self.info.get(name)
    }

    /// The names of the loaded plugins, in the order in which they were
    /// loaded.
    pub fn list_plugins(&self) -> (names: Vec<String>)
        requires
            self.well_formed(),
        ensures
            names@.map_values(|name: String| name@) == self.loaded_names(),
    {
        self.info.keys()
    }
}

impl Default for PluginRegistry {
    fn default() -> (registry: Self)
        ensures
            registry.well_formed(),
            registry.loaded() == Map::<Seq<char>, PluginInfo>::empty(),
    {
        Self::new()
    }
}

} // verus!
