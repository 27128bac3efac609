//! Assembles the plugin registry for a build: for every discovered plugin
//! crate, reads its package name from its manifest and its plugin
//! configuration from `plugin.toml`, and answers which plugins contribute a
//! UI. Walking the plugin tree and rewriting the workspace manifests is the
//! embedder's job; this module decides what they hold.

use vstd::prelude::*;

use crate::linker::{strings_view, Error};

verus! {

/// A plugin's configuration as declared in its `plugin.toml`: its name and
/// the capabilities it advertises.
#[derive(Debug)]
pub struct PluginConfig {
    pub name: String,
    pub features: Vec<String>,
}

impl PluginConfig {
    /// Whether the plugin advertises a UI.
    pub fn has_gui(&self) -> (r: bool)
        ensures
            r == (exists|i: int|
                0 <= i < self.features@.len() && (#[trigger] self.features@[i])@ == "Gui"@),
    {
        let gui = String::from_str("Gui");
        let mut i: usize = 0;
        #[verifier::loop_isolation(false)]
        while i < self.features.len()
            invariant
                i <= self.features.len(),
                gui@ == "Gui"@,
                forall|k: int| 0 <= k < i ==> (#[trigger] self.features@[k])@ != "Gui"@,
            decreases self.features.len() - i,
        {
            if self.features[i].eq(&gui) {
                return true;
            }
            i = i + 1;
        }
        false
    }
}

/// One discovered plugin crate: where it lives, what its package is
/// called, and what its plugin configuration declares.
#[derive(Debug)]
pub struct PluginCrate {
    /// The plugin crate's directory, as path components.
    pub path: Vec<String>,
    /// The package name from the crate's manifest.
    pub package_name: String,
    /// The plugin configuration from the crate's `plugin.toml`.
    pub config: PluginConfig,
}

/// What a plugin manifest text declares, if it parses: the plugin's name
/// and its feature list.
pub uninterp spec fn toml_plugin_manifest(s: Seq<char>) -> Option<(Seq<char>, Seq<Seq<char>>)>;

/// Relies on `toml::from_str` and the `Table` and `Value` lookups `get`,
/// `as_str` and `as_array`: parses a plugin manifest and reads its `name`
/// string and its `features` string list (absent features mean none). The
/// result is a function of the text alone.
#[verifier::external_body]
fn toml_plugin_parts(text: &str) -> (r: Option<(String, Vec<String>)>)
    ensures
        r is Some <==> toml_plugin_manifest(text@) is Some,
        r matches Some(p) ==> toml_plugin_manifest(text@) == Option::Some(
            (p.0@, strings_view(p.1@)),
        ),
{
    let table: toml::Table = toml::from_str(text).ok()?;
    let name = table.get("name")?.as_str()?.to_owned();
    let features: Vec<String> = match table.get("features") {
        None => Vec::new(),
        Some(v) => v
            .as_array()?
            .iter()
            .map(|x| x.as_str().map(|s| s.to_owned()))
            .collect::<Option<Vec<String>>>()?,
    };
    Some((name, features))
}

/// The texts a discovered plugin crate was read from: its directory, its
/// manifest, and its `plugin.toml`.
pub struct PluginCrateTexts {
    /// The plugin crate's directory, as path components.
    pub path: Vec<String>,
    /// The crate's manifest text.
    pub cargo_text: String,
    /// The crate's `plugin.toml` text.
    pub plugin_text: String,
}

/// Assembles the plugin registry from the discovered crates' texts, in
/// discovery order. A crate whose manifest is not valid TOML, or lacks a
/// package name, or whose plugin configuration does not parse, fails the
/// whole gathering with an error — a broken plugin stops the build.
pub fn gather_plugins(inputs: &Vec<PluginCrateTexts>) -> (r: Result<Vec<PluginCrate>, Error>)
    ensures
        r is Ok <==> (forall|i: int|
            0 <= i < inputs@.len() ==> (crate::linker::toml_pkg_name(
                (#[trigger] inputs@[i]).cargo_text@,
            ) matches Option::Some(inner) && inner is Some) && toml_plugin_manifest(
                inputs@[i].plugin_text@,
            ) is Some),
        r matches Ok(v) ==> {
            &&& v@.len() == inputs@.len()
            &&& forall|i: int|
                0 <= i < v@.len() ==> {
                    &&& crate::linker::toml_pkg_name((#[trigger] inputs@[i]).cargo_text@)
                        == Option::Some(Option::Some(v@[i].package_name@))
                    &&& (toml_plugin_manifest(inputs@[i].plugin_text@) matches Option::Some(m)
                        && m.0 == v@[i].config.name@ && m.1 == strings_view(
                        v@[i].config.features@,
                    ))
                    &&& strings_view(v@[i].path@) == strings_view(inputs@[i].path@)
                }
        },
{
    let mut out: Vec<PluginCrate> = Vec::new();
    let mut idx: usize = 0;
    let n = inputs.len();
    #[verifier::loop_isolation(false)]
    while idx < n
        invariant
            idx <= n,
            out@.len() == idx,
            forall|i: int|
                0 <= i < idx ==> {
                    &&& crate::linker::toml_pkg_name((#[trigger] inputs@[i]).cargo_text@)
                        == Option::Some(Option::Some(out@[i].package_name@))
                    &&& (toml_plugin_manifest(inputs@[i].plugin_text@) matches Option::Some(m)
                        && m.0 == out@[i].config.name@ && m.1 == strings_view(
                        out@[i].config.features@,
                    ))
                    &&& strings_view(out@[i].path@) == strings_view(inputs@[i].path@)
                },
        decreases n - idx,
    {
        let item = &inputs[idx];
        let package_name = match crate::linker::read_package_name(
            &item.path,
            item.cargo_text.as_str(),
        ) {
            Ok(Option::Some(p)) => p.0,
            Ok(Option::None) => {
                return Err(crate::linker::err("plugin crate manifest has no package name"));
            },
            Err(e) => {
                return Err(e);
            },
        };
        let parts = match toml_plugin_parts(item.plugin_text.as_str()) {
            Option::Some(parts) => parts,
            Option::None => {
                return Err(crate::linker::err("plugin configuration does not parse"));
            },
        };
        let path = crate::linker::clone_components(&item.path);
        out.push(
            PluginCrate {
                path,
                package_name,
                config: PluginConfig { name: parts.0, features: parts.1 },
            },
        );
        idx = idx + 1;
    }
    Ok(out)
}

} // verus!
