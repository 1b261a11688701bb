use vstd::prelude::*;

use crate::paths::{join_path, joined};
use crate::settings::{
    describe_error, group_at, item_text, list_at, parse_table, parsed_document, table_contains,
    table_entries, table_group, table_items, table_text, table_text_list, text_at, TomlItem,
};

verus! {

/// An Apple operating system that a bundle can be built for.
#[allow(non_camel_case_types)]
#[derive(Clone, Copy, Debug, PartialEq, Eq, Structural, Hash)]
pub enum Platform {
    macOS,
    iOS,
}

/// A processor architecture that a bundle can be built for.
#[allow(non_camel_case_types)]
#[derive(Clone, Copy, Debug, PartialEq, Eq, Structural, Hash)]
pub enum Architecture {
    x86_64,
    aarch64,
}

/// The operating-system part of Rust's target triple for a platform.
pub open spec fn platform_text(p: Platform) -> Seq<char> {
    match p {
        Platform::iOS => "ios"@,
        Platform::macOS => "darwin"@,
    }
}

/// The architecture part of Rust's target triple.
pub open spec fn architecture_text(a: Architecture) -> Seq<char> {
    match a {
        Architecture::x86_64 => "x86_64"@,
        Architecture::aarch64 => "aarch64"@,
    }
}

impl Platform {
    /// The platform's name as Rust's target triples spell it.
    pub fn to_string(&self) -> (r: String)
        ensures
            r@ == platform_text(*self),
    {
        match self {
            Platform::iOS => String::from_str("ios"),
            Platform::macOS => String::from_str("darwin"),
        }
    }
}

impl Architecture {
    /// The architecture's name as Rust's target triples spell it.
    pub fn to_string(&self) -> (r: String)
        ensures
            r@ == architecture_text(*self),
    {
        match self {
            Architecture::x86_64 => String::from_str("x86_64"),
            Architecture::aarch64 => String::from_str("aarch64"),
        }
    }
}

/// The view of an optional string.
pub open spec fn opt_text(o: Option<String>) -> Option<Seq<char>> {
    match o {
        Some(s) => Some(s@),
        None => None,
    }
}

/// The settings of the `[package.metadata.cargo-ipa]` table of `Cargo.toml`.
#[derive(Debug, Clone, PartialEq, Eq)]
pub struct ToolConfig {
    /// The bundle's human-readable name (`name`).
    pub name: Option<String>,
    /// The files that declare the Swift bridges (`swift-bridges`), as written.
    pub swift_bridges: Option<Vec<String>>,
    /// The Swift package to link in (`swift-library`), as written.
    pub swift_library: Option<String>,
    /// The `Info.plist` entries given under `properties`, each key once.
    pub properties: Vec<(String, String)>,
}

/// `entries` lists the entries of the table `g` once each, a value by its text.
pub open spec fn entries_match(entries: Seq<(String, String)>, g: Map<Seq<char>, TomlItem>) -> bool {
    &&& forall|i: int| 0 <= i < entries.len() ==> g.contains_key(#[trigger] entries[i].0@)
    &&& forall|i: int| 0 <= i < entries.len() ==> item_text(g[#[trigger] entries[i].0@]) is Some
        ==> entries[i].1@ == item_text(g[entries[i].0@])->Some_0
    &&& forall|i: int, j: int| 0 <= i < j < entries.len() ==> entries[i].0@ != entries[j].0@
    &&& forall|k: Seq<char>| #[trigger] g.contains_key(k) ==> exists|i: int| 0 <= i < entries.len() && entries[i].0@ == k
}

/// `texts` are the strings of `items`, in order.
pub open spec fn texts_match(texts: Seq<String>, items: Seq<TomlItem>) -> bool {
    &&& texts.len() == items.len()
    &&& forall|i: int| 0 <= i < items.len() ==> (#[trigger] items[i]) is Text && texts[i]@ == items[i]->Text_0
}

/// Every element of the `swift-bridges` array, if there is one, is a string.
pub open spec fn bridges_valid(cfg: Map<Seq<char>, TomlItem>) -> bool {
    match list_at(cfg, "swift-bridges"@) {
        Some(items) => forall|i: int| 0 <= i < items.len() ==> (#[trigger] items[i]) is Text,
        None => true,
    }
}

/// `c` holds what the tool's table `cfg` says.
pub open spec fn config_matches(c: ToolConfig, cfg: Map<Seq<char>, TomlItem>) -> bool {
    &&& opt_text(c.name) == text_at(cfg, "name"@)
    &&& opt_text(c.swift_library) == text_at(cfg, "swift-library"@)
    &&& (c.swift_bridges is Some <==> list_at(cfg, "swift-bridges"@) is Some)
    &&& c.swift_bridges is Some ==> texts_match(c.swift_bridges->Some_0@, list_at(cfg, "swift-bridges"@)->Some_0)
    &&& match group_at(cfg, "properties"@) {
        Some(g) => entries_match(c.properties@, g),
        None => c.properties@.len() == 0,
    }
}

/// The `package` table of a document.
pub open spec fn package_of(doc: Map<Seq<char>, TomlItem>) -> Option<Map<Seq<char>, TomlItem>> {
    group_at(doc, "package"@)
}

/// What stands under `metadata.cargo-ipa` in the package table, if anything.
pub open spec fn tool_item(pkg: Map<Seq<char>, TomlItem>) -> Option<TomlItem> {
    match group_at(pkg, "metadata"@) {
        Some(md) => if md.contains_key("cargo-ipa"@) {
            Some(md["cargo-ipa"@])
        } else {
            None
        },
        None => None,
    }
}

/// The tool's table, where `metadata.cargo-ipa` is a table.
pub open spec fn tool_table(pkg: Map<Seq<char>, TomlItem>) -> Option<Map<Seq<char>, TomlItem>> {
    match tool_item(pkg) {
        Some(TomlItem::Group(m)) => Some(m),
        _ => None,
    }
}

pub open spec fn msg_no_package_name() -> Seq<char> {
    "Invalid Cargo.toml detected! Failed to get package name."@
}

pub open spec fn msg_no_package_version() -> Seq<char> {
    "Invalid Cargo.toml detected! Failed to get package version."@
}

pub open spec fn msg_bad_bridges() -> Seq<char> {
    "Invalid `swift-bridges` setting: every entry must be a path string."@
}

/// Why a parsed `Cargo.toml` cannot describe a project, if it cannot.
pub open spec fn manifest_error(doc: Map<Seq<char>, TomlItem>) -> Option<Seq<char>> {
    match package_of(doc) {
        None => Some(msg_no_package_name()),
        Some(pkg) => if text_at(pkg, "name"@) is None {
            Some(msg_no_package_name())
        } else if text_at(pkg, "version"@) is None {
            Some(msg_no_package_version())
        } else if tool_table(pkg) is Some && !bridges_valid(tool_table(pkg)->Some_0) {
            Some(msg_bad_bridges())
        } else {
            None
        },
    }
}

/// The bundle's name: the one asked for, else the configured one, else the
/// package name.
pub open spec fn resolved_name(name_arg: Option<Seq<char>>, configured: Option<Seq<char>>, id: Seq<char>) -> Seq<char> {
    match name_arg {
        Some(n) => n,
        None => match configured {
            Some(n) => n,
            None => id,
        },
    }
}

/// The project's context, for the project whose root directory is `root_dir`.
#[derive(Debug, Clone, PartialEq, Eq)]
pub struct Ctx {
    /// The tool's settings in `Cargo.toml`, if it has them.
    pub cfg: Option<ToolConfig>,
    /// The package name, as listed in `Cargo.toml`.
    pub project_id: String,
    /// The human-readable name of the project.
    pub project_name: String,
    /// The package version, as listed in `Cargo.toml`.
    pub project_version: String,
    /// Path to `Cargo.toml`.
    pub cargo_toml: String,
    /// Path to `target/`.
    pub target_dir: String,
    /// Path to the root of the project.
    pub root_dir: String,
    /// Path to `target/cargo-ipa`.
    pub cargo_ipa_dir: String,
    /// Whether Cargo must rebuild the package before each target is compiled.
    pub force_cargo_recompile: bool,
    /// Whether `metadata.cargo-ipa` was there but was no table, and so was ignored.
    pub ignored_config: bool,
}

/// `c` is the context that `doc` gives for a project rooted at `root`.
pub open spec fn ctx_matches(c: Ctx, doc: Map<Seq<char>, TomlItem>, name_arg: Option<Seq<char>>, root: Seq<char>) -> bool {
    let pkg = package_of(doc)->Some_0;
    let id = text_at(pkg, "name"@)->Some_0;
    let configured = match tool_table(pkg) {
        Some(t) => text_at(t, "name"@),
        None => None,
    };
    &&& c.project_id@ == id
    &&& c.project_version@ == text_at(pkg, "version"@)->Some_0
    &&& c.project_name@ == resolved_name(name_arg, configured, id)
    &&& c.root_dir@ == root
    &&& c.cargo_toml@ == joined(root, "Cargo.toml"@)
    &&& c.target_dir@ == joined(root, "target"@)
    &&& c.cargo_ipa_dir@ == joined(joined(root, "target"@), "cargo-ipa"@)
    &&& !c.force_cargo_recompile
    &&& (c.cfg is Some <==> tool_table(pkg) is Some)
    &&& c.cfg is Some ==> config_matches(c.cfg->Some_0, tool_table(pkg)->Some_0)
    &&& c.ignored_config == (tool_item(pkg) is Some && tool_table(pkg) is None)
}

/// Reads the tool's table.
fn read_tool_config(t: &toml::Table) -> (r: Result<ToolConfig, String>)
    ensures
        !bridges_valid(table_items(*t)) ==> r is Err && r->Err_0@ == msg_bad_bridges(),
        bridges_valid(table_items(*t)) ==> r is Ok && config_matches(r->Ok_0, table_items(*t)),
{
    let name = table_text(t, "name");
    let swift_library = table_text(t, "swift-library");
    let swift_bridges = match table_text_list(t, "swift-bridges") {
        None => None,
        Some(list) => {
            let ghost items = list_at(table_items(*t), "swift-bridges"@)->Some_0;
            let mut texts: Vec<String> = Vec::new();
            let mut i: usize = 0;
            while i < list.len()
                invariant
                    i <= list@.len() == items.len(),
                    list_at(table_items(*t), "swift-bridges"@) == Some(items),
                    forall|j: int| 0 <= j < items.len() ==> {
                        &&& (#[trigger] list@[j] is Some <==> items[j] is Text)
                        &&& list@[j] is Some ==> list@[j]->Some_0@ == items[j]->Text_0
                    },
                    texts@.len() == i,
                    forall|j: int| 0 <= j < i ==> (#[trigger] items[j]) is Text && texts@[j]@ == items[j]->Text_0,
                decreases list@.len() - i,
            {
                match &list[i] {
                    Some(s) => texts.push(s.clone()),
                    None => {
                        assert(!(items[i as int] is Text));
                        assert(list_at(table_items(*t), "swift-bridges"@) == Some(items));
                        assert(!bridges_valid(table_items(*t)));
                        return Err(String::from_str("Invalid `swift-bridges` setting: every entry must be a path string."));
                    },
                }
                i = i + 1;
            }
            Some(texts)
        },
    };
    let properties = match table_group(t, "properties") {
        Some(g) => table_entries(&g),
        None => Vec::new(),
    };
    Ok(ToolConfig { name, swift_bridges, swift_library, properties })
}

impl Ctx {
    /// Resolves the project whose `Cargo.toml`, at the root directory
    /// `root_dir`, holds `manifest`. The bundle is named `name_arg` where that is
    /// given, else by the tool's `name` setting, else by the package name.
    pub fn new(name_arg: &Option<String>, root_dir: &str, manifest: &str) -> (r: Result<Ctx, String>)
        ensures
            parsed_document(manifest@) is None ==> r is Err && "Failed to parse Cargo.toml: "@.is_prefix_of(r->Err_0@),
            parsed_document(manifest@) is Some ==> match manifest_error(parsed_document(manifest@)->Some_0) {
                Some(msg) => r is Err && r->Err_0@ == msg,
                None => r is Ok && ctx_matches(r->Ok_0, parsed_document(manifest@)->Some_0, opt_text(*name_arg), root_dir@),
            },
    {
        match parse_table(manifest) {
            Ok(doc) => Ctx::from_manifest(&doc, name_arg, root_dir),
            Err(e) => {
                let mut msg = String::from_str("Failed to parse Cargo.toml: ");
                let ghost prefix = msg@;
                let detail = describe_error(&e);
                msg.append(detail.as_str());
                assert(msg@.subrange(0, prefix.len() as int) =~= prefix);
                Err(msg)
            },
        }
    }

    /// Resolves the project from its parsed `Cargo.toml`, as [`Ctx::new`] does.
    pub fn from_manifest(doc: &toml::Table, name_arg: &Option<String>, root_dir: &str) -> (r: Result<Ctx, String>)
        ensures
            match manifest_error(table_items(*doc)) {
                Some(msg) => r is Err && r->Err_0@ == msg,
                None => r is Ok && ctx_matches(r->Ok_0, table_items(*doc), opt_text(*name_arg), root_dir@),
            },
    {
        let pkg = match table_group(doc, "package") {
            Some(pkg) => pkg,
            None => return Err(String::from_str("Invalid Cargo.toml detected! Failed to get package name.")),
        };
        let project_id = match table_text(&pkg, "name") {
            Some(id) => id,
            None => return Err(String::from_str("Invalid Cargo.toml detected! Failed to get package name.")),
        };
        let project_version = match table_text(&pkg, "version") {
            Some(v) => v,
            None => return Err(String::from_str("Invalid Cargo.toml detected! Failed to get package version.")),
        };

        let mut ignored_config = false;
        let cfg = match table_group(&pkg, "metadata") {
            None => None,
            Some(md) => match table_group(&md, "cargo-ipa") {
                Some(t) => Some(read_tool_config(&t)?),
                None => {
                    ignored_config = table_contains(&md, "cargo-ipa");
                    None
                },
            },
        };

        let project_name = match name_arg {
            Some(n) => n.clone(),
            None => match &cfg {
                Some(c) => match &c.name {
                    Some(n) => n.clone(),
                    None => project_id.clone(),
                },
                None => project_id.clone(),
            },
        };
        proof {
            assert(project_name@ == resolved_name(opt_text(*name_arg), opt_text(match cfg { Some(c) => c.name, None => None }), project_id@));
        }

        let cargo_toml = join_path(root_dir, "Cargo.toml");
        let target_dir = join_path(root_dir, "target");
        let cargo_ipa_dir = join_path(target_dir.as_str(), "cargo-ipa");
        Ok(Ctx {
            cfg,
            project_id,
            project_name,
            project_version,
            cargo_toml,
            target_dir,
            root_dir: String::from_str(root_dir),
            cargo_ipa_dir,
            force_cargo_recompile: false,
            ignored_config,
        })
    }
}

} // verus!
