//! Project configuration: built-in defaults, `mana.json`, the `"mana"` key of
//! `package.json`, and command-line flags, layered by priority.
use vstd::prelude::*;
use crate::json::{JsonValue, json_parse, parse_json};

verus! {

/// Resolved build configuration of a project, with the repository metadata.
#[derive(Clone, Debug, PartialEq)]
pub struct ManaConfig {
    pub src: String,
    pub out: String,
    pub target: String,
    pub minify: bool,
    pub platform: String,
    /// From `repositoryName` (or `name` at the top of `package.json`).
    pub repository_name: Option<String>,
    /// From `thumbnail`.
    pub thumbnail: Option<String>,
}

/// Where the build settings were taken from.
#[derive(PartialEq, Eq, Structural, Clone, Copy, Debug)]
pub enum ConfigSource {
    ManaJson,
    PackageManaKey,
    PackageWithoutManaKey,
    Defaults,
}

/// `Some` value of `o`, or `d`.
pub open spec fn or_keep<T>(o: Option<T>, d: T) -> T {
    match o {
        Some(x) => x,
        None => d,
    }
}

/// `a` where it is `Some`, else `b`.
pub open spec fn first_some<T>(a: Option<T>, b: Option<T>) -> Option<T> {
    if a is Some {
        a
    } else {
        b
    }
}

/// The view of a `Some` text, or `d`.
pub open spec fn text_or(o: Option<String>, d: Seq<char>) -> Seq<char> {
    match o {
        Some(s) => s@,
        None => d,
    }
}

impl ConfigSource {
    /// The words that name this source in the log.
    pub open spec fn description(self) -> Seq<char> {
        match self {
            ConfigSource::ManaJson => "mana.json"@,
            ConfigSource::PackageManaKey => "package.json (\"mana\" key)"@,
            ConfigSource::PackageWithoutManaKey => "defaults (no \"mana\" key in package.json)"@,
            ConfigSource::Defaults => "defaults"@,
        }
    }

    /// The words that name this source in the log.
    pub fn describe(&self) -> (r: &'static str)
        ensures
            r@ == self.description(),
    {
        match self {
            ConfigSource::ManaJson => "mana.json",
            ConfigSource::PackageManaKey => "package.json (\"mana\" key)",
            ConfigSource::PackageWithoutManaKey => "defaults (no \"mana\" key in package.json)",
            ConfigSource::Defaults => "defaults",
        }
    }
}

impl ManaConfig {
    /// The built-in defaults: `src`, `dist`, `esnext`, minified, `browser`, no metadata.
    pub open spec fn is_default(self) -> bool {
        &&& self.src@ == "src"@
        &&& self.out@ == "dist"@
        &&& self.target@ == "esnext"@
        &&& self.minify
        &&& self.platform@ == "browser"@
        &&& self.repository_name is None
        &&& self.thumbnail is None
    }

    /// This configuration with the build settings that `v` holds written over it.
    pub open spec fn merged_build(self, v: JsonValue) -> ManaConfig {
        ManaConfig {
            src: or_keep(v.str_member("src"@), self.src),
            out: or_keep(v.str_member("out"@), self.out),
            target: or_keep(v.str_member("target"@), self.target),
            minify: or_keep(v.bool_member("minify"@), self.minify),
            platform: or_keep(v.str_member("platform"@), self.platform),
            ..self
        }
    }

    /// This configuration with the metadata that `v` holds written over it.
    pub open spec fn merged_metadata(self, v: JsonValue) -> ManaConfig {
        ManaConfig {
            repository_name: first_some(v.str_member("repositoryName"@), self.repository_name),
            thumbnail: first_some(v.str_member("thumbnail"@), self.thumbnail),
            ..self
        }
    }

    /// The built-in defaults.
    pub fn defaults() -> (c: Self)
        ensures
            c.is_default(),
    {
        ManaConfig {
            src: "src".to_string(),
            out: "dist".to_string(),
            target: "esnext".to_string(),
            minify: true,
            platform: "browser".to_string(),
            repository_name: None,
            thumbnail: None,
        }
    }

    /// Writes the build settings present in `v` (`src`, `out`, `target`,
    /// `minify`, `platform`) over this configuration; others stay.
    pub fn merge_build_json(&mut self, v: &JsonValue)
        ensures
            *final(self) == old(self).merged_build(*v),
    {
        if let Some(s) = v.get_str("src") {
            self.src = s;
        }
        if let Some(s) = v.get_str("out") {
            self.out = s;
        }
        if let Some(s) = v.get_str("target") {
            self.target = s;
        }
        if let Some(b) = v.get_bool("minify") {
            self.minify = b;
        }
        if let Some(s) = v.get_str("platform") {
            self.platform = s;
        }
    }

    /// Writes the metadata present in `v` (`repositoryName`, `thumbnail`)
    /// over this configuration; others stay.
    pub fn merge_metadata_json(&mut self, v: &JsonValue)
        ensures
            *final(self) == old(self).merged_metadata(*v),
    {
        if let Some(s) = v.get_str("repositoryName") {
            self.repository_name = Some(s);
        }
        if let Some(s) = v.get_str("thumbnail") {
            self.thumbnail = Some(s);
        }
    }
}


/// The document that carries the build settings: `mana.json` where it was
/// read, else the `"mana"` member of `package.json`.
pub open spec fn build_layer(package: Option<JsonValue>, mana: Option<JsonValue>) -> Option<JsonValue> {
    match mana {
        Some(m) => Some(m),
        None => match package {
            Some(p) => p.member("mana"@),
            None => None,
        },
    }
}

/// The text member `key` of an optional document.
pub open spec fn layer_str(layer: Option<JsonValue>, key: Seq<char>) -> Option<String> {
    match layer {
        Some(v) => v.str_member(key),
        None => None,
    }
}

/// The boolean member `key` of an optional document.
pub open spec fn layer_bool(layer: Option<JsonValue>, key: Seq<char>) -> Option<bool> {
    match layer {
        Some(v) => v.bool_member(key),
        None => None,
    }
}

/// The repository name that the top of `package.json` gives: its
/// `repositoryName`, else its `name`.
pub open spec fn package_repository_name(package: Option<JsonValue>) -> Option<String> {
    match package {
        Some(p) => first_some(p.str_member("repositoryName"@), p.str_member("name"@)),
        None => None,
    }
}

/// Which source the build settings come from.
pub open spec fn config_source(package: Option<JsonValue>, mana: Option<JsonValue>) -> ConfigSource {
    if mana is Some {
        ConfigSource::ManaJson
    } else {
        match package {
            Some(p) => if p.member("mana"@) is Some {
                ConfigSource::PackageManaKey
            } else {
                ConfigSource::PackageWithoutManaKey
            },
            None => ConfigSource::Defaults,
        }
    }
}

/// `c` is the configuration that the layers give, highest priority first:
/// command-line flags, then `mana.json` (or else the `"mana"` member of
/// `package.json`), then for the metadata the top of `package.json`, then the
/// built-in defaults.
pub open spec fn config_resolved(
    c: ManaConfig,
    cli_src: Option<String>,
    cli_out: Option<String>,
    package: Option<JsonValue>,
    mana: Option<JsonValue>,
) -> bool {
    let layer = build_layer(package, mana);
    &&& c.src@ == text_or(first_some(cli_src, layer_str(layer, "src"@)), "src"@)
    &&& c.out@ == text_or(first_some(cli_out, layer_str(layer, "out"@)), "dist"@)
    &&& c.target@ == text_or(layer_str(layer, "target"@), "esnext"@)
    &&& c.minify == or_keep(layer_bool(layer, "minify"@), true)
    &&& c.platform@ == text_or(layer_str(layer, "platform"@), "browser"@)
    &&& c.repository_name == first_some(
        layer_str(layer, "repositoryName"@),
        package_repository_name(package),
    )
    &&& c.thumbnail == first_some(
        layer_str(layer, "thumbnail"@),
        layer_str(package, "thumbnail"@),
    )
}

/// The document read from a file's text, where the file was read.
pub open spec fn parsed_file(text: Option<String>) -> Option<JsonValue> {
    match text {
        Some(t) => json_parse(t@),
        None => None,
    }
}

/// Resolves the configuration from the documents read from `package.json`
/// and `mana.json` (where they could be read and parsed) and the
/// command-line flags.
pub fn resolve_layers(
    cli_src: Option<String>,
    cli_out: Option<String>,
    package: Option<JsonValue>,
    mana: Option<JsonValue>,
) -> (r: (ManaConfig, ConfigSource))
    ensures
        config_resolved(r.0, cli_src, cli_out, package, mana),
        r.1 == config_source(package, mana),
{
    let mut cfg = ManaConfig::defaults();
    let source;
    if let Some(p) = &package {
        cfg.repository_name = match p.get_str("repositoryName") {
            Some(n) => Some(n),
            None => p.get_str("name"),
        };
        cfg.thumbnail = p.get_str("thumbnail");
    }
    if let Some(m) = &mana {
        cfg.merge_build_json(m);
        cfg.merge_metadata_json(m);
        source = ConfigSource::ManaJson;
    } else if let Some(p) = &package {
        if let Some(k) = p.get("mana") {
            cfg.merge_build_json(k);
            cfg.merge_metadata_json(k);
            source = ConfigSource::PackageManaKey;
        } else {
            source = ConfigSource::PackageWithoutManaKey;
        }
    } else {
        source = ConfigSource::Defaults;
    }
    if let Some(s) = cli_src {
        cfg.src = s;
    }
    if let Some(o) = cli_out {
        cfg.out = o;
    }
    (cfg, source)
}

/// Parses a configuration file's text; `None` where there was no text or
/// it is not JSON.
pub fn parse_config_file(text: Option<String>) -> (r: Option<JsonValue>)
    ensures
        r == parsed_file(text),
{
    match text {
        Some(t) => parse_json(t.as_str()),
        None => None,
    }
}

/// Resolves the configuration from the texts of `package.json` and
/// `mana.json` (where they could be read) and the command-line flags.
pub fn resolve_config(
    cli_src: Option<String>,
    cli_out: Option<String>,
    package_text: Option<String>,
    mana_text: Option<String>,
) -> (r: (ManaConfig, ConfigSource))
    ensures
        config_resolved(r.0, cli_src, cli_out, parsed_file(package_text), parsed_file(mana_text)),
        r.1 == config_source(parsed_file(package_text), parsed_file(mana_text)),
{
    let package = parse_config_file(package_text);
    let mana = parse_config_file(mana_text);
    resolve_layers(cli_src, cli_out, package, mana)
}


/// Command-line flags take priority over every configuration file: a given
/// source or output directory is the one used.
pub proof fn law_cli_flags_take_priority(
    c: ManaConfig,
    cli_src: Option<String>,
    cli_out: Option<String>,
    package: Option<JsonValue>,
    mana: Option<JsonValue>,
)
    requires
        config_resolved(c, cli_src, cli_out, package, mana),
    ensures
        cli_src matches Some(s) ==> c.src@ == s@,
        cli_out matches Some(o) ==> c.out@ == o@,
{
}

/// Where `mana.json` is read, each setting it gives is used (unless a flag
/// overrides the directory), and `package.json` has no say in the build
/// settings: two projects with the same `mana.json` build alike.
pub proof fn law_mana_json_takes_priority(
    c1: ManaConfig,
    c2: ManaConfig,
    cli_src: Option<String>,
    cli_out: Option<String>,
    package1: Option<JsonValue>,
    package2: Option<JsonValue>,
    m: JsonValue,
)
    requires
        config_resolved(c1, cli_src, cli_out, package1, Some(m)),
        config_resolved(c2, cli_src, cli_out, package2, Some(m)),
    ensures
        c1.src@ == c2.src@,
        c1.out@ == c2.out@,
        c1.target@ == c2.target@,
        c1.minify == c2.minify,
        c1.platform@ == c2.platform@,
        cli_src is None && m.str_member("src"@) is Some ==> c1.src@ == m.str_member("src"@)->0@,
        cli_out is None && m.str_member("out"@) is Some ==> c1.out@ == m.str_member("out"@)->0@,
        m.str_member("target"@) is Some ==> c1.target@ == m.str_member("target"@)->0@,
        m.bool_member("minify"@) is Some ==> c1.minify == m.bool_member("minify"@)->0,
        m.str_member("platform"@) is Some ==> c1.platform@ == m.str_member("platform"@)->0@,
        m.str_member("repositoryName"@) is Some ==> c1.repository_name == m.str_member(
            "repositoryName"@,
        ),
        m.str_member("thumbnail"@) is Some ==> c1.thumbnail == m.str_member("thumbnail"@),
{
}

/// Without `mana.json`, the `"mana"` member of `package.json` gives the
/// settings, above the top-level fields of `package.json` and the defaults.
pub proof fn law_package_mana_key_used_without_mana_json(
    c: ManaConfig,
    p: JsonValue,
    k: JsonValue,
)
    requires
        config_resolved(c, None, None, Some(p), None),
        p.member("mana"@) == Some(k),
    ensures
        k.str_member("src"@) is Some ==> c.src@ == k.str_member("src"@)->0@,
        k.str_member("out"@) is Some ==> c.out@ == k.str_member("out"@)->0@,
        k.str_member("target"@) is Some ==> c.target@ == k.str_member("target"@)->0@,
        k.bool_member("minify"@) is Some ==> c.minify == k.bool_member("minify"@)->0,
        k.str_member("platform"@) is Some ==> c.platform@ == k.str_member("platform"@)->0@,
        k.str_member("repositoryName"@) is Some ==> c.repository_name == k.str_member(
            "repositoryName"@,
        ),
        k.str_member("thumbnail"@) is Some ==> c.thumbnail == k.str_member("thumbnail"@),
{
}

/// The repository name falls back from the settings document to the
/// `repositoryName` of `package.json`, then to its `name`.
pub proof fn law_repository_name_fallback(c: ManaConfig, p: JsonValue, mana: Option<JsonValue>)
    requires
        config_resolved(c, None, None, Some(p), mana),
        layer_str(build_layer(Some(p), mana), "repositoryName"@) is None,
    ensures
        p.str_member("repositoryName"@) is Some ==> c.repository_name == p.str_member(
            "repositoryName"@,
        ),
        p.str_member("repositoryName"@) is None ==> c.repository_name == p.str_member("name"@),
{
}

/// Where the settings document (`mana.json`, else the `"mana"` member of
/// `package.json`) gives no text thumbnail, the thumbnail is the one at the
/// top of `package.json`, whether or not `mana.json` was read; where it gives
/// one, that one is used.
pub proof fn law_thumbnail_fallback(
    c: ManaConfig,
    cli_src: Option<String>,
    cli_out: Option<String>,
    p: JsonValue,
    mana: Option<JsonValue>,
)
    requires
        config_resolved(c, cli_src, cli_out, Some(p), mana),
    ensures
        (match mana {
            Some(m) => m.str_member("thumbnail"@) is None,
            None => p.member("mana"@) matches Some(k) ==> k.str_member("thumbnail"@) is None,
        }) ==> c.thumbnail == p.str_member("thumbnail"@),
        mana matches Some(m) ==> (m.str_member("thumbnail"@) is Some ==> c.thumbnail
            == m.str_member("thumbnail"@)),
{
}

/// With no configuration file and no flags, the built-in defaults are used.
pub proof fn law_defaults_without_files(c: ManaConfig)
    requires
        config_resolved(c, None, None, None, None),
    ensures
        c.is_default(),
        config_source(None, None) == ConfigSource::Defaults,
{
}

} // verus!
