//! Node configuration: the settings kept in `config.toml`, their defaults,
//! and the locations derived from the user's home directory.

use vstd::prelude::*;
use crate::text::concat3;

verus! {

/// How paths are written: `/`-separated (unix), or with backslash and `/` as
/// separators and backslash written between components (Windows).
#[derive(Debug, Clone, Copy, PartialEq, Eq, Structural)]
pub enum PathStyle {
    Unix,
    Windows,
}

/// Whether `c` separates path components.
pub open spec fn is_separator(style: PathStyle, c: char) -> bool {
    c == '/' || (style == PathStyle::Windows && c == '\\')
}

/// The separator written between path components.
pub open spec fn separator(style: PathStyle) -> char {
    if style == PathStyle::Windows {
        '\\'
    } else {
        '/'
    }
}

/// Whether `c` separates path components.
pub fn is_separator_char(style: PathStyle, c: char) -> (r: bool)
    ensures
        r == is_separator(style, c),
{
    match style {
        PathStyle::Unix => c == '/',
        PathStyle::Windows => c == '/' || c == '\\',
    }
}

/// Whether `c` is an ASCII letter (a drive letter).
pub open spec fn is_drive_letter(c: char) -> bool {
    ('a' <= c && c <= 'z') || ('A' <= c && c <= 'Z')
}

/// Whether a Windows path starts with a drive (`C:`).
pub open spec fn has_drive(style: PathStyle, p: Seq<char>) -> bool {
    style == PathStyle::Windows && p.len() >= 2 && is_drive_letter(p[0]) && p[1] == ':'
}

/// Whether a Windows path is a drive alone (`C:`).
pub open spec fn is_bare_drive(style: PathStyle, p: Seq<char>) -> bool {
    has_drive(style, p) && p.len() == 2
}

/// Whether `c` is an ASCII letter.
pub fn is_drive_letter_char(c: char) -> (r: bool)
    ensures
        r == is_drive_letter(c),
{
    ('a' <= c && c <= 'z') || ('A' <= c && c <= 'Z')
}

/// `name` placed under the directory `base`. No separator is written after
/// a base that ends with one, nor after a bare Windows drive (`C:` and
/// `x` give `C:x`, a path relative to that drive).
pub open spec fn path_join(style: PathStyle, base: Seq<char>, name: Seq<char>) -> Seq<char> {
    if base.len() == 0 {
        name
    } else if is_separator(style, base.last()) || is_bare_drive(style, base) {
        base + name
    } else {
        base + seq![separator(style)] + name
    }
}

/// Place `name` under the directory `base`.
pub fn join_path(style: PathStyle, base: &str, name: &str) -> (r: String)
    ensures
        r@ == path_join(style, base@, name@),
{
    let n: usize = base.unicode_len();
    let bare_drive = style == PathStyle::Windows && n == 2 && is_drive_letter_char(base.get_char(0))
        && base.get_char(1) == ':';
    if n == 0 {
        String::from_str(name)
    } else if is_separator_char(style, base.get_char(n - 1)) || bare_drive {
        String::from_str(base).concat(name)
    } else {
        match style {
            PathStyle::Unix => {
                proof {
                    reveal_strlit("/");
                }
                concat3(base, "/", name)
            },
            PathStyle::Windows => {
                proof {
                    reveal_strlit("\\");
                }
                concat3(base, "\\", name)
            },
        }
    }
}

/// Default config directory: `<home>/.gforce-node`.
pub fn config_dir(style: PathStyle, home: &str) -> (r: String)
    ensures
        r@ == path_join(style, home@, ".gforce-node"@),
{
    join_path(style, home, ".gforce-node")
}

/// Default workspace root for sandboxed operations: `<home>/gforce-workspaces`.
pub fn default_workspace_root(style: PathStyle, home: &str) -> (r: String)
    ensures
        r@ == path_join(style, home@, "gforce-workspaces"@),
{
    join_path(style, home, "gforce-workspaces")
}

/// The settings of an enrolled node.
#[derive(Debug, Clone)]
pub struct NodeConfig {
    /// Gforce server host (e.g. "gforce.nearminds.org").
    pub server: String,
    /// Permanent node auth token, presented as `Authorization: Bearer`.
    pub node_token: String,
    /// Server-assigned node UUID.
    pub node_id: Option<String>,
    /// Server-assigned infrastructure UUID.
    pub infrastructure_id: Option<String>,
    /// Workspace root for sandboxed file operations.
    pub workspace_root: String,
    /// Whether to use TLS (`wss://`, `https://`).
    pub use_tls: bool,
    /// Allowed command prefixes (empty = restricted mode).
    pub allowed_commands: Vec<String>,
    /// Allow any shell command.
    pub unrestricted_mode: bool,
    /// Heartbeat interval in seconds.
    pub heartbeat_interval_seconds: u64,
}

/// Default for `use_tls`.
pub fn default_true() -> (r: bool)
    ensures
        r,
{
    true
}

/// Default heartbeat interval, in seconds.
pub fn default_heartbeat_interval() -> (r: u64)
    ensures
        r == 30,
{
    30
}

/// The views of a list of strings.
pub open spec fn string_views(v: Seq<String>) -> Seq<Seq<char>> {
    v.map_values(|s: String| s@)
}

/// The command prefixes allowed by default.
pub open spec fn default_allowed_command_names() -> Seq<Seq<char>> {
    seq![
        "git"@, "npm"@, "npx"@, "node"@, "pip"@, "python"@, "python3"@, "pytest"@, "cargo"@,
        "rustc"@, "go"@, "make"@, "docker"@, "ls"@, "cat"@, "find"@, "grep"@, "wc"@, "head"@,
        "tail"@,
    ]
}

/// Default allow-list of command prefixes.
pub fn default_allowed_commands() -> (r: Vec<String>)
    ensures
        string_views(r@) == default_allowed_command_names(),
{
    let mut v: Vec<String> = Vec::new();
    v.push(String::from_str("git"));
    v.push(String::from_str("npm"));
    v.push(String::from_str("npx"));
    v.push(String::from_str("node"));
    v.push(String::from_str("pip"));
    v.push(String::from_str("python"));
    v.push(String::from_str("python3"));
    v.push(String::from_str("pytest"));
    v.push(String::from_str("cargo"));
    v.push(String::from_str("rustc"));
    v.push(String::from_str("go"));
    v.push(String::from_str("make"));
    v.push(String::from_str("docker"));
    v.push(String::from_str("ls"));
    v.push(String::from_str("cat"));
    v.push(String::from_str("find"));
    v.push(String::from_str("grep"));
    v.push(String::from_str("wc"));
    v.push(String::from_str("head"));
    v.push(String::from_str("tail"));
    assert(string_views(v@) =~= default_allowed_command_names());
    v
}

/// The WebSocket URL of a server.
pub open spec fn ws_url_of(use_tls: bool, server: Seq<char>) -> Seq<char> {
    (if use_tls {
        "wss://"@
    } else {
        "ws://"@
    }) + server + "/api/v1/nodes/ws"@
}

impl NodeConfig {
    /// Build the WebSocket URL from config.
    pub fn ws_url(&self) -> (r: String)
        ensures
            r@ == ws_url_of(self.use_tls, self.server@),
    {
        let scheme = if self.use_tls {
            "wss://"
        } else {
            "ws://"
        };
        concat3(scheme, self.server.as_str(), "/api/v1/nodes/ws")
    }
}

} // verus!

verus! {

/// The default allow-list is exactly these twenty commands, in this order.
pub proof fn law_default_allow_list()
    ensures
        default_allowed_command_names().len() == 20,
        default_allowed_command_names()[0] == "git"@,
        default_allowed_command_names()[1] == "npm"@,
        default_allowed_command_names()[2] == "npx"@,
        default_allowed_command_names()[3] == "node"@,
        default_allowed_command_names()[4] == "pip"@,
        default_allowed_command_names()[5] == "python"@,
        default_allowed_command_names()[6] == "python3"@,
        default_allowed_command_names()[7] == "pytest"@,
        default_allowed_command_names()[8] == "cargo"@,
        default_allowed_command_names()[9] == "rustc"@,
        default_allowed_command_names()[10] == "go"@,
        default_allowed_command_names()[11] == "make"@,
        default_allowed_command_names()[12] == "docker"@,
        default_allowed_command_names()[13] == "ls"@,
        default_allowed_command_names()[14] == "cat"@,
        default_allowed_command_names()[15] == "find"@,
        default_allowed_command_names()[16] == "grep"@,
        default_allowed_command_names()[17] == "wc"@,
        default_allowed_command_names()[18] == "head"@,
        default_allowed_command_names()[19] == "tail"@,
{
}

} // verus!

verus! {

/// Joining puts exactly one separator between a base and a name: none
/// where the base is empty, already ends with a separator, or is a bare
/// Windows drive; otherwise `/` on unix and a backslash on Windows.
pub proof fn law_join_separator(style: PathStyle, base: Seq<char>, name: Seq<char>)
    ensures
        base.len() == 0 ==> path_join(style, base, name) == name,
        base.len() > 0 && base.last() == '/' ==> path_join(style, base, name) == base + name,
        base.len() > 0 && base.last() != '/' && style == PathStyle::Unix ==> path_join(
            style,
            base,
            name,
        ) == base + seq!['/'] + name,
        base.len() > 0 && base.last() != '/' && base.last() != '\\' && !(base.len() == 2
            && base[1] == ':' && (('a' <= base[0] && base[0] <= 'z') || ('A' <= base[0] && base[0]
            <= 'Z'))) && style == PathStyle::Windows ==> path_join(style, base, name) == base
            + seq!['\\'] + name,
        style == PathStyle::Windows && base.len() == 2 && base[1] == ':' && (('a' <= base[0]
            && base[0] <= 'z') || ('A' <= base[0] && base[0] <= 'Z')) ==> path_join(style, base, name)
            == base + name,
{
}

/// The three server URLs use the secure scheme exactly when TLS is on.
pub proof fn law_websocket_url(server: Seq<char>)
    ensures
        ws_url_of(true, server) == "wss://"@ + server + "/api/v1/nodes/ws"@,
        ws_url_of(false, server) == "ws://"@ + server + "/api/v1/nodes/ws"@,
{
}

} // verus!
