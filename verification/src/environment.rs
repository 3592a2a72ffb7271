//! What the editor derives from its settings and its build for talking to the outside:
//! the HTTP user agent, the proxy, and where the Node.js runtime lives.

use vstd::prelude::*;

use url::Url;

verus! {

/// The user agent of the HTTP client: `Zed/{version} ({os}; {arch})`.
pub fn user_agent(version: &str, os: &str, arch: &str) -> (agent: String)
    ensures
        agent@ == "Zed/"@ + version@ + " ("@ + os@ + "; "@ + arch@ + ")"@,
{
    let mut agent = String::from_str("Zed/");
    agent.append(version);
    agent.append(" (");
    agent.append(os);
    agent.append("; ");
    agent.append(arch);
    agent.append(")");
    agent
}

#[verifier::external_type_specification]
#[verifier::external_body]
pub struct ExUrl(Url);

/// Whether `url::Url::parse` accepts `text` as an absolute URL.
pub uninterp spec fn url_parses(text: Seq<char>) -> bool;

/// Calls `url::Url::parse` (through `str::parse`) on `text`. Claimed: a URL comes back
/// exactly when the parse succeeds. Which URL comes back is not stated.
#[verifier::external_body]
fn parse_url(text: &str) -> (url: Option<Url>)
    ensures
        url is Some <==> url_parses(text@),
{
    text.parse::<Url>().ok()
}

/// The proxy the settings name, when they name one that parses as a URL. Otherwise the
/// caller falls back to the proxy the environment names.
pub fn proxy_from_settings(proxy: Option<&String>) -> (url: Option<Url>)
    ensures
        url is Some <==> (proxy matches Some(p) && url_parses(p@)),
{
    match proxy {
        Some(p) => parse_url(p.as_str()),
        None => None,
    }
}

/// `input` with a leading `~` replaced by the home directory: when `input` is `~` or
/// starts with `~/`, and there is a home directory; otherwise `input` itself.
pub open spec fn tilde_expanded(input: Seq<char>, home: Option<Seq<char>>) -> Seq<char> {
    if input.len() > 0 && input[0] == '~' && (input.len() == 1 || input[1] == '/') {
        match home {
            Some(h) => h + input.drop_first(),
            None => input,
        }
    } else {
        input
    }
}

/// Whether `expanded` is what expanding a leading `~` in `input` with the home directory
/// `home` gives. A `~` followed by `\` is expanded on Windows only, so there both outcomes
/// are admitted.
pub open spec fn tilde_expansion(input: Seq<char>, home: Option<Seq<char>>, expanded: Seq<char>) -> bool {
    if input.len() > 1 && input[0] == '~' && input[1] == '\\' {
        expanded == input || (home matches Some(h) && expanded == h + input.drop_first())
    } else {
        expanded == tilde_expanded(input, home)
    }
}

/// The text of a home directory, if there is one.
pub open spec fn home_text(home: Option<&String>) -> Option<Seq<char>> {
    match home {
        Some(h) => Some(h@),
        None => None,
    }
}

/// Calls `dirs::home_dir` and writes the path as text, as `shellexpand::tilde` does
/// (none when there is no home directory or it is not Unicode). The home directory comes
/// from the environment: nothing is claimed of it.
#[verifier::external_body]
fn home_dir() -> (home: Option<String>) {
    dirs::home_dir().and_then(|p| p.into_os_string().into_string().ok())
}

/// Calls `shellexpand::tilde_with_context` with `home` as the home directory. Claimed, as
/// its source shows: `~` alone or followed by `/` (or `\` on Windows) at the start is
/// replaced by `home` when there is one; any other input comes back unchanged.
#[verifier::external_body]
fn expand_tilde(input: &str, home: Option<&String>) -> (expanded: String)
    ensures
        tilde_expansion(input@, home_text(home), expanded@),
{
    shellexpand::tilde_with_context(input, || home).into_owned()
}

/// What `std::path::Path::parent` gives for `path`, written as text.
pub uninterp spec fn path_parent(path: Seq<char>) -> Option<Seq<char>>;

/// What `std::path::Path::join` gives for `base` and `name`, written as text.
pub uninterp spec fn path_join(base: Seq<char>, name: Seq<char>) -> Seq<char>;

/// Calls `std::path::Path::parent` on `path`. Claimed: the result is the one
/// `path_parent` names; as the parent of a UTF-8 path is a prefix of it, its text is
/// exact.
#[verifier::external_body]
fn parent_of(path: &str) -> (parent: Option<String>)
    ensures
        match parent {
            Some(p) => path_parent(path@) == Some(p@),
            None => path_parent(path@) is None,
        },
{
    std::path::Path::new(path).parent().map(|p| p.to_string_lossy().into_owned())
}

/// Calls `std::path::Path::join`. Claimed: the result is the one `path_join` names.
#[verifier::external_body]
fn join_path(base: &str, name: &str) -> (joined: String)
    ensures
        joined@ == path_join(base@, name@),
{
    std::path::Path::new(base).join(name).to_string_lossy().into_owned()
}

/// How the Node.js runtime may be found and installed.
pub struct NodeBinaryOptions {
    pub allow_path_lookup: bool,
    pub allow_binary_download: bool,
    /// The `node` and `npm` binaries the settings name, with `~` expanded.
    pub use_paths: Option<(String, String)>,
}

/// The `npm` that goes with a `node` binary when the settings name none: `npm` in the
/// directory of `node`.
pub open spec fn npm_beside(node: Seq<char>) -> Seq<char> {
    path_join(
        match path_parent(node) {
            Some(p) => p,
            None => Seq::empty(),
        },
        "npm"@,
    )
}

/// Whether `options` are the Node.js options of the project settings when the home
/// directory is `home`: the system's node is looked up unless the settings say to ignore
/// it, downloads are always allowed, and a node path in the settings (with `~` expanded)
/// is used, with the settings' npm path (with `~` expanded) or else the `npm` beside it.
pub open spec fn node_options_for(
    options: NodeBinaryOptions,
    ignore_system_version: bool,
    node_path: Option<&String>,
    npm_path: Option<&String>,
    home: Option<Seq<char>>,
) -> bool {
    &&& options.allow_path_lookup == !ignore_system_version
    &&& options.allow_binary_download
    &&& match node_path {
        None => options.use_paths is None,
        Some(node) => options.use_paths matches Some((n, m)) && {
            &&& tilde_expansion(node@, home, n@)
            &&& match npm_path {
                Some(npm) => tilde_expansion(npm@, home, m@),
                None => m@ == npm_beside(n@),
            }
        },
    }
}

/// A node path in the settings that starts with `~` (alone or followed by `/`) is used
/// under the home directory: the `~` is replaced by the home directory's path and the rest
/// of the setting follows it. With no `npm` path in the settings, `npm` is looked for
/// beside that expanded node.
pub proof fn lemma_node_path_under_home(
    options: NodeBinaryOptions,
    ignore_system_version: bool,
    node: &String,
    npm_path: Option<&String>,
    home: Seq<char>,
)
    requires
        node_options_for(options, ignore_system_version, Some(node), npm_path, Some(home)),
        node@.len() >= 1,
        node@[0] == '~',
        node@.len() == 1 || node@[1] == '/',
    ensures
        options.use_paths matches Some((n, m)) && n@ == home + node@.subrange(1, node@.len() as int)
            && (npm_path is None ==> m@ == npm_beside(home + node@.subrange(1, node@.len() as int))),
{
    assert(node@.drop_first() =~= node@.subrange(1, node@.len() as int));
}

/// A node or npm path in the settings that does not start with `~` is used as written,
/// whatever the home directory.
pub proof fn lemma_paths_without_tilde_are_kept(
    options: NodeBinaryOptions,
    ignore_system_version: bool,
    node: &String,
    npm_path: Option<&String>,
    home: Option<Seq<char>>,
)
    requires
        node_options_for(options, ignore_system_version, Some(node), npm_path, home),
        node@.len() == 0 || node@[0] != '~',
        npm_path matches Some(npm) ==> (npm@.len() == 0 || npm@[0] != '~'),
    ensures
        options.use_paths matches Some((n, m)) && n@ == node@
            && (npm_path matches Some(npm) ==> m@ == npm@),
{
}

/// With no node path in the settings none is used; the system's node is looked up unless
/// the settings ignore it, and downloads are allowed either way.
pub proof fn lemma_node_options_without_paths(
    options: NodeBinaryOptions,
    ignore_system_version: bool,
    npm_path: Option<&String>,
    home: Option<Seq<char>>,
)
    requires
        node_options_for(options, ignore_system_version, None, npm_path, home),
    ensures
        options.use_paths is None,
        options.allow_path_lookup != ignore_system_version,
        options.allow_binary_download,
{
}

/// The Node.js options of the project settings, with `home` as the home directory.
pub fn node_binary_options_with_home(
    ignore_system_version: bool,
    node_path: Option<&String>,
    npm_path: Option<&String>,
    home: Option<&String>,
) -> (options: NodeBinaryOptions)
    ensures
        node_options_for(options, ignore_system_version, node_path, npm_path, home_text(home)),
{
    let use_paths = match node_path {
        Some(node) => {
            let node_expanded = expand_tilde(node.as_str(), home);
            let npm = match npm_path {
                Some(npm) => expand_tilde(npm.as_str(), home),
                None => {
                    let base = match parent_of(node_expanded.as_str()) {
                        Some(p) => p,
                        None => String::new(),
                    };
                    join_path(base.as_str(), "npm")
                },
            };
            Some((node_expanded, npm))
        },
        None => None,
    };
    NodeBinaryOptions { allow_path_lookup: !ignore_system_version, allow_binary_download: true, use_paths }
}

/// The Node.js options of the project settings, with `~` expanded to this user's home
/// directory, read once from the environment.
pub fn node_binary_options(
    ignore_system_version: bool,
    node_path: Option<&String>,
    npm_path: Option<&String>,
) -> (options: NodeBinaryOptions)
    ensures
        exists|home: Option<Seq<char>>| node_options_for(options, ignore_system_version, node_path, npm_path, home),
{
    let home = home_dir();
    let home_ref = home.as_ref();
    let options = node_binary_options_with_home(ignore_system_version, node_path, npm_path, home_ref);
    assert(node_options_for(options, ignore_system_version, node_path, npm_path, home_text(home_ref)));
    options
}

} // verus!
