use vstd::prelude::*;
use vstd::string::*;

verus! {

/// A path with one more component, as Unix paths are extended: an absolute
/// component replaces the path, a relative one follows it after a `/`, which
/// is left out when the path is empty or already ends in one.
pub open spec fn joined(base: Seq<char>, component: Seq<char>) -> Seq<char> {
    if component.len() > 0 && component[0] == '/' {
        component
    } else if base.len() == 0 || base.last() == '/' {
        base + component
    } else {
        base + seq!['/'] + component
    }
}

/// Extends a path by one component.
pub fn join_path(base: &str, component: &str) -> (r: String)
    ensures
        r@ == joined(base@, component@),
{
    let n = base.unicode_len();
    let m = component.unicode_len();
    if m > 0 && component.get_char(0) == '/' {
        return component.to_owned();
    }
    let mut r = base.to_owned();
    if n > 0 && base.get_char(n - 1) != '/' {
        r.append("/");
        proof {
            reveal_strlit("/");
        }
    }
    r.append(component);
    r
}

/// The default data directory of the daemon: `.bitcoin` in the home directory.
pub fn default_daemon_dir(home: &str) -> (r: String)
    ensures
        r@ == joined(home@, ".bitcoin"@),
{
    join_path(home, ".bitcoin")
}

/// The configuration files read, in order: `electrs.toml` in the working
/// directory, `.electrs/config.toml` in the home directory when it is known,
/// and the system-wide `/etc/electrs/config.toml`.
pub fn default_config_files(home: Option<&str>) -> (r: Vec<String>)
    ensures
        r@.len() == (if home is Some { 3int } else { 2int }),
        r@[0]@ == "electrs.toml"@,
        home matches Some(h) ==> r@[1]@ == joined(joined(h@, ".electrs"@), "config.toml"@),
        r@[r@.len() - 1]@ == "/etc/electrs/config.toml"@,
{
    let mut files: Vec<String> = Vec::new();
    files.push(String::from_str("electrs.toml"));
    if let Some(h) = home {
        let dir = join_path(h, ".electrs");
        files.push(join_path(dir.as_str(), "config.toml"));
    }
    files.push(String::from_str("/etc/electrs/config.toml"));
    files
}

} // verus!
