use vstd::prelude::*;
use vstd::string::*;

verus! {

/// How to authenticate to the daemon's RPC interface.
#[derive(Clone, Debug, PartialEq, Eq)]
pub enum Auth {
    NoAuth,
    UserPass(String, String),
    CookieFile(String),
}

/// Daemon credentials whose password is never shown.
pub struct SensitiveAuth(pub Auth);

/// What `format!("{:?}", s)` gives for a string: the string quoted and escaped.
pub uninterp spec fn str_debug(s: Seq<char>) -> Seq<char>;

/// Calls `<str as Debug>::fmt`, whose output depends on the string alone; the
/// escaping rules are not stated.
#[verifier::external_body]
fn debug_quoted(s: &str) -> (r: String)
    ensures
        r@ == str_debug(s@),
{
    format!("{:?}", s)
}

/// What `format!("{:?}", p)` gives for a path `p` of the given text: the path
/// quoted and escaped.
pub uninterp spec fn path_debug(s: Seq<char>) -> Seq<char>;

/// Calls `<std::path::Path as Debug>::fmt` on the path of the given text,
/// whose output depends on that text alone; the escaping rules are not stated.
#[verifier::external_body]
fn debug_path(path: &str) -> (r: String)
    ensures
        r@ == path_debug(path@),
{
    format!("{:?}", std::path::Path::new(path))
}

/// The debug form of a cookie-file credential, given its path's debug form.
pub fn cookie_file_debug(quoted_path: &str) -> (r: String)
    ensures
        r@ == "CookieFile("@ + quoted_path@ + ")"@,
{
    let mut r = String::from_str("CookieFile(");
    r.append(quoted_path);
    r.append(")");
    r
}

/// The debug form of a user-and-password credential, given the user's debug
/// form; the password is shown as `"<sensitive>"`.
pub fn user_pass_debug(quoted_user: &str) -> (r: String)
    ensures
        r@ == "UserPass("@ + quoted_user@ + ", \"<sensitive>\")"@,
{
    let mut r = String::from_str("UserPass(");
    r.append(quoted_user);
    r.append(", \"<sensitive>\")");
    r
}

/// How credentials are shown: as their debug form (a cookie file's path shown
/// as a path, a user as a string), except that a password is replaced by
/// `"<sensitive>"`.
pub open spec fn sensitive_debug(auth: Auth) -> Seq<char> {
    match auth {
        Auth::NoAuth => "None"@,
        Auth::CookieFile(path) => "CookieFile("@ + path_debug(path@) + ")"@,
        Auth::UserPass(user, _) => "UserPass("@ + str_debug(user@) + ", \"<sensitive>\")"@,
    }
}

impl SensitiveAuth {
    /// A copy of the credentials.
    pub fn get_auth(&self) -> (r: Auth)
        ensures
            r == self.0,
    {
        match &self.0 {
            Auth::NoAuth => Auth::NoAuth,
            Auth::UserPass(user, pass) => Auth::UserPass(user.clone(), pass.clone()),
            Auth::CookieFile(path) => Auth::CookieFile(path.clone()),
        }
    }

    /// The debug form of the credentials, with any password hidden.
    pub fn debug_string(&self) -> (r: String)
        ensures
            r@ == sensitive_debug(self.0),
    {
        match &self.0 {
            Auth::NoAuth => String::from_str("None"),
            Auth::CookieFile(path) => {
                let quoted = debug_path(path.as_str());
                cookie_file_debug(quoted.as_str())
            },
            Auth::UserPass(user, _) => {
                let quoted = debug_quoted(user.as_str());
                user_pass_debug(quoted.as_str())
            },
        }
    }
}

/// The password never shows: credentials that differ only in their password
/// are shown alike.
pub proof fn lemma_password_hidden(user: String, pass1: String, pass2: String)
    ensures
        sensitive_debug(Auth::UserPass(user, pass1)) == sensitive_debug(Auth::UserPass(user, pass2)),
{
}

} // verus!
