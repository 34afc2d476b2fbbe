use crate::provider::string_option_view;
use vstd::prelude::*;
use vstd::string::StrSliceExecFns;

verus! {

/// The scheme that links into the application use.
pub const SCHEME: &'static str = "vision";

/// The host of the login callback link.
pub const CALLBACK_HOST: &'static str = "auth";

/// The path of the login callback link.
pub const CALLBACK_PATH: &'static str = "/callback";

/// The parts of an incoming link that routing reads.
#[derive(Debug, Clone, PartialEq, Eq)]
pub struct LinkParts {
    pub scheme: String,
    pub host: Option<String>,
    pub path: String,
}

/// The last in-app route that a link asked for.
#[derive(Debug)]
pub struct DeepLinkState {
    last_route: Option<String>,
}

impl DeepLinkState {
    pub closed spec fn route(&self) -> Option<Seq<char>> {
        string_option_view(self.last_route)
    }

    /// A state with no route yet.
    pub fn new() -> (r: DeepLinkState)
        ensures
            r.route() is None,
    {
        DeepLinkState { last_route: None }
    }

    /// Remembers `route` as the latest one.
    pub fn set_route(&mut self, route: Option<String>)
        ensures
            final(self).route() == string_option_view(route),
    {
        self.last_route = route;
    }

    /// The latest route, if any.
    pub fn get_route(&self) -> (r: Option<String>)
        ensures
            string_option_view(r) == self.route(),
    {
        match &self.last_route {
            Some(s) => Some(s.clone()),
            None => None,
        }
    }
}

/// Whether two texts hold the same characters.
pub fn same_text(a: &str, b: &str) -> (r: bool)
    ensures
        r == (a@ == b@),
{
    let n = a.unicode_len();
    if n != b.unicode_len() {
        return false;
    }
    let mut i: usize = 0;
    while i < n
        invariant
            n == a@.len(),
            n == b@.len(),
            i <= n,
            forall|k: int| 0 <= k < i ==> a@[k] == b@[k],
        decreases n - i,
    {
        if a.get_char(i) != b.get_char(i) {
            return false;
        }
        i = i + 1;
    }
    assert(a@ =~= b@);
    true
}

/// Whether a link is the login callback `vision://auth/callback`.
pub open spec fn is_callback_link(scheme: Seq<char>, host: Option<Seq<char>>, path: Seq<char>) -> bool {
    scheme == SCHEME@ && host == Some(CALLBACK_HOST@) && path == CALLBACK_PATH@
}

/// Whether `link` is the login callback.
pub fn is_oauth_callback(link: &LinkParts) -> (r: bool)
    ensures
        r == is_callback_link(link.scheme@, string_option_view(link.host), link.path@),
{
    if !same_text(link.scheme.as_str(), SCHEME) {
        return false;
    }
    match &link.host {
        None => false,
        Some(h) => same_text(h.as_str(), CALLBACK_HOST) && same_text(link.path.as_str(), CALLBACK_PATH),
    }
}

/// `s` without its leading `/` characters.
pub open spec fn trim_leading(s: Seq<char>) -> Seq<char>
    decreases s.len(),
{
    if s.len() > 0 && s[0] == '/' {
        trim_leading(s.drop_first())
    } else {
        s
    }
}

/// `s` without its trailing `/` characters.
pub open spec fn trim_trailing(s: Seq<char>) -> Seq<char>
    decreases s.len(),
{
    if s.len() > 0 && s.last() == '/' {
        trim_trailing(s.drop_last())
    } else {
        s
    }
}

/// `s` without the `/` characters at either end.
pub open spec fn trim_slashes(s: Seq<char>) -> Seq<char> {
    trim_trailing(trim_leading(s))
}

/// `path` with the `/` characters at either end removed.
pub fn trim_slashes_of(path: &str) -> (r: &str)
    ensures
        r@ == trim_slashes(path@),
{
    let n = path.unicode_len();
    let mut i: usize = 0;
    assert(path@.subrange(0, n as int) =~= path@);
    while i < n && path.get_char(i) == '/'
        invariant
            n == path@.len(),
            i <= n,
            trim_leading(path@) == trim_leading(path@.subrange(i as int, n as int)),
        decreases n - i,
    {
        assert(path@.subrange(i as int, n as int).drop_first() =~= path@.subrange(
            i + 1,
            n as int,
        ));
        i = i + 1;
    }
    let mut j: usize = n;
    assert(path@.subrange(i as int, n as int) =~= path@.subrange(i as int, j as int));
    while j > i && path.get_char(j - 1) == '/'
        invariant
            n == path@.len(),
            i <= j <= n,
            trim_leading(path@) == path@.subrange(i as int, n as int),
            trim_slashes(path@) == trim_trailing(path@.subrange(i as int, j as int)),
        decreases j - i,
    {
        assert(path@.subrange(i as int, j as int).drop_last() =~= path@.subrange(
            i as int,
            j - 1,
        ));
        j = j - 1;
    }
    path.substring_char(i, j)
}

/// The in-app routes that a link may open.
pub open spec fn known_route(r: Seq<char>) -> bool {
    r == "home"@ || r == "projects"@ || r == "news"@ || r == "explore"@ || r == "media"@ || r
        == "settings"@ || r == "settings-debug"@ || r == "profile"@ || r == "editor"@ || r
        == "analytics"@ || r == "calendar"@ || r == "admin"@ || r == "roles"@ || r == "members"@
}

/// The route a link names: its host, unless that is empty or the callback
/// host, else its path without surrounding slashes.
pub open spec fn named_route(host: Option<Seq<char>>, path: Seq<char>) -> Seq<char> {
    let h = match host {
        Some(h) => h,
        None => seq![],
    };
    if h.len() > 0 && h != CALLBACK_HOST@ {
        h
    } else {
        trim_slashes(path)
    }
}

/// The in-app route a link of the application's scheme asks for, when it is a known one.
pub open spec fn route_of(scheme: Seq<char>, host: Option<Seq<char>>, path: Seq<char>) -> Option<
    Seq<char>,
> {
    if scheme == SCHEME@ && known_route(named_route(host, path)) {
        Some(named_route(host, path))
    } else {
        None
    }
}

fn is_known_route(r: &str) -> (b: bool)
    ensures
        b == known_route(r@),
{
    same_text(r, "home") || same_text(r, "projects") || same_text(r, "news") || same_text(
        r,
        "explore",
    ) || same_text(r, "media") || same_text(r, "settings") || same_text(r, "settings-debug")
        || same_text(r, "profile") || same_text(r, "editor") || same_text(r, "analytics")
        || same_text(r, "calendar") || same_text(r, "admin") || same_text(r, "roles") || same_text(
        r,
        "members",
    )
}

/// The in-app route that `link` asks for, if it is one the application knows.
pub fn extract_route(link: &LinkParts) -> (r: Option<String>)
    ensures
        string_option_view(r) == route_of(link.scheme@, string_option_view(link.host), link.path@),
{
    if !same_text(link.scheme.as_str(), SCHEME) {
        return None;
    }
    let use_host = match &link.host {
        Some(h) => h.unicode_len() > 0 && !same_text(h.as_str(), CALLBACK_HOST),
        None => false,
    };
    let route: &str = if use_host {
        link.host.as_ref().unwrap().as_str()
    } else {
        trim_slashes_of(link.path.as_str())
    };
    if is_known_route(route) {
        Some(route.to_owned())
    } else {
        None
    }
}

} // verus!
