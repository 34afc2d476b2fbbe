use vstd::prelude::*;

verus! {

/// The identity provider a login runs against.
///
/// Extra parameters are kept as ordered pairs; a key may occur more than once.
#[derive(Debug)]
pub struct ProviderConfig {
    pub client_id: String,
    pub client_secret: Option<String>,
    pub authorization_endpoint: String,
    pub token_endpoint: String,
    pub redirect_uri: String,
    pub scopes: Vec<String>,
    pub extra_auth_params: Option<Vec<(String, String)>>,
    pub extra_token_params: Option<Vec<(String, String)>>,
}

/// What a provider configuration says, as character sequences.
pub struct ProviderView {
    pub client_id: Seq<char>,
    pub client_secret: Option<Seq<char>>,
    pub authorization_endpoint: Seq<char>,
    pub token_endpoint: Seq<char>,
    pub redirect_uri: Seq<char>,
    pub scopes: Seq<Seq<char>>,
    pub extra_auth_params: Option<Seq<(Seq<char>, Seq<char>)>>,
    pub extra_token_params: Option<Seq<(Seq<char>, Seq<char>)>>,
}

pub open spec fn string_option_view(o: Option<String>) -> Option<Seq<char>> {
    match o {
        Some(s) => Some(s@),
        None => None,
    }
}

pub open spec fn pairs_option_view(o: Option<Vec<(String, String)>>) -> Option<
    Seq<(Seq<char>, Seq<char>)>,
> {
    match o {
        Some(v) => Some(pairs_view(v@)),
        None => None,
    }
}

impl View for ProviderConfig {
    type V = ProviderView;

    open spec fn view(&self) -> ProviderView {
        ProviderView {
            client_id: self.client_id@,
            client_secret: string_option_view(self.client_secret),
            authorization_endpoint: self.authorization_endpoint@,
            token_endpoint: self.token_endpoint@,
            redirect_uri: self.redirect_uri@,
            scopes: strings_view(self.scopes@),
            extra_auth_params: pairs_option_view(self.extra_auth_params),
            extra_token_params: pairs_option_view(self.extra_token_params),
        }
    }
}

/// The pairs of an optional parameter list; none when it is absent.
pub open spec fn extra_pairs(o: Option<Seq<(Seq<char>, Seq<char>)>>) -> Seq<(Seq<char>, Seq<char>)> {
    match o {
        Some(v) => v,
        None => seq![],
    }
}

/// A query or form parameter list as character sequences.
pub open spec fn pairs_view(v: Seq<(String, String)>) -> Seq<(Seq<char>, Seq<char>)> {
    v.map_values(|p: (String, String)| (p.0@, p.1@))
}

pub open spec fn strings_view(v: Seq<String>) -> Seq<Seq<char>> {
    v.map_values(|s: String| s@)
}

/// Words joined with single spaces.
pub open spec fn join_spaced(words: Seq<Seq<char>>) -> Seq<char>
    decreases words.len(),
{
    if words.len() == 0 {
        seq![]
    } else if words.len() == 1 {
        words[0]
    } else {
        join_spaced(words.drop_last()) + seq![' '] + words.last()
    }
}

pub fn clone_string_option(o: &Option<String>) -> (r: Option<String>)
    ensures
        r == *o,
{
    match o {
        Some(s) => Some(s.clone()),
        None => None,
    }
}

pub fn clone_strings(v: &Vec<String>) -> (r: Vec<String>)
    ensures
        r@ == v@,
{
    let mut r: Vec<String> = Vec::new();
    let mut i: usize = 0;
    while i < v.len()
        invariant
            i <= v@.len(),
            r@ == v@.subrange(0, i as int),
        decreases v@.len() - i,
    {
        r.push(v[i].clone());
        i = i + 1;
    }
    assert(r@ =~= v@);
    r
}

pub fn clone_pairs(v: &Vec<(String, String)>) -> (r: Vec<(String, String)>)
    ensures
        r@ == v@,
{
    let mut r: Vec<(String, String)> = Vec::new();
    let mut i: usize = 0;
    while i < v.len()
        invariant
            i <= v@.len(),
            r@ == v@.subrange(0, i as int),
        decreases v@.len() - i,
    {
        let (k, x) = &v[i];
        r.push((k.clone(), x.clone()));
        i = i + 1;
    }
    assert(r@ =~= v@);
    r
}

pub fn clone_pairs_option(o: &Option<Vec<(String, String)>>) -> (r: Option<Vec<(String, String)>>)
    ensures
        pairs_option_view(r) == pairs_option_view(*o),
{
    match o {
        Some(v) => Some(clone_pairs(v)),
        None => None,
    }
}

impl ProviderConfig {
    /// A copy equal to `self` in every field.
    pub fn duplicate(&self) -> (r: ProviderConfig)
        ensures
            r@ == self@,
    {
        ProviderConfig {
            client_id: self.client_id.clone(),
            client_secret: clone_string_option(&self.client_secret),
            authorization_endpoint: self.authorization_endpoint.clone(),
            token_endpoint: self.token_endpoint.clone(),
            redirect_uri: self.redirect_uri.clone(),
            scopes: clone_strings(&self.scopes),
            extra_auth_params: clone_pairs_option(&self.extra_auth_params),
            extra_token_params: clone_pairs_option(&self.extra_token_params),
        }
    }
}

/// The scopes as one space-separated `scope` value.
pub fn join_scopes(scopes: &Vec<String>) -> (r: String)
    ensures
        r@ == join_spaced(strings_view(scopes@)),
{
    if scopes.len() == 0 {
        return String::new();
    }
    let mut r = scopes[0].clone();
    let mut i: usize = 1;
    proof {
        reveal_strlit(" ");
        assert(strings_view(scopes@).subrange(0, 1) =~= seq![scopes@[0]@]);
    }
    while i < scopes.len()
        invariant
            1 <= i <= scopes@.len(),
            r@ == join_spaced(strings_view(scopes@).subrange(0, i as int)),
            " "@ == seq![' '],
        decreases scopes@.len() - i,
    {
        let ghost before = strings_view(scopes@).subrange(0, i as int);
        r.append(" ");
        r.append(scopes[i].as_str());
        proof {
            let after = strings_view(scopes@).subrange(0, i + 1);
            assert(after.drop_last() =~= before);
        }
        i = i + 1;
    }
    assert(strings_view(scopes@).subrange(0, scopes@.len() as int) =~= strings_view(scopes@));
    r
}

} // verus!
