//! Request parsing and sanitizing: a raw link string becomes a validated
//! `InstallRequest` or a typed rejection reason.

use vstd::prelude::*;
use vstd::string::*;

verus! {

/// Why a link was rejected. Each variant names the first rule the link broke,
/// in the order the rules are checked.
#[derive(Clone, Copy, PartialEq, Eq, Structural, Debug)]
pub enum Reject {
    /// The string is not a well-formed URI at all.
    MalformedUri,
    /// The scheme is not `matrix`.
    UnsupportedScheme,
    /// The authority is not `install`, the one supported action.
    UnsupportedAction,
    /// No `entity` query parameter.
    MissingEntity,
    /// No `alias` query parameter.
    MissingAlias,
    /// `entity` is empty or longer than 256 characters.
    InvalidEntity,
    /// `alias` is empty, longer than 64 characters, or holds a character
    /// outside `[A-Za-z0-9_-]`.
    InvalidAlias,
    /// `hub` is present but does not start with `http://` or `https://`.
    InvalidHub,
}

/// Mathematical image of an `InstallRequest`.
pub struct ReqView {
    pub entity: Seq<char>,
    pub alias: Seq<char>,
    pub hub: Option<Seq<char>>,
}

/// A character permitted in an alias: ASCII alphanumeric, `-` or `_`.
pub open spec fn is_alias_char(c: char) -> bool {
    let u = c as u32;
    (97 <= u && u <= 122)  // a-z
     || (65 <= u && u <= 90)  // A-Z
     || (48 <= u && u <= 57)  // 0-9
     || u == 45  // -
     || u == 95  // _

}

/// An entity is 1 to 256 characters; its content is otherwise arbitrary.
pub open spec fn valid_entity(e: Seq<char>) -> bool {
    1 <= e.len() <= 256
}

/// An alias is 1 to 64 characters, all from `[A-Za-z0-9_-]`.
pub open spec fn valid_alias(a: Seq<char>) -> bool {
    &&& 1 <= a.len() <= 64
    &&& forall|i: int| 0 <= i < a.len() ==> is_alias_char(#[trigger] a[i])
}

/// `p` is a prefix of `s`.
pub open spec fn has_prefix(s: Seq<char>, p: Seq<char>) -> bool {
    p.len() <= s.len() && s.subrange(0, p.len() as int) == p
}

/// A hub override must start with `http://` or `https://`.
pub open spec fn valid_hub(h: Seq<char>) -> bool {
    has_prefix(h, "http://"@) || has_prefix(h, "https://"@)
}

/// View of an optional string.
pub open spec fn opt_view(o: Option<String>) -> Option<Seq<char>> {
    match o {
        Some(s) => Some(s@),
        None => None,
    }
}

/// Views of a sequence of key/value string pairs.
pub open spec fn pair_views(ps: Seq<(String, String)>) -> Seq<(Seq<char>, Seq<char>)> {
    ps.map_values(|p: (String, String)| (p.0@, p.1@))
}

/// The value of the first pair whose key is `key`, if any.
pub open spec fn first_value(pairs: Seq<(Seq<char>, Seq<char>)>, key: Seq<char>) -> Option<
    Seq<char>,
>
    decreases pairs.len(),
{
    if pairs.len() == 0 {
        None
    } else if pairs[0].0 == key {
        Some(pairs[0].1)
    } else {
        first_value(pairs.drop_first(), key)
    }
}

/// The sanitizing rules, applied to the parts of an already well-formed URI,
/// in order: scheme, action, presence of `entity` and `alias`, then validity
/// of `entity`, `alias` and the optional `hub`.
pub open spec fn sanitize_spec(
    scheme: Seq<char>,
    host: Option<Seq<char>>,
    pairs: Seq<(Seq<char>, Seq<char>)>,
) -> Result<ReqView, Reject> {
    if scheme != "matrix"@ {
        Err(Reject::UnsupportedScheme)
    } else if host != Some("install"@) {
        Err(Reject::UnsupportedAction)
    } else {
        match first_value(pairs, "entity"@) {
            None => Err(Reject::MissingEntity),
            Some(entity) => match first_value(pairs, "alias"@) {
                None => Err(Reject::MissingAlias),
                Some(alias) => {
                    if !valid_entity(entity) {
                        Err(Reject::InvalidEntity)
                    } else if !valid_alias(alias) {
                        Err(Reject::InvalidAlias)
                    } else {
                        match first_value(pairs, "hub"@) {
                            Some(h) => if !valid_hub(h) {
                                Err(Reject::InvalidHub)
                            } else {
                                Ok(ReqView { entity, alias, hub: Some(h) })
                            },
                            None => Ok(ReqView { entity, alias, hub: None }),
                        }
                    }
                },
            },
        }
    }
}

/// A validated install request. A value of this type exists only once every
/// sanitizing rule has passed; no partially valid instance is constructed.
#[derive(Debug)]
pub struct InstallRequest {
    pub(crate) entity: String,
    pub(crate) alias: String,
    pub(crate) hub: Option<String>,
}

impl View for InstallRequest {
    type V = ReqView;

    open(crate) spec fn view(&self) -> ReqView {
        ReqView { entity: self.entity@, alias: self.alias@, hub: opt_view(self.hub) }
    }
}

impl InstallRequest {
    /// The data-model invariant: every field has passed its validation rule.
    pub open spec fn wf(&self) -> bool {
        &&& valid_entity(self@.entity)
        &&& valid_alias(self@.alias)
        &&& match self@.hub {
            Some(h) => valid_hub(h),
            None => true,
        }
    }

    /// Opaque identifier of the thing to install.
    pub fn entity(&self) -> (r: &String)
        ensures
            r@ == self@.entity,
    {
        &self.entity
    }

    /// Local name for the installed entity.
    pub fn alias(&self) -> (r: &String)
        ensures
            r@ == self@.alias,
    {
        &self.alias
    }

    /// Optional override base URL for the package registry.
    pub fn hub(&self) -> (r: &Option<String>)
        ensures
            opt_view(*r) == self@.hub,
    {
        &self.hub
    }
}

/// The parts of a well-formed URI that the sanitizing rules read: scheme,
/// authority, and the query's key/value pairs in order, percent-decoded.
pub struct LinkParts {
    pub scheme: String,
    pub host: Option<String>,
    pub pairs: Vec<(String, String)>,
}

/// Whether the URI parser accepts the string.
pub uninterp spec fn link_parses(link: Seq<char>) -> bool;

/// The scheme of the parsed URI.
pub uninterp spec fn link_scheme(link: Seq<char>) -> Seq<char>;

/// The host (authority) of the parsed URI, if it has one.
pub uninterp spec fn link_host(link: Seq<char>) -> Option<Seq<char>>;

/// The query's key/value pairs, in order, percent-decoded.
pub uninterp spec fn link_query_pairs(link: Seq<char>) -> Seq<(Seq<char>, Seq<char>)>;

/// Relies on `url::Url::parse`, which accepts or rejects the string as a
/// whole URI, and on `Url::scheme`, `Url::host_str` and `Url::query_pairs`
/// to read the parsed parts. Each result is a function of the input string
/// alone, so the contract names them: `link_scheme`, `link_host`, and
/// `link_query_pairs`, the `&`-separated `key=value` pairs of the query in
/// order, percent-decoded.
#[verifier::external_body]
fn parse_link_parts(link: &str) -> (r: Option<LinkParts>)
    ensures
        r is Some <==> link_parses(link@),
        (r matches Some(p) ==> p.scheme@ == link_scheme(link@) && opt_view(p.host) == link_host(
            link@,
        ) && pair_views(p.pairs@) == link_query_pairs(link@)),
{
    match url::Url::parse(link) {
        Ok(u) => Some(
            LinkParts {
                scheme: u.scheme().to_string(),
                host: u.host_str().map(|h| h.to_string()),
                pairs: u.query_pairs().map(|(k, v)| (k.to_string(), v.to_string())).collect(),
            },
        ),
        Err(_) => None,
    }
}

/// Character-for-character string equality.
fn str_eq(a: &str, b: &str) -> (r: bool)
    ensures
        r == (a@ == b@),
{
    let alen = a.unicode_len();
    let blen = b.unicode_len();
    if alen != blen {
        return false;
    }
    let mut i: usize = 0;
    while i < alen
        invariant
            alen == a@.len(),
            alen == b@.len(),
            0 <= i <= alen,
            forall|j: int| 0 <= j < i ==> a@[j] == b@[j],
        decreases alen - i,
    {
        if a.get_char(i) != b.get_char(i) {
            return false;
        }
        i = i + 1;
    }
    proof {
        assert(a@ =~= b@);
    }
    true
}

/// Whether `p` is a prefix of `s`, character for character.
fn str_has_prefix(s: &str, p: &str) -> (r: bool)
    ensures
        r == has_prefix(s@, p@),
{
    let plen = p.unicode_len();
    if plen > s.unicode_len() {
        return false;
    }
    let mut i: usize = 0;
    while i < plen
        invariant
            plen == p@.len(),
            plen <= s@.len(),
            0 <= i <= plen,
            forall|j: int| 0 <= j < i ==> s@[j] == p@[j],
        decreases plen - i,
    {
        if s.get_char(i) != p.get_char(i) {
            proof {
                assert(s@.subrange(0, p@.len() as int)[i as int] == s@[i as int]);
            }
            return false;
        }
        i = i + 1;
    }
    proof {
        assert(s@.subrange(0, p@.len() as int) =~= p@);
    }
    true
}

/// Whether every character of `s` is permitted in an alias.
fn alias_chars_ok(s: &str) -> (r: bool)
    ensures
        r == (forall|i: int| 0 <= i < s@.len() ==> is_alias_char(#[trigger] s@[i])),
{
    let n = s.unicode_len();
    let mut i: usize = 0;
    while i < n
        invariant
            n == s@.len(),
            0 <= i <= n,
            forall|j: int| 0 <= j < i ==> is_alias_char(#[trigger] s@[j]),
        decreases n - i,
    {
        let c = s.get_char(i);
        let u: u32 = c as u32;
        if !((97 <= u && u <= 122) || (65 <= u && u <= 90) || (48 <= u && u <= 57) || u == 45 || u
            == 95) {
            return false;
        }
        i = i + 1;
    }
    true
}

/// The value of the first query pair named `key`, if any.
fn find_first(pairs: &Vec<(String, String)>, key: &str) -> (r: Option<String>)
    ensures
        opt_view(r) == first_value(pair_views(pairs@), key@),
{
    let n = pairs.len();
    let mut i: usize = 0;
    proof {
        assert(pair_views(pairs@).skip(0) =~= pair_views(pairs@));
    }
    while i < n
        invariant
            n == pairs@.len(),
            0 <= i <= n,
            first_value(pair_views(pairs@), key@) == first_value(
                pair_views(pairs@).skip(i as int),
                key@,
            ),
        decreases n - i,
    {
        proof {
            assert(pair_views(pairs@).skip(i as int)[0] == pair_views(pairs@)[i as int]);
            assert(pair_views(pairs@).skip(i as int).drop_first() =~= pair_views(pairs@).skip(
                i as int + 1,
            ));
        }
        if str_eq(pairs[i].0.as_str(), key) {
            return Some(pairs[i].1.clone());
        }
        i = i + 1;
    }
    proof {
        assert(pair_views(pairs@).skip(n as int) =~= Seq::<(Seq<char>, Seq<char>)>::empty());
    }
    None
}

/// View of an exec parsing result as the mathematical one.
pub open spec fn res_view(r: Result<InstallRequest, Reject>) -> Result<ReqView, Reject> {
    match r {
        Ok(q) => Ok(q@),
        Err(e) => Err(e),
    }
}

/// What parsing a link yields, at the specification level: `MalformedUri`
/// for a string the URI parser refuses, else the sanitizing rules applied to
/// the parsed parts.
pub open spec fn parse_spec(link: Seq<char>) -> Result<ReqView, Reject> {
    if !link_parses(link) {
        Err(Reject::MalformedUri)
    } else {
        sanitize_spec(link_scheme(link), link_host(link), link_query_pairs(link))
    }
}

/// Applies the sanitizing rules to already-parsed URI parts. The result is
/// exactly what `sanitize_spec` says for those parts; any request produced
/// satisfies the data-model invariant.
pub fn sanitize_parts(parts: &LinkParts) -> (r: Result<InstallRequest, Reject>)
    ensures
        res_view(r) == sanitize_spec(parts.scheme@, opt_view(parts.host), pair_views(parts.pairs@)),
        r matches Ok(q) ==> q.wf(),
{
    if !str_eq(parts.scheme.as_str(), "matrix") {
        return Err(Reject::UnsupportedScheme);
    }
    let host_ok = match &parts.host {
        Some(h) => str_eq(h.as_str(), "install"),
        None => false,
    };
    if !host_ok {
        return Err(Reject::UnsupportedAction);
    }
    let entity = match find_first(&parts.pairs, "entity") {
        Some(e) => e,
        None => {
            return Err(Reject::MissingEntity);
        },
    };
    let alias = match find_first(&parts.pairs, "alias") {
        Some(a) => a,
        None => {
            return Err(Reject::MissingAlias);
        },
    };
    let elen = entity.as_str().unicode_len();
    if elen == 0 || elen > 256 {
        return Err(Reject::InvalidEntity);
    }
    let alen = alias.as_str().unicode_len();
    if alen == 0 || alen > 64 || !alias_chars_ok(alias.as_str()) {
        return Err(Reject::InvalidAlias);
    }
    let hub = find_first(&parts.pairs, "hub");
    match &hub {
        Some(h) => {
            let ok = str_has_prefix(h.as_str(), "http://") || str_has_prefix(
                h.as_str(),
                "https://",
            );
            if !ok {
                return Err(Reject::InvalidHub);
            }
        },
        None => {},
    }
    Ok(InstallRequest { entity, alias, hub })
}

/// Turns a raw link string into a validated request or the first rejection
/// reason, in the checking order of the sanitizing rules. A string the URI
/// parser refuses is rejected as `MalformedUri`; any request produced
/// satisfies the data-model invariant.
pub fn parse_and_sanitize_link(link: &str) -> (r: Result<InstallRequest, Reject>)
    ensures
        res_view(r) == parse_spec(link@),
        r matches Ok(q) ==> q.wf(),
{
    match parse_link_parts(link) {
        Some(parts) => sanitize_parts(&parts),
        None => Err(Reject::MalformedUri),
    }
}

/// Law: a parsed link whose scheme is not `matrix` is rejected with
/// `UnsupportedScheme`, whatever the rest of the link holds; no request is
/// constructed from it.
pub proof fn lemma_unsupported_scheme(
    scheme: Seq<char>,
    host: Option<Seq<char>>,
    pairs: Seq<(Seq<char>, Seq<char>)>,
)
    requires
        scheme != "matrix"@,
    ensures
        sanitize_spec(scheme, host, pairs) == Err::<ReqView, Reject>(Reject::UnsupportedScheme),
{
}

/// Law: when the link passes the scheme, action and presence rules and its
/// entity is valid, an alias holding any character outside `[A-Za-z0-9_-]`
/// is rejected with `InvalidAlias`.
pub proof fn lemma_invalid_alias_char(
    scheme: Seq<char>,
    host: Option<Seq<char>>,
    pairs: Seq<(Seq<char>, Seq<char>)>,
    i: int,
)
    requires
        scheme == "matrix"@,
        host == Some("install"@),
        first_value(pairs, "entity"@) matches Some(e) && valid_entity(e),
        first_value(pairs, "alias"@) matches Some(a) && 0 <= i < a.len() && !is_alias_char(a[i]),
    ensures
        sanitize_spec(scheme, host, pairs) == Err::<ReqView, Reject>(Reject::InvalidAlias),
{
    match first_value(pairs, "alias"@) {
        Some(a) => {
            assert(!valid_alias(a));
        },
        None => {
            assert(false);
        },
    }
}

/// Law (round trip): when every rule passes — entity of 1 to 256 characters,
/// alias of 1 to 64 permitted characters, hub absent or well formed —
/// sanitizing succeeds and echoes entity, alias and hub unchanged.
pub proof fn lemma_valid_request_round_trip(
    scheme: Seq<char>,
    host: Option<Seq<char>>,
    pairs: Seq<(Seq<char>, Seq<char>)>,
    e: Seq<char>,
    a: Seq<char>,
    hub: Option<Seq<char>>,
)
    requires
        scheme == "matrix"@,
        host == Some("install"@),
        first_value(pairs, "entity"@) == Some(e),
        valid_entity(e),
        first_value(pairs, "alias"@) == Some(a),
        valid_alias(a),
        first_value(pairs, "hub"@) == hub,
        match hub {
            Some(h) => valid_hub(h),
            None => true,
        },
    ensures
        sanitize_spec(scheme, host, pairs) == Ok::<ReqView, Reject>(
            (ReqView { entity: e, alias: a, hub }),
        ),
{
}

/// Law: when the earlier rules pass, a hub value that starts with neither
/// `http://` nor `https://` is rejected with `InvalidHub`.
pub proof fn lemma_invalid_hub(
    scheme: Seq<char>,
    host: Option<Seq<char>>,
    pairs: Seq<(Seq<char>, Seq<char>)>,
    h: Seq<char>,
)
    requires
        scheme == "matrix"@,
        host == Some("install"@),
        first_value(pairs, "entity"@) matches Some(e) && valid_entity(e),
        first_value(pairs, "alias"@) matches Some(a) && valid_alias(a),
        first_value(pairs, "hub"@) == Some(h),
        !valid_hub(h),
    ensures
        sanitize_spec(scheme, host, pairs) == Err::<ReqView, Reject>(Reject::InvalidHub),
{
}

/// Law: the empty string is not a valid hub, so an empty hub override is
/// always rejected.
pub proof fn lemma_empty_hub_invalid()
    ensures
        !valid_hub(Seq::<char>::empty()),
{
    reveal_strlit("http://");
    reveal_strlit("https://");
}

} // verus!
