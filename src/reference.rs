//! Repository references: the two providers, the repository identity, and
//! the parser that reads a URL or a `provider/owner/repo` shorthand.

use vstd::prelude::*;
use vstd::string::*;
use crate::locator::{
    lacks_scheme, parse_url, url_host_of, url_parses, url_segments_of,
};
use crate::text::{
    join, join_path,
    lemma_split_slash_append, lemma_split_slash_nonempty, lemma_split_slash_single,
    non_empty_fields, same_text, split_on_slash, split_slash,
};

verus! {

/// A code-hosting service that repositories can be cloned from.
#[derive(Clone, Copy, Debug, PartialEq, Eq, Structural)]
pub enum Provider {
    Github,
    Gitlab,
}

impl Provider {
    /// The lowercase token that names the provider in shorthand references
    /// and in directory names.
    pub open spec fn token_spec(self) -> Seq<char> {
        match self {
            Provider::Github => seq!['g', 'i', 't', 'h', 'u', 'b'],
            Provider::Gitlab => seq!['g', 'i', 't', 'l', 'a', 'b'],
        }
    }

    /// The provider's host name.
    pub open spec fn host_spec(self) -> Seq<char> {
        match self {
            Provider::Github => seq!['g', 'i', 't', 'h', 'u', 'b', '.', 'c', 'o', 'm'],
            Provider::Gitlab => seq!['g', 'i', 't', 'l', 'a', 'b', '.', 'c', 'o', 'm'],
        }
    }

    pub open spec fn from_token_spec(t: Seq<char>) -> Option<Provider> {
        if t == Provider::Github.token_spec() {
            Some(Provider::Github)
        } else if t == Provider::Gitlab.token_spec() {
            Some(Provider::Gitlab)
        } else {
            None
        }
    }

    pub open spec fn from_host_spec(h: Seq<char>) -> Option<Provider> {
        if h == Provider::Github.host_spec() {
            Some(Provider::Github)
        } else if h == Provider::Gitlab.host_spec() {
            Some(Provider::Gitlab)
        } else {
            None
        }
    }

    pub fn token(&self) -> (r: &'static str)
        ensures
            r@ == self.token_spec(),
    {
        proof {
            reveal_strlit("github");
            reveal_strlit("gitlab");
        }
        match self {
            Provider::Github => "github",
            Provider::Gitlab => "gitlab",
        }
    }

    pub fn host(&self) -> (r: &'static str)
        ensures
            r@ == self.host_spec(),
    {
        proof {
            reveal_strlit("github.com");
            reveal_strlit("gitlab.com");
        }
        match self {
            Provider::Github => "github.com",
            Provider::Gitlab => "gitlab.com",
        }
    }

    /// The provider named by a shorthand token; tokens are case-sensitive.
    pub fn from_token(t: &str) -> (r: Option<Provider>)
        ensures
            r == Provider::from_token_spec(t@),
    {
        if same_text(t, Provider::Github.token()) {
            Some(Provider::Github)
        } else if same_text(t, Provider::Gitlab.token()) {
            Some(Provider::Gitlab)
        } else {
            None
        }
    }

    /// The provider that serves a host.
    pub fn from_host(h: &str) -> (r: Option<Provider>)
        ensures
            r == Provider::from_host_spec(h@),
    {
        if same_text(h, Provider::Github.host()) {
            Some(Provider::Github)
        } else if same_text(h, Provider::Gitlab.host()) {
            Some(Provider::Gitlab)
        } else {
            None
        }
    }
}

/// The identity of a repository: where it is hosted, its owner and its name.
pub struct Repository {
    owner: String,
    name: String,
    provider: Provider,
}

/// The mathematical value of a `Repository`.
pub struct RepositoryView {
    pub provider: Provider,
    pub owner: Seq<char>,
    pub name: Seq<char>,
}

impl View for Repository {
    type V = RepositoryView;

    closed spec fn view(&self) -> RepositoryView {
        RepositoryView { provider: self.provider, owner: self.owner@, name: self.name@ }
    }
}

/// Why a reference could not be read.
#[derive(Debug)]
pub enum ParseError {
    /// The URL has no hierarchical path.
    NoBase,
    /// The URL has no host.
    NoHost,
    /// The URL's host is not one of the providers.
    UnsupportedProvider(String),
    /// The shorthand's first field is not a provider token.
    UnknownProvider(String),
    /// No owner follows the host or the provider.
    MissingOwner,
    /// No repository name follows the owner.
    MissingRepo,
    /// The shorthand has more than three fields.
    TooManyFields,
}

/// The mathematical value of a `ParseError`.
pub enum ParseErrorView {
    NoBase,
    NoHost,
    UnsupportedProvider(Seq<char>),
    UnknownProvider(Seq<char>),
    MissingOwner,
    MissingRepo,
    TooManyFields,
}

impl View for ParseError {
    type V = ParseErrorView;

    open spec fn view(&self) -> ParseErrorView {
        match self {
            ParseError::NoBase => ParseErrorView::NoBase,
            ParseError::NoHost => ParseErrorView::NoHost,
            ParseError::UnsupportedProvider(h) => ParseErrorView::UnsupportedProvider(h@),
            ParseError::UnknownProvider(t) => ParseErrorView::UnknownProvider(t@),
            ParseError::MissingOwner => ParseErrorView::MissingOwner,
            ParseError::MissingRepo => ParseErrorView::MissingRepo,
            ParseError::TooManyFields => ParseErrorView::TooManyFields,
        }
    }
}

pub open spec fn parsed_view(r: Result<Repository, ParseError>) -> Result<RepositoryView, ParseErrorView> {
    match r {
        Ok(repo) => Ok(repo@),
        Err(e) => Err(e@),
    }
}

/// An owner or a name that names one directory below its parent: not empty,
/// not `.` or `..`, and free of `/`.
pub open spec fn valid_component(s: Seq<char>) -> bool {
    s.len() > 0 && s != "."@ && s != ".."@ && !s.contains('/')
}

/// What a URL with this host and these path segments names: the host picks
/// the provider, and the first two non-empty segments are owner and name.
pub open spec fn from_url_spec(host: Option<Seq<char>>, segments: Option<Seq<Seq<char>>>) -> Result<RepositoryView, ParseErrorView> {
    match host {
        None => Err(ParseErrorView::NoHost),
        Some(h) => match Provider::from_host_spec(h) {
            None => Err(ParseErrorView::UnsupportedProvider(h)),
            Some(p) => match segments {
                None => Err(ParseErrorView::NoBase),
                Some(all) => {
                    let f = non_empty_fields(all);
                    if f.len() == 0 || !valid_component(f[0]) {
                        Err(ParseErrorView::MissingOwner)
                    } else if f.len() == 1 || !valid_component(f[1]) {
                        Err(ParseErrorView::MissingRepo)
                    } else {
                        Ok(RepositoryView { provider: p, owner: f[0], name: f[1] })
                    }
                },
            },
        },
    }
}

/// What a `provider/owner/repo` shorthand names: exactly three fields.
pub open spec fn from_shorthand_spec(s: Seq<char>) -> Result<RepositoryView, ParseErrorView> {
    let f = split_slash(s);
    match Provider::from_token_spec(f[0]) {
        None => Err(ParseErrorView::UnknownProvider(f[0])),
        Some(p) => if f.len() < 2 || !valid_component(f[1]) {
            Err(ParseErrorView::MissingOwner)
        } else if f.len() < 3 || !valid_component(f[2]) {
            Err(ParseErrorView::MissingRepo)
        } else if f.len() > 3 {
            Err(ParseErrorView::TooManyFields)
        } else {
            Ok(RepositoryView { provider: p, owner: f[1], name: f[2] })
        },
    }
}

/// What a reference names. A text that cannot start with a URL scheme is read
/// as shorthand; any other text is read as a URL where it is one, and as
/// shorthand where it is not.
pub open spec fn parse_spec(s: Seq<char>) -> Result<RepositoryView, ParseErrorView> {
    if !lacks_scheme(s) && url_parses(s) {
        from_url_spec(url_host_of(s), url_segments_of(s))
    } else {
        from_shorthand_spec(s)
    }
}

/// The shorthand text `provider/owner/name`.
pub open spec fn shorthand_text(p: Provider, owner: Seq<char>, name: Seq<char>) -> Seq<char> {
    p.token_spec() + seq!['/'] + owner + seq!['/'] + name
}

impl Repository {
    pub fn provider(&self) -> (r: Provider)
        ensures
            r == self@.provider,
    {
        self.provider
    }

    pub fn owner(&self) -> (r: &str)
        ensures
            r@ == self@.owner,
    {
        self.owner.as_str()
    }

    pub fn name(&self) -> (r: &str)
        ensures
            r@ == self@.name,
    {
        self.name.as_str()
    }

    /// Reads a URL's host and path segments (as the `url` crate gives them)
    /// as a repository identity.
    pub fn from_url_parts(host: Option<String>, segments: Option<Vec<String>>) -> (r: Result<Repository, ParseError>)
        ensures
            parsed_view(r) == from_url_spec(host.deep_view(), segments.deep_view()),
    {
        let h = match host {
            None => return Err(ParseError::NoHost),
            Some(h) => h,
        };
        let provider = match Provider::from_host(h.as_str()) {
            None => return Err(ParseError::UnsupportedProvider(h)),
            Some(p) => p,
        };
        let all = match segments {
            None => return Err(ParseError::NoBase),
            Some(all) => all,
        };
        let mut found: Vec<String> = Vec::new();
        let mut i: usize = 0;
        while i < all.len() && found.len() < 2
            invariant
                0 <= i <= all.len(),
                found.len() <= 2,
                found.deep_view() == non_empty_fields(all.deep_view().subrange(0, i as int)),
            decreases all.len() - i,
        {
            proof {
                assert(all.deep_view().subrange(0, i + 1).drop_last() =~= all.deep_view().subrange(0, i as int));
                assert(all.deep_view().subrange(0, i + 1).last() == all[i as int]@);
            }
            if all[i].as_str().unicode_len() > 0 {
                let ghost before = found.deep_view();
                found.push(all[i].clone());
                proof {
                    assert(found.deep_view() =~= before.push(all[i as int]@));
                }
            }
            i = i + 1;
        }
        proof {
            lemma_non_empty_prefix(all.deep_view(), i as int);
            if i == all.len() {
                assert(all.deep_view().subrange(0, i as int) =~= all.deep_view());
            }
            let whole = non_empty_fields(all.deep_view());
            let part = non_empty_fields(all.deep_view().subrange(0, i as int));
            if found.len() == 2 {
                assert(part[0] == whole[0]);
                assert(part[1] == whole[1]);
                assert(found.deep_view()[0] == found[0]@);
                assert(found.deep_view()[1] == found[1]@);
            }
        }
        if found.len() == 0 || !is_valid_component(found[0].as_str()) {
            Err(ParseError::MissingOwner)
        } else if found.len() == 1 || !is_valid_component(found[1].as_str()) {
            Err(ParseError::MissingRepo)
        } else {
            Ok(Repository { owner: found[0].clone(), name: found[1].clone(), provider })
        }
    }
}

/// Whether `s` is a valid owner or name.
pub fn is_valid_component(s: &str) -> (r: bool)
    ensures
        r == valid_component(s@),
{
    let n = s.unicode_len();
    if n == 0 || same_text(s, ".") || same_text(s, "..") {
        return false;
    }
    let mut i: usize = 0;
    while i < n
        invariant
            n == s@.len(),
            0 <= i <= n,
            forall|k: int| 0 <= k < i ==> s@[k] != '/',
        decreases n - i,
    {
        if s.get_char(i) == '/' {
            return false;
        }
        i = i + 1;
    }
    true
}

impl Repository {
    /// Reads a `provider/owner/repo` shorthand.
    pub fn from_shorthand(input: &str) -> (r: Result<Repository, ParseError>)
        ensures
            parsed_view(r) == from_shorthand_spec(input@),
    {
        let fields = split_on_slash(input);
        proof {
            lemma_split_slash_nonempty(input@);
            assert(fields.deep_view()[0] == fields[0]@);
        }
        let provider = match Provider::from_token(fields[0].as_str()) {
            None => return Err(ParseError::UnknownProvider(fields[0].clone())),
            Some(p) => p,
        };
        if fields.len() < 2 {
            return Err(ParseError::MissingOwner);
        }
        proof {
            assert(fields.deep_view()[1] == fields[1]@);
        }
        if !is_valid_component(fields[1].as_str()) {
            return Err(ParseError::MissingOwner);
        }
        if fields.len() < 3 {
            return Err(ParseError::MissingRepo);
        }
        proof {
            assert(fields.deep_view()[2] == fields[2]@);
        }
        if !is_valid_component(fields[2].as_str()) {
            return Err(ParseError::MissingRepo);
        }
        if fields.len() > 3 {
            return Err(ParseError::TooManyFields);
        }
        Ok(Repository { owner: fields[1].clone(), name: fields[2].clone(), provider })
    }

    /// Reads a reference: an absolute URL on one of the providers' hosts, or
    /// a `provider/owner/repo` shorthand. A shorthand always reads as such,
    /// and whatever is read has a valid owner and name.
    pub fn parse(input: String) -> (r: Result<Repository, ParseError>)
        ensures
            parsed_view(r) == parse_spec(input@),
            r matches Ok(repo) ==> valid_component(repo@.owner) && valid_component(repo@.name),
            forall|p: Provider, owner: Seq<char>, name: Seq<char>|
                input@ == #[trigger] shorthand_text(p, owner, name) && valid_component(owner) && valid_component(name)
                    ==> parsed_view(r) == Ok::<RepositoryView, ParseErrorView>(RepositoryView { provider: p, owner, name }),
    {
        proof {
            assert forall|p: Provider, owner: Seq<char>, name: Seq<char>|
                input@ == #[trigger] shorthand_text(p, owner, name) && valid_component(owner) && valid_component(name)
                    implies parse_spec(input@) == Ok::<RepositoryView, ParseErrorView>(RepositoryView { provider: p, owner, name }) by {
                lemma_shorthand_reference(p, owner, name);
            }
        }
        proof {
            lemma_parsed_components_valid(input@);
        }
        match parse_url(input.as_str()) {
            Some(parts) => Repository::from_url_parts(parts.host, parts.segments),
            None => Repository::from_shorthand(input.as_str()),
        }
    }

    /// The token of the repository's provider.
    pub fn provider_str(&self) -> (r: &str)
        ensures
            r@ == self@.provider.token_spec(),
    {
        self.provider.token()
    }

    /// The workspace directory relative to the base directory:
    /// `provider/owner/name`.
    pub fn directory(&self) -> (r: String)
        ensures
            r@ == self@.directory_spec(),
    {
        let dir = join(self.provider_str(), self.owner.as_str());
        join(dir.as_str(), self.name.as_str())
    }

    /// The URL the repository is cloned from: `https://host/owner/name`.
    pub fn url(&self) -> (r: String)
        ensures
            r@ == self@.url_spec(),
    {
        proof {
            reveal_strlit("https://");
            reveal_strlit("/");
        }
        let mut out = String::from_str("https://");
        out.append(self.provider.host());
        out.append("/");
        out.append(self.owner.as_str());
        out.append("/");
        out.append(self.name.as_str());
        out
    }
}

impl RepositoryView {
    pub open spec fn directory_spec(self) -> Seq<char> {
        join_path(join_path(self.provider.token_spec(), self.owner), self.name)
    }

    pub open spec fn url_spec(self) -> Seq<char> {
        seq!['h', 't', 't', 'p', 's', ':', '/', '/'] + self.provider.host_spec() + seq!['/'] + self.owner
            + seq!['/'] + self.name
    }
}

proof fn lemma_split_three(first: Seq<char>, owner: Seq<char>, name: Seq<char>)
    requires
        !first.contains('/'),
        !owner.contains('/'),
        !name.contains('/'),
    ensures
        split_slash(first + seq!['/'] + owner + seq!['/'] + name) == seq![first, owner, name],
{
    lemma_split_slash_single(first);
    lemma_split_slash_append(first, owner);
    lemma_split_slash_append(first + seq!['/'] + owner, name);
    assert(seq![first].push(owner).push(name) =~= seq![first, owner, name]);
}

proof fn lemma_field_then_slash(first: Seq<char>, rest: Seq<char>)
    requires
        !first.contains(':'),
    ensures
        lacks_scheme(first + seq!['/'] + rest),
{
    let s = first + seq!['/'] + rest;
    let i = first.len() as int;
    assert(s[i] == '/');
    assert forall|j: int| 0 <= j < i implies #[trigger] s[j] != ':' by {
        assert(s[j] == first[j]);
    }
}

/// Whatever a reference names has a valid owner and name.
pub proof fn lemma_parsed_components_valid(s: Seq<char>)
    ensures
        parse_spec(s) matches Ok(r) ==> valid_component(r.owner) && valid_component(r.name),
{
}

/// A shorthand `provider/owner/name` with a valid owner and name names
/// exactly that repository.
pub proof fn lemma_shorthand_reference(p: Provider, owner: Seq<char>, name: Seq<char>)
    requires
        valid_component(owner),
        valid_component(name),
    ensures
        parse_spec(shorthand_text(p, owner, name)) == Ok::<RepositoryView, ParseErrorView>(
            RepositoryView { provider: p, owner, name },
        ),
{
    let t = p.token_spec();
    assert(!t.contains(':')) by {
        if t.contains(':') {
            let k = choose|k: int| 0 <= k < t.len() && t[k] == ':';
        }
    }
    assert(!t.contains('/')) by {
        if t.contains('/') {
            let k = choose|k: int| 0 <= k < t.len() && t[k] == '/';
        }
    }
    lemma_field_then_slash(t, owner + seq!['/'] + name);
    assert(shorthand_text(p, owner, name) =~= t + seq!['/'] + (owner + seq!['/'] + name));
    lemma_split_three(t, owner, name);
}

/// A shorthand whose first field holds no `:` and is not a provider token
/// is refused as naming an unknown provider.
pub proof fn lemma_shorthand_unknown_provider(first: Seq<char>, owner: Seq<char>, name: Seq<char>)
    requires
        !first.contains(':'),
        !first.contains('/'),
        Provider::from_token_spec(first) is None,
        !owner.contains('/'),
        !name.contains('/'),
    ensures
        parse_spec(first + seq!['/'] + owner + seq!['/'] + name) == Err::<RepositoryView, ParseErrorView>(
            ParseErrorView::UnknownProvider(first),
        ),
{
    lemma_field_then_slash(first, owner + seq!['/'] + name);
    assert(first + seq!['/'] + owner + seq!['/'] + name =~= first + seq!['/'] + (owner + seq!['/'] + name));
    lemma_split_three(first, owner, name);
}

/// A shorthand with a fourth field is refused, whatever its first three.
pub proof fn lemma_shorthand_four_fields(p: Provider, owner: Seq<char>, name: Seq<char>, extra: Seq<char>)
    requires
        valid_component(owner),
        valid_component(name),
        !extra.contains('/'),
    ensures
        parse_spec(shorthand_text(p, owner, name) + seq!['/'] + extra) == Err::<RepositoryView, ParseErrorView>(
            ParseErrorView::TooManyFields,
        ),
{
    let t = p.token_spec();
    assert(!t.contains(':')) by {
        if t.contains(':') {
            let k = choose|k: int| 0 <= k < t.len() && t[k] == ':';
        }
    }
    assert(!t.contains('/')) by {
        if t.contains('/') {
            let k = choose|k: int| 0 <= k < t.len() && t[k] == '/';
        }
    }
    let s = shorthand_text(p, owner, name) + seq!['/'] + extra;
    lemma_field_then_slash(t, owner + seq!['/'] + name + seq!['/'] + extra);
    assert(s =~= t + seq!['/'] + (owner + seq!['/'] + name + seq!['/'] + extra));
    lemma_split_three(t, owner, name);
    lemma_split_slash_append(shorthand_text(p, owner, name), extra);
    assert(seq![t, owner, name].push(extra).len() == 4);
}

/// A text that the `url` crate reads as a URL on a provider's host, with at
/// least two non-empty path segments, the first two of them valid, names the
/// repository given by those two.
pub proof fn lemma_url_reference(s: Seq<char>, p: Provider, segs: Seq<Seq<char>>)
    requires
        url_parses(s),
        !lacks_scheme(s),
        url_host_of(s) == Some(p.host_spec()),
        url_segments_of(s) == Some(segs),
        non_empty_fields(segs).len() >= 2,
        valid_component(non_empty_fields(segs)[0]),
        valid_component(non_empty_fields(segs)[1]),
    ensures
        parse_spec(s) == Ok::<RepositoryView, ParseErrorView>(
            RepositoryView { provider: p, owner: non_empty_fields(segs)[0], name: non_empty_fields(segs)[1] },
        ),
{
}

/// A text that the `url` crate reads as a URL on a host other than the
/// providers' is refused as naming an unsupported provider.
pub proof fn lemma_url_unsupported_host(s: Seq<char>, h: Seq<char>)
    requires
        url_parses(s),
        !lacks_scheme(s),
        url_host_of(s) == Some(h),
        h != Provider::Github.host_spec(),
        h != Provider::Gitlab.host_spec(),
    ensures
        parse_spec(s) == Err::<RepositoryView, ParseErrorView>(ParseErrorView::UnsupportedProvider(h)),
{
}

/// The non-empty fields of a prefix come first among those of the whole.
pub proof fn lemma_non_empty_prefix(s: Seq<Seq<char>>, i: int)
    requires
        0 <= i <= s.len(),
    ensures
        non_empty_fields(s.subrange(0, i)).len() <= non_empty_fields(s).len(),
        forall|k: int|
            0 <= k < non_empty_fields(s.subrange(0, i)).len() ==> #[trigger] non_empty_fields(s.subrange(0, i))[k]
                == non_empty_fields(s)[k],
    decreases s.len(),
{
    if i == s.len() {
        assert(s.subrange(0, i) =~= s);
    } else {
        let t = s.drop_last();
        assert(s.subrange(0, i) =~= t.subrange(0, i));
        lemma_non_empty_prefix(t, i);
    }
}

} // verus!
