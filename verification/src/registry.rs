use vstd::prelude::*;
use vstd::string::StrSliceExecFns;

use crate::errors::SearchError;
use crate::provider::SearchProvider;
use crate::template::{count_from, placeholder_count};

verus! {

/// The selections a run works from: an optional config file location, an
/// optional provider selector and an optional query. A missing provider or
/// query is asked for interactively instead of failing.
#[derive(Debug, Clone)]
pub struct Opts {
    pub config_path: Option<String>,
    pub provider: Option<String>,
    pub query: Option<String>,
}

/// An optional configuration: providers that take precedence over the
/// built-in defaults because they are scanned first.
#[derive(Debug, Clone)]
pub struct ConfigurationFile {
    pub providers: Vec<SearchProvider>,
}

/// A selector picks a provider when it equals its name or one of its aliases.
pub open spec fn provider_matches(p: SearchProvider, sel: Seq<char>) -> bool {
    ||| p.name@ == sel
    ||| exists|j: int| 0 <= j < p.aliases@.len() && p.aliases@[j]@ == sel
}

/// The first index at or after `i` whose provider the selector picks, or -1.
pub open spec fn first_match_from(s: Seq<SearchProvider>, sel: Seq<char>, i: int) -> int
    decreases s.len() - i,
{
    if i < 0 || i >= s.len() {
        -1
    } else if provider_matches(s[i], sel) {
        i
    } else {
        first_match_from(s, sel, i + 1)
    }
}

/// The index of the first provider the selector picks, or -1 if none does.
pub open spec fn first_match(s: Seq<SearchProvider>, sel: Seq<char>) -> int {
    first_match_from(s, sel, 0)
}

proof fn lemma_first_match_from_at(s: Seq<SearchProvider>, sel: Seq<char>, j: int, i: int)
    requires
        0 <= j <= i < s.len(),
        provider_matches(s[i], sel),
        forall|k: int| j <= k < i ==> !provider_matches(s[k], sel),
    ensures
        first_match_from(s, sel, j) == i,
    decreases i - j,
{
    if j < i {
        lemma_first_match_from_at(s, sel, j + 1, i);
    }
}

/// `first_match` is the matching index that nothing earlier matches.
pub proof fn lemma_first_match_at(s: Seq<SearchProvider>, sel: Seq<char>, i: int)
    requires
        0 <= i < s.len(),
        provider_matches(s[i], sel),
        forall|k: int| 0 <= k < i ==> !provider_matches(s[k], sel),
    ensures
        first_match(s, sel) == i,
{
    lemma_first_match_from_at(s, sel, 0, i);
}

proof fn lemma_first_match_from_none(s: Seq<SearchProvider>, sel: Seq<char>, j: int)
    requires
        forall|k: int| j <= k < s.len() ==> !provider_matches(s[k], sel),
    ensures
        first_match_from(s, sel, j) == -1,
    decreases s.len() - j,
{
    if 0 <= j < s.len() {
        lemma_first_match_from_none(s, sel, j + 1);
    }
}

/// When no provider matches, `first_match` is -1.
pub proof fn lemma_first_match_none(s: Seq<SearchProvider>, sel: Seq<char>)
    requires
        forall|k: int| 0 <= k < s.len() ==> !provider_matches(s[k], sel),
    ensures
        first_match(s, sel) == -1,
{
    lemma_first_match_from_none(s, sel, 0);
}

proof fn lemma_first_match_from_props(s: Seq<SearchProvider>, sel: Seq<char>, j: int)
    requires
        0 <= j,
    ensures
        first_match_from(s, sel, j) == -1 || (j <= first_match_from(s, sel, j) < s.len()
            && provider_matches(s[first_match_from(s, sel, j)], sel) && forall|k: int|
            j <= k < first_match_from(s, sel, j) ==> !provider_matches(s[k], sel)),
        first_match_from(s, sel, j) == -1 ==> forall|k: int|
            j <= k < s.len() ==> !provider_matches(s[k], sel),
    decreases s.len() - j,
{
    if j < s.len() && !provider_matches(s[j], sel) {
        lemma_first_match_from_props(s, sel, j + 1);
    }
}

/// What `first_match` returns: either -1 and nothing matches, or the index
/// of a matching provider with no match before it.
pub proof fn lemma_first_match_props(s: Seq<SearchProvider>, sel: Seq<char>)
    ensures
        first_match(s, sel) == -1 || (0 <= first_match(s, sel) < s.len() && provider_matches(
            s[first_match(s, sel)],
            sel,
        ) && forall|k: int| 0 <= k < first_match(s, sel) ==> !provider_matches(s[k], sel)),
        first_match(s, sel) == -1 ==> forall|k: int|
            0 <= k < s.len() ==> !provider_matches(s[k], sel),
{
    lemma_first_match_from_props(s, sel, 0);
}

/// Character-for-character string comparison.
pub fn str_eq(a: &str, b: &str) -> (r: bool)
    ensures
        r == (a@ == b@),
{
    let n = a.unicode_len();
    let m = b.unicode_len();
    if n != m {
        return false;
    }
    let mut i: usize = 0;
    while i < n
        invariant
            i <= n,
            n == a@.len(),
            n == b@.len(),
            forall|k: int| 0 <= k < i ==> a@[k] == b@[k],
        decreases n - i,
    {
        if a.get_char(i) != b.get_char(i) {
            return false;
        }
        i = i + 1;
    }
    proof {
        assert(a@ =~= b@);
    }
    true
}

/// Scan the providers in order and return the first whose name or alias
/// equals the selector, or report the selector as unmatched.
pub fn resolve<'a>(providers: &'a Vec<SearchProvider>, selector: &str) -> (r: Result<
    &'a SearchProvider,
    SearchError,
>)
    ensures
        first_match(providers@, selector@) >= 0 || first_match(providers@, selector@) == -1,
        first_match(providers@, selector@) >= 0 ==> r is Ok && *r->Ok_0 == providers@[first_match(
            providers@,
            selector@,
        )],
        first_match(providers@, selector@) == -1 ==> r is Err && (r->Err_0 matches
            SearchError::ProviderNotFound(u) && u@ == selector@),
{
    let n = providers.len();
    let mut i: usize = 0;
    while i < n
        invariant
            i <= n,
            n == providers@.len(),
            forall|k: int| 0 <= k < i ==> !provider_matches(providers@[k], selector@),
        decreases n - i,
    {
        let p = &providers[i];
        if str_eq(p.name.as_str(), selector) {
            proof {
                lemma_first_match_at(providers@, selector@, i as int);
            }
            return Ok(p);
        }
        let m = p.aliases.len();
        let mut j: usize = 0;
        while j < m
            invariant
                j <= m,
                i < n,
                n == providers@.len(),
                m == p.aliases@.len(),
                p == &providers@[i as int],
                forall|k: int| 0 <= k < i ==> !provider_matches(providers@[k], selector@),
                forall|l: int| 0 <= l < j ==> p.aliases@[l]@ != selector@,
            decreases m - j,
        {
            if str_eq(p.aliases[j].as_str(), selector) {
                proof {
                    assert(provider_matches(providers@[i as int], selector@));
                    lemma_first_match_at(providers@, selector@, i as int);
                }
                return Ok(p);
            }
            j = j + 1;
        }
        proof {
            assert(!provider_matches(providers@[i as int], selector@));
        }
        i = i + 1;
    }
    proof {
        lemma_first_match_none(providers@, selector@);
    }
    Err(SearchError::ProviderNotFound(selector.to_owned()))
}

/// What the built-in default providers are, entry by entry.
pub open spec fn is_default_list(s: Seq<SearchProvider>) -> bool {
    &&& s.len() == 7
    &&& s[0].name@ == "DuckDuckGo"@
    &&& s[0].search_url@ == "https://duckduckgo.com/?q={}"@
    &&& s[0].aliases@.len() == 1 && s[0].aliases@[0]@ == "ddg"@
    &&& s[1].name@ == "Wikipedia"@
    &&& s[1].search_url@ == "https://en.wikipedia.org/w/index.php?search={}"@
    &&& s[1].aliases@.len() == 1 && s[1].aliases@[0]@ == "wiki"@
    &&& s[2].name@ == "YouTube"@
    &&& s[2].search_url@ == "https://www.youtube.com/results?search_query={}"@
    &&& s[2].aliases@.len() == 1 && s[2].aliases@[0]@ == "yt"@
    &&& s[3].name@ == "Cargo"@
    &&& s[3].search_url@ == "https://crates.io/search?q={}"@
    &&& s[3].aliases@.len() == 0
    &&& s[4].name@ == "Nixpkgs"@
    &&& s[4].search_url@ == "https://search.nixos.org/packages?query={}"@
    &&& s[4].aliases@.len() == 0
    &&& s[5].name@ == "Nix Wiki"@
    &&& s[5].search_url@ == "https://nixos.wiki/index.php?search={}"@
    &&& s[5].aliases@.len() == 1 && s[5].aliases@[0]@ == "nix"@
    &&& s[6].name@ == "Nix Options"@
    &&& s[6].search_url@ == "https://search.nixos.org/options?query={}"@
    &&& s[6].aliases@.len() == 0
}

/// Every built-in default provider's URL template holds exactly one
/// placeholder occurrence, so validation passes for all of them.
#[verifier::rlimit(100)]
pub proof fn lemma_defaults_valid(s: Seq<SearchProvider>)
    requires
        is_default_list(s),
    ensures
        forall|i: int| 0 <= i < s.len() ==> placeholder_count(s[i].search_url@) == 1,
{
    assert(placeholder_count("https://duckduckgo.com/?q={}"@) == 1) by {
        reveal_strlit("https://duckduckgo.com/?q={}");
        reveal_with_fuel(count_from, 50);
    }
    assert(placeholder_count("https://en.wikipedia.org/w/index.php?search={}"@) == 1) by {
        reveal_strlit("https://en.wikipedia.org/w/index.php?search={}");
        reveal_with_fuel(count_from, 50);
    }
    assert(placeholder_count("https://www.youtube.com/results?search_query={}"@) == 1) by {
        reveal_strlit("https://www.youtube.com/results?search_query={}");
        reveal_with_fuel(count_from, 50);
    }
    assert(placeholder_count("https://crates.io/search?q={}"@) == 1) by {
        reveal_strlit("https://crates.io/search?q={}");
        reveal_with_fuel(count_from, 50);
    }
    assert(placeholder_count("https://search.nixos.org/packages?query={}"@) == 1) by {
        reveal_strlit("https://search.nixos.org/packages?query={}");
        reveal_with_fuel(count_from, 50);
    }
    assert(placeholder_count("https://nixos.wiki/index.php?search={}"@) == 1) by {
        reveal_strlit("https://nixos.wiki/index.php?search={}");
        reveal_with_fuel(count_from, 50);
    }
    assert(placeholder_count("https://search.nixos.org/options?query={}"@) == 1) by {
        reveal_strlit("https://search.nixos.org/options?query={}");
        reveal_with_fuel(count_from, 50);
    }
    assert forall|i: int| 0 <= i < s.len() implies placeholder_count(s[i].search_url@) == 1 by {
        if i == 0 {
            assert(s[i].search_url@ == "https://duckduckgo.com/?q={}"@);
        } else if i == 1 {
            assert(s[i].search_url@ == "https://en.wikipedia.org/w/index.php?search={}"@);
        } else if i == 2 {
            assert(s[i].search_url@ == "https://www.youtube.com/results?search_query={}"@);
        } else if i == 3 {
            assert(s[i].search_url@ == "https://crates.io/search?q={}"@);
        } else if i == 4 {
            assert(s[i].search_url@ == "https://search.nixos.org/packages?query={}"@);
        } else if i == 5 {
            assert(s[i].search_url@ == "https://nixos.wiki/index.php?search={}"@);
        } else {
            assert(s[i].search_url@ == "https://search.nixos.org/options?query={}"@);
        }
    }
}

/// The built-in default providers.
pub fn default_providers() -> (r: Vec<SearchProvider>)
    ensures
        is_default_list(r@),
        forall|i: int| 0 <= i < r@.len() ==> placeholder_count(r@[i].search_url@) == 1,
{
    let mut v: Vec<SearchProvider> = Vec::new();
    v.push(
        SearchProvider::new("DuckDuckGo", "https://duckduckgo.com/?q={}").with_aliases(&["ddg"]),
    );
    v.push(
        SearchProvider::new("Wikipedia", "https://en.wikipedia.org/w/index.php?search={}")
            .with_aliases(&["wiki"]),
    );
    v.push(
        SearchProvider::new("YouTube", "https://www.youtube.com/results?search_query={}")
            .with_aliases(&["yt"]),
    );
    v.push(SearchProvider::new("Cargo", "https://crates.io/search?q={}"));
    v.push(SearchProvider::new("Nixpkgs", "https://search.nixos.org/packages?query={}"));
    v.push(
        SearchProvider::new("Nix Wiki", "https://nixos.wiki/index.php?search={}").with_aliases(
            &["nix"],
        ),
    );
    v.push(SearchProvider::new("Nix Options", "https://search.nixos.org/options?query={}"));
    proof {
        lemma_defaults_valid(v@);
    }
    v
}

/// One provider carrying both identifiers means both selectors resolve to
/// it: when the same entry is the first match for each of two selectors,
/// resolution returns the same provider for either.
pub proof fn lemma_name_and_alias_agree(
    s: Seq<SearchProvider>,
    sel_a: Seq<char>,
    sel_b: Seq<char>,
    i: int,
)
    requires
        0 <= i < s.len(),
        provider_matches(s[i], sel_a),
        provider_matches(s[i], sel_b),
        forall|k: int|
            0 <= k < i ==> !provider_matches(s[k], sel_a) && !provider_matches(s[k], sel_b),
    ensures
        first_match(s, sel_a) == first_match(s, sel_b),
{
    lemma_first_match_at(s, sel_a, i);
    lemma_first_match_at(s, sel_b, i);
}

/// On the built-in defaults, the alias "ddg" and the name "DuckDuckGo"
/// select the same provider, the first one.
pub proof fn lemma_default_ddg_alias(s: Seq<SearchProvider>)
    requires
        is_default_list(s),
    ensures
        first_match(s, "ddg"@) == 0,
        first_match(s, "DuckDuckGo"@) == 0,
{
    assert(provider_matches(s[0], "DuckDuckGo"@));
    assert(s[0].aliases@[0]@ == "ddg"@);
    assert(provider_matches(s[0], "ddg"@));
    lemma_first_match_at(s, "DuckDuckGo"@, 0);
    lemma_first_match_at(s, "ddg"@, 0);
}

/// A configured provider is matched ahead of the built-ins: when a selector
/// matches inside the user's list, resolving against the user's providers
/// followed by the defaults lands on that same user entry.
pub proof fn lemma_user_provider_precedence(
    user: Seq<SearchProvider>,
    defaults: Seq<SearchProvider>,
    sel: Seq<char>,
)
    requires
        first_match(user, sel) >= 0,
    ensures
        first_match(user + defaults, sel) == first_match(user, sel),
        first_match(user + defaults, sel) < user.len(),
{
    let i = first_match(user, sel);
    lemma_first_match_props(user, sel);
    assert((user + defaults)[i] == user[i]);
    assert forall|k: int| 0 <= k < i implies !provider_matches((user + defaults)[k], sel) by {
        assert((user + defaults)[k] == user[k]);
    }
    lemma_first_match_at(user + defaults, sel, i);
}

/// The providers a run resolves against: the configured ones first, if a
/// configuration was loaded, then the built-in defaults.
pub fn build_registry(config: Option<ConfigurationFile>) -> (r: Vec<SearchProvider>)
    ensures
        match config {
            Some(c) => r@.len() == c.providers@.len() + 7 && r@.subrange(
                0,
                c.providers@.len() as int,
            ) == c.providers@ && is_default_list(
                r@.subrange(c.providers@.len() as int, r@.len() as int),
            ),
            None => is_default_list(r@),
        },
{
    match config {
        Some(c) => {
            let mut v = c.providers;
            let mut d = default_providers();
            let ghost user = v@;
            let ghost defs = d@;
            v.append(&mut d);
            proof {
                assert(v@.subrange(0, user.len() as int) =~= user);
                assert(v@.subrange(user.len() as int, v@.len() as int) =~= defs);
            }
            v
        },
        None => default_providers(),
    }
}

} // verus!
