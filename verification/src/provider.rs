use vstd::prelude::*;
use vstd::string::{StrSliceExecFns, StringExecFns};

use crate::errors::SearchError;
use crate::template::{
    count_placeholders, find_placeholder, lemma_count_pos_first, placeholder_count, substituted,
};

verus! {

/// What `urlencoding::encode` returns for a query: the percent-encoded form
/// of its UTF-8 bytes. The result depends on the query's characters alone.
pub uninterp spec fn url_encoded(q: Seq<char>) -> Seq<char>;

/// Relies on urlencoding::encode: percent-encodes every byte of the query
/// except ASCII alphanumerics and '-', '_', '.', '~'.
#[verifier::external_body]
fn encode_query(query: &str) -> (r: String)
    ensures
        r@ == url_encoded(query@),
{
    urlencoding::encode(query).into_owned()
}

/// A named search destination whose URL template holds a single placeholder
/// for the query, selectable by its name or by any of its aliases.
#[derive(Debug, Clone)]
pub struct SearchProvider {
    pub name: String,
    /// The URL to use for searching, with only one instance of `{}` as a
    /// placeholder for the query.
    pub search_url: String,
    pub aliases: Vec<String>,
}

impl SearchProvider {
    pub fn new(name: &str, query_url: &str) -> (r: Self)
        ensures
            r.name@ == name@,
            r.search_url@ == query_url@,
            r.aliases@.len() == 0,
    {
        Self { name: name.to_owned(), search_url: query_url.to_owned(), aliases: Vec::new() }
    }

    pub fn with_aliases(self, aliases: &[&str]) -> (r: Self)
        ensures
            r.name == self.name,
            r.search_url == self.search_url,
            r.aliases@.len() == self.aliases@.len() + aliases@.len(),
            forall|i: int| 0 <= i < self.aliases@.len() ==> r.aliases@[i] == self.aliases@[i],
            forall|i: int|
                0 <= i < aliases@.len() ==> r.aliases@[self.aliases@.len() + i]@ == aliases@[i]@,
    {
        let mut out = self;
        let n = aliases.len();
        let mut i: usize = 0;
        while i < n
            invariant
                i <= n,
                n == aliases@.len(),
                out.name == self.name,
                out.search_url == self.search_url,
                out.aliases@.len() == self.aliases@.len() + i,
                forall|k: int| 0 <= k < self.aliases@.len() ==> out.aliases@[k] == self.aliases@[k],
                forall|k: int|
                    0 <= k < i ==> out.aliases@[self.aliases@.len() + k]@ == aliases@[k]@,
            decreases n - i,
        {
            let alias = vstd::slice::slice_index_get(aliases, i);
            out.aliases.push((*alias).to_owned());
            i = i + 1;
        }
        out
    }

    /// A provider is usable only if its template holds exactly one
    /// placeholder; anything else is rejected before substitution.
    pub fn validate(&self) -> (r: Result<(), SearchError>)
        ensures
            r is Ok <==> placeholder_count(self.search_url@) == 1,
            r is Err ==> r->Err_0 is InvalidTemplate,
    {
        if count_placeholders(self.search_url.as_str()) != 1 {
            return Err(SearchError::InvalidTemplate);
        }
        Ok(())
    }

    /// Substitute an already-encoded query into the template: the part before
    /// the placeholder, then the encoded query, then the part after it.
    pub fn substitute_query(&self, encoded: &str) -> (r: Result<String, SearchError>)
        ensures
            placeholder_count(self.search_url@) == 1 ==> r is Ok && r->Ok_0@ == substituted(
                self.search_url@,
                encoded@,
            ),
            placeholder_count(self.search_url@) != 1 ==> r is Err
                && r->Err_0 is InvalidTemplate,
    {
        if count_placeholders(self.search_url.as_str()) != 1 {
            return Err(SearchError::InvalidTemplate);
        }
        proof {
            lemma_count_pos_first(self.search_url@, 0);
        }
        let s = self.search_url.as_str();
        match find_placeholder(s) {
            Some(idx) => {
                let n = s.unicode_len();
                let prefix = s.substring_char(0, idx);
                let suffix = s.substring_char(idx + 2, n);
                let mut out = prefix.to_owned();
                out.append(encoded);
                out.append(suffix);
                proof {
                    assert(out@ =~= substituted(self.search_url@, encoded@));
                }
                Ok(out)
            },
            None => Err(SearchError::InvalidTemplate),
        }
    }

    /// Percent-encode the query and substitute it into the template.
    pub fn get_url(&self, query: &str) -> (r: Result<String, SearchError>)
        ensures
            placeholder_count(self.search_url@) == 1 ==> r is Ok && r->Ok_0@ == substituted(
                self.search_url@,
                url_encoded(query@),
            ),
            placeholder_count(self.search_url@) != 1 ==> r is Err
                && r->Err_0 is InvalidTemplate,
    {
        let encoded = encode_query(query);
        self.substitute_query(encoded.as_str())
    }
}

} // verus!
