//! The inbound request address: its path and its query parameters.

use vstd::prelude::*;
use vstd::string::*;
use url::Url;
use crate::text::opt_text;
use crate::text::pairs_text;

verus! {

/// The parts of a request address that the flow reads.
#[derive(Debug)]
pub struct RequestUrl {
    pub path: String,
    pub query: Vec<(String, String)>,
}

/// What a [`RequestUrl`] holds.
pub struct RequestUrlView {
    pub path: Seq<char>,
    pub query: Seq<(Seq<char>, Seq<char>)>,
}

impl View for RequestUrl {
    type V = RequestUrlView;

    open spec fn view(&self) -> RequestUrlView {
        RequestUrlView { path: self.path@, query: pairs_text(self.query@) }
    }
}

/// The path of an address as the `url` crate parses it, or `None` where the
/// text is no valid absolute URL.
pub uninterp spec fn url_path(raw: Seq<char>) -> Option<Seq<char>>;

/// The decoded query pairs of an address, in order, as the `url` crate parses
/// them; empty where the text is no valid absolute URL.
pub uninterp spec fn url_query(raw: Seq<char>) -> Seq<(Seq<char>, Seq<char>)>;

/// Calls `Url::parse` and `Url::path`.
#[verifier::external_body]
fn parsed_path(raw: &str) -> (r: Option<String>)
    ensures
        opt_text(r) == url_path(raw@),
{
    match Url::parse(raw) {
        Ok(url) => Some(url.path().to_string()),
        Err(_) => None,
    }
}

/// Calls `Url::parse` and `Url::query_pairs`.
#[verifier::external_body]
fn parsed_query(raw: &str) -> (r: Vec<(String, String)>)
    ensures
        pairs_text(r@) == url_query(raw@),
{
    match Url::parse(raw) {
        Ok(url) => url.query_pairs().map(|pair| (pair.0.into_owned(), pair.1.into_owned())).collect(),
        Err(_) => Vec::new(),
    }
}

/// The value of the last pair named `name`, if any pair has that name: a
/// later pair overrides an earlier one of the same name.
pub open spec fn last_value(pairs: Seq<(Seq<char>, Seq<char>)>, name: Seq<char>) -> Option<Seq<char>>
    decreases pairs.len(),
{
    if pairs.len() == 0 {
        None
    } else if pairs.last().0 == name {
        Some(pairs.last().1)
    } else {
        last_value(pairs.drop_last(), name)
    }
}

/// The request address that a raw text stands for.
pub open spec fn parsed(raw: Seq<char>) -> Option<RequestUrlView> {
    match url_path(raw) {
        Some(path) => Some(RequestUrlView { path, query: url_query(raw) }),
        None => None,
    }
}

/// The view of an optional request address.
pub open spec fn opt_url(o: Option<RequestUrl>) -> Option<RequestUrlView> {
    match o {
        Some(u) => Some(u@),
        None => None,
    }
}

impl RequestUrl {
    /// Parses an absolute URL into its path and query pairs.
    pub fn parse(raw: &str) -> (r: Option<RequestUrl>)
        ensures
            opt_url(r) == parsed(raw@),
    {
        match parsed_path(raw) {
            Some(path) => Some(RequestUrl { path, query: parsed_query(raw) }),
            None => None,
        }
    }

    /// The value of the query parameter `name`: that of its last occurrence.
    pub fn param(&self, name: &str) -> (r: Option<String>)
        ensures
            opt_text(r) == last_value(self@.query, name@),
    {
        let wanted: String = name.to_owned();
        let mut found: Option<String> = None;
        let mut i: usize = 0;
        while i < self.query.len()
            invariant
                i <= self.query.len(),
                wanted@ == name@,
                opt_text(found) == last_value(pairs_text(self.query@).take(i as int), name@),
            decreases self.query.len() - i,
        {
            proof {
                let all = pairs_text(self.query@);
                assert(all.take(i + 1).drop_last() =~= all.take(i as int));
                assert(all.take(i + 1).last() == all[i as int]);
            }
            if self.query[i].0 == wanted {
                found = Some(self.query[i].1.clone());
            }
            i += 1;
        }
        proof {
            let all = pairs_text(self.query@);
            assert(all.take(i as int) =~= all);
        }
        found
    }
}

/// Where no pair is named `name`, there is no value.
pub proof fn last_value_none(pairs: Seq<(Seq<char>, Seq<char>)>, name: Seq<char>)
    requires
        forall|i: int| 0 <= i < pairs.len() ==> pairs[i].0 != name,
    ensures
        last_value(pairs, name) is None,
    decreases pairs.len(),
{
    if pairs.len() > 0 {
        last_value_none(pairs.drop_last(), name);
    }
}

/// The value found is that of the last pair named `name`: it stands at some
/// index, and no later pair has that name.
pub proof fn last_value_is_last_match(pairs: Seq<(Seq<char>, Seq<char>)>, name: Seq<char>)
    requires
        last_value(pairs, name) is Some,
    ensures
        exists|i: int|
            0 <= i < pairs.len() && #[trigger] pairs[i] == (name, last_value(pairs, name)->0)
                && forall|j: int| i < j < pairs.len() ==> pairs[j].0 != name,
    decreases pairs.len(),
{
    if pairs.last().0 == name {
        let i = pairs.len() - 1;
        assert(pairs[i] == (name, last_value(pairs, name)->0));
    } else {
        let rest = pairs.drop_last();
        last_value_is_last_match(rest, name);
        let i = choose|i: int|
            0 <= i < rest.len() && #[trigger] rest[i] == (name, last_value(rest, name)->0)
                && forall|j: int| i < j < rest.len() ==> rest[j].0 != name;
        assert(pairs[i] == rest[i]);
        assert forall|j: int| i < j < pairs.len() implies pairs[j].0 != name by {
            if j < rest.len() {
                assert(rest[j] == pairs[j]);
            }
        }
    }
}

} // verus!
