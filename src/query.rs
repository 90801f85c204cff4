use vstd::prelude::*;
use vstd::string::*;

use crate::text::{lemma_without_commas_has_none, strip_commas, without_commas};

verus! {

/// The field projection requested from the upstream service.
pub open spec fn selected_fields() -> Seq<char> {
    "id,display_name,publication_year,cited_by_count"@
}

/// The `title.search` filter for `title`: commas removed, the rest quoted.
pub open spec fn filter_value(title: Seq<char>) -> Seq<char> {
    "title.search:\""@ + without_commas(title) + "\""@
}

/// The query parameters of one upstream lookup, as plain text; the HTTP
/// client percent-encodes them when it sends the request.
#[derive(Clone, Debug, PartialEq, Eq)]
pub struct UpstreamQuery {
    /// Value of the `filter` parameter.
    pub filter: String,
    /// Value of the `select` parameter.
    pub select: String,
}

impl UpstreamQuery {
    /// This query is the lookup for `title`.
    pub open spec fn is_for(&self, title: Seq<char>) -> bool {
        &&& self.filter@ == filter_value(title)
        &&& self.select@ == selected_fields()
    }
}

/// Builds the upstream query for `title`; equal titles give equal queries.
pub fn build_query(title: &str) -> (q: UpstreamQuery)
    ensures
        q.is_for(title@),
{
    let cleaned = strip_commas(title);
    let mut filter = String::from_str("title.search:\"");
    filter.append(cleaned.as_str());
    filter.append("\"");
    let select = String::from_str("id,display_name,publication_year,cited_by_count");
    proof {
        reveal_strlit("title.search:\"");
        reveal_strlit("\"");
        reveal_strlit("id,display_name,publication_year,cited_by_count");
    }
    UpstreamQuery { filter, select }
}

/// Whatever the title, the filter sent upstream holds no comma.
pub proof fn law_filter_has_no_commas(title: Seq<char>)
    ensures
        !filter_value(title).contains(','),
{
    reveal_strlit("title.search:\"");
    reveal_strlit("\"");
    lemma_without_commas_has_none(title);
    let a = "title.search:\""@;
    let w = without_commas(title);
    let b = "\""@;
    let f = filter_value(title);
    assert forall|k: int| 0 <= k < f.len() implies f[k] != ',' by {
        if k < a.len() {
            assert(f[k] == a[k]);
        } else if k < a.len() + w.len() {
            assert(f[k] == w[k - a.len()]);
        } else {
            assert(f[k] == b[k - a.len() - w.len()]);
        }
    }
}

} // verus!
