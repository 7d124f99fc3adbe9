use vstd::prelude::*;
use vstd::string::*;

verus! {

/// The query URL of one request: the fixed endpoint, the caller's
/// credential, and one query parameter carrying the query value
/// verbatim.
pub open spec fn query_url(param: Seq<char>, value: Seq<char>, key: Seq<char>) -> Seq<char> {
    "http://www.omdbapi.com/?apikey="@ + key + "&"@ + param + "="@ + value
}

/// Builds the query URL for the given parameter name.
fn build_query_url(param: &str, value: &str, key: &str) -> (r: String)
    ensures
        r@ == query_url(param@, value@, key@),
{
    let mut url = String::new();
    url.append("http://www.omdbapi.com/?apikey=");
    url.append(key);
    url.append("&");
    url.append(param);
    url.append("=");
    url.append(value);
    proof {
        assert(url@ =~= query_url(param@, value@, key@));
    }
    url
}

/// The URL of a lookup-by-title request.
pub fn title_query_url(title: &str, key: &str) -> (r: String)
    ensures
        r@ == query_url("t"@, title@, key@),
{
    build_query_url("t", title, key)
}

/// The URL of a lookup-by-identifier request.
pub fn id_query_url(id: &str, key: &str) -> (r: String)
    ensures
        r@ == query_url("i"@, id@, key@),
{
    build_query_url("i", id, key)
}

/// The URL of a free-text search request.
pub fn search_query_url(title: &str, key: &str) -> (r: String)
    ensures
        r@ == query_url("s"@, title@, key@),
{
    build_query_url("s", title, key)
}

} // verus!
