//! What a request asks for: its query parameters and the URI it names.

use url::form_urlencoded;
use url::Url;
use vstd::prelude::*;

verus! {

/// The name and value pairs of a query string in the `application/x-www-form-urlencoded` syntax,
/// as `form_urlencoded` decodes them.
pub uninterp spec fn form_pairs(query: Seq<char>) -> Seq<(Seq<char>, Seq<char>)>;

/// What `Url::parse` makes of a text: the serialization of the URL, or the text of the error.
pub uninterp spec fn url_parsed(input: Seq<char>) -> Result<Seq<char>, Seq<char>>;

/// A list of pairs, seen as pairs of texts.
pub open spec fn pair_texts(pairs: Seq<(String, String)>) -> Seq<(Seq<char>, Seq<char>)> {
    pairs.map_values(|pair: (String, String)| (pair.0@, pair.1@))
}

/// Calls `form_urlencoded::parse` on the bytes of the query string and collects its pairs. Claims
/// that the query string alone decides which pairs come, and in which order.
#[verifier::external_body]
fn parse_form(query: &str) -> (r: Vec<(String, String)>)
    ensures
        pair_texts(r@) == form_pairs(query@),
{
    form_urlencoded::parse(query.as_bytes()).into_owned().collect()
}

/// Calls `Url::parse`, and gives the URL by its serialization and the error by its text. Claims
/// that the text alone decides both.
#[verifier::external_body]
pub(crate) fn parse_url(input: &str) -> (r: Result<String, String>)
    ensures
        url_parsed(input@) == (match r {
            Ok(url) => Ok::<Seq<char>, Seq<char>>(url@),
            Err(error) => Err(error@),
        }),
{
    match Url::parse(input) {
        Ok(url) => Ok(url.to_string()),
        Err(error) => Err(error.to_string()),
    }
}

/// The value of the first pair with the given name.
pub open spec fn first_value_of(
    pairs: Seq<(Seq<char>, Seq<char>)>,
    name: Seq<char>,
) -> Option<Seq<char>>
    decreases pairs.len(),
{
    if pairs.len() == 0 {
        None
    } else if pairs[0].0 == name {
        Some(pairs[0].1)
    } else {
        first_value_of(pairs.drop_first(), name)
    }
}

/// An optional text, seen as a text.
pub open spec fn optional_text(text: Option<String>) -> Option<Seq<char>> {
    match text {
        Some(text) => Some(text@),
        None => None,
    }
}

/// Finds the value of the first pair with the given name.
pub fn first_value(pairs: &Vec<(String, String)>, name: &str) -> (r: Option<String>)
    ensures
        optional_text(r) == first_value_of(pair_texts(pairs@), name@),
{
    let wanted = name.to_owned();
    let mut i: usize = 0;
    assert(pair_texts(pairs@).skip(0) =~= pair_texts(pairs@));
    while i < pairs.len()
        invariant
            i <= pairs@.len(),
            wanted@ == name@,
            first_value_of(pair_texts(pairs@), name@) == first_value_of(
                pair_texts(pairs@).skip(i as int),
                name@,
            ),
        decreases pairs@.len() - i,
    {
        assert(pair_texts(pairs@).skip(i as int).drop_first() =~= pair_texts(pairs@).skip(i + 1));
        if pairs[i].0 == wanted {
            return Some(pairs[i].1.clone());
        }
        i = i + 1;
    }
    None
}

/// The query parameter by which a client asks for the tools of one app.
pub const APP_PARAMETER: &'static str = "app";

/// The app that the query string of a request asks for, where there is a query string and it asks
/// for one.
pub open spec fn app_parameter_of(query: Option<&str>) -> Option<Seq<char>> {
    match query {
        Some(query) => first_value_of(form_pairs(query@), APP_PARAMETER@),
        None => None,
    }
}

/// Finds the app that the query string of a request asks for.
pub fn app_parameter(query: Option<&str>) -> (r: Option<String>)
    ensures
        optional_text(r) == app_parameter_of(query),
{
    match query {
        Some(query) => first_value(&parse_form(query), APP_PARAMETER),
        None => None,
    }
}

} // verus!
