//! The request of a quote fetch: its cache mode and its canonical URL.
//!
//! The URL is the endpoint with the query parameters `symbols`, then
//! `fields` when there are any, then `crumb` on an authenticated attempt.
//! Its text is the key under which a response body is cached.

use vstd::prelude::*;
use url::Url;
use crate::text::text_of_str;

verus! {

#[verifier::external_type_specification]
#[verifier::external_body]
pub struct ExUrl(url::Url);

/// Whether a fetch may consult and fill the response cache.
#[derive(Clone, Copy, Debug, PartialEq, Eq, Structural)]
pub enum CacheMode {
    /// Read the cache before sending, store a successful body after.
    Use,
    /// Neither read nor write the cache.
    Bypass,
}

/// The method of every quote request.
pub const REQUEST_METHOD: &'static str = "GET";

/// The value of the `accept` header, the one header of a quote request.
pub const ACCEPT_JSON: &'static str = "application/json";

/// The serialization of a URL: the text that `Url::as_str` returns.
pub uninterp spec fn url_text(url: Url) -> Seq<char>;

/// The serialization of a URL after one more query pair: what the URL that
/// serializes as `url` serializes as once
/// `query_pairs_mut().append_pair(key, value)` has run on it.
pub uninterp spec fn url_with_pair(url: Seq<char>, key: Seq<char>, value: Seq<char>) -> Seq<char>;

/// The number of bytes of `text` in UTF-8.
pub open spec fn byte_len(text: Seq<char>) -> nat {
    vstd::utf8::encode_utf8(text).len()
}

/// Whether a query pair can be appended to a URL: the URL, the pair with every
/// byte percent-encoded, and the separators must fit the 32-bit offsets that a
/// `Url` keeps into its serialization.
pub open spec fn pair_fits(url: Seq<char>, key: Seq<char>, value: Seq<char>) -> bool {
    byte_len(url) + 3 * byte_len(key) + 3 * byte_len(value) + 3 <= u32::MAX
}

/// `Url::query_pairs_mut` followed by `Serializer::append_pair`: appends
/// `key=value`, form-urlencoded, to the query of `url`. The new serialization
/// depends on the old one and the pair alone. Longer inputs than
/// [`pair_fits`] admits can overflow a 32-bit offset inside `Url`, which panics.
#[verifier::external_body]
fn append_pair(url: &mut Url, key: &str, value: &str)
    requires
        pair_fits(url_text(*old(url)), key@, value@),
    ensures
        url_text(*final(url)) == url_with_pair(url_text(*old(url)), key@, value@),
{
    url.query_pairs_mut().append_pair(key, value);
}

/// `Url::as_str`: the serialization of `url`.
#[verifier::external_body]
pub(crate) fn as_text(url: &Url) -> (text: &str)
    ensures
        text@ == url_text(*url),
{
    url.as_str()
}

/// Appends the query pair `key=value` to `url` if it fits, and says whether it
/// did. A pair that does not fit leaves `url` as it was.
pub fn append_query_pair(url: &mut Url, key: &str, value: &str) -> (appended: bool)
    ensures
        appended == pair_fits(url_text(*old(url)), key@, value@),
        appended ==> url_text(*final(url)) == url_with_pair(url_text(*old(url)), key@, value@),
        !appended ==> *final(url) == *old(url),
{
    let url_len: u128 = as_text(url).as_bytes().len() as u128;
    let key_len: u128 = key.as_bytes().len() as u128;
    let value_len: u128 = value.as_bytes().len() as u128;
    if url_len + 3 * key_len + 3 * value_len + 3 <= 0xFFFF_FFFF {
        append_pair(url, key, value);
        true
    } else {
        false
    }
}

/// The texts of a list of string slices.
pub open spec fn texts(parts: Seq<&str>) -> Seq<Seq<char>> {
    parts.map_values(|part: &str| part@)
}

/// The texts of an optional list of string slices.
pub open spec fn optional_texts(parts: Option<&[&str]>) -> Option<Seq<Seq<char>>> {
    match parts {
        Some(list) => Some(texts(list@)),
        None => None,
    }
}

/// `parts` written one after another with a comma between neighbours.
pub open spec fn comma_joined(parts: Seq<Seq<char>>) -> Seq<char>
    decreases parts.len(),
{
    if parts.len() == 0 {
        Seq::empty()
    } else if parts.len() == 1 {
        parts[0]
    } else {
        comma_joined(parts.drop_last()) + seq![','] + parts.last()
    }
}

/// Joins `parts` with commas.
pub fn join_commas(parts: &[&str]) -> (joined: String)
    ensures
        joined@ == comma_joined(texts(parts@)),
{
    let mut joined = String::new();
    let mut i: usize = 0;
    while i < parts.len()
        invariant
            i <= parts.len(),
            joined@ == comma_joined(texts(parts@).take(i as int)),
        decreases parts.len() - i,
    {
        let ghost before = texts(parts@).take(i as int);
        let ghost after = texts(parts@).take(i + 1);
        assert(after.drop_last() == before);
        if i > 0 {
            proof {
                reveal_strlit(",");
            }
            joined.append(",");
        }
        joined.append(parts[i]);
        i += 1;
    }
    assert(texts(parts@).take(parts@.len() as int) == texts(parts@));
    joined
}

/// A URL text with one more query pair, where the pair fits.
pub open spec fn with_pair(url: Option<Seq<char>>, key: Seq<char>, value: Seq<char>) -> Option<
    Seq<char>,
> {
    match url {
        Some(text) if pair_fits(text, key, value) => Some(url_with_pair(text, key, value)),
        _ => None,
    }
}

/// The text of the canonical request URL: `base` with the pair `symbols`
/// (comma-joined), the pair `fields` (comma-joined) unless the list is absent
/// or empty, and the pair `crumb` when a crumb is given. `None` when a pair
/// does not fit.
pub open spec fn quote_url_text(
    base: Seq<char>,
    symbols: Seq<Seq<char>>,
    fields: Option<Seq<Seq<char>>>,
    crumb: Option<Seq<char>>,
) -> Option<Seq<char>> {
    let with_symbols = with_pair(Some(base), "symbols"@, comma_joined(symbols));
    let with_fields = match fields {
        Some(list) if list.len() > 0 => with_pair(with_symbols, "fields"@, comma_joined(list)),
        _ => with_symbols,
    };
    match crumb {
        Some(token) => with_pair(with_fields, "crumb"@, token),
        None => with_fields,
    }
}

/// Builds the canonical request URL on the endpoint `base`. Returns `None`
/// exactly when a query pair does not fit.
pub fn quote_url(base: Url, symbols: &[&str], fields: Option<&[&str]>, crumb: Option<&str>) -> (r:
    Option<Url>)
    ensures
        match quote_url_text(
            url_text(base),
            texts(symbols@),
            optional_texts(fields),
            text_of_str(crumb),
        ) {
            Some(text) => r matches Some(url) && url_text(url) == text,
            None => r is None,
        },
{
    let mut url = base;
    let joined_symbols = join_commas(symbols);
    if !append_query_pair(&mut url, "symbols", joined_symbols.as_str()) {
        return None;
    }
    if let Some(list) = fields {
        if list.len() > 0 {
            let joined_fields = join_commas(list);
            if !append_query_pair(&mut url, "fields", joined_fields.as_str()) {
                return None;
            }
        }
    }
    if let Some(token) = crumb {
        if !append_query_pair(&mut url, "crumb", token) {
            return None;
        }
    }
    Some(url)
}

} // verus!
