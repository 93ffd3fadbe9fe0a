//! What this library takes from the `url` crate: parsing, reference
//! resolution and form encoding. Each item here states a contract that is
//! taken on trust; the rest of the library is proved against them.

use url::form_urlencoded::Serializer;
use url::ParseError;
use url::Url;
use vstd::prelude::*;

verus! {

/// `url::ParseError`, carried through as an opaque value.
#[verifier::external_type_specification]
#[verifier::external_body]
pub struct ExUrlParseError(ParseError);

/// The serialization of the URL that `Url::parse` reads from `text`, or
/// `None` where it rejects `text`.
pub uninterp spec fn url_parsed(text: Seq<char>) -> Option<Seq<char>>;

/// The serialization of the URL that `Url::join` resolves `reference` to
/// against the URL that `Url::parse` reads from `base`, or `None` where
/// either rejects its input.
pub uninterp spec fn url_joined(base: Seq<char>, reference: Seq<char>) -> Option<Seq<char>>;

/// What `url::form_urlencoded::byte_serialize` yields, taken together, for
/// the UTF-8 bytes of `text`.
pub uninterp spec fn form_encoded(text: Seq<char>) -> Seq<char>;

/// The characters that form encoding leaves as they are: ASCII letters and
/// digits and `*`, `-`, `.`, `_`.
pub open spec fn form_plain_char(c: char) -> bool {
    ||| '0' <= c <= '9'
    ||| 'A' <= c <= 'Z'
    ||| 'a' <= c <= 'z'
    ||| c == '*'
    ||| c == '-'
    ||| c == '.'
    ||| c == '_'
}

/// Whether form encoding leaves the whole of `text` as it is.
pub open spec fn form_plain(text: Seq<char>) -> bool {
    forall|i: int| 0 <= i < text.len() ==> form_plain_char(#[trigger] text[i])
}

/// What form encoding writes for `text`, given its encoding: `text`
/// itself where every character is plain, the encoding otherwise.
pub open spec fn form_written(text: Seq<char>, encoded: Seq<char>) -> Seq<char> {
    if form_plain(text) {
        text
    } else {
        encoded
    }
}

/// A query string after one more pair, given what is written for its name
/// and its value: an `&` if something came before, then the name, `=`,
/// and the value.
pub open spec fn pair_joined(query: Seq<char>, name: Seq<char>, value: Seq<char>) -> Seq<char> {
    query + (if query.len() > 0 {
        seq!['&']
    } else {
        Seq::empty()
    }) + name + seq!['='] + value
}

/// A query string after the pair `name`, `value` has been appended to it.
pub open spec fn pair_appended(query: Seq<char>, name: Seq<char>, value: Seq<char>) -> Seq<char> {
    pair_joined(
        query,
        form_written(name, form_encoded(name)),
        form_written(value, form_encoded(value)),
    )
}

/// `Url::parse`: on success the URL is handed back as its serialization.
#[verifier::external_body]
pub(crate) fn parse_url(text: &str) -> (r: Result<String, ParseError>)
    ensures
        r is Ok <==> url_parsed(text@) is Some,
        r matches Ok(parsed) ==> url_parsed(text@) == Some(parsed@),
{
    match Url::parse(text) {
        Ok(url) => Ok(String::from(url)),
        Err(e) => Err(e),
    }
}

/// `Url::join` on the URL that `base` parses to: on success the resolved
/// URL is handed back as its serialization.
#[verifier::external_body]
pub(crate) fn join_url(base: &str, reference: &str) -> (r: Result<String, ParseError>)
    ensures
        r is Ok <==> url_joined(base@, reference@) is Some,
        r matches Ok(joined) ==> url_joined(base@, reference@) == Some(joined@),
{
    match Url::parse(base) {
        Ok(url) => match url.join(reference) {
            Ok(joined) => Ok(String::from(joined)),
            Err(e) => Err(e),
        },
        Err(e) => Err(e),
    }
}

/// `Serializer::append_pair` of `url::form_urlencoded`, on a serializer
/// that starts from `query`: it separates with `&` unless `query` is
/// empty, and writes the name and the value form-encoded around an `=`.
/// Text made of plain characters only is written unchanged.
#[verifier::external_body]
pub(crate) fn append_pair(query: String, name: &str, value: &str) -> (r: String)
    ensures
        r@ == pair_joined(
            query@,
            form_written(name@, form_encoded(name@)),
            form_written(value@, form_encoded(value@)),
        ),
{
    Serializer::new(query).append_pair(name, value).finish()
}

} // verus!
