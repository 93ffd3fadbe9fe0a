//! Rendering of listing parameters: from an ordered list of name and value
//! pairs to a query string.

use crate::text::decimal;
use crate::text::lemma_decimal_is_digits;
use crate::urls::append_pair;
use crate::urls::form_plain;
use crate::urls::pair_appended;
use vstd::prelude::*;

verus! {

/// The pair for one criterion: present where the criterion is set.
pub open spec fn optional_pair(name: Seq<char>, value: Option<Seq<char>>) -> Seq<
    (Seq<char>, Seq<char>),
> {
    match value {
        Some(v) => seq![(name, v)],
        None => Seq::empty(),
    }
}

/// The query string for `pairs`: each pair appended in turn, the first to
/// the empty string. No pairs give the empty string.
pub open spec fn query_text(pairs: Seq<(Seq<char>, Seq<char>)>) -> Seq<char>
    decreases pairs.len(),
{
    if pairs.len() == 0 {
        Seq::empty()
    } else {
        pair_appended(query_text(pairs.drop_last()), pairs.last().0, pairs.last().1)
    }
}

/// A query string is empty exactly when there are no pairs.
pub proof fn lemma_query_text_empty(pairs: Seq<(Seq<char>, Seq<char>)>)
    ensures
        query_text(pairs).len() == 0 <==> pairs.len() == 0,
{
}

/// One more pair is appended to the query string of those before it.
pub proof fn lemma_query_text_push(
    pairs: Seq<(Seq<char>, Seq<char>)>,
    name: Seq<char>,
    value: Seq<char>,
)
    ensures
        query_text(pairs.push((name, value))) == pair_appended(query_text(pairs), name, value),
{
    assert(pairs.push((name, value)).drop_last() =~= pairs);
}

/// More pairs only add to the end of a query string.
pub proof fn lemma_query_text_extends(
    first: Seq<(Seq<char>, Seq<char>)>,
    rest: Seq<(Seq<char>, Seq<char>)>,
)
    ensures
        query_text(first).is_prefix_of(query_text(first + rest)),
    decreases rest.len(),
{
    if rest.len() == 0 {
        assert(first + rest =~= first);
    } else {
        let all = first + rest;
        assert(all.drop_last() =~= first + rest.drop_last());
        lemma_query_text_extends(first, rest.drop_last());
        let shorter = query_text(first + rest.drop_last());
        assert(shorter.is_prefix_of(query_text(all)));
    }
}

/// A number is sent as it is written: form encoding leaves digits alone.
pub proof fn lemma_decimal_is_plain(n: nat)
    ensures
        form_plain(decimal(n)),
{
    lemma_decimal_is_digits(n);
}

/// Appends one pair to the list that is being collected.
pub(crate) fn push_pair(pairs: &mut Vec<(String, String)>, name: &str, value: String)
    ensures
        final(pairs).deep_view() == old(pairs).deep_view().push((name@, value@)),
{
    pairs.push((name.to_owned(), value));
    assert(pairs.deep_view() =~= old(pairs).deep_view().push((name@, value@)));
}

/// Renders `pairs` as a query string, without the leading `?`.
pub fn render_query(pairs: &Vec<(String, String)>) -> (r: String)
    ensures
        r@ == query_text(pairs.deep_view()),
{
    let mut query = String::new();
    let mut i: usize = 0;
    while i < pairs.len()
        invariant
            i <= pairs.len(),
            query@ == query_text(pairs.deep_view().take(i as int)),
        decreases pairs.len() - i,
    {
        proof {
            let next = pairs.deep_view().take(i + 1);
            assert(next.drop_last() == pairs.deep_view().take(i as int));
            assert(next.last() == (pairs@[i as int].0@, pairs@[i as int].1@));
        }
        query = append_pair(query, pairs[i].0.as_str(), pairs[i].1.as_str());
        i += 1;
    }
    proof {
        assert(pairs.deep_view().take(pairs.len() as int) == pairs.deep_view());
    }
    query
}

} // verus!
