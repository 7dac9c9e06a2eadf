//! Text helpers: joining pieces with a separator, comparing texts.

use vstd::prelude::*;
use vstd::string::StringExecFns;

verus! {

/// The character sequences of the strings, in their order.
pub open spec fn texts(parts: Seq<String>) -> Seq<Seq<char>> {
    Seq::new(parts.len(), |i: int| parts[i]@)
}

/// The texts of a list with one more string are the texts of the list with
/// that string's text added.
pub proof fn lemma_texts_push(parts: Seq<String>, last: String)
    ensures
        texts(parts.push(last)) == texts(parts).push(last@),
{
}

/// The parts in their order, with `sep` between each two neighbours.
pub open spec fn joined(parts: Seq<Seq<char>>, sep: Seq<char>) -> Seq<char>
    decreases parts.len(),
{
    if parts.len() == 0 {
        Seq::empty()
    } else if parts.len() == 1 {
        parts[0]
    } else {
        joined(parts.drop_last(), sep) + sep + parts.last()
    }
}

/// Two and three parts, joined.
pub proof fn lemma_joined_three(a: Seq<char>, b: Seq<char>, c: Seq<char>, sep: Seq<char>)
    ensures
        joined(seq![a, b, c], sep) == a + sep + b + sep + c,
        joined(seq![a, b], sep) == a + sep + b,
{
    reveal_with_fuel(joined, 4);
}

/// Joins the parts, with `sep` between each two neighbours.
pub fn join(parts: &Vec<String>, sep: &str) -> (out: String)
    ensures
        out@ == joined(texts(parts@), sep@),
{
    let mut out = String::new();
    let mut i: usize = 0;
    while i < parts.len()
        invariant
            i <= parts.len(),
            out@ == joined(texts(parts@).take(i as int), sep@),
        decreases parts.len() - i,
    {
        proof {
            let next = texts(parts@).take(i as int + 1);
            assert(next.drop_last() == texts(parts@).take(i as int));
        }
        if i > 0 {
            out.append(sep);
        }
        out.append(parts[i].as_str());
        i += 1;
    }
    proof {
        assert(texts(parts@).take(parts@.len() as int) == texts(parts@));
    }
    out
}

/// The decimal text of an integer, as `ToString` of the standard library
/// writes it.
pub uninterp spec fn decimal_text(n: int) -> Seq<char>;

/// The decimal text of an integer, by `i128::to_string` of the standard
/// library. The contract gives the result a name, [`decimal_text`], and
/// claims only that it depends on the number alone.
#[verifier::external_body]
fn to_string(n: i128) -> (text: String)
    ensures
        text@ == decimal_text(n as int),
{
    n.to_string()
}

/// The decimal text of an integer.
pub fn decimal(n: i128) -> (text: String)
    ensures
        text@ == decimal_text(n as int),
{
    to_string(n)
}

/// Whether two texts hold the same characters.
pub fn same_text(a: &str, b: &str) -> (same: bool)
    ensures
        same == (a@ == b@),
{
    String::from_str(a) == String::from_str(b)
}

} // verus!
