//! What the text of a query draws: the parts that stand in it, and the relationships between the
//! nodes that it names.
use crate::text::{decimal, digit_char};
use vstd::prelude::*;

verus! {

/// Whether `part` stands in `text` at a position.
pub open spec fn stands_at(text: Seq<char>, part: Seq<char>, i: int) -> bool {
    0 <= i && i + part.len() <= text.len() && text.subrange(i, i + part.len()) == part
}

/// Whether `part` stands somewhere in `text`.
pub open spec fn holds(text: Seq<char>, part: Seq<char>) -> bool {
    exists|i: int| #[trigger] stands_at(text, part, i)
}

/// A relationship, written from left to right.
pub open spec fn arrow(from: Seq<char>, edge: Seq<char>, to: Seq<char>) -> Seq<char> {
    "("@ + from + ")-["@ + edge + "]->("@ + to + ")"@
}

/// A relationship, written from right to left.
pub open spec fn arrow_back(from: Seq<char>, edge: Seq<char>, to: Seq<char>) -> Seq<char> {
    "("@ + to + ")<-["@ + edge + "]-("@ + from + ")"@
}

/// Whether a text draws a relationship from one node to another, in either writing.
pub open spec fn draws(text: Seq<char>, from: Seq<char>, edge: Seq<char>, to: Seq<char>) -> bool {
    holds(text, arrow(from, edge, to)) || holds(text, arrow_back(from, edge, to))
}

/// What stands in a text stands in every longer text around it.
pub proof fn lemma_holds_around(before: Seq<char>, text: Seq<char>, after: Seq<char>, part: Seq<char>)
    requires
        holds(text, part),
    ensures
        holds(before + text + after, part),
{
    let i = choose|i: int| #[trigger] stands_at(text, part, i);
    let whole = before + text + after;
    let k = before.len() + i;
    assert(whole.subrange(k, k + part.len()) =~= text.subrange(i, i + part.len()));
    assert(stands_at(whole, part, k));
}

/// What stands in one of two texts stands in both put together.
pub proof fn lemma_holds_in_sum(first: Seq<char>, second: Seq<char>, part: Seq<char>)
    requires
        holds(first, part) || holds(second, part),
    ensures
        holds(first + second, part),
{
    let none = Seq::<char>::empty();
    assert(none + first + second =~= first + second);
    assert(first + second + none =~= first + second);
    if holds(first, part) {
        lemma_holds_around(none, first, second, part);
    } else {
        lemma_holds_around(first, second, none, part);
    }
}

/// What stands in one of three texts stands in all put together.
pub proof fn lemma_holds_in_three(
    first: Seq<char>,
    second: Seq<char>,
    third: Seq<char>,
    part: Seq<char>,
)
    requires
        holds(first, part) || holds(second, part) || holds(third, part),
    ensures
        holds(first + second + third, part),
{
    if !holds(third, part) {
        lemma_holds_in_sum(first, second, part);
    }
    lemma_holds_in_sum(first + second, third, part);
}

/// A text stands in itself.
pub proof fn lemma_holds_itself(text: Seq<char>)
    ensures
        holds(text, text),
{
    assert(text.subrange(0, text.len() as int) =~= text);
    assert(stands_at(text, text, 0));
}

/// Two characters that stand side by side in a part stand side by side where the part does.
pub proof fn lemma_pair_stands(text: Seq<char>, part: Seq<char>, i: int, k: int)
    requires
        stands_at(text, part, i),
        0 <= k,
        k + 1 < part.len(),
    ensures
        text[i + k] == part[k],
        text[i + k + 1] == part[k + 1],
        0 <= i + k,
        i + k + 1 < text.len(),
{
    let s = text.subrange(i, i + part.len());
    assert(s[k] == text[i + k]);
    assert(s[k + 1] == text[i + k + 1]);
}

/// Where the brackets around the edge of a relationship stand in its writings.
proof fn lemma_brackets(from: Seq<char>, edge: Seq<char>, to: Seq<char>)
    requires
        edge.len() > 0,
    ensures
        ({
            let a = arrow(from, edge, to);
            let b = arrow_back(from, edge, to);
            let n = (from.len() + edge.len() + 4) as int;
            let m = (to.len() + edge.len() + 5) as int;
            &&& a.len() == from.len() + edge.len() + to.len() + 9
            &&& b.len() == from.len() + edge.len() + to.len() + 9
            &&& a[n - 1] == edge.last() && a[n] == ']' && a[n + 1] == '-' && a[n + 2] == '>'
            &&& b[m - 1] == edge.last() && b[m] == ']'
            &&& b[to.len() as int + 2] == '<' && b[to.len() as int + 3] == '-'
        }),
{
    reveal_strlit("(");
    reveal_strlit(")-[");
    reveal_strlit(")<-[");
    reveal_strlit("]->(");
    reveal_strlit("]-(");
    reveal_strlit(")");
    assert("("@.len() == 1 && ")-["@.len() == 3 && ")<-["@.len() == 4 && "]->("@.len() == 4
        && "]-("@.len() == 3 && ")"@.len() == 1);
}

/// Whether two characters never stand side by side in a text.
pub open spec fn never_pairs(text: Seq<char>, first: char, second: char) -> bool {
    forall|p: int|
        0 <= p && p + 1 < text.len() ==> !(#[trigger] text[p] == first && text[p + 1] == second)
}

/// A text without the end of an edge draws no relationship with that edge.
pub proof fn lemma_no_edge(text: Seq<char>, from: Seq<char>, edge: Seq<char>, to: Seq<char>)
    requires
        edge.len() > 0,
        never_pairs(text, edge.last(), ']'),
    ensures
        !draws(text, from, edge, to),
{
    lemma_brackets(from, edge, to);
    let a = arrow(from, edge, to);
    let b = arrow_back(from, edge, to);
    if holds(text, a) {
        let i = choose|i: int| #[trigger] stands_at(text, a, i);
        lemma_pair_stands(text, a, i, (from.len() + edge.len() + 3) as int);
    }
    if holds(text, b) {
        let i = choose|i: int| #[trigger] stands_at(text, b, i);
        lemma_pair_stands(text, b, i, (to.len() + edge.len() + 4) as int);
    }
}

/// A text without an arrowhead to the right writes no relationship from left to right.
pub proof fn lemma_no_arrow(text: Seq<char>, from: Seq<char>, edge: Seq<char>, to: Seq<char>)
    requires
        edge.len() > 0,
        never_pairs(text, '-', '>'),
    ensures
        !holds(text, arrow(from, edge, to)),
{
    lemma_brackets(from, edge, to);
    let a = arrow(from, edge, to);
    if holds(text, a) {
        let i = choose|i: int| #[trigger] stands_at(text, a, i);
        lemma_pair_stands(text, a, i, (from.len() + edge.len() + 5) as int);
    }
}

/// A text without an arrowhead to the left writes no relationship from right to left.
pub proof fn lemma_no_arrow_back(text: Seq<char>, from: Seq<char>, edge: Seq<char>, to: Seq<char>)
    requires
        edge.len() > 0,
        never_pairs(text, '<', '-'),
    ensures
        !holds(text, arrow_back(from, edge, to)),
{
    lemma_brackets(from, edge, to);
    let b = arrow_back(from, edge, to);
    if holds(text, b) {
        let i = choose|i: int| #[trigger] stands_at(text, b, i);
        lemma_pair_stands(text, b, i, (to.len() + 2) as int);
    }
}

/// Decimal digits are digits, and there is at least one.
pub proof fn lemma_decimal_digits(n: nat)
    ensures
        decimal(n).len() >= 1,
        forall|i: int|
            0 <= i < decimal(n).len() ==> '0' <= (#[trigger] decimal(n)[i]) && decimal(n)[i] <= '9',
    decreases n,
{
    if n >= 10 {
        lemma_decimal_digits(n / 10);
    }
    assert('0' <= digit_char(n % 10) && digit_char(n % 10) <= '9');
}

} // verus!
