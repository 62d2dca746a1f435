//! Splitting the configured message-item list on commas.

use vstd::prelude::*;

verus! {

/// The pieces of `s` between occurrences of `sep`, in order. An empty
/// string has one empty piece; separators at the ends and adjacent
/// separators yield empty pieces, exactly as the splitting of the
/// configured key list demands.
pub open spec fn split_on(s: Seq<char>, sep: char) -> Seq<Seq<char>>
    decreases s.len(),
{
    if s.len() == 0 {
        seq![Seq::<char>::empty()]
    } else {
        let first = split_on(s.drop_last(), sep);
        if s.last() == sep {
            first.push(Seq::<char>::empty())
        } else {
            first.update(first.len() - 1, first.last().push(s.last()))
        }
    }
}

/// Splitting always yields at least one piece.
pub proof fn lemma_split_on_len(s: Seq<char>, sep: char)
    ensures
        split_on(s, sep).len() >= 1,
    decreases s.len(),
{
    if s.len() > 0 {
        lemma_split_on_len(s.drop_last(), sep);
    }
}

/// Splits `s` on commas, piece for piece as `split_on` describes it.
pub fn split_commas(s: &str) -> (r: Vec<String>)
    ensures
        r.deep_view() == split_on(s@, ','),
{
    let n = s.unicode_len();
    let mut pieces: Vec<String> = Vec::new();
    let mut start: usize = 0;
    let mut i: usize = 0;
    while i < n
        invariant
            start <= i <= n,
            n == s@.len(),
            pieces.deep_view().push(s@.subrange(start as int, i as int)) =~~= split_on(
                s@.take(i as int),
                ',',
            ),
        decreases n - i,
    {
        let c = s.get_char(i);
        proof {
            assert(s@.take(i + 1).drop_last() =~= s@.take(i as int));
            assert(s@.take(i + 1).last() == s@[i as int]);
            lemma_split_on_len(s@.take(i as int), ',');
        }
        if c == ',' {
            let piece = s.substring_char(start, i);
            pieces.push(String::from_str(piece));
            proof {
                assert(pieces.deep_view() =~~= split_on(s@.take(i as int), ','));
                assert(pieces.deep_view().push(s@.subrange(i + 1, i + 1)) =~~= split_on(
                    s@.take(i + 1),
                    ',',
                ));
            }
            start = i + 1;
        } else {
            proof {
                let ghost cur = s@.subrange(start as int, i as int);
                let ghost prev = split_on(s@.take(i as int), ',');
                assert(prev.last() == cur);
                assert(s@.subrange(start as int, i + 1) =~= cur.push(s@[i as int]));
                assert(pieces.deep_view().push(s@.subrange(start as int, i + 1)) =~~= prev.update(
                    prev.len() - 1,
                    prev.last().push(s@[i as int]),
                ));
                assert(pieces.deep_view().push(s@.subrange(start as int, i + 1)) =~~= split_on(
                    s@.take(i + 1),
                    ',',
                ));
            }
        }
        i = i + 1;
    }
    let piece = s.substring_char(start, n);
    pieces.push(String::from_str(piece));
    proof {
        assert(s@.take(n as int) =~= s@);
        assert(pieces.deep_view() =~~= split_on(s@, ','));
    }
    pieces
}

} // verus!
