//! Splitting a room description into display lines. A description arrives
//! as one string with literal `\n` two-character sequences marking line
//! breaks; empty lines carry nothing and are dropped.

use vstd::prelude::*;
use vstd::string::StrSliceExecFns;

verus! {

/// The display lines of `s` once the part already scanned has produced
/// `cur`: a line ends at each literal backslash-n pair, lines are taken in
/// order, and an empty line is dropped.
pub open spec fn split_lines_from(s: Seq<char>, cur: Seq<char>) -> Seq<Seq<char>>
    decreases s.len(),
{
    if s.len() == 0 {
        if cur.len() == 0 {
            Seq::empty()
        } else {
            seq![cur]
        }
    } else if s.len() >= 2 && s[0] == '\\' && s[1] == 'n' {
        (if cur.len() == 0 {
            Seq::<Seq<char>>::empty()
        } else {
            seq![cur]
        }) + split_lines_from(s.skip(2), Seq::empty())
    } else {
        split_lines_from(s.drop_first(), cur.push(s[0]))
    }
}

/// The display lines of a description: the non-empty pieces between its
/// literal backslash-n line breaks, in order.
pub open spec fn split_lines(s: Seq<char>) -> Seq<Seq<char>> {
    split_lines_from(s, Seq::empty())
}

/// Splits a room description into its non-empty display lines, as
/// [`split_lines`] describes. How the lines are decorated and laid out is
/// the display's business; a single-line description is shown inline, so
/// callers branch on the length of the result.
pub fn parse_description(description: &str) -> (lines: Vec<String>)
    ensures
        lines.deep_view() == split_lines(description@),
{
    let n = description.unicode_len();
    let mut lines: Vec<String> = Vec::new();
    let mut start: usize = 0;
    let mut i: usize = 0;
    assert(description@.skip(0) =~= description@);
    assert(description@.subrange(0, 0) =~= Seq::<char>::empty());
    assert(lines.deep_view() =~= Seq::<Seq<char>>::empty());
    assert(Seq::<Seq<char>>::empty() + split_lines(description@) =~= split_lines(description@));
    while i < n
        invariant
            0 <= start <= i <= n,
            n == description@.len(),
            split_lines(description@) == lines.deep_view() + split_lines_from(
                description@.skip(i as int),
                description@.subrange(start as int, i as int),
            ),
        decreases n - i,
    {
        let ghost s = description@;
        let ghost cur = s.subrange(start as int, i as int);
        let ghost rest = s.skip(i as int);
        assert(rest.len() == n - i);
        assert(rest[0] == s[i as int]);
        if i + 1 < n && description.get_char(i) == '\\' && description.get_char(i + 1) == 'n' {
            assert(rest[1] == s[i as int + 1]);
            let ghost old_lines = lines.deep_view();
            let ghost head = (if cur.len() == 0 {
                Seq::<Seq<char>>::empty()
            } else {
                seq![cur]
            });
            if i > start {
                let segment = description.substring_char(start, i).to_owned();
                let ghost sv = segment@;
                lines.push(segment);
                assert(sv == cur);
                assert(lines.deep_view() =~~= old_lines + seq![cur]);
                assert(head =~= seq![cur]);
            } else {
                assert(cur.len() == 0);
                assert(head =~= Seq::<Seq<char>>::empty());
                assert(lines.deep_view() =~= old_lines + head);
            }
            assert(rest.skip(2) =~= s.skip(i as int + 2));
            assert(split_lines_from(rest, cur) == head + split_lines_from(
                s.skip(i as int + 2),
                Seq::empty(),
            ));
            assert(old_lines + (head + split_lines_from(s.skip(i as int + 2), Seq::empty()))
                =~= (old_lines + head) + split_lines_from(s.skip(i as int + 2), Seq::empty()));
            i = i + 2;
            start = i;
            assert(s.subrange(start as int, i as int) =~= Seq::<char>::empty());
        } else {
            assert(rest.len() < 2 || !(rest[0] == '\\' && rest[1] == 'n')) by {
                if i + 1 < n {
                    assert(rest[1] == s[i as int + 1]);
                }
            }
            assert(rest.drop_first() =~= s.skip(i as int + 1));
            assert(cur.push(s[i as int]) =~= s.subrange(start as int, i as int + 1));
            i = i + 1;
        }
    }
    assert(description@.skip(n as int) =~= Seq::<char>::empty());
    let ghost tail = description@.subrange(start as int, n as int);
    if start < n {
        let segment = description.substring_char(start, n).to_owned();
        let ghost sv = segment@;
        let ghost old_lines = lines.deep_view();
        lines.push(segment);
        assert(sv == tail);
        assert(tail.len() > 0);
        assert(lines.deep_view() =~~= old_lines + seq![tail]);
    } else {
        assert(tail.len() == 0);
        assert(lines.deep_view() + Seq::<Seq<char>>::empty() =~= lines.deep_view());
    }
    lines
}

} // verus!
