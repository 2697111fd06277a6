//! Text that the tracker reads and writes: lists of identities and decimal
//! numbers.

use vstd::prelude::*;
use vstd::string::StrSliceExecFns;
use vstd::string::StringExecFns;

verus! {

/// Whether `c` has the Unicode property White_Space.
pub uninterp spec fn is_white_space(c: char) -> bool;

/// `char::is_whitespace` tells whether a character has the Unicode property
/// White_Space. Which characters have it is left to the standard library.
pub assume_specification[ char::is_whitespace ](c: char) -> (r: bool)
    ensures
        r == is_white_space(c),
;

/// `s` without its leading white space.
pub open spec fn trim_start(s: Seq<char>) -> Seq<char>
    decreases s.len(),
{
    if s.len() > 0 && is_white_space(s.first()) {
        trim_start(s.drop_first())
    } else {
        s
    }
}

/// `s` without its trailing white space.
pub open spec fn trim_end(s: Seq<char>) -> Seq<char>
    decreases s.len(),
{
    if s.len() > 0 && is_white_space(s.last()) {
        trim_end(s.drop_last())
    } else {
        s
    }
}

/// `s` without its leading and trailing white space.
pub open spec fn trimmed(s: Seq<char>) -> Seq<char> {
    trim_end(trim_start(s))
}

/// The pieces of `s` between the occurrences of `separator`. There is one
/// piece more than there are separators, so the empty text has one empty
/// piece.
pub open spec fn split_on(s: Seq<char>, separator: char) -> Seq<Seq<char>>
    decreases s.len(),
{
    if s.len() == 0 {
        seq![Seq::empty()]
    } else {
        let before = split_on(s.drop_last(), separator);
        if s.last() == separator {
            before.push(Seq::empty())
        } else {
            before.drop_last().push(before.last().push(s.last()))
        }
    }
}

/// The pieces of `s` between commas, each without the white space around it.
pub open spec fn comma_separated(s: Seq<char>) -> Seq<Seq<char>> {
    split_on(s, ',').map_values(|piece: Seq<char>| trimmed(piece))
}

/// `pieces` written one after the other with `separator` between them.
pub open spec fn joined(pieces: Seq<Seq<char>>, separator: char) -> Seq<char>
    decreases pieces.len(),
{
    if pieces.len() == 0 {
        Seq::empty()
    } else if pieces.len() == 1 {
        pieces[0]
    } else {
        joined(pieces.drop_last(), separator).push(separator) + pieces.last()
    }
}

/// Splitting undoes joining: there is at least one piece, no piece holds the
/// separator, and the pieces joined by the separator are the text again.
pub proof fn split_undoes_join(s: Seq<char>, separator: char)
    ensures
        split_on(s, separator).len() >= 1,
        forall|k: int|
            0 <= k < split_on(s, separator).len() ==> !(#[trigger] split_on(
                s,
                separator,
            )[k]).contains(separator),
        joined(split_on(s, separator), separator) == s,
    decreases s.len(),
{
    let pieces = split_on(s, separator);
    if s.len() == 0 {
        assert(pieces[0] =~= Seq::<char>::empty());
        assert(joined(pieces, separator) =~= s);
    } else {
        let front = s.drop_last();
        let before = split_on(front, separator);
        split_undoes_join(front, separator);
        if s.last() == separator {
            assert(pieces.drop_last() =~= before);
            assert(joined(pieces, separator) =~= s);
            assert forall|k: int| 0 <= k < pieces.len() implies !(#[trigger] pieces[k]).contains(
                separator,
            ) by {
                if k < before.len() {
                    assert(pieces[k] == before[k]);
                }
            }
        } else {
            let grown = before.last().push(s.last());
            assert(pieces.drop_last() =~= before.drop_last());
            assert(pieces.last() == grown);
            if before.len() == 1 {
                assert(joined(pieces, separator) =~= s);
            } else {
                assert(joined(pieces, separator) =~= joined(before, separator).push(s.last()));
                assert(joined(pieces, separator) =~= s);
            }
            assert forall|k: int| 0 <= k < pieces.len() implies !(#[trigger] pieces[k]).contains(
                separator,
            ) by {
                if k < before.len() - 1 {
                    assert(pieces[k] == before[k]);
                } else {
                    assert(!before.last().contains(separator));
                    if grown.contains(separator) {
                        let at = choose|at: int| 0 <= at < grown.len() && grown[at] == separator;
                        assert(at < before.last().len());
                        assert(before.last()[at] == separator);
                    }
                }
            }
        }
    }
}

proof fn lemma_trim_start_skips(s: Seq<char>, from: int)
    requires
        0 <= from <= s.len(),
        forall|i: int| 0 <= i < from ==> is_white_space(#[trigger] s[i]),
    ensures
        trim_start(s) == trim_start(s.subrange(from, s.len() as int)),
    decreases from,
{
    if from > 0 {
        let rest = s.drop_first();
        assert forall|i: int| 0 <= i < from - 1 implies is_white_space(#[trigger] rest[i]) by {
            assert(rest[i] == s[i + 1]);
        }
        lemma_trim_start_skips(rest, from - 1);
        assert(rest.subrange(from - 1, rest.len() as int) =~= s.subrange(from, s.len() as int));
        assert(is_white_space(s[0]));
    } else {
        assert(s.subrange(0, s.len() as int) =~= s);
    }
}

proof fn lemma_trim_end_skips(s: Seq<char>, to: int)
    requires
        0 <= to <= s.len(),
        forall|i: int| to <= i < s.len() ==> is_white_space(#[trigger] s[i]),
    ensures
        trim_end(s) == trim_end(s.subrange(0, to)),
    decreases s.len() - to,
{
    if to < s.len() {
        let rest = s.drop_last();
        assert forall|i: int| to <= i < rest.len() implies is_white_space(#[trigger] rest[i]) by {
            assert(rest[i] == s[i]);
        }
        lemma_trim_end_skips(rest, to);
        assert(rest.subrange(0, to) =~= s.subrange(0, to));
        assert(is_white_space(s[s.len() - 1]));
    } else {
        assert(s.subrange(0, to) =~= s);
    }
}

/// Whether `s` from `from` up to `to` is `s` without the white space at its
/// ends: all before `from` and all from `to` on is white space, and what is
/// kept neither begins nor ends with white space.
pub open spec fn is_core(s: Seq<char>, from: int, to: int) -> bool {
    &&& 0 <= from <= to <= s.len()
    &&& forall|i: int| 0 <= i < from ==> is_white_space(#[trigger] s[i])
    &&& forall|i: int| to <= i < s.len() ==> is_white_space(#[trigger] s[i])
    &&& from < to ==> !is_white_space(s[from]) && !is_white_space(s[to - 1])
    &&& from == to ==> to == s.len()
}

proof fn lemma_core_is_trimmed(s: Seq<char>, from: int, to: int)
    requires
        is_core(s, from, to),
    ensures
        trimmed(s) == s.subrange(from, to),
{
    let tail = s.subrange(from, s.len() as int);
    lemma_trim_start_skips(s, from);
    if from < s.len() {
        assert(tail.first() == s[from]);
    }
    assert(trim_start(s) == tail);
    assert forall|i: int| to - from <= i < tail.len() implies is_white_space(
        #[trigger] tail[i],
    ) by {
        assert(tail[i] == s[i + from]);
    }
    lemma_trim_end_skips(tail, to - from);
    let kept = tail.subrange(0, to - from);
    assert(kept =~= s.subrange(from, to));
    if from < to {
        assert(kept.last() == s[to - 1]);
    }
    assert(trim_end(kept) == kept);
}

proof fn lemma_core_exists(s: Seq<char>, from: int)
    requires
        0 <= from <= s.len(),
        forall|i: int| 0 <= i < from ==> is_white_space(#[trigger] s[i]),
    ensures
        exists|start: int, end: int| is_core(s, start, end),
    decreases s.len() - from,
{
    if from == s.len() {
        assert(is_core(s, from, from));
    } else if is_white_space(s[from]) {
        lemma_core_exists(s, from + 1);
    } else {
        lemma_core_end_exists(s, from, s.len() as int);
    }
}

proof fn lemma_core_end_exists(s: Seq<char>, from: int, to: int)
    requires
        0 <= from < to <= s.len(),
        forall|i: int| 0 <= i < from ==> is_white_space(#[trigger] s[i]),
        forall|i: int| to <= i < s.len() ==> is_white_space(#[trigger] s[i]),
        !is_white_space(s[from]),
    ensures
        exists|start: int, end: int| is_core(s, start, end),
    decreases to,
{
    if is_white_space(s[to - 1]) {
        lemma_core_end_exists(s, from, to - 1);
    } else {
        assert(is_core(s, from, to));
    }
}

/// Trimming removes white space and nothing else, and all of it at both
/// ends: the result is a stretch of the text with nothing but white space
/// before and after it, and it neither begins nor ends with white space.
pub proof fn trimmed_is_the_core(s: Seq<char>)
    ensures
        exists|from: int, to: int| is_core(s, from, to) && trimmed(s) == s.subrange(from, to),
{
    lemma_core_exists(s, 0);
    let (from, to) = choose|from: int, to: int| is_core(s, from, to);
    lemma_core_is_trimmed(s, from, to);
}

/// `s` without its leading and trailing white space.
pub fn trim(s: &str) -> (r: String)
    ensures
        r@ == trimmed(s@),
{
    let n = s.unicode_len();
    let mut start: usize = 0;
    while start < n && s.get_char(start).is_whitespace()
        invariant
            n == s@.len(),
            start <= n,
            forall|i: int| 0 <= i < start ==> is_white_space(#[trigger] s@[i]),
        decreases n - start,
    {
        start += 1;
    }
    let mut end: usize = n;
    while end > start && s.get_char(end - 1).is_whitespace()
        invariant
            n == s@.len(),
            start <= end <= n,
            start < n ==> start < end && !is_white_space(s@[start as int]),
            forall|i: int| end <= i < n ==> is_white_space(#[trigger] s@[i]),
        decreases end,
    {
        end -= 1;
    }
    proof {
        lemma_core_is_trimmed(s@, start as int, end as int);
    }
    String::from_str(s.substring_char(start, end))
}

/// The pieces of `s` between commas, each without the white space around it.
pub fn split_comma_separated(s: &str) -> (pieces: Vec<String>)
    ensures
        pieces.deep_view() == comma_separated(s@),
{
    let n = s.unicode_len();
    let mut pieces: Vec<String> = Vec::new();
    let mut start: usize = 0;
    let mut i: usize = 0;
    proof {
        assert(s@.take(0) =~= Seq::empty());
        assert(s@.subrange(0, 0) =~= Seq::empty());
        assert(split_on(s@.take(0), ',') =~= Seq::empty().push(s@.subrange(0, 0)));
    }
    while i < n
        invariant
            n == s@.len(),
            start <= i <= n,
            split_on(s@.take(i as int), ',').len() == pieces@.len() + 1,
            split_on(s@.take(i as int), ',').last() == s@.subrange(start as int, i as int),
            forall|k: int|
                0 <= k < pieces@.len() ==> (#[trigger] pieces@[k])@ == trimmed(
                    split_on(s@.take(i as int), ',')[k],
                ),
        decreases n - i,
    {
        let c = s.get_char(i);
        let ghost before = split_on(s@.take(i as int), ',');
        let ghost after = split_on(s@.take(i + 1), ',');
        proof {
            assert(s@.take(i + 1).drop_last() =~= s@.take(i as int));
            assert(s@.take(i + 1).last() == c);
        }
        if c == ',' {
            let piece = trim(s.substring_char(start, i));
            pieces.push(piece);
            start = i + 1;
            proof {
                assert(after == before.push(Seq::empty()));
                assert(s@.subrange(start as int, i + 1) =~= Seq::empty());
            }
        } else {
            proof {
                assert(after == before.drop_last().push(before.last().push(c)));
                assert(s@.subrange(start as int, i + 1) =~= s@.subrange(
                    start as int,
                    i as int,
                ).push(c));
            }
        }
        i += 1;
    }
    let last = trim(s.substring_char(start, n));
    pieces.push(last);
    proof {
        assert(s@.take(n as int) =~= s@);
        assert(pieces.deep_view() =~= comma_separated(s@));
    }
    pieces
}

/// The decimal digit for `d`.
pub open spec fn digit_char(d: nat) -> char {
    if d == 0 {
        '0'
    } else if d == 1 {
        '1'
    } else if d == 2 {
        '2'
    } else if d == 3 {
        '3'
    } else if d == 4 {
        '4'
    } else if d == 5 {
        '5'
    } else if d == 6 {
        '6'
    } else if d == 7 {
        '7'
    } else if d == 8 {
        '8'
    } else {
        '9'
    }
}

/// `n` written in decimal, without leading zeros.
pub open spec fn decimal(n: nat) -> Seq<char>
    decreases n,
{
    if n < 10 {
        seq![digit_char(n)]
    } else {
        decimal(n / 10).push(digit_char(n % 10))
    }
}

fn digit_text(d: u64) -> (r: &'static str)
    requires
        d < 10,
    ensures
        r@ == seq![digit_char(d as nat)],
{
    proof {
        reveal_strlit("0");
        reveal_strlit("1");
        reveal_strlit("2");
        reveal_strlit("3");
        reveal_strlit("4");
        reveal_strlit("5");
        reveal_strlit("6");
        reveal_strlit("7");
        reveal_strlit("8");
        reveal_strlit("9");
    }
    let r = if d == 0 {
        "0"
    } else if d == 1 {
        "1"
    } else if d == 2 {
        "2"
    } else if d == 3 {
        "3"
    } else if d == 4 {
        "4"
    } else if d == 5 {
        "5"
    } else if d == 6 {
        "6"
    } else if d == 7 {
        "7"
    } else if d == 8 {
        "8"
    } else {
        "9"
    };
    assert(r@ =~= seq![digit_char(d as nat)]);
    r
}

/// `n` written in decimal, without leading zeros.
pub fn decimal_string(n: u64) -> (r: String)
    ensures
        r@ == decimal(n as nat),
{
    let mut text = String::from_str(digit_text(n % 10));
    let mut rest: u64 = n / 10;
    while rest > 0
        invariant
            rest > 0 ==> decimal(n as nat) == decimal(rest as nat) + text@,
            rest == 0 ==> decimal(n as nat) == text@,
        decreases rest,
    {
        let digit = digit_text(rest % 10);
        proof {
            if rest >= 10 {
                assert(decimal(rest as nat) + text@ =~= decimal((rest / 10) as nat) + (digit@
                    + text@));
            } else {
                assert(decimal(rest as nat) + text@ =~= digit@ + text@);
            }
        }
        text = String::from_str(digit).concat(text.as_str());
        rest = rest / 10;
    }
    text
}

} // verus!
