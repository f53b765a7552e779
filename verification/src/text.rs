//! Text helpers: splitting a line on a separator character, and the laws
//! that tie a split to the line it came from.

use vstd::prelude::*;

verus! {

/// The pieces of `s` between occurrences of `sep`, as `str::split` with a
/// character pattern yields them: empty pieces are kept, and a line with
/// `k` separators has `k + 1` pieces.
pub open spec fn split_on(s: Seq<char>, sep: char) -> Seq<Seq<char>>
    decreases s.len(),
{
    if s.len() == 0 {
        seq![Seq::<char>::empty()]
    } else {
        let prev = split_on(s.drop_last(), sep);
        if s.last() == sep {
            prev.push(Seq::<char>::empty())
        } else {
            prev.update(prev.len() - 1, prev.last().push(s.last()))
        }
    }
}

/// The pieces put back together with `sep` between each two of them.
pub open spec fn join_with(pieces: Seq<Seq<char>>, sep: char) -> Seq<char>
    decreases pieces.len(),
{
    if pieces.len() == 0 {
        Seq::<char>::empty()
    } else if pieces.len() == 1 {
        pieces[0]
    } else {
        join_with(pieces.drop_last(), sep) + seq![sep] + pieces.last()
    }
}

/// How many times `c` occurs in `s`.
pub open spec fn count_char(s: Seq<char>, c: char) -> nat
    decreases s.len(),
{
    if s.len() == 0 {
        0
    } else {
        count_char(s.drop_last(), c) + if s.last() == c { 1nat } else { 0nat }
    }
}

/// A split always has at least one piece.
pub proof fn lemma_split_nonempty(s: Seq<char>, sep: char)
    ensures
        split_on(s, sep).len() >= 1,
    decreases s.len(),
{
    if s.len() > 0 {
        lemma_split_nonempty(s.drop_last(), sep);
    }
}

/// Joining the pieces of a split with the separator gives back the line.
pub proof fn lemma_join_split(s: Seq<char>, sep: char)
    ensures
        join_with(split_on(s, sep), sep) == s,
    decreases s.len(),
{
    if s.len() > 0 {
        let t = s.drop_last();
        let prev = split_on(t, sep);
        lemma_split_nonempty(t, sep);
        lemma_join_split(t, sep);
        if s.last() == sep {
            let cur = prev.push(Seq::<char>::empty());
            assert(cur.drop_last() =~= prev);
            assert(join_with(cur, sep) == join_with(prev, sep) + seq![sep] + Seq::<char>::empty());
            assert(s =~= t + seq![sep]);
        } else {
            let cur = prev.update(prev.len() - 1, prev.last().push(s.last()));
            if prev.len() == 1 {
                assert(s =~= t.push(s.last()));
            } else {
                assert(cur.drop_last() =~= prev.drop_last());
                assert(join_with(prev, sep) == join_with(prev.drop_last(), sep) + seq![sep]
                    + prev.last());
                assert(s =~= t.push(s.last()));
                assert(join_with(cur, sep) =~= join_with(prev, sep).push(s.last()));
            }
        }
    }
}

/// No piece of a split holds the separator.
pub proof fn lemma_split_pieces_free_of_sep(s: Seq<char>, sep: char)
    ensures
        forall|i: int|
            0 <= i < split_on(s, sep).len() ==> !(#[trigger] split_on(s, sep)[i]).contains(sep),
    decreases s.len(),
{
    if s.len() > 0 {
        let t = s.drop_last();
        lemma_split_nonempty(t, sep);
        lemma_split_pieces_free_of_sep(t, sep);
        let prev = split_on(t, sep);
        if s.last() != sep {
            let last = prev.last().push(s.last());
            assert forall|j: int| 0 <= j < last.len() implies last[j] != sep by {
                if j < prev.last().len() {
                    assert(last[j] == prev.last()[j]);
                    assert(!prev[prev.len() - 1].contains(sep));
                }
            }
        }
    }
}

/// A line with `k` separators splits into `k + 1` pieces.
pub proof fn lemma_split_len(s: Seq<char>, sep: char)
    ensures
        split_on(s, sep).len() == count_char(s, sep) + 1,
    decreases s.len(),
{
    if s.len() > 0 {
        lemma_split_nonempty(s.drop_last(), sep);
        lemma_split_len(s.drop_last(), sep);
    }
}

/// Splitting a line with a separator and a separator-free tail gives the
/// split of the head, followed by the tail.
proof fn lemma_split_append(a: Seq<char>, sep: char, b: Seq<char>)
    requires
        !b.contains(sep),
    ensures
        split_on(a + seq![sep] + b, sep) == split_on(a, sep).push(b),
    decreases b.len(),
{
    if b.len() == 0 {
        let s = a + seq![sep] + b;
        assert(s =~= a.push(sep));
        assert(s.drop_last() =~= a);
        assert(s.last() == sep);
        assert(b =~= Seq::<char>::empty());
    } else {
        let b0 = b.drop_last();
        assert(!b0.contains(sep)) by {
            if b0.contains(sep) {
                let j = choose|j: int| 0 <= j < b0.len() && b0[j] == sep;
                assert(b[j] == sep);
            }
        }
        lemma_split_append(a, sep, b0);
        let s = a + seq![sep] + b;
        assert(s.drop_last() =~= a + seq![sep] + b0);
        assert(s.last() == b.last());
        assert(b.last() != sep) by {
            assert(b[b.len() - 1] == b.last());
        }
        let prev = split_on(a, sep).push(b0);
        assert(split_on(s.drop_last(), sep) == prev);
        assert(prev.last() == b0);
        assert(b0.push(b.last()) =~= b);
        assert(split_on(s, sep) == prev.update(prev.len() - 1, b0.push(b.last())));
        assert(prev.update(prev.len() - 1, b) =~= split_on(a, sep).push(b));
    }
}

/// A line with no separator splits into itself alone.
proof fn lemma_split_free(s: Seq<char>, sep: char)
    requires
        !s.contains(sep),
    ensures
        split_on(s, sep) == seq![s],
    decreases s.len(),
{
    if s.len() > 0 {
        let t = s.drop_last();
        assert(!t.contains(sep)) by {
            if t.contains(sep) {
                let j = choose|j: int| 0 <= j < t.len() && t[j] == sep;
                assert(s[j] == sep);
            }
        }
        lemma_split_free(t, sep);
        assert(s.last() != sep) by {
            assert(s[s.len() - 1] == s.last());
        }
        assert(t.push(s.last()) =~= s);
        assert(seq![t].update(0, t.push(s.last())) =~= seq![s]);
    } else {
        assert(s =~= Seq::<char>::empty());
    }
}

/// The split is the only way to cut a line into separator-free pieces that
/// join back to it.
pub proof fn lemma_split_unique(pieces: Seq<Seq<char>>, sep: char)
    requires
        pieces.len() >= 1,
        forall|i: int| 0 <= i < pieces.len() ==> !(#[trigger] pieces[i]).contains(sep),
    ensures
        split_on(join_with(pieces, sep), sep) == pieces,
    decreases pieces.len(),
{
    if pieces.len() == 1 {
        lemma_split_free(pieces[0], sep);
        assert(seq![pieces[0]] =~= pieces);
    } else {
        let init = pieces.drop_last();
        assert forall|i: int| 0 <= i < init.len() implies !(#[trigger] init[i]).contains(sep) by {
            assert(init[i] == pieces[i]);
        }
        lemma_split_unique(init, sep);
        assert(!pieces.last().contains(sep)) by {
            assert(pieces[pieces.len() - 1] == pieces.last());
        }
        lemma_split_append(join_with(init, sep), sep, pieces.last());
        assert(init.push(pieces.last()) =~= pieces);
    }
}

/// The views of a vector of strings.
pub open spec fn string_views(v: Seq<String>) -> Seq<Seq<char>> {
    v.map_values(|x: String| x@)
}

/// Splits `s` on every occurrence of `sep`, keeping empty pieces.
pub fn split_char(s: &str, sep: char) -> (pieces: Vec<String>)
    ensures
        string_views(pieces@) == split_on(s@, sep),
{
    let n = s.unicode_len();
    let mut pieces: Vec<String> = Vec::new();
    let mut start: usize = 0;
    let mut i: usize = 0;
    assert(s@.take(0) =~= Seq::<char>::empty());
    while i < n
        invariant
            n == s@.len(),
            start <= i <= n,
            split_on(s@.take(i as int), sep) =~= string_views(pieces@).push(
                s@.subrange(start as int, i as int),
            ),
        decreases n - i,
    {
        let c = s.get_char(i);
        let ghost before = string_views(pieces@);
        let ghost cur = s@.subrange(start as int, i as int);
        let ghost next = s@.take(i + 1);
        assert(next.drop_last() =~= s@.take(i as int));
        assert(next.last() == c);
        assert(next.len() > 0);
        if c == sep {
            let piece = String::from_str(s.substring_char(start, i));
            pieces.push(piece);
            assert(string_views(pieces@) =~= before.push(s@.subrange(start as int, i as int)));
            start = i + 1;
            assert(split_on(next, sep) == before.push(cur).push(Seq::<char>::empty()));
            assert(s@.subrange(start as int, i + 1) =~= Seq::<char>::empty());
        } else {
            assert(s@.subrange(start as int, i + 1) =~= cur.push(c));
            assert(split_on(next, sep) == before.push(cur).update(before.len() as int, cur.push(c)));
            assert(before.push(cur).update(before.len() as int, cur.push(c)) =~= before.push(cur.push(c)));
        }
        i = i + 1;
    }
    let ghost before = string_views(pieces@);
    let last = String::from_str(s.substring_char(start, n));
    pieces.push(last);
    assert(s@.take(n as int) =~= s@);
    assert(string_views(pieces@) =~= before.push(s@.subrange(start as int, n as int)));
    pieces
}


/// The character of a decimal digit.
pub open spec fn digit_char(d: nat) -> char {
    (48 + d) as char
}

/// The value of a decimal digit character.
pub open spec fn digit_value(c: char) -> int {
    c as int - 48
}

/// The decimal notation of `n`, most significant digit first, with no
/// leading zero (as `{}` formats an unsigned integer).
pub open spec fn decimal(n: nat) -> Seq<char>
    decreases n,
{
    if n < 10 {
        seq![digit_char(n)]
    } else {
        decimal(n / 10).push(digit_char(n % 10))
    }
}

/// The number that a string of decimal digits denotes.
pub open spec fn digits_value(s: Seq<char>) -> int
    decreases s.len(),
{
    if s.len() == 0 {
        0
    } else {
        digits_value(s.drop_last()) * 10 + digit_value(s.last())
    }
}

/// Reading the decimal notation of `n` back gives `n`.
pub proof fn lemma_decimal_value(n: nat)
    ensures
        digits_value(decimal(n)) == n,
        decimal(n).len() >= 1,
    decreases n,
{
    if n >= 10 {
        lemma_decimal_value(n / 10);
        assert(decimal(n).drop_last() =~= decimal(n / 10));
        assert(n == (n / 10) * 10 + n % 10);
        assert(digit_value(digit_char(n % 10)) == n % 10);
        assert(decimal(n).last() == digit_char(n % 10));
        assert(digits_value(decimal(n)) == digits_value(decimal(n / 10)) * 10 + (n % 10) as int);
    } else {
        assert(digit_value(digit_char(n)) == n);
        assert(digits_value(Seq::<char>::empty()) == 0);
        assert(seq![digit_char(n)].drop_last() =~= Seq::<char>::empty());
    }
}

/// Two numbers with the same decimal notation are equal.
pub proof fn lemma_decimal_injective(a: nat, b: nat)
    ensures
        decimal(a) == decimal(b) ==> a == b,
{
    lemma_decimal_value(a);
    lemma_decimal_value(b);
}

/// The one-character string of a decimal digit.
fn digit_str(d: u64) -> (s: &'static str)
    requires
        d < 10,
    ensures
        s@ == seq![digit_char(d as nat)],
{
    if d == 0 {
        proof { reveal_strlit("0"); }
        "0"
    } else if d == 1 {
        proof { reveal_strlit("1"); }
        "1"
    } else if d == 2 {
        proof { reveal_strlit("2"); }
        "2"
    } else if d == 3 {
        proof { reveal_strlit("3"); }
        "3"
    } else if d == 4 {
        proof { reveal_strlit("4"); }
        "4"
    } else if d == 5 {
        proof { reveal_strlit("5"); }
        "5"
    } else if d == 6 {
        proof { reveal_strlit("6"); }
        "6"
    } else if d == 7 {
        proof { reveal_strlit("7"); }
        "7"
    } else if d == 8 {
        proof { reveal_strlit("8"); }
        "8"
    } else {
        proof { reveal_strlit("9"); }
        "9"
    }
}

/// The decimal notation of `n`.
pub fn decimal_string(n: u64) -> (s: String)
    ensures
        s@ == decimal(n as nat),
    decreases n,
{
    if n < 10 {
        String::from_str(digit_str(n))
    } else {
        let mut s = decimal_string(n / 10);
        s.append(digit_str(n % 10));
        s
    }
}

/// Whether two strings hold the same characters.
pub fn str_equal(a: &str, b: &str) -> (r: bool)
    ensures
        r == (a@ == b@),
{
    let n = a.unicode_len();
    let m = b.unicode_len();
    if n != m {
        return false;
    }
    let mut i: usize = 0;
    while i < n
        invariant
            n == a@.len(),
            n == b@.len(),
            i <= n,
            forall|j: int| 0 <= j < i ==> a@[j] == b@[j],
        decreases n - i,
    {
        if a.get_char(i) != b.get_char(i) {
            return false;
        }
        i = i + 1;
    }
    assert(a@ =~= b@);
    true
}

/// The decimal notation of `n` is a non-empty string of digits, with no
/// leading zero unless it is "0" itself.
pub proof fn lemma_decimal_digits(n: nat)
    ensures
        decimal(n).len() >= 1,
        forall|i: int| 0 <= i < decimal(n).len() ==> '0' <= #[trigger] decimal(n)[i] && decimal(n)[i] <= '9',
        decimal(n).len() > 1 ==> decimal(n)[0] != '0',
        n >= 1 ==> decimal(n)[0] != '0',
    decreases n,
{
    if n >= 10 {
        lemma_decimal_digits(n / 10);
        let d = decimal(n / 10);
        assert(decimal(n) == d.push(digit_char(n % 10)));
        assert forall|i: int| 0 <= i < decimal(n).len() implies '0' <= #[trigger] decimal(n)[i] && decimal(n)[i] <= '9' by {
            if i < d.len() {
                assert(decimal(n)[i] == d[i]);
            }
        }
        assert(decimal(n)[0] == d[0]);
    } else {
        assert(decimal(n) == seq![digit_char(n)]);
        assert(n >= 1 ==> digit_char(n) != '0');
    }
}

} // verus!
