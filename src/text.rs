//! Character-level helpers shared by the command parser, the host-port codec
//! and the path resolver: searching, splitting, case-insensitive comparison
//! and decimal numbers.
use vstd::prelude::*;

verus! {

/// Position of the first occurrence of `c` in `s`, or `-1` when there is none.
pub open spec fn find_char(s: Seq<char>, c: char) -> int
    decreases s.len(),
{
    if s.len() == 0 {
        -1
    } else if s[0] == c {
        0
    } else {
        let rest = find_char(s.drop_first(), c);
        if rest < 0 {
            -1
        } else {
            rest + 1
        }
    }
}

/// `c` does not occur in `s`.
pub open spec fn lacks(s: Seq<char>, c: char) -> bool {
    forall|k: int| 0 <= k < s.len() ==> s[k] != c
}

/// The pieces of `s` between the occurrences of `c` (as `str::split` yields them).
pub open spec fn split(s: Seq<char>, c: char) -> Seq<Seq<char>>
    decreases s.len(),
{
    let i = find_char(s, c);
    if i < 0 || i >= s.len() {
        seq![s]
    } else {
        seq![s.take(i)] + split(s.skip(i + 1), c)
    }
}

/// The pieces joined back together with `c` between each two of them.
pub open spec fn join(parts: Seq<Seq<char>>, c: char) -> Seq<char>
    decreases parts.len(),
{
    if parts.len() == 0 {
        seq![]
    } else if parts.len() == 1 {
        parts[0]
    } else {
        parts[0] + seq![c] + join(parts.drop_first(), c)
    }
}

/// `find_char` is the first position that holds `c`.
pub proof fn lemma_find_char(s: Seq<char>, c: char)
    ensures
        -1 <= find_char(s, c) < s.len(),
        find_char(s, c) == -1 ==> lacks(s, c),
        find_char(s, c) >= 0 ==> s[find_char(s, c)] == c && lacks(s.take(find_char(s, c)), c),
    decreases s.len(),
{
    if s.len() > 0 && s[0] != c {
        lemma_find_char(s.drop_first(), c);
        let r = find_char(s.drop_first(), c);
        if r >= 0 {
            assert forall|k: int| 0 <= k < r + 1 implies #[trigger] s.take(r + 1)[k] != c by {
                if k > 0 {
                    assert(s.take(r + 1)[k] == s.drop_first().take(r)[k - 1]);
                }
            }
        } else {
            assert forall|k: int| 0 <= k < s.len() implies #[trigger] s[k] != c by {
                if k > 0 {
                    assert(s[k] == s.drop_first()[k - 1]);
                }
            }
        }
    }
}

/// A position that holds `c` with no `c` before it is what `find_char` returns.
pub proof fn lemma_find_char_at(s: Seq<char>, c: char, j: int)
    requires
        0 <= j < s.len(),
        s[j] == c,
        forall|k: int| 0 <= k < j ==> s[k] != c,
    ensures
        find_char(s, c) == j,
    decreases s.len(),
{
    if j > 0 {
        lemma_find_char_at(s.drop_first(), c, j - 1);
    }
}

/// A sequence without `c` has no position of it.
pub proof fn lemma_find_char_none(s: Seq<char>, c: char)
    requires
        lacks(s, c),
    ensures
        find_char(s, c) == -1,
    decreases s.len(),
{
    if s.len() > 0 {
        lemma_find_char_none(s.drop_first(), c);
    }
}

/// Splitting a piece without `c`, followed by `c` and a rest, yields the piece first.
pub proof fn lemma_split_cons(head: Seq<char>, c: char, rest: Seq<char>)
    requires
        lacks(head, c),
    ensures
        split(head + seq![c] + rest, c) == seq![head] + split(rest, c),
{
    let s = head + seq![c] + rest;
    lemma_find_char_at(s, c, head.len() as int);
    assert(s.take(head.len() as int) == head);
    assert(s.skip(head.len() as int + 1) == rest);
}

/// Splitting a sequence without `c` yields that sequence alone.
pub proof fn lemma_split_single(s: Seq<char>, c: char)
    requires
        lacks(s, c),
    ensures
        split(s, c) == seq![s],
{
    lemma_find_char_none(s, c);
}

/// Splitting undoes joining, when no piece holds the separator.
pub proof fn lemma_split_join(parts: Seq<Seq<char>>, c: char)
    requires
        parts.len() >= 1,
        forall|i: int| 0 <= i < parts.len() ==> lacks(#[trigger] parts[i], c),
    ensures
        split(join(parts, c), c) == parts,
    decreases parts.len(),
{
    if parts.len() == 1 {
        lemma_split_single(parts[0], c);
        assert(seq![parts[0]] == parts);
    } else {
        let rest = parts.drop_first();
        assert forall|i: int| 0 <= i < rest.len() implies lacks(#[trigger] rest[i], c) by {
            assert(rest[i] == parts[i + 1]);
        }
        lemma_split_join(rest, c);
        lemma_split_cons(parts[0], c, join(rest, c));
        assert(seq![parts[0]] + rest == parts);
    }
}

/// A character that no piece holds, and that is not the separator, is not in the join.
pub proof fn lemma_join_lacks(parts: Seq<Seq<char>>, c: char, x: char)
    requires
        x != c,
        forall|i: int| 0 <= i < parts.len() ==> lacks(#[trigger] parts[i], x),
    ensures
        lacks(join(parts, c), x),
    decreases parts.len(),
{
    if parts.len() > 1 {
        let rest = parts.drop_first();
        assert forall|i: int| 0 <= i < rest.len() implies lacks(#[trigger] rest[i], x) by {
            assert(rest[i] == parts[i + 1]);
        }
        lemma_join_lacks(rest, c, x);
        let j = join(parts, c);
        assert(j == parts[0] + seq![c] + join(rest, c));
        assert(lacks(parts[0], x));
        assert forall|k: int| 0 <= k < j.len() implies #[trigger] j[k] != x by {
            if k < parts[0].len() {
                assert(j[k] == parts[0][k]);
            } else if k > parts[0].len() {
                assert(j[k] == join(rest, c)[k - parts[0].len() - 1]);
            }
        }
    } else if parts.len() == 1 {
        assert(lacks(parts[0], x));
    }
}

/// Digits hold no other character.
pub proof fn lemma_digits_lack(s: Seq<char>, x: char)
    requires
        all_digits(s),
        !is_digit(x),
    ensures
        lacks(s, x),
{
}

/// A sequence without `c` is not split by it.
pub proof fn lemma_split_once_whole(s: Seq<char>, c: char)
    requires
        lacks(s, c),
    ensures
        split_once(s, c) == (s, Option::<Seq<char>>::None),
{
    lemma_find_char_none(s, c);
}

/// A piece without `c`, then `c`, then a rest, is split into the piece and the rest.
pub proof fn lemma_split_once_at(head: Seq<char>, c: char, rest: Seq<char>)
    requires
        lacks(head, c),
    ensures
        split_once(head + seq![c] + rest, c) == (head, Some(rest)),
{
    let s = head + seq![c] + rest;
    lemma_find_char_at(s, c, head.len() as int);
    assert(s.take(head.len() as int) == head);
    assert(s.skip(head.len() as int + 1) == rest);
}

/// Index of the first `c` in `s` at or after `from`, or `s@.len()` when there is none.
pub fn find_from(s: &str, c: char, from: usize) -> (r: usize)
    requires
        from <= s@.len(),
    ensures
        from <= r <= s@.len(),
        forall|k: int| from <= k < r ==> s@[k] != c,
        r < s@.len() ==> s@[r as int] == c,
{
    let n = s.unicode_len();
    let mut i = from;
    while i < n
        invariant
            n == s@.len(),
            from <= i <= n,
            forall|k: int| from <= k < i ==> s@[k] != c,
        decreases n - i,
    {
        if s.get_char(i) == c {
            return i;
        }
        i = i + 1;
    }
    i
}

/// The part of `s` before its first `c`, and the part after it when there is one.
pub open spec fn split_once(s: Seq<char>, c: char) -> (Seq<char>, Option<Seq<char>>) {
    let i = find_char(s, c);
    if i < 0 {
        (s, None)
    } else {
        (s.take(i), Some(s.skip(i + 1)))
    }
}

/// Splits `s` at its first `c`, as `str::split_once` does, keeping `s` whole when
/// there is no `c`.
pub fn split_once_str(s: &str, c: char) -> (r: (&str, Option<&str>))
    ensures
        r.0@ == split_once(s@, c).0,
        match r.1 {
            Some(a) => split_once(s@, c).1 == Some(a@),
            None => split_once(s@, c).1.is_none(),
        },
{
    let n = s.unicode_len();
    let i = find_from(s, c, 0);
    if i < n {
        proof {
            lemma_find_char_at(s@, c, i as int);
        }
        (s.substring_char(0, i), Some(s.substring_char(i + 1, n)))
    } else {
        proof {
            lemma_find_char_none(s@, c);
        }
        assert(s@.subrange(0, n as int) == s@);
        (s.substring_char(0, n), None)
    }
}

/// Splits `s` at every `c`, as `str::split` does.
pub fn split_str(s: &str, c: char) -> (r: Vec<String>)
    ensures
        r@.map_values(|p: String| p@) == split(s@, c),
{
    let n = s.unicode_len();
    let mut parts: Vec<String> = Vec::new();
    let mut start: usize = 0;
    let mut i: usize = 0;
    assert(s@.skip(0) == s@);
    assert(parts@.map_values(|p: String| p@) =~= Seq::<Seq<char>>::empty());
    while i < n
        invariant
            n == s@.len(),
            start <= i <= n,
            forall|k: int| start <= k < i ==> s@[k] != c,
            parts@.map_values(|p: String| p@) + split(s@.skip(start as int), c) == split(s@, c),
        decreases n - i,
    {
        if s.get_char(i) == c {
            let piece = s.substring_char(start, i).to_owned();
            proof {
                let t = s@.skip(start as int);
                assert(t.take(i - start) == s@.subrange(start as int, i as int));
                lemma_find_char_at(t, c, i - start);
                assert(t.skip(i - start + 1) == s@.skip(i + 1));
                assert(split(t, c) == seq![piece@] + split(s@.skip(i + 1), c));
            }
            let ghost before = parts@;
            parts.push(piece);
            assert(parts@.map_values(|p: String| p@) == before.map_values(|p: String| p@).push(
                piece@,
            ));
            assert(parts@.map_values(|p: String| p@) + split(s@.skip(i + 1), c)
                == before.map_values(|p: String| p@) + split(s@.skip(start as int), c));
            start = i + 1;
        }
        i = i + 1;
    }
    let last = s.substring_char(start, n).to_owned();
    proof {
        let t = s@.skip(start as int);
        assert(t == s@.subrange(start as int, n as int));
        assert(lacks(t, c));
        lemma_split_single(t, c);
    }
    let ghost before = parts@;
    parts.push(last);
    assert(parts@.map_values(|p: String| p@) == before.map_values(|p: String| p@).push(last@));
    parts
}

/// `a` is the upper-case letter `u`, in either case, or the same character.
pub open spec fn ci_char_eq(a: char, u: char) -> bool {
    a == u || ('a' <= a <= 'z' && a as u32 == u as u32 + 32)
}

/// `c` is an ASCII decimal digit.
pub open spec fn is_digit(c: char) -> bool {
    '0' <= c <= '9'
}

/// The value of a decimal digit.
pub open spec fn digit_value(c: char) -> nat {
    (c as u32 - '0' as u32) as nat
}

/// The digit character of a value below ten.
pub open spec fn digit_char(d: nat) -> char {
    seq!['0', '1', '2', '3', '4', '5', '6', '7', '8', '9'][d as int]
}

/// The number that a string of decimal digits denotes.
pub open spec fn decimal_value(s: Seq<char>) -> nat
    decreases s.len(),
{
    if s.len() == 0 {
        0
    } else {
        10 * decimal_value(s.drop_last()) + digit_value(s.last())
    }
}

/// Every character of `s` is a decimal digit.
pub open spec fn all_digits(s: Seq<char>) -> bool {
    forall|i: int| 0 <= i < s.len() ==> is_digit(#[trigger] s[i])
}

/// What a field denotes as a byte: one or more decimal digits with a value
/// of at most 255 (leading zeros allowed).
pub open spec fn parse_byte(s: Seq<char>) -> Option<u8> {
    if s.len() > 0 && all_digits(s) && decimal_value(s) <= 255 {
        Some(decimal_value(s) as u8)
    } else {
        None
    }
}

/// The decimal form of `n`, without leading zeros.
pub open spec fn decimal(n: nat) -> Seq<char>
    decreases n,
{
    if n < 10 {
        seq![digit_char(n)]
    } else {
        decimal(n / 10).push(digit_char(n % 10))
    }
}

/// Adding digits never lowers the value.
pub proof fn lemma_decimal_value_prefix(s: Seq<char>, i: int)
    requires
        0 <= i <= s.len(),
    ensures
        decimal_value(s.take(i)) <= decimal_value(s),
    decreases s.len() - i,
{
    if i < s.len() {
        lemma_decimal_value_prefix(s, i + 1);
        assert(s.take(i + 1).drop_last() == s.take(i));
        let v = decimal_value(s.take(i));
        assert(decimal_value(s.take(i + 1)) == 10 * v + digit_value(s.take(i + 1).last()));
    } else {
        assert(s.take(i) == s);
    }
}

/// The decimal form is digits, and reads back as the number.
pub proof fn lemma_decimal(n: nat)
    ensures
        all_digits(decimal(n)),
        decimal(n).len() > 0,
        decimal_value(decimal(n)) == n,
    decreases n,
{
    let digits = seq!['0', '1', '2', '3', '4', '5', '6', '7', '8', '9'];
    assert(digits[0] == '0' && digits[1] == '1' && digits[2] == '2' && digits[3] == '3'
        && digits[4] == '4' && digits[5] == '5' && digits[6] == '6' && digits[7] == '7'
        && digits[8] == '8' && digits[9] == '9');
    if n < 10 {
        assert(decimal(n).drop_last().len() == 0);
        assert(decimal_value(decimal(n)) == 10 * decimal_value(decimal(n).drop_last())
            + digit_value(decimal(n).last()));
    } else {
        lemma_decimal(n / 10);
        let d = decimal(n / 10);
        assert(decimal(n).drop_last() == d);
        assert(decimal_value(decimal(n)) == 10 * decimal_value(d) + digit_value(
            digit_char(n % 10),
        ));
        assert(n == 10 * (n / 10) + n % 10);
        assert forall|i: int| 0 <= i < decimal(n).len() implies is_digit(#[trigger] decimal(n)[i]) by {
            if i < d.len() {
                assert(decimal(n)[i] == d[i]);
            }
        }
    }
}

/// The decimal form of a byte reads back as that byte.
pub proof fn lemma_parse_byte_decimal(b: u8)
    ensures
        parse_byte(decimal(b as nat)) == Some(b),
{
    lemma_decimal(b as nat);
}

/// Reads a byte written in decimal.
pub fn parse_u8(s: &str) -> (r: Option<u8>)
    ensures
        r == parse_byte(s@),
{
    let n = s.unicode_len();
    if n == 0 {
        return None;
    }
    let mut v: u32 = 0;
    let mut i: usize = 0;
    while i < n
        invariant
            n == s@.len(),
            i <= n,
            all_digits(s@.take(i as int)),
            v == decimal_value(s@.take(i as int)),
            v <= 255,
        decreases n - i,
    {
        let c = s.get_char(i);
        if !('0' <= c && c <= '9') {
            assert(!all_digits(s@));
            return None;
        }
        assert(s@.take(i + 1).drop_last() == s@.take(i as int));
        let next = 10 * v + (c as u32 - '0' as u32);
        if next > 255 {
            proof {
                lemma_decimal_value_prefix(s@, i + 1);
                assert(s@.take(n as int) == s@);
            }
            return None;
        }
        v = next;
        i = i + 1;
        assert(all_digits(s@.take(i as int))) by {
            assert forall|k: int| 0 <= k < i implies is_digit(#[trigger] s@.take(i as int)[k]) by {
                if k < i - 1 {
                    assert(s@.take(i as int)[k] == s@.take(i - 1)[k]);
                }
            }
        }
    }
    assert(s@.take(n as int) == s@);
    Some(v as u8)
}

/// The one-character string of a decimal digit.
pub fn digit_str(d: u8) -> (r: &'static str)
    requires
        d < 10,
    ensures
        r@ == seq![digit_char(d as nat)],
{
    let digits = "0123456789";
    proof {
        reveal_strlit("0123456789");
    }
    let r = digits.substring_char(d as usize, d as usize + 1);
    assert(r@ =~= seq![digit_char(d as nat)]);
    r
}

/// Appends the decimal form of `n` to `out`.
pub fn push_decimal(out: &mut String, n: u8)
    ensures
        final(out)@ == old(out)@ + decimal(n as nat),
{
    let ghost o = out@;
    if n >= 100 {
        out.append(digit_str(n / 100));
        out.append(digit_str((n / 10) % 10));
        out.append(digit_str(n % 10));
        let ghost m = (n / 10) as nat;
        assert(decimal((n / 100) as nat) == seq![digit_char((n / 100) as nat)]);
        assert(m / 10 == n / 100 && m % 10 == (n / 10) % 10);
        assert(decimal(m) == decimal((n / 100) as nat).push(digit_char(((n / 10) % 10) as nat)));
        assert(decimal(n as nat) == decimal(m).push(digit_char((n % 10) as nat)));
        assert(out@ =~= o + decimal(n as nat));
    } else if n >= 10 {
        out.append(digit_str(n / 10));
        out.append(digit_str(n % 10));
        assert(decimal((n / 10) as nat) == seq![digit_char((n / 10) as nat)]);
        assert(out@ =~= o + decimal(n as nat));
    } else {
        out.append(digit_str(n));
        assert(out@ =~= o + decimal(n as nat));
    }
}

} // verus!
