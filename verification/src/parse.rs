use vstd::prelude::*;
use crate::color::Theme;
use crate::error::CardError;

verus! {

/// Splitting a character sequence on a separator: the sequence of segments
/// between separator occurrences, in order. Always at least one segment, and
/// an empty input yields one empty segment.
pub open spec fn split_spec(s: Seq<char>, sep: char) -> Seq<Seq<char>>
    decreases s.len(),
{
    if s.len() == 0 {
        seq![Seq::<char>::empty()]
    } else if s[0] == sep {
        seq![Seq::<char>::empty()] + split_spec(s.skip(1), sep)
    } else {
        let rest = split_spec(s.skip(1), sep);
        seq![seq![s[0]] + rest[0]] + rest.skip(1)
    }
}

/// Splitting is determined by the part up to and past the first separator:
/// a prefix free of separators followed by one separator contributes that
/// prefix as one whole segment.
proof fn lemma_split_at_first_sep(s: Seq<char>, sep: char, k: int)
    requires
        0 <= k < s.len(),
        s[k] == sep,
        forall|j: int| 0 <= j < k ==> s[j] != sep,
    ensures
        split_spec(s, sep) == seq![s.take(k)] + split_spec(s.skip(k + 1), sep),
    decreases k,
{
    if k == 0 {
        assert(s.take(0) == Seq::<char>::empty());
        assert(split_spec(s, sep) == seq![Seq::<char>::empty()] + split_spec(s.skip(1), sep));
    } else {
        let t = s.skip(1);
        lemma_split_at_first_sep(t, sep, k - 1);
        assert(t.skip(k) == s.skip(k + 1));
        let rest = split_spec(t, sep);
        assert(rest == seq![t.take(k - 1)] + split_spec(t.skip(k), sep));
        assert(rest[0] == t.take(k - 1));
        assert(seq![s[0]] + t.take(k - 1) =~= s.take(k));
        assert(rest.skip(1) =~= split_spec(s.skip(k + 1), sep));
        assert(split_spec(s, sep) == seq![seq![s[0]] + rest[0]] + rest.skip(1));
        assert(seq![s.take(k)] + split_spec(s.skip(k + 1), sep) =~= split_spec(s, sep));
    }
}

/// A sequence without any separator splits into itself as the one segment.
proof fn lemma_split_no_sep(s: Seq<char>, sep: char)
    requires
        forall|j: int| 0 <= j < s.len() ==> s[j] != sep,
    ensures
        split_spec(s, sep) == seq![s],
    decreases s.len(),
{
    if s.len() == 0 {
        assert(split_spec(s, sep) =~~= seq![s]);
    } else {
        lemma_split_no_sep(s.skip(1), sep);
        assert(seq![s[0]] + s.skip(1) =~= s);
        assert(split_spec(s, sep) =~~= seq![s]);
    }
}

/// Splits `s` on every occurrence of `sep`, preserving order; an input
/// without separators comes back as its own single segment.
pub fn split_on(s: &str, sep: char) -> (r: Vec<String>)
    ensures
        r@.map_values(|v: String| v@) == split_spec(s@, sep),
        r@.len() >= 1,
{
    let n = s.unicode_len();
    let mut out: Vec<String> = Vec::new();
    let mut start: usize = 0;
    let mut i: usize = 0;
    proof {
        assert(s@.skip(0) =~= s@);
        assert(out@.map_values(|v: String| v@) =~= Seq::<Seq<char>>::empty());
        assert(Seq::<Seq<char>>::empty() + split_spec(s@, sep) =~= split_spec(s@, sep));
    }
    while i < n
        invariant
            start <= i <= n,
            n == s@.len(),
            forall|j: int| start <= j < i ==> s@[j] != sep,
            split_spec(s@, sep) == out@.map_values(|v: String| v@) + split_spec(
                s@.skip(start as int),
                sep,
            ),
        decreases n - i,
    {
        let c = s.get_char(i);
        if c == sep {
            let seg = s.substring_char(start, i).to_owned();
            proof {
                let tail = s@.skip(start as int);
                assert(tail[i - start] == sep);
                assert(forall|j: int| 0 <= j < i - start ==> tail[j] != sep);
                lemma_split_at_first_sep(tail, sep, i - start);
                assert(tail.take(i - start) =~= s@.subrange(start as int, i as int));
                assert(tail.skip(i - start + 1) =~= s@.skip(i + 1));
                assert((out@.push(seg)).map_values(|v: String| v@) =~= out@.map_values(
                    |v: String| v@,
                ).push(seg@));
                assert(out@.map_values(|v: String| v@) + (seq![seg@] + split_spec(
                    s@.skip(i + 1),
                    sep,
                )) =~= out@.map_values(|v: String| v@).push(seg@) + split_spec(s@.skip(i + 1), sep));
            }
            out.push(seg);
            start = i + 1;
        }
        i = i + 1;
    }
    let last = s.substring_char(start, n).to_owned();
    proof {
        let tail = s@.skip(start as int);
        assert(forall|j: int| 0 <= j < tail.len() ==> tail[j] != sep);
        lemma_split_no_sep(tail, sep);
        assert(tail =~= s@.subrange(start as int, n as int));
        assert((out@.push(last)).map_values(|v: String| v@) =~= out@.map_values(
            |v: String| v@,
        ).push(last@));
        assert(out@.map_values(|v: String| v@) + seq![last@] =~= out@.map_values(
            |v: String| v@,
        ).push(last@));
    }
    out.push(last);
    out
}

/// The digit part of a theme field: an optional leading plus sign is allowed,
/// as the integer grammar of the original field format has it.
pub open spec fn theme_digits(s: Seq<char>) -> Seq<char> {
    if s.len() > 0 && s[0] == '+' {
        s.skip(1)
    } else {
        s
    }
}

/// Whether a sequence is one or more decimal digits.
pub open spec fn all_digits(s: Seq<char>) -> bool {
    s.len() > 0 && forall|i: int| 0 <= i < s.len() ==> '0' <= #[trigger] s[i] <= '9'
}

/// The value of a decimal digit sequence.
pub open spec fn dec_val(s: Seq<char>) -> nat
    decreases s.len(),
{
    if s.len() == 0 {
        0
    } else {
        dec_val(s.drop_last()) * 10 + ((s.last() as int - '0' as int) as nat)
    }
}

/// The theme a field selects: the field must be a decimal integer (optionally
/// plus-signed) whose value is 0 or 1; anything else is a fatal input error.
pub open spec fn theme_of(s: Seq<char>) -> Option<Theme> {
    let d = theme_digits(s);
    if all_digits(d) && dec_val(d) == 0 {
        Some(Theme::First)
    } else if all_digits(d) && dec_val(d) == 1 {
        Some(Theme::Second)
    } else {
        None
    }
}

/// Parses the theme field, accepting exactly the two valid palette indices.
pub fn parse_theme(s: &str) -> (r: Result<Theme, CardError>)
    ensures
        r matches Ok(t) ==> theme_of(s@) == Some(t),
        r is Err ==> r == Err::<Theme, CardError>(CardError::BadTheme) && theme_of(s@) is None,
{
    let n = s.unicode_len();
    let start: usize = if n > 0 && s.get_char(0) == '+' {
        1
    } else {
        0
    };
    if n == start {
        proof {
            let d = theme_digits(s@);
            assert(d.len() == 0);
        }
        return Err(CardError::BadTheme);
    }
    let ghost d = theme_digits(s@);
    proof {
        assert(d =~= s@.subrange(start as int, n as int));
    }
    let mut acc: u32 = 0;
    let mut i: usize = start;
    while i < n
        invariant
            start <= i <= n,
            n == s@.len(),
            0 < n - start,
            d == theme_digits(s@),
            d == s@.subrange(start as int, n as int),
            forall|j: int| start <= j < i ==> '0' <= #[trigger] s@[j] <= '9',
            acc <= 2,
            acc as nat == if dec_val(s@.subrange(start as int, i as int)) <= 2 {
                dec_val(s@.subrange(start as int, i as int))
            } else {
                2
            },
        decreases n - i,
    {
        let c = s.get_char(i);
        if c < '0' || c > '9' {
            proof {
                assert(0 <= i - start < d.len());
                assert(d[i - start] == s@[i as int]);
                assert(!('0' <= d[i - start] && d[i - start] <= '9'));
                assert(!all_digits(d));
            }
            return Err(CardError::BadTheme);
        }
        let digit: u32 = (c as u32) - 48;
        proof {
            let pref = s@.subrange(start as int, i as int);
            let pref2 = s@.subrange(start as int, i + 1);
            assert(pref2.drop_last() =~= pref);
            assert(pref2.last() == s@[i as int]);
            assert(dec_val(pref2) == dec_val(pref) * 10 + ((s@[i as int] as int - '0' as int)
                as nat));
        }
        let next = acc * 10 + digit;
        acc = if next > 2 {
            2
        } else {
            next
        };
        i = i + 1;
    }
    proof {
        assert(s@.subrange(start as int, n as int) == d);
        assert(all_digits(d));
    }
    if acc == 0 {
        Ok(Theme::First)
    } else if acc == 1 {
        Ok(Theme::Second)
    } else {
        Err(CardError::BadTheme)
    }
}

} // verus!
