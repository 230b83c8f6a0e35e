use vstd::prelude::*;
use crate::chars::push_char;
use crate::errors::ProcessError;

verus! {

/// How many times `c` occurs in `s`.
pub open spec fn count_char(s: Seq<char>, c: char) -> nat
    decreases s.len(),
{
    if s.len() == 0 {
        0
    } else {
        count_char(s.drop_last(), c) + (if s.last() == c {
            1nat
        } else {
            0nat
        })
    }
}

/// `s` with every colon dropped and every space turned into an underscore.
pub open spec fn cleaned(s: Seq<char>) -> Seq<char>
    decreases s.len(),
{
    if s.len() == 0 {
        Seq::empty()
    } else {
        cleaned(s.drop_last()) + (if s.last() == ':' {
            Seq::empty()
        } else if s.last() == ' ' {
            seq!['_']
        } else {
            seq![s.last()]
        })
    }
}

/// `s` with every colon dropped.
pub open spec fn strip_colons(s: Seq<char>) -> Seq<char>
    decreases s.len(),
{
    if s.len() == 0 {
        Seq::empty()
    } else {
        strip_colons(s.drop_last()) + (if s.last() == ':' {
            Seq::empty()
        } else {
            seq![s.last()]
        })
    }
}

/// What the formatter produces for a capture-time string: defined exactly
/// when the string holds a single space, and then equal to the string with
/// colons dropped and the space turned into an underscore.
pub open spec fn spec_format_datetime(s: Seq<char>) -> Option<Seq<char>> {
    if count_char(s, ' ') == 1 {
        Some(cleaned(s))
    } else {
        None
    }
}

/// Turns a capture-time string of the shape `YYYY:MM:DD HH:MM:SS` into the
/// canonical stem `YYYYMMDD_HHMMSS`.
///
/// Only the single space separating the two parts is checked; the characters
/// around it are passed through with their colons removed, without any
/// validation of digits or ranges. A string without exactly one space is
/// rejected with a format error rather than coerced.
pub fn format_datetime(s: &str) -> (r: Result<String, ProcessError>)
    ensures
        r matches Ok(out) ==> spec_format_datetime(s@) == Some(out@),
        r is Err <==> spec_format_datetime(s@) is None,
        r matches Err(e) ==> e == ProcessError::Format,
{
    let n = s.unicode_len();
    let mut out = String::new();
    let mut spaces: usize = 0;
    let mut i: usize = 0;
    while i < n
        invariant
            i <= n,
            n == s@.len(),
            spaces <= i,
            spaces as nat == count_char(s@.subrange(0, i as int), ' '),
            out@ == cleaned(s@.subrange(0, i as int)),
        decreases n - i,
    {
        let c = s.get_char(i);
        proof {
            assert(s@.subrange(0, i + 1).drop_last() =~= s@.subrange(0, i as int));
            assert(s@.subrange(0, i + 1).last() == s@[i as int]);
        }
        if c == ':' {
            proof {
                assert(out@ =~= cleaned(s@.subrange(0, i + 1)));
            }
        } else if c == ' ' {
            spaces = spaces + 1;
            push_char(&mut out, '_');
            proof {
                assert(out@ =~= cleaned(s@.subrange(0, i + 1)));
            }
        } else {
            push_char(&mut out, c);
            proof {
                assert(out@ =~= cleaned(s@.subrange(0, i + 1)));
            }
        }
        i = i + 1;
    }
    proof {
        assert(s@.subrange(0, n as int) =~= s@);
    }
    if spaces == 1 {
        Ok(out)
    } else {
        Err(ProcessError::Format)
    }
}

/// A position holding `c` forces at least one occurrence of `c`.
proof fn lemma_count_at_least_one(s: Seq<char>, c: char, i: int)
    requires
        0 <= i < s.len(),
        s[i] == c,
    ensures
        count_char(s, c) >= 1,
    decreases s.len(),
{
    if i < s.len() - 1 {
        assert(s.drop_last()[i] == c);
        lemma_count_at_least_one(s.drop_last(), c, i);
    }
}

/// On a string without spaces, cleaning only drops the colons.
proof fn lemma_cleaned_no_space(s: Seq<char>)
    requires
        count_char(s, ' ') == 0,
    ensures
        cleaned(s) == strip_colons(s),
    decreases s.len(),
{
    if s.len() > 0 {
        lemma_cleaned_no_space(s.drop_last());
    }
}

/// Occurrences in a concatenation add up.
proof fn lemma_count_char_concat(a: Seq<char>, b: Seq<char>, c: char)
    ensures
        count_char(a + b, c) == count_char(a, c) + count_char(b, c),
    decreases b.len(),
{
    if b.len() == 0 {
        assert(a + b =~= a);
    } else {
        assert((a + b).drop_last() =~= a + b.drop_last());
        lemma_count_char_concat(a, b.drop_last(), c);
    }
}

/// Stripping colons distributes over concatenation.
proof fn lemma_strip_colons_concat(a: Seq<char>, b: Seq<char>)
    ensures
        strip_colons(a + b) == strip_colons(a) + strip_colons(b),
    decreases b.len(),
{
    if b.len() == 0 {
        assert(a + b =~= a);
        assert(strip_colons(a) + strip_colons(b) =~= strip_colons(a));
    } else {
        assert((a + b).drop_last() =~= a + b.drop_last());
        lemma_strip_colons_concat(a, b.drop_last());
        assert(strip_colons(a + b) =~= strip_colons(a) + strip_colons(b));
    }
}

/// A string without colons is left unchanged by colon-stripping.
proof fn lemma_strip_colons_id(s: Seq<char>)
    requires
        count_char(s, ':') == 0,
    ensures
        strip_colons(s) == s,
    decreases s.len(),
{
    if s.len() > 0 {
        lemma_strip_colons_id(s.drop_last());
        assert(strip_colons(s) =~= s);
    }
}

/// The splitting law of the formatter: on a string holding exactly one space,
/// the output is the colon-stripped date part before the space, one
/// underscore, and the colon-stripped time part after the space.
pub proof fn lemma_format_splits(s: Seq<char>, i: int)
    requires
        0 <= i < s.len(),
        s[i] == ' ',
        count_char(s, ' ') == 1,
    ensures
        spec_format_datetime(s) == Some(
            strip_colons(s.subrange(0, i)) + seq!['_'] + strip_colons(
                s.subrange(i + 1, s.len() as int),
            ),
        ),
    decreases s.len(),
{
    if i == s.len() - 1 {
        assert(s.drop_last() =~= s.subrange(0, i));
        lemma_cleaned_no_space(s.subrange(0, i));
        assert(s.subrange(i + 1, s.len() as int) =~= Seq::<char>::empty());
        assert(cleaned(s) =~= strip_colons(s.subrange(0, i)) + seq!['_'] + strip_colons(
            s.subrange(i + 1, s.len() as int),
        ));
    } else {
        let d = s.drop_last();
        assert(d[i] == ' ');
        if s.last() == ' ' {
            lemma_count_at_least_one(d, ' ', i);
            assert(false);
        }
        lemma_count_at_least_one(d, ' ', i);
        lemma_format_splits(d, i);
        assert(d.subrange(0, i) =~= s.subrange(0, i));
        assert(d.subrange(i + 1, d.len() as int) =~= s.subrange(i + 1, s.len() as int).drop_last());
        assert(s.subrange(i + 1, s.len() as int).last() == s.last());
        assert(cleaned(s) =~= strip_colons(s.subrange(0, i)) + seq!['_'] + strip_colons(
            s.subrange(i + 1, s.len() as int),
        ));
    }
}

/// Totality and shape of the formatter over well-formed capture times: any
/// string built of six colon-free, space-free parts (runs of digits, in the
/// expected format) as `d1:d2:d3 t1:t2:t3` is accepted, and its stem is the
/// parts of the date, then an underscore, then the parts of the time.
pub proof fn lemma_format_wellformed(
    d1: Seq<char>,
    d2: Seq<char>,
    d3: Seq<char>,
    t1: Seq<char>,
    t2: Seq<char>,
    t3: Seq<char>,
)
    requires
        count_char(d1, ':') == 0 && count_char(d1, ' ') == 0,
        count_char(d2, ':') == 0 && count_char(d2, ' ') == 0,
        count_char(d3, ':') == 0 && count_char(d3, ' ') == 0,
        count_char(t1, ':') == 0 && count_char(t1, ' ') == 0,
        count_char(t2, ':') == 0 && count_char(t2, ' ') == 0,
        count_char(t3, ':') == 0 && count_char(t3, ' ') == 0,
    ensures
        spec_format_datetime(
            d1 + seq![':'] + d2 + seq![':'] + d3 + seq![' '] + t1 + seq![':'] + t2 + seq![':']
                + t3,
        ) == Some(d1 + d2 + d3 + seq!['_'] + t1 + t2 + t3),
{
    let colon = seq![':'];
    let space = seq![' '];
    let date = d1 + colon + d2 + colon + d3;
    let time = t1 + colon + t2 + colon + t3;
    let s = d1 + colon + d2 + colon + d3 + space + t1 + colon + t2 + colon + t3;
    assert(colon.drop_last() =~= Seq::<char>::empty());
    assert(space.drop_last() =~= Seq::<char>::empty());
    assert(count_char(Seq::<char>::empty(), ' ') == 0);
    assert(strip_colons(Seq::<char>::empty()) =~= Seq::<char>::empty());
    assert(count_char(colon, ' ') == 0);
    assert(count_char(space, ' ') == 1);
    assert(strip_colons(colon) =~= Seq::<char>::empty());
    lemma_count_char_concat(d1, colon, ' ');
    lemma_count_char_concat(d1 + colon, d2, ' ');
    lemma_count_char_concat(d1 + colon + d2, colon, ' ');
    lemma_count_char_concat(d1 + colon + d2 + colon, d3, ' ');
    lemma_count_char_concat(t1, colon, ' ');
    lemma_count_char_concat(t1 + colon, t2, ' ');
    lemma_count_char_concat(t1 + colon + t2, colon, ' ');
    lemma_count_char_concat(t1 + colon + t2 + colon, t3, ' ');
    assert(time =~= t1 + colon + t2 + colon + t3);
    assert(count_char(date, ' ') == 0);
    assert(count_char(time, ' ') == 0);
    assert(s =~= date + space + time);
    lemma_count_char_concat(date, space, ' ');
    lemma_count_char_concat(date + space, time, ' ');
    assert(count_char(s, ' ') == 1);
    let i = date.len() as int;
    assert(s[i] == ' ');
    lemma_format_splits(s, i);
    assert(s.subrange(0, i) =~= date);
    assert(s.subrange(i + 1, s.len() as int) =~= time);
    lemma_strip_colons_concat(d1, colon);
    lemma_strip_colons_concat(d1 + colon, d2);
    lemma_strip_colons_concat(d1 + colon + d2, colon);
    lemma_strip_colons_concat(d1 + colon + d2 + colon, d3);
    lemma_strip_colons_concat(t1, colon);
    lemma_strip_colons_concat(t1 + colon, t2);
    lemma_strip_colons_concat(t1 + colon + t2, colon);
    lemma_strip_colons_concat(t1 + colon + t2 + colon, t3);
    lemma_strip_colons_id(d1);
    lemma_strip_colons_id(d2);
    lemma_strip_colons_id(d3);
    lemma_strip_colons_id(t1);
    lemma_strip_colons_id(t2);
    lemma_strip_colons_id(t3);
    assert(strip_colons(date) =~= d1 + d2 + d3);
    assert(strip_colons(time) =~= t1 + t2 + t3);
    assert(strip_colons(date) + seq!['_'] + strip_colons(time) =~= d1 + d2 + d3 + seq!['_'] + t1
        + t2 + t3);
}

} // verus!
