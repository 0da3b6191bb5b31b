//! The `min[-max]` range filters for release year and playtime hours.

use vstd::prelude::*;

verus! {

/// Optional lower and upper bounds of a filter; an absent bound leaves that
/// side open.
#[derive(Clone, Copy, Debug, PartialEq, Eq, Structural)]
pub struct Range {
    pub min: Option<u16>,
    pub max: Option<u16>,
}

/// All characters are ASCII decimal digits.
pub open spec fn all_digits(s: Seq<char>) -> bool {
    forall|i: int| 0 <= i < s.len() ==> '0' <= #[trigger] s[i] <= '9'
}

/// The number written by a sequence of decimal digits.
pub open spec fn digits_value(s: Seq<char>) -> nat
    decreases s.len(),
{
    if s.len() == 0 {
        0
    } else {
        digits_value(s.drop_last()) * 10 + ((s.last() as nat) - 48) as nat
    }
}

/// The number that an unsigned integer literal spells: an optional `+`
/// followed by one or more decimal digits, nothing else.
pub open spec fn decimal_value(s: Seq<char>) -> Option<nat> {
    let body = if s.len() > 0 && s[0] == '+' {
        s.drop_first()
    } else {
        s
    };
    if body.len() > 0 && all_digits(body) {
        Some(digits_value(body))
    } else {
        None
    }
}

/// The value of one piece of a range argument, when it is a number in
/// `[lo, hi]`.
pub open spec fn bounded_value(s: Seq<char>, lo: int, hi: int) -> Option<nat> {
    match decimal_value(s) {
        Some(v) => if lo <= v <= hi {
            Some(v)
        } else {
            None
        },
        None => None,
    }
}

/// Relies on clap_num::number_range: parses `s` as a `u16` through `str::parse`
/// and accepts it only within `[lo, hi]`; it asserts `lo <= hi` in debug builds.
#[verifier::external_body]
fn number_in_range(s: &str, lo: u16, hi: u16) -> (r: Result<u16, String>)
    requires
        lo <= hi,
    ensures
        r is Ok <==> bounded_value(s@, lo as int, hi as int) is Some,
        r is Ok ==> r->Ok_0 as nat == bounded_value(s@, lo as int, hi as int)->Some_0,
{
    clap_num::number_range(s, lo, hi)
}

/// The pieces of `s` between the dashes, in order.
pub open spec fn dash_pieces(s: Seq<char>) -> Seq<Seq<char>>
    decreases s.len(),
{
    if s.len() == 0 {
        seq![Seq::empty()]
    } else {
        let rest = dash_pieces(s.drop_last());
        if s.last() == '-' {
            rest.push(Seq::empty())
        } else {
            rest.update(rest.len() - 1, rest.last().push(s.last()))
        }
    }
}

/// Every piece is a number in `[lo, hi]`.
pub open spec fn pieces_valid(p: Seq<Seq<char>>, lo: int, hi: int) -> bool {
    forall|i: int| 0 <= i < p.len() ==> (#[trigger] bounded_value(p[i], lo, hi)) is Some
}

/// What a valid range argument denotes: the first piece is the minimum, the
/// second (when present and not zero) the maximum; further pieces are not read.
pub open spec fn range_of(p: Seq<Seq<char>>, lo: int, hi: int) -> Range {
    let min = bounded_value(p[0], lo, hi)->Some_0;
    if p.len() == 1 || bounded_value(p[1], lo, hi)->Some_0 == 0 {
        Range { min: Some(min as u16), max: None }
    } else {
        Range { min: Some(min as u16), max: Some(bounded_value(p[1], lo, hi)->Some_0 as u16) }
    }
}

proof fn lemma_dash_pieces_nonempty(s: Seq<char>)
    ensures
        dash_pieces(s).len() >= 1,
    decreases s.len(),
{
    if s.len() > 0 {
        lemma_dash_pieces_nonempty(s.drop_last());
    }
}

/// Splits `s` at each dash.
fn split_dashes(s: &str) -> (r: Vec<&str>)
    ensures
        r@.map_values(|p: &str| p@) == dash_pieces(s@),
{
    let n = s.unicode_len();
    let mut r: Vec<&str> = Vec::new();
    let mut start: usize = 0;
    let mut i: usize = 0;
    proof {
        assert(s@.subrange(0, 0) =~= Seq::<char>::empty());
        assert(r@.map_values(|p: &str| p@) =~= Seq::<Seq<char>>::empty());
        assert(r@.map_values(|p: &str| p@).push(s@.subrange(0, 0)) =~= seq![Seq::<char>::empty()]);
    }
    while i < n
        invariant
            n == s@.len(),
            start <= i <= n,
            r@.map_values(|p: &str| p@).push(s@.subrange(start as int, i as int))
                == dash_pieces(s@.subrange(0, i as int)),
        decreases n - i,
    {
        let c = s.get_char(i);
        proof {
            let pre = s@.subrange(0, i as int);
            let post = s@.subrange(0, i as int + 1);
            assert(post.drop_last() =~= pre);
            assert(post.last() == c);
            lemma_dash_pieces_nonempty(pre);
        }
        if c == '-' {
            let piece = s.substring_char(start, i);
            r.push(piece);
            start = i + 1;
            proof {
                let post = s@.subrange(0, i as int + 1);
                assert(s@.subrange(start as int, i as int + 1) =~= Seq::<char>::empty());
                assert(r@.map_values(|p: &str| p@) =~= dash_pieces(post.drop_last()));
            }
        } else {
            proof {
                let pre = s@.subrange(0, i as int);
                let post = s@.subrange(0, i as int + 1);
                let old_view = r@.map_values(|p: &str| p@);
                assert(s@.subrange(start as int, i as int + 1) =~= s@.subrange(
                    start as int,
                    i as int,
                ).push(c));
                assert(old_view.push(s@.subrange(start as int, i as int + 1)) =~= dash_pieces(
                    pre,
                ).update(dash_pieces(pre).len() - 1, dash_pieces(pre).last().push(c)));
            }
        }
        i += 1;
    }
    let last = s.substring_char(start, n);
    r.push(last);
    proof {
        assert(s@.subrange(0, n as int) =~= s@);
        assert(r@.map_values(|p: &str| p@) =~= dash_pieces(s@));
    }
    r
}

/// Parses a `min[-max]` range whose numbers must lie in `[lo, hi]`.
///
/// The empty argument is the unbounded range. Otherwise every dash-separated
/// piece must be a number in `[lo, hi]`, or the argument is refused; a maximum
/// of zero stands for "no maximum".
pub fn parse_range(s: &str, lo: u16, hi: u16) -> (r: Result<Range, String>)
    requires
        lo <= hi,
    ensures
        s@.len() == 0 ==> r == Ok::<Range, String>(Range { min: None, max: None }),
        s@.len() > 0 ==> (r is Ok <==> pieces_valid(dash_pieces(s@), lo as int, hi as int)),
        s@.len() > 0 && r is Ok ==> r->Ok_0 == range_of(dash_pieces(s@), lo as int, hi as int),
{
    if s.unicode_len() == 0 {
        return Ok(Range { min: None, max: None });
    }
    let parts = split_dashes(s);
    let ghost pieces = dash_pieces(s@);
    proof {
        lemma_dash_pieces_nonempty(s@);
    }
    let mut values: Vec<u16> = Vec::new();
    let mut i: usize = 0;
    while i < parts.len()
        invariant
            i <= parts.len(),
            pieces == dash_pieces(s@),
            s@.len() > 0,
            parts@.map_values(|p: &str| p@) == pieces,
            values@.len() == i,
            lo <= hi,
            forall|j: int|
                0 <= j < i ==> (#[trigger] bounded_value(pieces[j], lo as int, hi as int)) is Some
                    && values@[j] as nat == bounded_value(pieces[j], lo as int, hi as int)->Some_0,
        decreases parts.len() - i,
    {
        assert(parts@[i as int]@ == pieces[i as int]);
        match number_in_range(parts[i], lo, hi) {
            Ok(n) => values.push(n),
            Err(e) => {
                return Err(e);
            },
        }
        i += 1;
    }
    let min = values[0];
    let max = if values.len() == 1 {
        0
    } else {
        values[1]
    };
    Ok(Range { min: Some(min), max: if max == 0 { None } else { Some(max) } })
}

/// Parses a playtime range in hours; any `u16` is allowed.
pub fn parse_range_time(s: &str) -> (r: Result<Range, String>)
    ensures
        s@.len() == 0 ==> r == Ok::<Range, String>(Range { min: None, max: None }),
        s@.len() > 0 ==> (r is Ok <==> pieces_valid(dash_pieces(s@), 0, 65535)),
        s@.len() > 0 && r is Ok ==> r->Ok_0 == range_of(dash_pieces(s@), 0, 65535),
{
    parse_range(s, 0, 65535)
}

/// Parses a release-year range; years lie in `[1958, 2024]`.
pub fn parse_range_year(s: &str) -> (r: Result<Range, String>)
    ensures
        s@.len() == 0 ==> r == Ok::<Range, String>(Range { min: None, max: None }),
        s@.len() > 0 ==> (r is Ok <==> pieces_valid(dash_pieces(s@), 1958, 2024)),
        s@.len() > 0 && r is Ok ==> r->Ok_0 == range_of(dash_pieces(s@), 1958, 2024),
{
    parse_range(s, 1958, 2024)
}

} // verus!
