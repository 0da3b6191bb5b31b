//! The completion-time statistics of one game, as aligned report lines.

use vstd::prelude::*;
use crate::color::{accuracy_color, format_with_color, shown_in, style_rgb};
use crate::duration::{duration_text, DurationFormatter};
use crate::response::Game;
use crate::text::{decimal, push_char, push_decimal, push_str};

verus! {

/// One statistic: its label, its formatted duration and the number of
/// submissions behind it.
#[derive(Clone, Debug)]
pub struct TimeComponent {
    pub label: &'static str,
    pub time: String,
    pub count: u32,
}

/// A statistic as plain values.
pub open spec fn component_view(c: TimeComponent) -> (Seq<char>, Seq<char>, u32) {
    (c.label@, c.time@, c.count)
}

/// The three statistics a record shows: solo, co-op and versus times for
/// records that combine play styles, else main story, main with extras and
/// completionist times.
pub open spec fn shape(g: Game) -> Seq<(Seq<char>, Seq<char>, u32)> {
    if g.comp_lvl_combine == 1 {
        seq![
            ("Solo: "@, duration_text(g.comp_all.secs as nat), g.comp_all_count),
            ("Co-op:"@, duration_text(g.invested_co.secs as nat), g.invested_co_count),
            ("Vs.  :"@, duration_text(g.invested_mp.secs as nat), g.invested_mp_count),
        ]
    } else {
        seq![
            ("Main Story:   "@, duration_text(g.comp_main.secs as nat), g.comp_main_count),
            ("Main + Extra: "@, duration_text(g.comp_plus.secs as nat), g.comp_plus_count),
            ("Completionist:"@, duration_text(g.comp_100.secs as nat), g.comp_100_count),
        ]
    }
}

/// A record that combines play styles shows solo, co-op and versus
/// statistics; any other record shows main story, main with extras and
/// completionist statistics.
pub proof fn lemma_shape_selection(game: Game)
    ensures
        shape(game).map_values(|d: (Seq<char>, Seq<char>, u32)| d.0) == if game.comp_lvl_combine
            == 1 {
            seq!["Solo: "@, "Co-op:"@, "Vs.  :"@]
        } else {
            seq!["Main Story:   "@, "Main + Extra: "@, "Completionist:"@]
        },
{
    assert(shape(game).map_values(|d: (Seq<char>, Seq<char>, u32)| d.0) =~= if game.comp_lvl_combine
        == 1 {
        seq!["Solo: "@, "Co-op:"@, "Vs.  :"@]
    } else {
        seq!["Main Story:   "@, "Main + Extra: "@, "Completionist:"@]
    });
}

/// The statistics that some submission backs, in order.
pub open spec fn counted(s: Seq<(Seq<char>, Seq<char>, u32)>) -> Seq<(Seq<char>, Seq<char>, u32)>
    decreases s.len(),
{
    if s.len() == 0 {
        s
    } else if s.last().2 > 0 {
        counted(s.drop_last()).push(s.last())
    } else {
        counted(s.drop_last())
    }
}

/// The longest of the lengths.
pub open spec fn max_len(s: Seq<Seq<char>>) -> nat
    decreases s.len(),
{
    if s.len() == 0 {
        0
    } else {
        let m = max_len(s.drop_last());
        if s.last().len() > m {
            s.last().len()
        } else {
            m
        }
    }
}

/// The statistics to show for a record: those of its shape that some
/// submission backs.
pub fn time_components(game: &Game) -> (r: Vec<TimeComponent>)
    ensures
        r@.map_values(|c: TimeComponent| component_view(c)) == counted(shape(*game)),
{
    let all: Vec<TimeComponent> = if game.comp_lvl_combine == 1 {
        vec![
            TimeComponent { label: "Solo: ", time: game.comp_all.format(), count: game.comp_all_count },
            TimeComponent { label: "Co-op:", time: game.invested_co.format(), count: game.invested_co_count },
            TimeComponent { label: "Vs.  :", time: game.invested_mp.format(), count: game.invested_mp_count },
        ]
    } else {
        vec![
            TimeComponent { label: "Main Story:   ", time: game.comp_main.format(), count: game.comp_main_count },
            TimeComponent { label: "Main + Extra: ", time: game.comp_plus.format(), count: game.comp_plus_count },
            TimeComponent { label: "Completionist:", time: game.comp_100.format(), count: game.comp_100_count },
        ]
    };
    let ghost sh = shape(*game);
    assert(all@.map_values(|c: TimeComponent| component_view(c)) =~= sh);
    let mut r: Vec<TimeComponent> = Vec::new();
    let mut i: usize = 0;
    while i < all.len()
        invariant
            i <= all.len(),
            all@.map_values(|c: TimeComponent| component_view(c)) == sh,
            r@.map_values(|c: TimeComponent| component_view(c)) == counted(sh.subrange(0, i as int)),
        decreases all.len() - i,
    {
        proof {
            assert(sh.subrange(0, i as int + 1).drop_last() =~= sh.subrange(0, i as int));
        }
        let c = &all[i];
        assert(component_view(*c) == sh[i as int]);
        if c.count > 0 {
            r.push(TimeComponent { label: c.label, time: c.time.clone(), count: c.count });
            assert(r@.map_values(|c: TimeComponent| component_view(c)) =~= counted(
                sh.subrange(0, i as int),
            ).push(sh[i as int]));
        }
        i += 1;
    }
    assert(sh.subrange(0, all.len() as int) =~= sh);
    r
}

proof fn lemma_counted_members(s: Seq<(Seq<char>, Seq<char>, u32)>)
    ensures
        forall|i: int| 0 <= i < counted(s).len() ==> (#[trigger] counted(s)[i]).2 > 0,
        forall|i: int| 0 <= i < counted(s).len() ==> s.contains(#[trigger] counted(s)[i]),
        forall|j: int| 0 <= j < s.len() && (#[trigger] s[j]).2 > 0 ==> counted(s).contains(s[j]),
    decreases s.len(),
{
    if s.len() > 0 {
        let p = s.drop_last();
        lemma_counted_members(p);
        let c = counted(s);
        assert forall|i: int| 0 <= i < c.len() implies s.contains(#[trigger] c[i]) by {
            if i < counted(p).len() {
                assert(c[i] == counted(p)[i]);
                let k = choose|k: int| 0 <= k < p.len() && p[k] == counted(p)[i];
                assert(s[k] == p[k]);
            } else {
                assert(s[s.len() - 1] == c[i]);
            }
        }
        assert forall|j: int| 0 <= j < s.len() && (#[trigger] s[j]).2 > 0 implies c.contains(s[j]) by {
            if j < s.len() - 1 {
                assert(p[j] == s[j]);
                let k = choose|k: int| 0 <= k < counted(p).len() && counted(p)[k] == p[j];
                assert(c[k] == counted(p)[k]);
            } else {
                assert(c[c.len() - 1] == s[j]);
            }
        }
    }
}

/// The statistics shown for a record are exactly those of its shape that
/// some submission backs: none with a zero count appears, whatever its
/// duration, and none with a positive count is left out.
pub proof fn lemma_zero_counts_hidden(game: Game)
    ensures
        forall|i: int|
            0 <= i < counted(shape(game)).len() ==> (#[trigger] counted(shape(game))[i]).2 > 0
                && shape(game).contains(counted(shape(game))[i]),
        forall|j: int|
            0 <= j < 3 && (#[trigger] shape(game)[j]).2 > 0 ==> counted(shape(game)).contains(
                shape(game)[j],
            ),
{
    lemma_counted_members(shape(game));
}

/// With the submission counts shown, the counts of all the statistics of a
/// record start in one column: each duration plus its padding is as long as
/// the longest duration.
pub proof fn lemma_notes_aligned(game: Game, i: int, j: int)
    requires
        0 <= i < counted(shape(game)).len(),
        0 <= j < counted(shape(game)).len(),
    ensures
        counted(shape(game))[i].1.len() + pad_for(counted(shape(game)), i) == counted(
            shape(game),
        )[j].1.len() + pad_for(counted(shape(game)), j),
        counted(shape(game))[i].1.len() + pad_for(counted(shape(game)), i) == max_len(
            counted(shape(game)).map_values(|d: (Seq<char>, Seq<char>, u32)| d.1),
        ),
{
    let cs = counted(shape(game));
    let ts = cs.map_values(|d: (Seq<char>, Seq<char>, u32)| d.1);
    lemma_max_len_bounds(ts);
    assert(ts[i] == cs[i].1);
    assert(ts[j] == cs[j].1);
}

/// For each duration string, the spaces that pad it to the longest one.
pub fn padding_widths(times: &Vec<String>) -> (r: Vec<usize>)
    ensures
        r@.len() == times@.len(),
        forall|i: int|
            0 <= i < times@.len() ==> r@[i] == max_len(times@.map_values(|t: String| t@))
                - times@[i]@.len(),
{
    let ghost views = times@.map_values(|t: String| t@);
    let mut longest: usize = 0;
    let mut i: usize = 0;
    while i < times.len()
        invariant
            i <= times.len(),
            views == times@.map_values(|t: String| t@),
            longest == max_len(views.subrange(0, i as int)),
        decreases times.len() - i,
    {
        proof {
            assert(views.subrange(0, i as int + 1).drop_last() =~= views.subrange(0, i as int));
        }
        let n = times[i].as_str().unicode_len();
        if n > longest {
            longest = n;
        }
        i += 1;
    }
    assert(views.subrange(0, times.len() as int) =~= views);
    proof {
        lemma_max_len_bounds(views);
    }
    let mut r: Vec<usize> = Vec::new();
    let mut j: usize = 0;
    while j < times.len()
        invariant
            j <= times.len(),
            views == times@.map_values(|t: String| t@),
            longest == max_len(views),
            forall|k: int| 0 <= k < views.len() ==> views[k].len() <= max_len(views),
            r@.len() == j,
            forall|k: int| 0 <= k < j ==> r@[k] == longest - times@[k]@.len(),
        decreases times.len() - j,
    {
        assert(views[j as int] == times@[j as int]@);
        let n = times[j].as_str().unicode_len();
        r.push(longest - n);
        j += 1;
    }
    r
}

proof fn lemma_max_len_bounds(s: Seq<Seq<char>>)
    ensures
        forall|k: int| 0 <= k < s.len() ==> s[k].len() <= max_len(s),
    decreases s.len(),
{
    if s.len() > 0 {
        lemma_max_len_bounds(s.drop_last());
        assert forall|k: int| 0 <= k < s.len() implies s[k].len() <= max_len(s) by {
            if k < s.len() - 1 {
                assert(s[k] == s.drop_last()[k]);
            }
        }
    }
}

/// The cursor movement that indents a line by `n` columns; none for zero.
pub open spec fn indent_text(n: nat) -> Seq<char> {
    if n > 0 {
        seq!['\x1b', '['] + decimal(n) + seq!['C']
    } else {
        Seq::empty()
    }
}

/// `n` spaces.
pub open spec fn spaces(n: nat) -> Seq<char> {
    Seq::new(n, |i: int| ' ')
}

/// A statistic line: indentation, label, a space, the duration and, when
/// given, the padding and a space before the submission note.
pub open spec fn time_line(
    indent: nat,
    label: Seq<char>,
    time: Seq<char>,
    note: Option<(nat, Seq<char>)>,
) -> Seq<char> {
    let head = indent_text(indent) + label + seq![' '] + time;
    match note {
        Some((pad, n)) => head + spaces(pad) + seq![' '] + n,
        None => head,
    }
}

/// Appends `n` spaces.
fn push_spaces(s: &mut String, n: usize)
    ensures
        final(s)@ == old(s)@ + spaces(n as nat),
{
    let mut i: usize = 0;
    while i < n
        invariant
            i <= n,
            s@ == old(s)@ + spaces(i as nat),
        decreases n - i,
    {
        push_char(s, ' ');
        i += 1;
        assert(s@ =~= old(s)@ + spaces(i as nat));
    }
}

/// Appends the cursor movement that indents by `n` columns.
pub(crate) fn push_indent(s: &mut String, n: u64)
    ensures
        final(s)@ == old(s)@ + indent_text(n as nat),
{
    if n > 0 {
        push_char(s, '\x1b');
        push_char(s, '[');
        push_decimal(s, n);
        push_char(s, 'C');
    }
    assert(final(s)@ =~= old(s)@ + indent_text(n as nat));
}

/// Assembles a statistic line from its already styled pieces.
pub fn compose_time_line(
    indentation: u8,
    label: &str,
    time: &str,
    note: Option<(usize, &str)>,
) -> (r: String)
    ensures
        r@ == time_line(
            indentation as nat,
            label@,
            time@,
            match note {
                Some((pad, n)) => Some((pad as nat, n@)),
                None => None,
            },
        ),
{
    let mut r = String::new();
    push_indent(&mut r, indentation as u64);
    push_str(&mut r, label);
    push_char(&mut r, ' ');
    push_str(&mut r, time);
    match note {
        Some((pad, n)) => {
            push_spaces(&mut r, pad);
            push_char(&mut r, ' ');
            push_str(&mut r, n);
        },
        None => {},
    }
    assert(r@ =~= time_line(
        indentation as nat,
        label@,
        time@,
        match note {
            Some((pad, n)) => Some((pad as nat, n@)),
            None => None,
        },
    ));
    r
}

/// The submission count in parentheses.
pub open spec fn count_note(count: u32) -> Seq<char> {
    seq!['('] + decimal(count as nat) + seq![')']
}

/// The submission count in parentheses.
fn count_note_string(count: u32) -> (r: String)
    ensures
        r@ == count_note(count),
{
    let mut r = String::new();
    push_char(&mut r, '(');
    push_decimal(&mut r, count as u64);
    push_char(&mut r, ')');
    assert(r@ =~= count_note(count));
    r
}

/// The padding before the submission note of the `j`-th statistic.
pub open spec fn pad_for(cs: Seq<(Seq<char>, Seq<char>, u32)>, j: int) -> nat {
    (max_len(cs.map_values(|d: (Seq<char>, Seq<char>, u32)| d.1)) - cs[j].1.len()) as nat
}

/// `line` shows statistic `c`: its label in gray, its duration in the
/// accuracy color of its count and, with `info`, its submission note in dim
/// gray after `pad` spaces; with `color` off, all three as they are.
pub open spec fn shows_component(
    line: Seq<char>,
    indent: nat,
    info: bool,
    color: bool,
    c: (Seq<char>, Seq<char>, u32),
    pad: nat,
) -> bool {
    exists|label: Seq<char>, time: Seq<char>, note: Seq<char>|
        {
            &&& shown_in(label, (200u8, 200u8, 200u8), c.0, color)
            &&& shown_in(time, accuracy_color(c.2), c.1, color)
            &&& shown_in(note, (120u8, 120u8, 120u8), count_note(c.2), color)
            &&& line == time_line(
                indent,
                label,
                time,
                if info {
                    Some((pad, note))
                } else {
                    None
                },
            )
        }
}

/// The lines that show a record's statistics: one per statistic that some
/// submission backs, in shape order, each indented by `indentation` columns.
/// With `info`, each line ends in its submission count, padded so that the
/// counts line up. With `color`, the pieces are drawn in their colors.
pub fn display_time_components(indentation: u8, game: &Game, info: bool, color: bool) -> (r: Vec<
    String,
>)
    ensures
        r@.len() == counted(shape(*game)).len(),
        forall|i: int|
            0 <= i < r@.len() ==> shows_component(
                #[trigger] r@[i]@,
                indentation as nat,
                info,
                color,
                counted(shape(*game))[i],
                pad_for(counted(shape(*game)), i),
            ),
{
    let comps = time_components(game);
    let ghost cs = counted(shape(*game));
    let mut times: Vec<String> = Vec::new();
    let mut k: usize = 0;
    while k < comps.len()
        invariant
            k <= comps.len(),
            comps@.map_values(|c: TimeComponent| component_view(c)) == cs,
            times@.len() == k,
            forall|j: int| 0 <= j < k ==> times@[j]@ == comps@[j].time@,
        decreases comps.len() - k,
    {
        times.push(comps[k].time.clone());
        k += 1;
    }
    let pads = padding_widths(&times);
    assert(times@.map_values(|t: String| t@) =~= cs.map_values(
        |d: (Seq<char>, Seq<char>, u32)| d.1,
    )) by {
        assert forall|j: int| 0 <= j < k implies times@[j]@ == cs[j].1 by {
            assert(component_view(comps@[j]) == cs[j]);
        }
    }
    let mut r: Vec<String> = Vec::new();
    let mut i: usize = 0;
    while i < comps.len()
        invariant
            i <= comps.len(),
            comps@.map_values(|c: TimeComponent| component_view(c)) == cs,
            cs == counted(shape(*game)),
            pads@.len() == comps@.len(),
            times@.len() == comps@.len(),
            times@.map_values(|t: String| t@) == cs.map_values(|d: (Seq<char>, Seq<char>, u32)| d.1),
            forall|j: int|
                0 <= j < times@.len() ==> pads@[j] == max_len(times@.map_values(|t: String| t@))
                    - times@[j]@.len(),
            r@.len() == i,
            forall|j: int|
                0 <= j < i ==> shows_component(
                    #[trigger] r@[j]@,
                    indentation as nat,
                    info,
                    color,
                    cs[j],
                    pad_for(cs, j),
                ),
        decreases comps.len() - i,
    {
        let c = &comps[i];
        let ghost cv = cs[i as int];
        assert(component_view(*c) == cv);
        assert(times@.map_values(|t: String| t@)[i as int] == cv.1);
        let label = style_rgb(c.label, (200, 200, 200), color);
        let time = format_with_color(c.time.as_str(), c.count, color);
        let note_text = count_note_string(c.count);
        let note = style_rgb(note_text.as_str(), (120, 120, 120), color);
        let line = if info {
            compose_time_line(indentation, label.as_str(), time.as_str(), Some((pads[i], note.as_str())))
        } else {
            compose_time_line(indentation, label.as_str(), time.as_str(), None)
        };
        proof {
            assert(shown_in(label@, (200u8, 200u8, 200u8), cv.0, color));
            assert(shown_in(time@, accuracy_color(cv.2), cv.1, color));
            assert(shown_in(note@, (120u8, 120u8, 120u8), count_note(cv.2), color));
            assert(pads@[i as int] == pad_for(cs, i as int));
            assert(line@ == time_line(
                indentation as nat,
                label@,
                time@,
                if info {
                    Some((pad_for(cs, i as int), note@))
                } else {
                    None
                },
            ));
            assert(shows_component(line@, indentation as nat, info, color, cv, pad_for(cs, i as int)));
        }
        r.push(line);
        i += 1;
    }
    r
}

} // verus!
