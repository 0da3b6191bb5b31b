//! The text of the report: the summary line, each game's title and detail
//! lines, and the sizes that keep text beside a cover-art thumbnail.

use vstd::prelude::*;
use crate::color::{accuracy_color, esc, shown_in, shown_with, style_blue_underlined, style_bold, style_bold_green, style_rgb};
use crate::components::{count_note, indent_text, push_indent, time_line};
use crate::duration::nearest;
use crate::request::views;
use crate::response::Game;
use crate::text::{decimal, digit_char, join_words, joined, push_char, push_decimal, push_str};

verus! {

/// `Found {count} Game`, with a plural `s` unless the count is one.
pub open spec fn summary_text(count: u32) -> Seq<char> {
    "Found "@ + decimal(count as nat) + " Game"@ + if count == 1 {
        Seq::empty()
    } else {
        seq!['s']
    }
}

/// The line that announces how many games were found.
pub fn summary_line(count: u32) -> (r: String)
    ensures
        r@ == summary_text(count),
{
    let mut r = String::new();
    push_str(&mut r, "Found ");
    push_decimal(&mut r, count as u64);
    push_str(&mut r, " Game");
    if count != 1 {
        push_char(&mut r, 's');
    }
    assert(r@ =~= summary_text(count));
    r
}

/// The lower-case form of a text, as Rust's `str::to_lowercase` gives it.
pub uninterp spec fn lower_of(s: Seq<char>) -> Seq<char>;

/// Relies on str::to_lowercase: the result depends on the characters alone,
/// and the empty text stays empty.
#[verifier::external_body]
fn lowercase(s: &str) -> (r: String)
    ensures
        r@ == lower_of(s@),
        s@.len() == 0 ==> r@.len() == 0,
{
    s.to_lowercase()
}

/// Whether two already lower-cased texts are the same.
pub fn folded_match(query: &String, name: &String) -> (r: bool)
    ensures
        r == (query@ == name@),
{
    *query == *name
}

/// The search words name the game: joined by spaces and lower-cased, they
/// equal the lower-cased name.
pub open spec fn name_matches(search: Seq<Seq<char>>, name: Seq<char>) -> bool {
    lower_of(joined(search)) == lower_of(name)
}

/// Whether the search words name the game.
pub fn search_matches_name(search: &Vec<String>, name: &str) -> (r: bool)
    ensures
        r == name_matches(views(search@), name@),
{
    let query = join_words(search);
    assert(query@ == joined(views(search@)));
    let q = lowercase(query.as_str());
    let n = lowercase(name);
    folded_match(&q, &n)
}

/// The store page of a Steam application.
pub open spec fn steam_url(id: u32) -> Seq<char> {
    "https://store.steampowered.com/app/"@ + decimal(id as nat)
}

/// A terminal hyperlink to `url` shown as `text`.
pub open spec fn hyperlink(url: Seq<char>, text: Seq<char>) -> Seq<char> {
    seq![esc(), ']', '8', ';', ';'] + url + seq![esc(), '\\'] + text + seq![
        esc(),
        ']',
        '8',
        ';',
        ';',
        esc(),
        '\\',
    ]
}

/// The title line from the styled name and, for a game with a Steam page,
/// the styled link label.
pub open spec fn title_text(name: Seq<char>, steam: u32, label: Seq<char>) -> Seq<char> {
    if steam == 0 {
        name
    } else {
        name + seq![' '] + hyperlink(steam_url(steam), label)
    }
}

/// Appends the store page of a Steam application.
fn push_steam_url(s: &mut String, id: u32)
    ensures
        final(s)@ == old(s)@ + steam_url(id),
{
    push_str(s, "https://store.steampowered.com/app/");
    push_decimal(s, id as u64);
    assert(final(s)@ =~= old(s)@ + steam_url(id));
}

/// Assembles the title line from its styled pieces.
pub fn compose_title(name: &str, steam: u32, label: &str) -> (r: String)
    ensures
        r@ == title_text(name@, steam, label@),
{
    let mut r = String::new();
    push_str(&mut r, name);
    if steam != 0 {
        push_char(&mut r, ' ');
        push_char(&mut r, '\x1b');
        push_str(&mut r, "]8;;");
        push_steam_url(&mut r, steam);
        push_char(&mut r, '\x1b');
        push_char(&mut r, '\\');
        push_str(&mut r, label);
        push_char(&mut r, '\x1b');
        push_str(&mut r, "]8;;");
        push_char(&mut r, '\x1b');
        push_char(&mut r, '\\');
        proof {
            reveal_strlit("]8;;");
        }
    }
    assert(r@ =~= title_text(name@, steam, label@));
    r
}

/// The title line of a game: its name in bold, bold green when the search
/// words name it, followed for a game with a Steam page by a blue underlined
/// link to that page; with `color` off, the name and label as they are.
pub fn title_line(search: &Vec<String>, name: &str, steam: u32, color: bool) -> (r: String)
    ensures
        exists|n: Seq<char>, l: Seq<char>|
            {
                &&& shown_with(
                    n,
                    if name_matches(views(search@), name@) {
                        seq!['1', ';', '3', '2']
                    } else {
                        seq!['1']
                    },
                    name@,
                    color,
                )
                &&& shown_with(l, seq!['4', ';', '3', '4'], "[Steam Store Page]"@, color)
                &&& r@ == title_text(n, steam, l)
            },
{
    let matched = search_matches_name(search, name);
    let n = if matched {
        style_bold_green(name, color)
    } else {
        style_bold(name, color)
    };
    let l = style_blue_underlined("[Steam Store Page]", color);
    let r = compose_title(n.as_str(), steam, l.as_str());
    assert(shown_with(l@, seq!['4', ';', '3', '4'], "[Steam Store Page]"@, color));
    r
}

/// The developer line: a gray label, then the developer's name.
pub fn developer_line(developer: &str, color: bool) -> (r: String)
    ensures
        exists|l: Seq<char>|
            shown_in(l, (200u8, 200u8, 200u8), "Developer:"@, color) && r@ == l + seq![' ']
                + developer@,
{
    let l = style_rgb("Developer:", (200, 200, 200), color);
    let mut r = l.clone();
    push_char(&mut r, ' ');
    push_str(&mut r, developer);
    r
}

/// The share of players who retired the game, in tenths of a percent,
/// rounded to the nearest tenth; none when no player finished, shelved or
/// retired it.
pub open spec fn retired_tenths(retired: u32, completed: u32, backlog: u32) -> Option<nat> {
    let total = completed + backlog + retired;
    if total == 0 {
        None
    } else {
        Some(nearest(1000 * retired as nat, total as nat))
    }
}

/// The retired share with one decimal and a percent sign; `NaN%` when it is
/// undefined.
pub open spec fn retired_text(retired: u32, completed: u32, backlog: u32) -> Seq<char> {
    match retired_tenths(retired, completed, backlog) {
        Some(t) => decimal(t / 10) + seq!['.', digit_char(t % 10), '%'],
        None => "NaN%"@,
    }
}

/// The retired share of a game's players, as shown on its engagement line.
pub fn retired_percent(retired: u32, completed: u32, backlog: u32) -> (r: String)
    ensures
        r@ == retired_text(retired, completed, backlog),
{
    let total: u64 = completed as u64 + backlog as u64 + retired as u64;
    let mut r = String::new();
    if total == 0 {
        push_str(&mut r, "NaN%");
    } else {
        let t: u64 = (2000 * (retired as u64) + total) / (2 * total);
        assert(t as nat == nearest(1000 * retired as nat, total as nat));
        proof {
            assert(t <= 1000) by (nonlinear_arith)
                requires
                    t == (2000 * (retired as u64) + total) / (2 * total),
                    retired <= total,
                    total > 0,
            ;
        }
        push_decimal(&mut r, t / 10);
        push_char(&mut r, '.');
        let d: u8 = (t % 10) as u8;
        push_char(&mut r, (d + 48) as char);
        push_char(&mut r, '%');
    }
    assert(r@ =~= retired_text(retired, completed, backlog));
    r
}

/// The labels of the engagement line, in order.
pub open spec fn engagement_labels() -> Seq<Seq<char>> {
    seq!["Playing:"@, "Backlogs:"@, "Retired:"@, "Rating:"@, "Beat:"@]
}

/// The values of the engagement line, in order.
pub open spec fn engagement_values(g: Game) -> Seq<Seq<char>> {
    seq![
        decimal(g.count_playing as nat),
        decimal(g.count_backlog as nat),
        retired_text(g.count_retired, g.count_comp, g.count_backlog),
        decimal(g.review_score as nat) + seq!['%'],
        decimal(g.count_comp as nat),
    ]
}

/// Label and value pairs, each joined by a space, the pairs by `, `.
pub open spec fn labelled_list(labels: Seq<Seq<char>>, values: Seq<Seq<char>>) -> Seq<char>
    decreases labels.len(),
{
    if labels.len() == 0 {
        Seq::empty()
    } else if labels.len() == 1 {
        labels[0] + seq![' '] + values[0]
    } else {
        labelled_list(labels.drop_last(), values.drop_last()) + seq![',', ' '] + labels.last()
            + seq![' '] + values.last()
    }
}

/// The engagement line of a game: players, backlogs, retired share, rating
/// and completions, each after a gray label (plain with `color` off).
pub fn engagement_line(game: &Game, color: bool) -> (r: String)
    ensures
        exists|ls: Seq<Seq<char>>|
            {
                &&& ls.len() == 5
                &&& forall|i: int|
                    0 <= i < 5 ==> shown_in(
                        #[trigger] ls[i],
                        (200u8, 200u8, 200u8),
                        engagement_labels()[i],
                        color,
                    )
                &&& r@ == labelled_list(ls, engagement_values(*game))
            },
{
    let mut vals: Vec<String> = Vec::new();
    vals.push(crate::text::decimal_string(game.count_playing as u64));
    vals.push(crate::text::decimal_string(game.count_backlog as u64));
    vals.push(retired_percent(game.count_retired, game.count_comp, game.count_backlog));
    let mut rating = crate::text::decimal_string(game.review_score as u64);
    push_char(&mut rating, '%');
    assert(rating@ =~= decimal(game.review_score as nat) + seq!['%']);
    vals.push(rating);
    vals.push(crate::text::decimal_string(game.count_comp as u64));
    let names: Vec<&str> = vec!["Playing:", "Backlogs:", "Retired:", "Rating:", "Beat:"];
    let ghost gvals = engagement_values(*game);
    assert(vals@.map_values(|v: String| v@) =~= gvals);
    assert(names@.map_values(|v: &str| v@) =~= engagement_labels());
    let mut r = String::new();
    let ghost mut ls: Seq<Seq<char>> = Seq::empty();
    let mut i: usize = 0;
    while i < 5
        invariant
            i <= 5,
            vals@.len() == 5,
            names@.len() == 5,
            vals@.map_values(|v: String| v@) == gvals,
            names@.map_values(|v: &str| v@) == engagement_labels(),
            gvals == engagement_values(*game),
            ls.len() == i,
            forall|j: int|
                0 <= j < i ==> shown_in(
                    #[trigger] ls[j],
                    (200u8, 200u8, 200u8),
                    engagement_labels()[j],
                    color,
                ),
            r@ == labelled_list(ls, gvals.subrange(0, i as int)),
        decreases 5 - i,
    {
        assert(names@[i as int]@ == engagement_labels()[i as int]);
        assert(vals@[i as int]@ == gvals[i as int]);
        let l = style_rgb(names[i], (200, 200, 200), color);
        if i > 0 {
            push_str(&mut r, ", ");
            proof {
                reveal_strlit(", ");
            }
        }
        push_str(&mut r, l.as_str());
        push_char(&mut r, ' ');
        push_str(&mut r, vals[i].as_str());
        proof {
            let ls2 = ls.push(l@);
            let sub = gvals.subrange(0, i as int + 1);
            assert(ls2.drop_last() =~= ls);
            assert(sub.drop_last() =~= gvals.subrange(0, i as int));
            if i == 0 {
                assert(r@ =~= labelled_list(ls2, sub));
            } else {
                assert(r@ =~= labelled_list(ls2, sub));
            }
            ls = ls2;
        }
        i += 1;
    }
    assert(gvals.subrange(0, 5) =~= gvals);
    r
}

/// The cell size of a `w`×`h` thumbnail: a wide image is seven cells high
/// and as wide as its ratio gives, another is ten cells wide and as high as
/// its ratio gives; the height is then divided by 2.15 and rounded, since a
/// cell is about twice as high as wide. Sizes beyond `u32` are capped.
pub open spec fn image_cells(w: u32, h: u32) -> (u32, u32) {
    if w > h {
        let width = 7 * (w as int) / (h as int);
        let width = if width > u32::MAX { u32::MAX as int } else { width };
        (width as u32, nearest(100 * 7, 215) as u32)
    } else {
        let height = 10 * (h as int) / (w as int);
        let height = if height > u32::MAX { u32::MAX as int } else { height };
        (10, nearest(100 * height as nat, 215) as u32)
    }
}

/// The terminal cells a thumbnail of `w`×`h` pixels is drawn in, as
/// (width, height).
pub fn terminal_image_dimensions(w: u32, h: u32) -> (r: (u32, u32))
    requires
        w > 0,
        h > 0,
    ensures
        r == image_cells(w, h),
{
    if w > h {
        let mut width: u64 = 7 * (w as u64) / (h as u64);
        if width > u32::MAX as u64 {
            width = u32::MAX as u64;
        }
        (width as u32, (200 * 7 + 215) / 430)
    } else {
        let mut height: u64 = 10 * (h as u64) / (w as u64);
        if height > u32::MAX as u64 {
            height = u32::MAX as u64;
        }
        (10, ((200 * height + 215) / 430) as u32)
    }
}

/// The blank lines that move below a thumbnail `height` cells high after
/// `lines` lines of text.
pub fn image_padding(height: u32, lines: u32) -> (r: u32)
    ensures
        r == if height > lines {
            height - lines
        } else {
            0
        },
{
    if height > lines {
        height - lines
    } else {
        0
    }
}

/// The address of a game's thumbnail, 100 pixels wide.
pub open spec fn thumbnail_url_of(image: Seq<char>) -> Seq<char> {
    "https://howlongtobeat.com/games/"@ + image + "?width=100"@
}

/// The address of a game's thumbnail, 100 pixels wide.
pub fn thumbnail_url(image: &str) -> (r: String)
    ensures
        r@ == thumbnail_url_of(image@),
{
    let mut r = String::new();
    push_str(&mut r, "https://howlongtobeat.com/games/");
    push_str(&mut r, image);
    push_str(&mut r, "?width=100");
    assert(r@ =~= thumbnail_url_of(image@));
    r
}

/// The cursor movement `n` columns to the right; none for zero.
pub fn cursor_right(n: u32) -> (r: String)
    ensures
        r@ == indent_text(n as nat),
{
    let mut r = String::new();
    push_indent(&mut r, n as u64);
    assert(r@ =~= indent_text(n as nat));
    r
}

/// The cursor movement `n` lines up.
pub fn cursor_up(n: u32) -> (r: String)
    ensures
        r@ == seq![esc(), '['] + decimal(n as nat) + seq!['A'],
{
    let mut r = String::new();
    push_char(&mut r, '\x1b');
    push_char(&mut r, '[');
    push_decimal(&mut r, n as u64);
    push_char(&mut r, 'A');
    assert(r@ =~= seq![esc(), '['] + decimal(n as nat) + seq!['A']);
    r
}

/// One statistic as a single line: none when no submission backs it;
/// otherwise the indented gray label, the duration in its accuracy color and,
/// with `info`, a tab and the dim gray submission count; with `color` off,
/// the pieces as they are.
pub fn display_time_component(
    indentation: u8,
    comp_name: &str,
    comp_count: u32,
    comp_format: &str,
    info: bool,
    color: bool,
) -> (r: Option<String>)
    ensures
        comp_count == 0 <==> r is None,
        r is Some ==> exists|label: Seq<char>, time: Seq<char>, note: Seq<char>|
            {
                &&& shown_in(label, (200u8, 200u8, 200u8), comp_name@, color)
                &&& shown_in(time, accuracy_color(comp_count), comp_format@, color)
                &&& shown_in(note, (120u8, 120u8, 120u8), seq!['\t'] + count_note(comp_count), color)
                &&& r->Some_0@ == time_line(indentation as nat, label, time, None) + if info {
                    note
                } else {
                    Seq::empty()
                }
            },
{
    if comp_count == 0 {
        return None;
    }
    let label = style_rgb(comp_name, (200, 200, 200), color);
    let time = crate::color::format_with_color(comp_format, comp_count, color);
    let mut line = crate::components::compose_time_line(indentation, label.as_str(), time.as_str(), None);
    let mut note_text = String::new();
    push_char(&mut note_text, '\t');
    push_char(&mut note_text, '(');
    push_decimal(&mut note_text, comp_count as u64);
    push_char(&mut note_text, ')');
    assert(note_text@ =~= seq!['\t'] + count_note(comp_count));
    let note = style_rgb(note_text.as_str(), (120, 120, 120), color);
    let ghost before = line@;
    if info {
        push_str(&mut line, note.as_str());
    }
    assert(line@ =~= before + if info {
        note@
    } else {
        Seq::<char>::empty()
    });
    Some(line)
}

} // verus!
