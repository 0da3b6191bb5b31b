//! The parsed command input and the search request built from it.

use vstd::prelude::*;
use vstd::string::StringExecFns;
use crate::options::{Flow, Genre, Perspective, Platform, SortCategory, ToggleOption};
use crate::range::Range;
use crate::text::push_char;

verus! {

/// The validated command input.
#[derive(Clone, Debug)]
pub struct Args {
    pub search: Vec<String>,
    pub size: u8,
    pub color: ToggleOption,
    pub sort: SortCategory,
    pub reverse: bool,
    pub range_year: Range,
    pub platform: Platform,
    pub perspective: Perspective,
    pub flow: Flow,
    pub genre: Genre,
    pub range_time: Range,
    pub dlc: bool,
    pub no_dlc: bool,
    pub images: bool,
    pub json: bool,
    pub info: bool,
}

impl Args {
    /// Well-formed input: showing only DLCs and hiding all DLCs are never
    /// asked for together.
    pub open spec fn wf(self) -> bool {
        !(self.dlc && self.no_dlc)
    }
}

/// The gameplay filters of a request.
#[derive(Clone, Debug)]
pub struct Gameplay {
    pub perspective: String,
    pub flow: String,
    pub genre: String,
}

/// The game-search options of a request.
#[derive(Clone, Debug)]
pub struct Games {
    pub user_id: i64,
    pub platform: String,
    pub sort_category: String,
    pub range_category: String,
    pub range_time: Range,
    pub gameplay: Gameplay,
    pub range_year: Range,
    pub modifier: String,
}

/// The search options of a request.
#[derive(Clone, Debug)]
pub struct SearchOptions {
    pub games: Games,
    pub filter: String,
    pub sort: u8,
}

/// A search request body.
#[derive(Clone, Debug)]
pub struct Body {
    pub search_type: String,
    pub search_terms: Vec<String>,
    pub search_page: i64,
    pub size: u8,
    pub search_options: SearchOptions,
    pub use_cache: bool,
}

/// The views of a list of strings.
pub open spec fn views(v: Seq<String>) -> Seq<Seq<char>> {
    v.map_values(|s: String| s@)
}

/// The modifier for the DLC flags: only DLCs, no DLCs, or the literal
/// `Modifiers` that the service reads as no restriction.
pub open spec fn modifier_of(dlc: bool, no_dlc: bool) -> Seq<char> {
    if dlc {
        "only_dlc"@
    } else if no_dlc {
        "hide_dlc"@
    } else {
        "Modifiers"@
    }
}

/// The modifier for the DLC flags.
pub fn modifier(dlc: bool, no_dlc: bool) -> (r: &'static str)
    ensures
        r@ == modifier_of(dlc, no_dlc),
{
    if dlc {
        "only_dlc"
    } else if no_dlc {
        "hide_dlc"
    } else {
        "Modifiers"
    }
}

/// A copy of a list of strings.
fn copy_strings(v: &Vec<String>) -> (r: Vec<String>)
    ensures
        views(r@) == views(v@),
{
    let mut r: Vec<String> = Vec::new();
    let mut i: usize = 0;
    while i < v.len()
        invariant
            i <= v.len(),
            views(r@) == views(v@).subrange(0, i as int),
        decreases v.len() - i,
    {
        let w = v[i].clone();
        assert(w@ == views(v@)[i as int]);
        let ghost prev = r@;
        r.push(w);
        assert(views(r@) =~= views(prev).push(w@));
        i += 1;
        assert(views(r@) =~= views(v@).subrange(0, i as int));
    }
    assert(views(v@).subrange(0, v.len() as int) =~= views(v@));
    r
}

/// The request that searches as `args` asks: games matching its words, the
/// first page of `size` results, sorted and filtered as given.
pub open spec fn request_for(args: Args, b: Body) -> bool {
    &&& b.search_type@ == "games"@
    &&& views(b.search_terms@) == views(args.search@)
    &&& b.search_page == 1
    &&& b.size == args.size
    &&& b.use_cache
    &&& b.search_options.filter@ == Seq::<char>::empty()
    &&& b.search_options.sort == (if args.reverse { 1u8 } else { 0u8 })
    &&& b.search_options.games.user_id == 0
    &&& b.search_options.games.platform@ == args.platform.wire()
    &&& b.search_options.games.sort_category@ == args.sort.wire()
    &&& b.search_options.games.range_category@ == "main"@
    &&& b.search_options.games.range_time == args.range_time
    &&& b.search_options.games.range_year == args.range_year
    &&& b.search_options.games.gameplay.perspective@ == args.perspective.wire()
    &&& b.search_options.games.gameplay.flow@ == args.flow.wire()
    &&& b.search_options.games.gameplay.genre@ == args.genre.wire()
    &&& b.search_options.games.modifier@ == modifier_of(args.dlc, args.no_dlc)
}

/// The search request for the given input.
pub fn build_body(args: &Args) -> (r: Body)
    requires
        args.wf(),
    ensures
        request_for(*args, r),
{
    Body {
        search_type: String::from_str("games"),
        search_terms: copy_strings(&args.search),
        search_page: 1,
        size: args.size,
        search_options: SearchOptions {
            games: Games {
                user_id: 0,
                platform: String::from_str(args.platform.as_str()),
                sort_category: String::from_str(args.sort.as_str()),
                range_category: String::from_str("main"),
                range_time: args.range_time,
                gameplay: Gameplay {
                    perspective: String::from_str(args.perspective.as_str()),
                    flow: String::from_str(args.flow.as_str()),
                    genre: String::from_str(args.genre.as_str()),
                },
                range_year: args.range_year,
                modifier: String::from_str(modifier(args.dlc, args.no_dlc)),
            },
            filter: String::new(),
            sort: if args.reverse {
                1
            } else {
                0
            },
        },
        use_cache: true,
    }
}

/// The characters Unicode gives the White_Space property.
pub open spec fn unicode_whitespace(c: char) -> bool {
    ('\u{9}' <= c <= '\u{d}') || c == ' ' || c == '\u{85}' || c == '\u{a0}' || c == '\u{1680}'
        || ('\u{2000}' <= c <= '\u{200a}') || c == '\u{2028}' || c == '\u{2029}' || c
        == '\u{202f}' || c == '\u{205f}' || c == '\u{3000}'
}

/// Whether `c` is a White_Space character.
fn is_whitespace(c: char) -> (r: bool)
    ensures
        r == unicode_whitespace(c),
{
    ('\u{9}' <= c && c <= '\u{d}') || c == ' ' || c == '\u{85}' || c == '\u{a0}' || c == '\u{1680}'
        || ('\u{2000}' <= c && c <= '\u{200a}') || c == '\u{2028}' || c == '\u{2029}' || c
        == '\u{202f}' || c == '\u{205f}' || c == '\u{3000}'
}

/// The pieces of `s` between whitespace characters, empty ones included.
pub open spec fn space_pieces(s: Seq<char>) -> Seq<Seq<char>>
    decreases s.len(),
{
    if s.len() == 0 {
        seq![Seq::empty()]
    } else {
        let rest = space_pieces(s.drop_last());
        if unicode_whitespace(s.last()) {
            rest.push(Seq::empty())
        } else {
            rest.update(rest.len() - 1, rest.last().push(s.last()))
        }
    }
}

/// The non-empty pieces, in order.
pub open spec fn non_empty(p: Seq<Seq<char>>) -> Seq<Seq<char>>
    decreases p.len(),
{
    if p.len() == 0 {
        p
    } else if p.last().len() > 0 {
        non_empty(p.drop_last()).push(p.last())
    } else {
        non_empty(p.drop_last())
    }
}

/// The whitespace-separated words of `s`.
pub open spec fn words_of(s: Seq<char>) -> Seq<Seq<char>> {
    non_empty(space_pieces(s))
}

/// Some character of `w` is whitespace.
pub open spec fn has_whitespace(w: Seq<char>) -> bool {
    exists|i: int| 0 <= i < w.len() && unicode_whitespace(#[trigger] w[i])
}

/// A search word as it is sent: split into words when it holds whitespace,
/// else kept as it is.
pub open spec fn normalized_word(w: Seq<char>) -> Seq<Seq<char>> {
    if has_whitespace(w) {
        words_of(w)
    } else {
        seq![w]
    }
}

/// The search words with each one that holds whitespace split into words.
pub open spec fn normalized(ws: Seq<Seq<char>>) -> Seq<Seq<char>>
    decreases ws.len(),
{
    if ws.len() == 0 {
        Seq::empty()
    } else {
        normalized(ws.drop_last()) + normalized_word(ws.last())
    }
}

proof fn lemma_space_pieces_nonempty(s: Seq<char>)
    ensures
        space_pieces(s).len() >= 1,
    decreases s.len(),
{
    if s.len() > 0 {
        lemma_space_pieces_nonempty(s.drop_last());
    }
}

/// Whether `s` holds whitespace.
fn has_whitespace_chars(s: &str) -> (r: bool)
    ensures
        r == has_whitespace(s@),
{
    let n = s.unicode_len();
    let mut i: usize = 0;
    while i < n
        invariant
            n == s@.len(),
            i <= n,
            forall|j: int| 0 <= j < i ==> !unicode_whitespace(#[trigger] s@[j]),
        decreases n - i,
    {
        if is_whitespace(s.get_char(i)) {
            return true;
        }
        i += 1;
    }
    false
}

/// Appends the whitespace-separated words of `s` to `out`.
fn push_words(out: &mut Vec<String>, s: &str)
    ensures
        views(final(out)@) == views(old(out)@) + words_of(s@),
{
    let n = s.unicode_len();
    let ghost base = views(out@);
    let mut found: Vec<String> = Vec::new();
    let mut cur = String::new();
    let mut i: usize = 0;
    proof {
        assert(s@.subrange(0, 0) =~= Seq::<char>::empty());
        assert(space_pieces(Seq::<char>::empty()).drop_last() =~= Seq::<Seq<char>>::empty());
    }
    while i < n
        invariant
            n == s@.len(),
            i <= n,
            cur@ == space_pieces(s@.subrange(0, i as int)).last(),
            views(found@) == non_empty(space_pieces(s@.subrange(0, i as int)).drop_last()),
        decreases n - i,
    {
        let c = s.get_char(i);
        let ghost pre = s@.subrange(0, i as int);
        let ghost post = s@.subrange(0, i as int + 1);
        proof {
            assert(post.drop_last() =~= pre);
            assert(post.last() == c);
            lemma_space_pieces_nonempty(pre);
            let p = space_pieces(pre);
            assert(p.drop_last().push(p.last()) =~= p);
        }
        if is_whitespace(c) {
            if cur.as_str().unicode_len() > 0 {
                found.push(cur);
                proof {
                    assert(views(found@) =~= views(found@).drop_last().push(space_pieces(pre).last()));
                }
            }
            cur = String::new();
            proof {
                assert(space_pieces(post).drop_last() =~= space_pieces(pre));
            }
        } else {
            push_char(&mut cur, c);
            proof {
                let p = space_pieces(pre);
                assert(space_pieces(post).drop_last() =~= p.drop_last());
            }
        }
        i += 1;
    }
    proof {
        let p = space_pieces(s@.subrange(0, n as int));
        assert(s@.subrange(0, n as int) =~= s@);
        lemma_space_pieces_nonempty(s@);
        assert(p.drop_last().push(p.last()) =~= p);
    }
    if cur.as_str().unicode_len() > 0 {
        found.push(cur);
        assert(views(found@) =~= views(found@).drop_last().push(space_pieces(s@).last()));
    }
    let mut k: usize = 0;
    while k < found.len()
        invariant
            k <= found.len(),
            views(out@) == base + views(found@).subrange(0, k as int),
        decreases found.len() - k,
    {
        let w = found[k].clone();
        assert(w@ == views(found@)[k as int]);
        let ghost prev = out@;
        out.push(w);
        assert(views(out@) =~= views(prev).push(w@));
        k += 1;
        assert(views(out@) =~= base + views(found@).subrange(0, k as int));
    }
    assert(views(found@).subrange(0, found.len() as int) =~= views(found@));
    assert(views(found@) == words_of(s@));
}

/// The search words as they are sent: each word that holds whitespace is split
/// on whitespace into the words it holds, the others are kept as they are.
pub fn normalize_search_terms(words: &Vec<String>) -> (r: Vec<String>)
    ensures
        views(r@) == normalized(views(words@)),
{
    let mut r: Vec<String> = Vec::new();
    let mut i: usize = 0;
    while i < words.len()
        invariant
            i <= words.len(),
            views(r@) == normalized(views(words@).subrange(0, i as int)),
        decreases words.len() - i,
    {
        let w = words[i].as_str();
        proof {
            let sub = views(words@).subrange(0, i as int + 1);
            assert(sub.drop_last() =~= views(words@).subrange(0, i as int));
            assert(sub.last() == w@);
        }
        if has_whitespace_chars(w) {
            push_words(&mut r, w);
        } else {
            r.push(words[i].clone());
            assert(views(r@) =~= normalized(views(words@).subrange(0, i as int)) + seq![w@]);
        }
        i += 1;
    }
    assert(views(words@).subrange(0, words.len() as int) =~= views(words@));
    r
}

} // verus!
