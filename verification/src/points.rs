//! The grammar of a literal point list.
//!
//! An initial condition may be given as explicit samples instead of a
//! formula: a bracketed list of parenthesized pairs, such as
//! `[(0, 2), (1, 3.5)]`. The functions here decide exactly which texts
//! are point lists and cut them into their numeral tokens; reading a
//! token as a real number is numeric work and stays with the caller.
//!
//! Whitespace is ignored everywhere, including inside a numeral, so the
//! grammar is stated over the text with all whitespace removed: a `[`,
//! pairs `(x,y)` of non-empty numeral tokens separated by commas, an
//! optional trailing comma, and a closing `]`. A numeral token is a
//! maximal run of digits, signs, dots and exponent letters; whether it
//! denotes a number is for the caller's numeric parser to decide.

use vstd::prelude::*;
use vstd::string::*;

use crate::errors::FormatError;
use crate::text::is_dec_digit;

verus! {

/// Whether `c` is whitespace that the point-list grammar ignores.
pub open spec fn is_space(c: char) -> bool {
    c == ' ' || c == '\t' || c == '\n' || c == '\r'
}

/// Whether `c` can stand in a numeral token.
pub open spec fn is_num_char(c: char) -> bool {
    is_dec_digit(c) || c == '+' || c == '-' || c == '.' || c == 'e' || c == 'E'
}

/// `s` with every whitespace character removed.
pub open spec fn strip_spaces(s: Seq<char>) -> Seq<char>
    decreases s.len(),
{
    if s.len() == 0 {
        Seq::empty()
    } else if is_space(s.last()) {
        strip_spaces(s.drop_last())
    } else {
        strip_spaces(s.drop_last()).push(s.last())
    }
}

/// The position right after the numeral token starting at `i`: the
/// first position at or after `i` that does not hold a numeral
/// character. A token of length zero means no token starts at `i`.
pub open spec fn scan_num(s: Seq<char>, i: int) -> int
    decreases s.len() - i
        when 0 <= i <= s.len()
{
    if i < s.len() && is_num_char(s[i]) {
        scan_num(s, i + 1)
    } else {
        i
    }
}

proof fn lemma_scan_num_range(s: Seq<char>, i: int)
    requires
        0 <= i <= s.len(),
    ensures
        i <= scan_num(s, i) <= s.len(),
    decreases s.len() - i,
{
    if i < s.len() && is_num_char(s[i]) {
        lemma_scan_num_range(s, i + 1);
    }
}

/// The pair starting at position `i`, if any: `(x,y)` with two
/// non-empty numeral tokens, given as the tokens and the position
/// right after the closing parenthesis.
pub open spec fn pair_at(s: Seq<char>, i: int) -> Option<(Seq<char>, Seq<char>, int)> {
    if !(0 <= i < s.len() && s[i] == '(') {
        None
    } else {
        let j = scan_num(s, i + 1);
        if j == i + 1 {
            None
        } else if !(j < s.len() && s[j] == ',') {
            None
        } else {
            let k = scan_num(s, j + 1);
            if k == j + 1 {
                None
            } else if !(k < s.len() && s[k] == ')') {
                None
            } else {
                Some((s.subrange(i + 1, j), s.subrange(j + 1, k), k + 1))
            }
        }
    }
}

proof fn lemma_pair_at_bounds(s: Seq<char>, i: int)
    requires
        0 <= i <= s.len(),
        pair_at(s, i) is Some,
    ensures
        i + 1 < pair_at(s, i).unwrap().2 <= s.len(),
{
    lemma_scan_num_range(s, i + 1);
    let j = scan_num(s, i + 1);
    lemma_scan_num_range(s, j + 1);
}

/// The pairs of the list tail starting at position `i`: one pair,
/// followed either by the closing bracket at the end of the text, or
/// by a comma and — unless the comma was a trailing one right before
/// the final bracket — the rest of the tail.
pub open spec fn pairs_from(s: Seq<char>, i: int) -> Option<Seq<(Seq<char>, Seq<char>)>>
    decreases s.len() - i
        when 0 <= i <= s.len()
        via pairs_from_decreases
{
    match pair_at(s, i) {
        None => None,
        Some((x, y, j)) => {
            if j == s.len() - 1 && s[j] == ']' {
                Some(seq![(x, y)])
            } else if j < s.len() && s[j] == ',' {
                if j + 1 == s.len() - 1 && s[j + 1] == ']' {
                    Some(seq![(x, y)])
                } else {
                    match pairs_from(s, j + 1) {
                        None => None,
                        Some(ps) => Some(seq![(x, y)] + ps),
                    }
                }
            } else {
                None
            }
        },
    }
}

#[via_fn]
proof fn pairs_from_decreases(s: Seq<char>, i: int) {
    if pair_at(s, i) is Some {
        lemma_pair_at_bounds(s, i);
    }
}

/// The pairs of the whole text `s`, when `s` (with whitespace already
/// removed) is a point list: a bracketed, possibly empty pair list.
pub open spec fn points_list(s: Seq<char>) -> Option<Seq<(Seq<char>, Seq<char>)>> {
    if s.len() >= 2 && s[0] == '[' {
        if s.len() == 2 && s[1] == ']' {
            Some(Seq::empty())
        } else {
            pairs_from(s, 1)
        }
    } else {
        None
    }
}

/// A well-formed numeral token: a non-empty run of numeral characters.
pub open spec fn wf_token(t: Seq<char>) -> bool {
    t.len() > 0 && forall|i: int| 0 <= i < t.len() ==> is_num_char(t[i])
}

proof fn lemma_scan_num_chars(s: Seq<char>, i: int)
    requires
        0 <= i <= s.len(),
    ensures
        forall|k: int| i <= k < scan_num(s, i) ==> is_num_char(s[k]),
    decreases s.len() - i,
{
    lemma_scan_num_range(s, i);
    if i < s.len() && is_num_char(s[i]) {
        lemma_scan_num_chars(s, i + 1);
        lemma_scan_num_range(s, i + 1);
    }
}

proof fn lemma_pair_at_tokens(s: Seq<char>, i: int)
    requires
        0 <= i <= s.len(),
        pair_at(s, i) is Some,
    ensures
        wf_token(pair_at(s, i).unwrap().0),
        wf_token(pair_at(s, i).unwrap().1),
{
    lemma_scan_num_range(s, i + 1);
    lemma_scan_num_chars(s, i + 1);
    let j = scan_num(s, i + 1);
    lemma_scan_num_range(s, j + 1);
    lemma_scan_num_chars(s, j + 1);
}

proof fn lemma_pairs_from_tokens(s: Seq<char>, i: int)
    requires
        0 <= i <= s.len(),
        pairs_from(s, i) is Some,
    ensures
        forall|k: int|
            0 <= k < pairs_from(s, i).unwrap().len() ==> wf_token(
                #[trigger] pairs_from(s, i).unwrap()[k].0,
            ) && wf_token(pairs_from(s, i).unwrap()[k].1),
    decreases s.len() - i,
{
    lemma_pair_at_tokens(s, i);
    lemma_pair_at_bounds(s, i);
    let x = pair_at(s, i).unwrap().0;
    let y = pair_at(s, i).unwrap().1;
    let j = pair_at(s, i).unwrap().2;
    let ps = pairs_from(s, i).unwrap();
    if j == s.len() - 1 && s[j] == ']' {
        assert(ps =~= seq![(x, y)]);
    } else if j < s.len() && s[j] == ',' {
        if j + 1 == s.len() - 1 && s[j + 1] == ']' {
            assert(ps =~= seq![(x, y)]);
        } else {
            lemma_pairs_from_tokens(s, j + 1);
            let rest = pairs_from(s, j + 1).unwrap();
            assert(ps =~= seq![(x, y)] + rest);
            assert forall|k: int| 0 <= k < ps.len() implies wf_token(#[trigger] ps[k].0)
                && wf_token(ps[k].1) by {
                if k == 0 {
                    assert(ps[k] == (x, y));
                } else {
                    assert(ps[k] == rest[k - 1]);
                }
            }
        }
    }
}

/// Every token of a parsed point list is a non-empty run of numeral
/// characters: what the caller hands to its numeric parser never holds
/// a bracket, a comma or whitespace.
pub proof fn lemma_points_list_tokens(s: Seq<char>)
    requires
        points_list(s) is Some,
    ensures
        forall|k: int|
            0 <= k < points_list(s).unwrap().len() ==> wf_token(
                #[trigger] points_list(s).unwrap()[k].0,
            ) && wf_token(points_list(s).unwrap()[k].1),
{
    if s.len() >= 2 && s[0] == '[' && !(s.len() == 2 && s[1] == ']') {
        lemma_pairs_from_tokens(s, 1);
    }
}

/// The canonical text of one pair: `(x,y)`.
pub open spec fn render_pair(p: (Seq<char>, Seq<char>)) -> Seq<char> {
    seq!['('] + p.0 + seq![','] + p.1 + seq![')']
}

/// The canonical text of a pair list: the pairs separated by commas.
pub open spec fn render_pairs(ps: Seq<(Seq<char>, Seq<char>)>) -> Seq<char>
    decreases ps.len(),
{
    if ps.len() == 0 {
        Seq::empty()
    } else if ps.len() == 1 {
        render_pair(ps[0])
    } else {
        render_pair(ps[0]) + seq![','] + render_pairs(ps.drop_first())
    }
}

proof fn lemma_pair_at_render(s: Seq<char>, i: int)
    requires
        0 <= i <= s.len(),
        pair_at(s, i) is Some,
    ensures
        s.subrange(i, pair_at(s, i).unwrap().2) =~= render_pair(
            (pair_at(s, i).unwrap().0, pair_at(s, i).unwrap().1),
        ),
{
    lemma_scan_num_range(s, i + 1);
    let j = scan_num(s, i + 1);
    lemma_scan_num_range(s, j + 1);
    let k = scan_num(s, j + 1);
    assert(s.subrange(i, k + 1) =~= seq![s[i]] + s.subrange(i + 1, j) + seq![s[j]] + s.subrange(
        j + 1,
        k,
    ) + seq![s[k]]);
}

proof fn lemma_pairs_from_render(s: Seq<char>, i: int)
    requires
        0 <= i <= s.len(),
        pairs_from(s, i) is Some,
    ensures
        pairs_from(s, i).unwrap().len() >= 1,
        s.subrange(i, s.len() as int) =~= render_pairs(pairs_from(s, i).unwrap()) + seq![']'] || s
            .subrange(i, s.len() as int) =~= render_pairs(pairs_from(s, i).unwrap()) + seq![
            ',',
            ']',
        ],
    decreases s.len() - i,
{
    lemma_pair_at_bounds(s, i);
    lemma_pair_at_render(s, i);
    let x = pair_at(s, i).unwrap().0;
    let y = pair_at(s, i).unwrap().1;
    let j = pair_at(s, i).unwrap().2;
    let ps = pairs_from(s, i).unwrap();
    if j == s.len() - 1 && s[j] == ']' {
        assert(ps =~= seq![(x, y)]);
        assert(s.subrange(i, s.len() as int) =~= s.subrange(i, j) + seq![s[j]]);
        assert(s.subrange(i, s.len() as int) =~= render_pairs(ps) + seq![']']);
    } else if j < s.len() && s[j] == ',' {
        if j + 1 == s.len() - 1 && s[j + 1] == ']' {
            assert(ps =~= seq![(x, y)]);
            assert(s.subrange(i, s.len() as int) =~= s.subrange(i, j) + seq![s[j], s[j + 1]]);
            assert(s.subrange(i, s.len() as int) =~= render_pairs(ps) + seq![',', ']']);
        } else {
            lemma_pairs_from_render(s, j + 1);
            let rest = pairs_from(s, j + 1).unwrap();
            assert(ps =~= seq![(x, y)] + rest);
            assert(ps.drop_first() =~= rest);
            assert(render_pairs(ps) =~= render_pair((x, y)) + seq![','] + render_pairs(rest));
            assert(s.subrange(i, s.len() as int) =~= s.subrange(i, j) + seq![s[j]] + s.subrange(
                j + 1,
                s.len() as int,
            ));
            if s.subrange(j + 1, s.len() as int) =~= render_pairs(rest) + seq![']'] {
                assert(s.subrange(i, s.len() as int) =~= render_pairs(ps) + seq![']']);
            } else {
                assert(s.subrange(i, s.len() as int) =~= render_pairs(ps) + seq![',', ']']);
            }
        }
    }
}

/// A parsed point list reassembles to the text it was read from: the
/// whitespace-stripped input is exactly the bracketed, comma-separated
/// canonical text of its pairs, up to one optional trailing comma. So
/// the grammar accepts no text that its tokens cannot explain.
pub proof fn lemma_points_list_render(s: Seq<char>)
    requires
        points_list(s) is Some,
    ensures
        s =~= seq!['['] + render_pairs(points_list(s).unwrap()) + seq![']'] || s =~= seq!['[']
            + render_pairs(points_list(s).unwrap()) + seq![',', ']'],
{
    let ps = points_list(s).unwrap();
    if s.len() == 2 && s[1] == ']' {
        assert(s =~= seq!['['] + render_pairs(ps) + seq![']']);
    } else {
        lemma_pairs_from_render(s, 1);
        assert(s =~= seq![s[0]] + s.subrange(1, s.len() as int));
        if s.subrange(1, s.len() as int) =~= render_pairs(ps) + seq![']'] {
            assert(s =~= seq!['['] + render_pairs(ps) + seq![']']);
        } else {
            assert(s =~= seq!['['] + render_pairs(ps) + seq![',', ']']);
        }
    }
}

/// The token views of a vector of token pairs.
pub open spec fn pair_views(v: Seq<(String, String)>) -> Seq<(Seq<char>, Seq<char>)> {
    v.map(|i: int, p: (String, String)| (p.0@, p.1@))
}

fn is_space_exec(c: char) -> (r: bool)
    ensures
        r == is_space(c),
{
    c == ' ' || c == '\t' || c == '\n' || c == '\r'
}

fn is_num_char_exec(c: char) -> (r: bool)
    ensures
        r == is_num_char(c),
{
    let u = c as u32;
    ('0' as u32) <= u && u <= ('9' as u32) || c == '+' || c == '-' || c == '.' || c == 'e' || c
        == 'E'
}

fn strip_spaces_exec(s: &str) -> (r: String)
    ensures
        r@ == strip_spaces(s@),
{
    let len = s.unicode_len();
    let mut out = String::new();
    let mut i: usize = 0;
    while i < len
        invariant
            i <= len,
            len == s@.len(),
            out@ == strip_spaces(s@.take(i as int)),
        decreases len - i,
    {
        let c = s.get_char(i);
        if !is_space_exec(c) {
            let piece = s.substring_char(i, i + 1);
            proof {
                assert(piece@ =~= seq![s@[i as int]]);
            }
            out.append(piece);
        }
        i += 1;
        proof {
            assert(s@.take(i as int).drop_last() =~= s@.take(i - 1));
            assert(s@.take(i as int).last() == s@[i - 1]);
            assert(out@ =~= strip_spaces(s@.take(i as int)));
        }
    }
    proof {
        assert(s@.take(len as int) =~= s@);
    }
    out
}

fn scan_num_exec(s: &str, len: usize, i: usize) -> (r: usize)
    requires
        len == s@.len(),
        i <= len,
    ensures
        r as int == scan_num(s@, i as int),
        i <= r <= len,
{
    let mut j: usize = i;
    loop
        invariant
            i <= j <= len,
            len == s@.len(),
            scan_num(s@, i as int) == scan_num(s@, j as int),
        ensures
            j <= len,
            scan_num(s@, i as int) == j,
        decreases len - j,
    {
        if j == len {
            break ;
        }
        let c = s.get_char(j);
        if !is_num_char_exec(c) {
            break ;
        }
        j += 1;
    }
    proof {
        lemma_scan_num_range(s@, i as int);
    }
    j
}

fn pair_at_exec(s: &str, len: usize, i: usize) -> (r: Option<(String, String, usize)>)
    requires
        len == s@.len(),
        i <= len,
    ensures
        match (r, pair_at(s@, i as int)) {
            (Some(t), Some(p)) => t.0@ == p.0 && t.1@ == p.1 && t.2 as int == p.2,
            (None, None) => true,
            _ => false,
        },
{
    if !(i < len) {
        return None;
    }
    if s.get_char(i) != '(' {
        return None;
    }
    let j = scan_num_exec(s, len, i + 1);
    if j == i + 1 {
        return None;
    }
    if !(j < len) {
        return None;
    }
    if s.get_char(j) != ',' {
        return None;
    }
    let k = scan_num_exec(s, len, j + 1);
    if k == j + 1 {
        return None;
    }
    if !(k < len) {
        return None;
    }
    if s.get_char(k) != ')' {
        return None;
    }
    let x = s.substring_char(i + 1, j).to_owned();
    let y = s.substring_char(j + 1, k).to_owned();
    Some((x, y, k + 1))
}

fn pairs_from_exec(s: &str, len: usize, i: usize) -> (r: Option<Vec<(String, String)>>)
    requires
        len == s@.len(),
        i <= len,
    ensures
        match (r, pairs_from(s@, i as int)) {
            (Some(v), Some(ps)) => pair_views(v@) == ps,
            (None, None) => true,
            _ => false,
        },
    decreases len - i,
{
    match pair_at_exec(s, len, i) {
        None => None,
        Some((x, y, j)) => {
            proof {
                lemma_pair_at_bounds(s@, i as int);
            }
            if j == len - 1 && s.get_char(j) == ']' {
                let mut v: Vec<(String, String)> = Vec::new();
                v.push((x, y));
                proof {
                    assert(pair_views(v@) =~= pairs_from(s@, i as int).unwrap());
                }
                Some(v)
            } else if j < len && s.get_char(j) == ',' {
                if j + 1 == len - 1 && s.get_char(j + 1) == ']' {
                    let mut v: Vec<(String, String)> = Vec::new();
                    v.push((x, y));
                    proof {
                        assert(pair_views(v@) =~= pairs_from(s@, i as int).unwrap());
                    }
                    Some(v)
                } else {
                    match pairs_from_exec(s, len, j + 1) {
                        None => None,
                        Some(rest) => {
                            let mut v = rest;
                            v.insert(0, (x, y));
                            proof {
                                assert(pair_views(v@) =~= pairs_from(s@, i as int).unwrap());
                            }
                            Some(v)
                        },
                    }
                }
            } else {
                None
            }
        },
    }
}

/// Parses an initial-condition text as a literal point list.
///
/// Accepts exactly the texts that, with whitespace removed, match the
/// point-list grammar, and returns the numeral tokens of the pairs in
/// order; every other text is rejected by name.
pub fn parse_points(s: &str) -> (r: Result<Vec<(String, String)>, FormatError>)
    ensures
        match r {
            Ok(v) => points_list(strip_spaces(s@)) == Some(pair_views(v@)),
            Err(e) => points_list(strip_spaces(s@)) is None && e.0@ == s@,
        },
{
    let dense = strip_spaces_exec(s);
    let d = dense.as_str();
    let len = d.unicode_len();
    if len >= 2 && d.get_char(0) == '[' {
        if len == 2 && d.get_char(1) == ']' {
            let v: Vec<(String, String)> = Vec::new();
            proof {
                assert(pair_views(v@) =~= Seq::<(Seq<char>, Seq<char>)>::empty());
            }
            Ok(v)
        } else {
            match pairs_from_exec(d, len, 1) {
                Some(v) => Ok(v),
                None => Err(FormatError(s.to_owned())),
            }
        }
    } else {
        Err(FormatError(s.to_owned()))
    }
}

} // verus!
