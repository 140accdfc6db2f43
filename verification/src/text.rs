//! Text layout engine: wraps plain text into display lines that honour a
//! target column width, counting double-width (CJK-family) glyphs as two
//! columns, and formats ISO-8601 timestamps for the metadata line.

use vstd::prelude::*;

verus! {

/// A character occupies two terminal columns when its code point falls in
/// one of the CJK-family blocks of this width table, else one.
pub open spec fn wide(c: char) -> bool {
    let cp = c as u32;
    ||| (0x1100 <= cp && cp <= 0x115F)  // Hangul Jamo
    ||| (0x2E80 <= cp && cp <= 0x9FFF)  // CJK radicals through unified ideographs, kana, Hangul Jamo extended
    ||| (0xAC00 <= cp && cp <= 0xD7A3)  // Hangul syllables
    ||| (0xF900 <= cp && cp <= 0xFAFF)  // CJK compatibility ideographs
    ||| (0xFE10 <= cp && cp <= 0xFE1F)  // vertical forms
    ||| (0xFE30 <= cp && cp <= 0xFE6F)  // CJK compatibility forms
    ||| (0xFF00 <= cp && cp <= 0xFF60)  // fullwidth forms
    ||| (0xFFE0 <= cp && cp <= 0xFFE6)  // fullwidth signs
    ||| (0x20000 <= cp && cp <= 0x2FFFF)  // CJK extensions B through F
    ||| (0x30000 <= cp && cp <= 0x3FFFF)  // CJK extension G and beyond
}

/// Display columns of one character.
pub open spec fn char_cols(c: char) -> int {
    if wide(c) {
        2
    } else {
        1
    }
}

/// Display columns of a whole line.
pub open spec fn cols(s: Seq<char>) -> int
    decreases s.len(),
{
    if s.len() == 0 {
        0
    } else {
        char_cols(s[0]) + cols(s.skip(1))
    }
}

/// The target width is clamped to a minimum of 10 columns, so that every
/// single character fits on a line and wrapping always makes progress.
pub open spec fn clamp_width(w: int) -> int {
    if w < 10 {
        10
    } else {
        w
    }
}

/// How many further characters of `s` still fit on a line that already
/// holds `used` columns of a `w`-column budget.
pub open spec fn fit_from(s: Seq<char>, w: int, used: int) -> int
    decreases s.len(),
{
    if s.len() == 0 {
        0
    } else if used + char_cols(s[0]) > w {
        0
    } else {
        1 + fit_from(s.skip(1), w, used + char_cols(s[0]))
    }
}

/// Characters on the first wrapped line of a non-empty segment: the first
/// character always goes in (forward progress even when it alone is wider
/// than the budget), then as many more as fit.
pub open spec fn first_line_len(s: Seq<char>, w: int) -> int
    recommends
        s.len() > 0,
{
    1 + fit_from(s.skip(1), w, char_cols(s[0]))
}

/// Greedy wrap of one newline-free segment into lines of at most `w`
/// columns each (except that a lone over-wide character still gets a line).
pub open spec fn wrap_segment(s: Seq<char>, w: int) -> Seq<Seq<char>>
    decreases s.len(),
    via wrap_segment_dec
{
    if s.len() == 0 {
        Seq::empty()
    } else {
        let k = first_line_len(s, w);
        seq![s.take(k)] + wrap_segment(s.skip(k), w)
    }
}

#[via_fn]
proof fn wrap_segment_dec(s: Seq<char>, w: int) {
    if s.len() != 0 {
        lemma_fit_from_bound(s.skip(1), w, char_cols(s[0]));
    }
}

/// `fit_from` consumes between none and all of the remaining characters.
proof fn lemma_fit_from_bound(s: Seq<char>, w: int, used: int)
    ensures
        0 <= fit_from(s, w, used) <= s.len(),
    decreases s.len(),
{
    if s.len() != 0 && !(used + char_cols(s[0]) > w) {
        lemma_fit_from_bound(s.skip(1), w, used + char_cols(s[0]));
    }
}

/// Index of the first newline of `s`, or `s.len()` when there is none.
pub open spec fn upto_newline(s: Seq<char>) -> int
    decreases s.len(),
{
    if s.len() == 0 {
        0
    } else if s[0] == '\n' {
        0
    } else {
        1 + upto_newline(s.skip(1))
    }
}

proof fn lemma_upto_newline_bound(s: Seq<char>)
    ensures
        0 <= upto_newline(s) <= s.len(),
        upto_newline(s) < s.len() ==> s[upto_newline(s)] == '\n',
        forall|j: int| 0 <= j < upto_newline(s) ==> s[j] != '\n',
    decreases s.len(),
{
    if s.len() != 0 && s[0] != '\n' {
        lemma_upto_newline_bound(s.skip(1));
        assert forall|j: int| 0 <= j < upto_newline(s) implies s[j] != '\n' by {
            if j >= 1 {
                assert(s.skip(1)[j - 1] == s[j]);
            }
        }
    }
}

/// Lines of one segment: an empty segment (a blank source line) yields a
/// single empty output line; a non-empty one is wrapped greedily.
pub open spec fn segment_lines(p: Seq<char>, w: int) -> Seq<Seq<char>> {
    if p.len() == 0 {
        seq![Seq::<char>::empty()]
    } else {
        wrap_segment(p, w)
    }
}

/// Wrapped lines of `s`: split on newlines, wrap each segment at `w`
/// columns, concatenate the results in order.
pub open spec fn wrap_lines_from(s: Seq<char>, w: int) -> Seq<Seq<char>>
    decreases s.len(),
    via wrap_lines_from_dec
{
    let k = upto_newline(s);
    if k == s.len() {
        segment_lines(s, w)
    } else {
        segment_lines(s.take(k), w) + wrap_lines_from(s.skip(k + 1), w)
    }
}

#[via_fn]
proof fn wrap_lines_from_dec(s: Seq<char>, w: int) {
    lemma_upto_newline_bound(s);
}

/// The wrap contract: empty input yields no lines at all; otherwise the
/// width is clamped to at least 10 columns and every newline-separated
/// segment is wrapped independently.
pub open spec fn wrap_lines(text: Seq<char>, width: int) -> Seq<Seq<char>> {
    if text.len() == 0 {
        Seq::empty()
    } else {
        wrap_lines_from(text, clamp_width(width))
    }
}

/// The character sequences of a sequence of owned strings.
pub open spec fn lines_view(v: Seq<String>) -> Seq<Seq<char>> {
    v.map_values(|s: String| s@)
}

proof fn lemma_lines_view_push(v: Seq<String>, s: String)
    ensures
        lines_view(v.push(s)) == lines_view(v).push(s@),
{
    assert(lines_view(v.push(s)) =~= lines_view(v).push(s@));
}

proof fn lemma_lines_view_add(a: Seq<String>, b: Seq<String>)
    ensures
        lines_view(a + b) == lines_view(a) + lines_view(b),
{
    assert(lines_view(a + b) =~= lines_view(a) + lines_view(b));
}

/// Whether a character is displayed in two terminal columns (CJK-family
/// blocks, fullwidth forms) rather than one.
pub fn is_wide_char(ch: char) -> (r: bool)
    ensures
        r == wide(ch),
{
    let cp = ch as u32;
    (0x1100 <= cp && cp <= 0x115F) || (0x2E80 <= cp && cp <= 0x9FFF) || (0xAC00 <= cp && cp
        <= 0xD7A3) || (0xF900 <= cp && cp <= 0xFAFF) || (0xFE10 <= cp && cp <= 0xFE1F) || (0xFE30
        <= cp && cp <= 0xFE6F) || (0xFF00 <= cp && cp <= 0xFF60) || (0xFFE0 <= cp && cp <= 0xFFE6)
        || (0x20000 <= cp && cp <= 0x2FFFF) || (0x30000 <= cp && cp <= 0x3FFFF)
}

/// Wrap of the characters `[start, hi)` of `text`, none of which is a
/// newline, into greedy lines of at most `w` columns.
fn wrap_segment_exec(text: &str, lo: usize, hi: usize, w: usize) -> (r: Vec<String>)
    requires
        lo <= hi <= text@.len(),
        w >= 10,
    ensures
        lines_view(r@) == wrap_segment(text@.subrange(lo as int, hi as int), w as int),
{
    let ghost seg = text@.subrange(lo as int, hi as int);
    let mut r: Vec<String> = Vec::new();
    let mut start: usize = lo;
    proof {
        assert(seg.skip(0) =~= seg);
        assert(lines_view(r@) =~= Seq::<Seq<char>>::empty());
        assert(lines_view(r@) + wrap_segment(seg, w as int) =~= wrap_segment(seg, w as int));
    }
    while start < hi
        invariant
            lo <= start <= hi <= text@.len(),
            w >= 10,
            seg == text@.subrange(lo as int, hi as int),
            wrap_segment(seg, w as int) == lines_view(r@) + wrap_segment(
                seg.skip(start - lo),
                w as int,
            ),
        decreases hi - start,
    {
        let ghost rem = seg.skip(start - lo);
        assert(rem =~= text@.subrange(start as int, hi as int));
        let c0 = text.get_char(start);
        assert(c0 == rem[0]);
        let mut used: usize = if is_wide_char(c0) {
            2
        } else {
            1
        };
        let mut k: usize = start + 1;
        assert(rem.skip(1) =~= text@.subrange(start + 1, hi as int));
        while k < hi
            invariant
                start < k <= hi <= text@.len(),
                used <= w,
                rem == text@.subrange(start as int, hi as int),
                rem.skip(k - start) =~= text@.subrange(k as int, hi as int),
                first_line_len(rem, w as int) == (k - start) + fit_from(
                    rem.skip(k - start),
                    w as int,
                    used as int,
                ),
            ensures
                start < k <= hi,
                fit_from(rem.skip(k - start), w as int, used as int) == 0,
                first_line_len(rem, w as int) == k - start,
            decreases hi - k,
        {
            let c = text.get_char(k);
            let ghost tail = rem.skip(k - start);
            assert(tail[0] == c);
            let cw: usize = if is_wide_char(c) {
                2
            } else {
                1
            };
            if cw > w - used {
                assert(fit_from(tail, w as int, used as int) == 0);
                break ;
            }
            assert(fit_from(tail, w as int, used as int) == 1 + fit_from(
                tail.skip(1),
                w as int,
                used + cw,
            ));
            assert(tail.skip(1) =~= text@.subrange(k + 1, hi as int));
            assert(rem.skip((k - start) + 1) =~= text@.subrange(k + 1, hi as int));
            used = used + cw;
            k = k + 1;
        }
        let line = text.substring_char(start, k);
        let owned = String::from_str(line);
        proof {
            assert(owned@ =~= rem.take(k - start));
            assert(wrap_segment(rem, w as int) == seq![rem.take(k - start)] + wrap_segment(
                rem.skip(k - start),
                w as int,
            ));
            lemma_lines_view_push(r@, owned);
            assert(lines_view(r@).push(owned@) + wrap_segment(rem.skip(k - start), w as int)
                =~= lines_view(r@) + wrap_segment(rem, w as int));
            assert(rem.skip(k - start) =~= seg.skip(k - lo));
        }
        r.push(owned);
        start = k;
    }
    assert(seg.skip(start - lo) =~= seg.skip(seg.len() as int));
    assert(wrap_segment(seg.skip(start - lo), w as int) =~= Seq::<Seq<char>>::empty());
    assert(lines_view(r@) =~= wrap_segment(seg, w as int));
    r
}

/// Wrap `text` into display lines of at most `width` columns (clamped to a
/// minimum of 10). Newlines in the input start fresh lines and blank source
/// lines are preserved; empty input yields no lines at all.
pub fn wrap_text(text: &str, width: usize) -> (r: Vec<String>)
    ensures
        lines_view(r@) == wrap_lines(text@, width as int),
{
    let mut lines: Vec<String> = Vec::new();
    let n = text.unicode_len();
    if n == 0 {
        return lines;
    }
    let w: usize = if width < 10 {
        10
    } else {
        width
    };
    let mut i: usize = 0;
    proof {
        assert(text@.skip(0) =~= text@);
        assert(lines_view(lines@) =~= Seq::<Seq<char>>::empty());
        assert(lines_view(lines@) + wrap_lines_from(text@, w as int) =~= wrap_lines_from(
            text@,
            w as int,
        ));
    }
    loop
        invariant_except_break
            wrap_lines(text@, width as int) == lines_view(lines@) + wrap_lines_from(
                text@.skip(i as int),
                w as int,
            ),
        invariant
            0 <= i <= n == text@.len(),
            w == clamp_width(width as int),
            n > 0,
        ensures
            lines_view(lines@) == wrap_lines(text@, width as int),
        decreases n - i,
    {
        let ghost rest = text@.skip(i as int);
        let ghost prev = lines@;
        let mut j: usize = i;
        loop
            invariant
                i <= j <= n == text@.len(),
                forall|m: int| i <= m < j ==> text@[m] != '\n',
            ensures
                i <= j <= n,
                forall|m: int| i <= m < j ==> text@[m] != '\n',
                j < n ==> text@[j as int] == '\n',
            decreases n - j,
        {
            if j == n {
                break ;
            }
            if text.get_char(j) == '\n' {
                break ;
            }
            j = j + 1;
        }
        proof {
            lemma_upto_newline_eq(rest, j - i);
        }
        if j == i {
            let empty_line = String::new();
            proof {
                lemma_lines_view_push(lines@, empty_line);
            }
            lines.push(empty_line);
            proof {
                assert(rest.take(0) =~= Seq::<char>::empty());
                assert(segment_lines(rest.take(0), w as int) =~= seq![Seq::<char>::empty()]);
                assert(lines_view(lines@) =~= lines_view(prev) + segment_lines(
                    rest.take(0),
                    w as int,
                ));
            }
        } else {
            let mut seg_lines = wrap_segment_exec(text, i, j, w);
            proof {
                assert(text@.subrange(i as int, j as int) =~= rest.take(j - i));
                lemma_lines_view_add(lines@, seg_lines@);
                assert(rest.take(j - i).len() > 0);
            }
            lines.append(&mut seg_lines);
            assert(lines_view(lines@) == lines_view(prev) + segment_lines(
                rest.take(j - i),
                w as int,
            ));
        }
        if j == n {
            proof {
                assert(upto_newline(rest) == rest.len());
                assert(rest.take(j - i) =~= rest);
                assert(wrap_lines_from(rest, w as int) == segment_lines(rest, w as int));
            }
            break ;
        }
        proof {
            assert(upto_newline(rest) == j - i < rest.len());
            assert(rest.skip(j - i + 1) =~= text@.skip(j + 1));
            assert(wrap_lines_from(rest, w as int) == segment_lines(rest.take(j - i), w as int)
                + wrap_lines_from(text@.skip(j + 1), w as int));
            assert(lines_view(lines@) + wrap_lines_from(text@.skip(j + 1), w as int)
                =~= lines_view(prev) + wrap_lines_from(rest, w as int));
        }
        i = j + 1;
    }
    lines
}

/// When the first `k` characters of `s` are not newlines and either the
/// sequence ends there or a newline follows, the first newline is at `k`.
proof fn lemma_upto_newline_eq(s: Seq<char>, k: int)
    requires
        0 <= k <= s.len(),
        forall|m: int| 0 <= m < k ==> s[m] != '\n',
        k < s.len() ==> s[k] == '\n',
    ensures
        upto_newline(s) == k,
    decreases k,
{
    if k > 0 {
        assert(s[0] != '\n');
        lemma_upto_newline_eq(s.skip(1), k - 1);
    } else {
        if s.len() > 0 {
            assert(s[0] == '\n');
        }
    }
}

/// Wrapping empty text yields no lines at all, whatever the width.
pub proof fn lemma_wrap_empty(width: int)
    ensures
        wrap_lines(Seq::<char>::empty(), width) == Seq::<Seq<char>>::empty(),
{
}

/// Every width up to the minimum wraps exactly as width 10 does: the
/// clamp makes degenerate widths behave like the floor.
pub proof fn lemma_wrap_min_width(text: Seq<char>, width: int)
    requires
        width <= 10,
    ensures
        wrap_lines(text, width) == wrap_lines(text, 10),
{
}

proof fn lemma_cols_take_fit(s: Seq<char>, w: int, used: int)
    requires
        0 <= used <= w,
    ensures
        used + cols(s.take(fit_from(s, w, used))) <= w,
    decreases s.len(),
{
    let m = fit_from(s, w, used);
    if s.len() == 0 || used + char_cols(s[0]) > w {
        assert(s.take(0) =~= Seq::<char>::empty());
    } else {
        lemma_cols_take_fit(s.skip(1), w, used + char_cols(s[0]));
        let m1 = fit_from(s.skip(1), w, used + char_cols(s[0]));
        lemma_fit_from_bound(s.skip(1), w, used + char_cols(s[0]));
        assert(s.take(m).skip(1) =~= s.skip(1).take(m1));
        assert(cols(s.take(m)) == char_cols(s[0]) + cols(s.skip(1).take(m1)));
    }
}

proof fn lemma_first_line_cols(s: Seq<char>, w: int)
    requires
        s.len() > 0,
        w >= 2,
    ensures
        cols(s.take(first_line_len(s, w))) <= w,
{
    let c0 = char_cols(s[0]);
    lemma_cols_take_fit(s.skip(1), w, c0);
    let m1 = fit_from(s.skip(1), w, c0);
    lemma_fit_from_bound(s.skip(1), w, c0);
    assert(s.take(1 + m1).skip(1) =~= s.skip(1).take(m1));
    assert(cols(s.take(1 + m1)) == c0 + cols(s.skip(1).take(m1)));
}

proof fn lemma_wrap_segment_cols(s: Seq<char>, w: int)
    requires
        w >= 2,
    ensures
        forall|i: int|
            0 <= i < wrap_segment(s, w).len() ==> cols(#[trigger] wrap_segment(s, w)[i]) <= w,
    decreases s.len(),
{
    if s.len() != 0 {
        let k = first_line_len(s, w);
        lemma_fit_from_bound(s.skip(1), w, char_cols(s[0]));
        lemma_first_line_cols(s, w);
        lemma_wrap_segment_cols(s.skip(k), w);
        assert forall|i: int| 0 <= i < wrap_segment(s, w).len() implies cols(
            #[trigger] wrap_segment(s, w)[i],
        ) <= w by {
            if i == 0 {
                assert(wrap_segment(s, w)[0] == s.take(k));
            } else {
                assert(wrap_segment(s, w)[i] == wrap_segment(s.skip(k), w)[i - 1]);
            }
        }
    }
}

proof fn lemma_wrap_lines_from_cols(s: Seq<char>, w: int)
    requires
        w >= 2,
    ensures
        forall|i: int|
            0 <= i < wrap_lines_from(s, w).len() ==> cols(#[trigger] wrap_lines_from(s, w)[i])
                <= w,
    decreases s.len(),
{
    let k = upto_newline(s);
    lemma_upto_newline_bound(s);
    if k == s.len() {
        if s.len() > 0 {
            lemma_wrap_segment_cols(s, w);
        } else {
            assert(cols(Seq::<char>::empty()) == 0);
        }
    } else {
        if k > 0 {
            lemma_wrap_segment_cols(s.take(k), w);
        } else {
            assert(cols(Seq::<char>::empty()) == 0);
        }
        lemma_wrap_lines_from_cols(s.skip(k + 1), w);
        let front = segment_lines(s.take(k), w);
        assert forall|i: int| 0 <= i < wrap_lines_from(s, w).len() implies cols(
            #[trigger] wrap_lines_from(s, w)[i],
        ) <= w by {
            if i < front.len() {
                assert(wrap_lines_from(s, w)[i] == front[i]);
            } else {
                assert(wrap_lines_from(s, w)[i] == wrap_lines_from(s.skip(k + 1), w)[i
                    - front.len()]);
            }
        }
    }
}

/// No produced line is wider than the clamped target: every line fits in
/// `clamp_width(width)` display columns.
pub proof fn lemma_wrap_lines_fit(text: Seq<char>, width: int)
    ensures
        forall|i: int|
            0 <= i < wrap_lines(text, width).len() ==> cols(
                #[trigger] wrap_lines(text, width)[i],
            ) <= clamp_width(width),
{
    if text.len() > 0 {
        lemma_wrap_lines_from_cols(text, clamp_width(width));
    }
}

proof fn lemma_cols_ge_len(s: Seq<char>)
    ensures
        cols(s) >= s.len(),
    decreases s.len(),
{
    if s.len() > 0 {
        lemma_cols_ge_len(s.skip(1));
    }
}

/// A character needs at least one column, so no produced line holds more
/// characters than the clamped width — in particular, text of single-width
/// characters never yields a line of more than `clamp_width(width)` of them.
pub proof fn lemma_wrap_lines_char_count(text: Seq<char>, width: int)
    ensures
        forall|i: int|
            0 <= i < wrap_lines(text, width).len() ==> (#[trigger] wrap_lines(text, width)[i]).len()
                <= clamp_width(width),
{
    lemma_wrap_lines_fit(text, width);
    assert forall|i: int| 0 <= i < wrap_lines(text, width).len() implies (#[trigger] wrap_lines(
        text,
        width,
    )[i]).len() <= clamp_width(width) by {
        lemma_cols_ge_len(wrap_lines(text, width)[i]);
    }
}

/// Whether every character of `s` is double-width.
pub open spec fn all_wide(s: Seq<char>) -> bool {
    forall|i: int| 0 <= i < s.len() ==> wide(#[trigger] s[i])
}

proof fn lemma_fit_from_all_wide(s: Seq<char>, w: int, used: int)
    requires
        all_wide(s),
        0 <= used <= w,
    ensures
        fit_from(s, w, used) == if s.len() <= (w - used) / 2 {
            s.len() as int
        } else {
            (w - used) / 2
        },
    decreases s.len(),
{
    vstd::arithmetic::div_mod::lemma_div_pos_is_pos(w - used, 2);
    if s.len() != 0 {
        assert(wide(s[0]));
        if used + 2 > w {
            assert((w - used) / 2 == 0) by {
                vstd::arithmetic::div_mod::lemma_basic_div(w - used, 2);
            }
        } else {
            assert(all_wide(s.skip(1))) by {
                assert(forall|i: int|
                    0 <= i < s.skip(1).len() ==> #[trigger] s.skip(1)[i] == s[i + 1]);
            }
            lemma_fit_from_all_wide(s.skip(1), w, used + 2);
            assert((w - used) / 2 == 1 + (w - used - 2) / 2) by {
                vstd::arithmetic::div_mod::lemma_div_plus_one(w - used - 2, 2);
            }
        }
    }
}

proof fn lemma_wrap_segment_all_wide(s: Seq<char>, w: int)
    requires
        all_wide(s),
        w >= 2,
    ensures
        wrap_segment(s, w).len() == (s.len() + w / 2 - 1) / (w / 2),
    decreases s.len(),
{
    let h = w / 2;
    assert(h >= 1) by {
        vstd::arithmetic::div_mod::lemma_div_is_ordered(2, w, 2);
        vstd::arithmetic::div_mod::lemma_div_by_self(2);
    }
    if s.len() == 0 {
        vstd::arithmetic::div_mod::lemma_basic_div(h - 1, h);
    } else {
        assert(wide(s[0]));
        assert(all_wide(s.skip(1))) by {
            assert(forall|i: int| 0 <= i < s.skip(1).len() ==> #[trigger] s.skip(1)[i] == s[i + 1]);
        }
        lemma_fit_from_all_wide(s.skip(1), w, 2);
        assert(h == 1 + (w - 2) / 2) by {
            vstd::arithmetic::div_mod::lemma_div_plus_one(w - 2, 2);
        }
        let k = first_line_len(s, w);
        assert(k == if s.len() <= h {
            s.len() as int
        } else {
            h
        });
        assert(all_wide(s.skip(k))) by {
            assert(forall|i: int| 0 <= i < s.skip(k).len() ==> #[trigger] s.skip(k)[i] == s[i + k]);
        }
        lemma_wrap_segment_all_wide(s.skip(k), w);
        if s.len() <= h {
            assert(s.skip(k).len() == 0);
            assert(wrap_segment(s, w).len() == 1);
            assert(h <= s.len() + h - 1 < 2 * h);
            assert((s.len() + h - 1) / h == 1) by {
                vstd::arithmetic::div_mod::lemma_div_plus_one(s.len() - 1, h);
                vstd::arithmetic::div_mod::lemma_basic_div(s.len() - 1, h);
            }
        } else {
            assert(wrap_segment(s, w).len() == 1 + (s.len() - h + h - 1) / h);
            assert((s.len() + h - 1) / h == 1 + (s.len() - 1) / h) by {
                vstd::arithmetic::div_mod::lemma_div_plus_one(s.len() - 1, h);
            }
        }
    }
}

/// Wrapping `N` double-width characters at width `w` yields exactly
/// `ceil(N / floor(clamp_width(w) / 2))` lines: each line carries as many
/// two-column glyphs as fit.
pub proof fn lemma_wrap_wide_count(text: Seq<char>, width: int)
    requires
        all_wide(text),
    ensures
        wrap_lines(text, width).len() == (text.len() + clamp_width(width) / 2 - 1) / (clamp_width(
            width,
        ) / 2),
{
    let w = clamp_width(width);
    let h = w / 2;
    if text.len() == 0 {
        vstd::arithmetic::div_mod::lemma_basic_div(h - 1, h);
    } else {
        assert(upto_newline(text) == text.len()) by {
            lemma_upto_newline_bound(text);
            if upto_newline(text) < text.len() {
                assert(wide(text[upto_newline(text)]));
            }
        }
        lemma_wrap_segment_all_wide(text, w);
    }
}

/// Render an ISO-8601 timestamp as `date time` (characters 0-9, a space,
/// characters 11-15); shorter inputs come back verbatim.
pub open spec fn spec_format_time(s: Seq<char>) -> Seq<char> {
    if s.len() >= 16 {
        s.take(10) + seq![' '] + s.subrange(11, 16)
    } else {
        s
    }
}

/// Format a raw timestamp string for the article metadata line.
pub fn format_time(iso_time: &str) -> (r: String)
    ensures
        r@ == spec_format_time(iso_time@),
{
    let n = iso_time.unicode_len();
    if n >= 16 {
        let mut r = String::from_str(iso_time.substring_char(0, 10));
        r.append(" ");
        r.append(iso_time.substring_char(11, 16));
        proof {
            reveal_strlit(" ");
            assert(" "@ =~= seq![' ']);
            assert(r@ =~= spec_format_time(iso_time@));
        }
        r
    } else {
        iso_time.to_owned()
    }
}

} // verus!
