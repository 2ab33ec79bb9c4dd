use vstd::prelude::*;
use crate::text::{chars_of, is_white_space, push_char, string_of, white_space};

verus! {

// ---------------------------------------------------------------------------
// Byte length of text
// ---------------------------------------------------------------------------

/// Number of bytes of the UTF-8 encoding of one character.
pub open spec fn utf8_width(c: char) -> nat {
    let u = c as u32;
    if u < 0x80 {
        1
    } else if u < 0x800 {
        2
    } else if u < 0x10000 {
        3
    } else {
        4
    }
}

/// Number of bytes of the UTF-8 encoding of a text (what `str::len` counts).
pub open spec fn byte_len(s: Seq<char>) -> nat
    decreases s.len(),
{
    if s.len() == 0 {
        0
    } else {
        utf8_width(s[0]) + byte_len(s.drop_first())
    }
}

/// `byte_len` is the length of the UTF-8 encoding that vstd defines.
pub proof fn lemma_byte_len_is_utf8_len(s: Seq<char>)
    ensures
        byte_len(s) == vstd::utf8::encode_utf8(s).len(),
    decreases s.len(),
{
    if s.len() > 0 {
        lemma_byte_len_is_utf8_len(s.drop_first());
        vstd::utf8::char_is_scalar(s[0]);
    }
}

proof fn lemma_byte_len_push(s: Seq<char>, c: char)
    ensures
        byte_len(s.push(c)) == byte_len(s) + utf8_width(c),
    decreases s.len(),
{
    if s.len() == 0 {
        assert(s.push(c).drop_first() =~= Seq::<char>::empty());
        assert(byte_len(Seq::<char>::empty()) == 0);
        assert(s.push(c)[0] == c);
    } else {
        lemma_byte_len_push(s.drop_first(), c);
        assert(s.push(c).drop_first() =~= s.drop_first().push(c));
        assert(s.push(c)[0] == s[0]);
    }
}

fn char_width(c: char) -> (w: u128)
    ensures
        w == utf8_width(c),
{
    let u = c as u32;
    if u < 0x80 {
        1
    } else if u < 0x800 {
        2
    } else if u < 0x10000 {
        3
    } else {
        4
    }
}

/// The byte length of `s`, or `cap` when it is larger.
fn byte_len_capped(s: &Vec<char>, cap: u128) -> (r: u128)
    requires
        cap <= 0x1_0000_0000_0000_0000,
    ensures
        r == if byte_len(s@) < cap {
            byte_len(s@)
        } else {
            cap as nat
        },
{
    let mut acc: u128 = 0;
    let mut i: usize = 0;
    while i < s.len()
        invariant
            cap <= 0x1_0000_0000_0000_0000,
            i <= s.len(),
            acc <= cap,
            acc < cap ==> acc == byte_len(s@.take(i as int)),
            acc == cap ==> byte_len(s@.take(i as int)) >= cap,
        decreases s.len() - i,
    {
        proof {
            assert(s@.take(i + 1) =~= s@.take(i as int).push(s@[i as int]));
            lemma_byte_len_push(s@.take(i as int), s@[i as int]);
        }
        if acc < cap {
            let w = char_width(s[i]);
            if acc + w >= cap {
                acc = cap;
            } else {
                acc = acc + w;
            }
        }
        i = i + 1;
    }
    proof {
        assert(s@.take(s.len() as int) =~= s@);
    }
    acc
}

// ---------------------------------------------------------------------------
// Splitting into words
// ---------------------------------------------------------------------------

/// Left-to-right scan of `s` that splits on white space: the finished words and
/// the word being read.
pub open spec fn scan_words(s: Seq<char>) -> (Seq<Seq<char>>, Seq<char>)
    decreases s.len(),
{
    if s.len() == 0 {
        (Seq::empty(), Seq::empty())
    } else {
        let (done, cur) = scan_words(s.drop_last());
        if is_white_space(s.last()) {
            if cur.len() > 0 {
                (done.push(cur), Seq::empty())
            } else {
                (done, cur)
            }
        } else {
            (done, cur.push(s.last()))
        }
    }
}

/// The words of `s` (`str::split_whitespace`): the maximal runs of characters
/// that are not white space, in order.
pub open spec fn words(s: Seq<char>) -> Seq<Seq<char>> {
    let (done, cur) = scan_words(s);
    if cur.len() > 0 {
        done.push(cur)
    } else {
        done
    }
}

pub open spec fn views_of(v: Seq<Vec<char>>) -> Seq<Seq<char>> {
    v.map_values(|w: Vec<char>| w@)
}

/// Splits a run of characters into its words.
pub fn split_words(v: &Vec<char>) -> (ws: Vec<Vec<char>>)
    ensures
        views_of(ws@) == words(v@),
{
    let mut done: Vec<Vec<char>> = Vec::new();
    let mut cur: Vec<char> = Vec::new();
    let mut i: usize = 0;
    while i < v.len()
        invariant
            i <= v.len(),
            (views_of(done@), cur@) == scan_words(v@.take(i as int)),
        decreases v.len() - i,
    {
        proof {
            assert(v@.take(i + 1).drop_last() =~= v@.take(i as int));
            assert(v@.take(i + 1).last() == v@[i as int]);
        }
        let c = v[i];
        if white_space(c) {
            if cur.len() > 0 {
                let w = cur;
                done.push(w);
                cur = Vec::new();
                proof {
                    assert(views_of(done@) =~= views_of(done@.drop_last()).push(w@));
                }
            }
        } else {
            cur.push(c);
        }
        i = i + 1;
    }
    proof {
        assert(v@.take(v.len() as int) =~= v@);
    }
    if cur.len() > 0 {
        let ghost before = done@;
        done.push(cur);
        proof {
            assert(views_of(done@) =~= views_of(before).push(cur@));
        }
    }
    done
}

// ---------------------------------------------------------------------------
// Greedy wrapping
// ---------------------------------------------------------------------------

/// One step of greedy filling: `word` joins the current line after a space when
/// the joined line stays within `max` bytes; otherwise the current line is
/// finished and `word` starts the next one.
pub open spec fn wrap_step(lines: Seq<Seq<char>>, cur: Seq<char>, word: Seq<char>, max: nat) -> (
    Seq<Seq<char>>,
    Seq<char>,
) {
    if cur.len() == 0 {
        (lines, word)
    } else if byte_len(cur) + 1 + byte_len(word) <= max {
        (lines, cur + seq![' '] + word)
    } else {
        (lines.push(cur), word)
    }
}

pub open spec fn wrap_scan(ws: Seq<Seq<char>>, max: nat) -> (Seq<Seq<char>>, Seq<char>)
    decreases ws.len(),
{
    if ws.len() == 0 {
        (Seq::empty(), Seq::empty())
    } else {
        let (lines, cur) = wrap_scan(ws.drop_last(), max);
        wrap_step(lines, cur, ws.last(), max)
    }
}

/// The lines that greedy filling makes of a sequence of words.
pub open spec fn fill_words(ws: Seq<Seq<char>>, max: nat) -> Seq<Seq<char>> {
    let (lines, cur) = wrap_scan(ws, max);
    if cur.len() > 0 {
        lines.push(cur)
    } else {
        lines
    }
}

/// The lines of `text` wrapped at `max` bytes; a text without words gives the
/// single line "-".
pub open spec fn wrap_lines(text: Seq<char>, max: nat) -> Seq<Seq<char>> {
    let lines = fill_words(words(text), max);
    if lines.len() == 0 {
        seq![seq!['-']]
    } else {
        lines
    }
}

pub open spec fn string_views(v: Seq<String>) -> Seq<Seq<char>> {
    v.map_values(|s: String| s@)
}

/// Wraps `text` into lines of at most `max_width` bytes, breaking only between
/// words; a word longer than the width stands on a line of its own.
pub fn wrap_text(text: &str, max_width: usize) -> (lines: Vec<String>)
    ensures
        string_views(lines@) == wrap_lines(text@, max_width as nat),
{
    let chars = chars_of(text);
    let ws = split_words(&chars);
    let cap: u128 = (max_width as u128) + 1;
    let mut lines: Vec<String> = Vec::new();
    let mut cur: Vec<char> = Vec::new();
    let mut i: usize = 0;
    while i < ws.len()
        invariant
            i <= ws.len(),
            cap == max_width + 1,
            (string_views(lines@), cur@) == wrap_scan(views_of(ws@).take(i as int), max_width as nat),
        decreases ws.len() - i,
    {
        let ghost prev_lines = lines@;
        proof {
            assert(views_of(ws@).take(i + 1).drop_last() =~= views_of(ws@).take(i as int));
            assert(views_of(ws@).take(i + 1).last() == ws@[i as int]@);
        }
        if cur.len() == 0 {
            cur = ws[i].clone();
        } else {
            let a = byte_len_capped(&cur, cap);
            let b = byte_len_capped(&ws[i], cap);
            if a + 1 + b <= max_width as u128 {
                cur.push(' ');
                let mut k: usize = 0;
                let ghost base = cur@;
                while k < ws[i].len()
                    invariant
                        i < ws.len(),
                        k <= ws[i as int].len(),
                        cur@ == base + ws[i as int]@.take(k as int),
                    decreases ws[i as int].len() - k,
                {
                    proof {
                        assert(ws[i as int]@.take(k + 1) =~= ws[i as int]@.take(k as int).push(
                            ws[i as int]@[k as int],
                        ));
                    }
                    cur.push(ws[i][k]);
                    k = k + 1;
                }
                proof {
                    assert(ws[i as int]@.take(ws[i as int].len() as int) =~= ws[i as int]@);
                }
            } else {
                let line = string_of(&cur);
                lines.push(line);
                proof {
                    assert(string_views(lines@) =~= string_views(prev_lines).push(line@));
                }
                cur = ws[i].clone();
            }
        }
        i = i + 1;
    }
    proof {
        assert(views_of(ws@).take(ws.len() as int) =~= views_of(ws@));
    }
    if cur.len() > 0 {
        let ghost before = lines@;
        let line = string_of(&cur);
        lines.push(line);
        proof {
            assert(string_views(lines@) =~= string_views(before).push(line@));
        }
    }
    if lines.len() == 0 {
        let mut dash = String::new();
        push_char(&mut dash, '-');
        lines.push(dash);
        proof {
            assert(string_views(lines@) =~= seq![seq!['-']]);
        }
    }
    lines
}

} // verus!

verus! {

// ---------------------------------------------------------------------------
// Laws of wrapping
// ---------------------------------------------------------------------------

/// Byte length is additive over concatenation.
pub proof fn lemma_byte_len_concat(a: Seq<char>, b: Seq<char>)
    ensures
        byte_len(a + b) == byte_len(a) + byte_len(b),
    decreases a.len(),
{
    if a.len() == 0 {
        assert(a + b =~= b);
    } else {
        lemma_byte_len_concat(a.drop_first(), b);
        assert((a + b).drop_first() =~= a.drop_first() + b);
        assert((a + b)[0] == a[0]);
    }
}

/// A text without white space.
pub open spec fn no_white_space(s: Seq<char>) -> bool {
    forall|i: int| 0 <= i < s.len() ==> !is_white_space(#[trigger] s[i])
}

/// Words joined by single spaces.
pub open spec fn join_words(ws: Seq<Seq<char>>) -> Seq<char>
    decreases ws.len(),
{
    if ws.len() == 0 {
        Seq::empty()
    } else if ws.len() == 1 {
        ws[0]
    } else {
        join_words(ws.drop_last()) + seq![' '] + ws.last()
    }
}

proof fn lemma_scan_words_shape(s: Seq<char>)
    ensures
        forall|k: int|
            0 <= k < scan_words(s).0.len() ==> (#[trigger] scan_words(s).0[k]).len() > 0
                && no_white_space(scan_words(s).0[k]),
        no_white_space(scan_words(s).1),
    decreases s.len(),
{
    if s.len() > 0 {
        lemma_scan_words_shape(s.drop_last());
        let (done, cur) = scan_words(s.drop_last());
        if !is_white_space(s.last()) {
            assert forall|i: int| 0 <= i < cur.push(s.last()).len() implies !is_white_space(
                #[trigger] cur.push(s.last())[i],
            ) by {
                if i < cur.len() {
                    assert(cur.push(s.last())[i] == cur[i]);
                }
            }
        } else if cur.len() > 0 {
            assert forall|k: int| 0 <= k < done.push(cur).len() implies (#[trigger] done.push(
                cur,
            )[k]).len() > 0 && no_white_space(done.push(cur)[k]) by {
                if k < done.len() {
                    assert(done.push(cur)[k] == done[k]);
                }
            }
        }
    }
}

/// Every word of a text is non-empty and holds no white space.
pub proof fn lemma_words_shape(s: Seq<char>)
    ensures
        forall|k: int|
            0 <= k < words(s).len() ==> (#[trigger] words(s)[k]).len() > 0 && no_white_space(
                words(s)[k],
            ),
{
    lemma_scan_words_shape(s);
    let (done, cur) = scan_words(s);
    if cur.len() > 0 {
        assert forall|k: int| 0 <= k < done.push(cur).len() implies (#[trigger] done.push(
            cur,
        )[k]).len() > 0 && no_white_space(done.push(cur)[k]) by {
            if k < done.len() {
                assert(done.push(cur)[k] == done[k]);
            }
        }
    }
}

/// A line is acceptable when it fits in `max` bytes or is a single word.
pub open spec fn line_ok(l: Seq<char>, max: nat) -> bool {
    byte_len(l) <= max || no_white_space(l)
}

proof fn lemma_join_push(xs: Seq<Seq<char>>, a: Seq<char>, w: Seq<char>)
    ensures
        join_words(xs.push(a + seq![' '] + w)) == join_words(xs.push(a)) + seq![' '] + w,
{
    let l = xs.push(a + seq![' '] + w);
    let r = xs.push(a);
    assert(l.drop_last() =~= xs);
    assert(r.drop_last() =~= xs);
    if xs.len() == 0 {
        assert(l.len() == 1);
        assert(r.len() == 1);
    } else {
        assert(join_words(l) == join_words(xs) + seq![' '] + (a + seq![' '] + w));
        assert(join_words(r) == join_words(xs) + seq![' '] + a);
        assert(join_words(l) =~= join_words(r) + seq![' '] + w);
    }
}

proof fn lemma_wrap_scan(ws: Seq<Seq<char>>, max: nat)
    requires
        forall|k: int| 0 <= k < ws.len() ==> (#[trigger] ws[k]).len() > 0 && no_white_space(ws[k]),
    ensures
        ({
            let (lines, cur) = wrap_scan(ws, max);
            &&& (cur.len() == 0 <==> ws.len() == 0)
            &&& ws.len() == 0 ==> lines.len() == 0
            &&& forall|k: int| 0 <= k < lines.len() ==> (#[trigger] lines[k]).len() > 0 && line_ok(
                lines[k],
                max,
            )
            &&& line_ok(cur, max)
            &&& ws.len() > 0 ==> join_words(lines.push(cur)) == join_words(ws)
        }),
    decreases ws.len(),
{
    if ws.len() > 0 {
        let prev = ws.drop_last();
        assert forall|k: int| 0 <= k < prev.len() implies (#[trigger] prev[k]).len() > 0
            && no_white_space(prev[k]) by {
            assert(prev[k] == ws[k]);
        }
        lemma_wrap_scan(prev, max);
        let (lines, cur) = wrap_scan(prev, max);
        let w = ws.last();
        assert(w == ws[ws.len() - 1]);
        if cur.len() == 0 {
            assert(prev.len() == 0);
            assert(ws.len() == 1);
            assert(lines.push(w).len() == 1);
            assert(lines.push(w)[0] == w);
        } else if byte_len(cur) + 1 + byte_len(w) <= max {
            let joined = cur + seq![' '] + w;
            lemma_byte_len_concat(cur, seq![' ']);
            lemma_byte_len_concat(cur + seq![' '], w);
            assert(byte_len(seq![' ']) == 1) by {
                assert(seq![' '].drop_first() =~= Seq::<char>::empty());
                assert(byte_len(Seq::<char>::empty()) == 0);
                assert(seq![' '][0] == ' ');
                assert((' ' as u32) == 32);
            }
            lemma_join_push(lines, cur, w);
            assert(join_words(ws) == join_words(prev) + seq![' '] + w);
            assert(joined.len() > 0);
        } else {
            let nl = lines.push(cur);
            assert forall|k: int| 0 <= k < nl.len() implies (#[trigger] nl[k]).len() > 0
                && line_ok(nl[k], max) by {
                if k < lines.len() {
                    assert(nl[k] == lines[k]);
                }
            }
            assert(nl.push(w).drop_last() =~= nl);
            assert(join_words(nl.push(w)) == join_words(nl) + seq![' '] + w);
        }
    }
}

/// Wrapping never yields an empty list; every line is non-empty and either fits
/// in `max` bytes or is a single word longer than that; and, read with single
/// spaces between lines, the lines give back the words of the text in order
/// (a text without words gives the single line "-").
pub proof fn lemma_wrap_text_laws(text: Seq<char>, max: nat)
    ensures
        wrap_lines(text, max).len() >= 1,
        forall|k: int|
            0 <= k < wrap_lines(text, max).len() ==> (#[trigger] wrap_lines(text, max)[k]).len()
                > 0 && line_ok(wrap_lines(text, max)[k], max),
        words(text).len() > 0 ==> join_words(wrap_lines(text, max)) == join_words(words(text)),
        words(text).len() == 0 ==> wrap_lines(text, max) == seq![seq!['-']],
{
    lemma_words_shape(text);
    let ws = words(text);
    lemma_wrap_scan(ws, max);
    let (lines, cur) = wrap_scan(ws, max);
    if ws.len() > 0 {
        let all = lines.push(cur);
        assert(fill_words(ws, max) == all);
        assert forall|k: int| 0 <= k < all.len() implies (#[trigger] all[k]).len() > 0 && line_ok(
            all[k],
            max,
        ) by {
            if k < lines.len() {
                assert(all[k] == lines[k]);
            }
        }
    } else {
        assert(fill_words(ws, max) == lines);
        let dash = seq![seq!['-']];
        assert(dash[0].len() == 1);
        assert(byte_len(seq!['-']) == 1) by {
            assert(seq!['-'].drop_first() =~= Seq::<char>::empty());
        }
        assert forall|k: int| 0 <= k < dash.len() implies (#[trigger] dash[k]).len() > 0
            && line_ok(dash[k], max) by {
            assert(dash[k] == seq!['-']);
            assert(!is_white_space('-'));
            if max == 0 {
                assert forall|i: int| 0 <= i < seq!['-'].len() implies !is_white_space(
                    #[trigger] seq!['-'][i],
                ) by {}
            }
        }
    }
}

} // verus!

verus! {

/// A text never has more characters than bytes.
pub proof fn lemma_len_le_byte_len(s: Seq<char>)
    ensures
        s.len() <= byte_len(s),
    decreases s.len(),
{
    if s.len() > 0 {
        lemma_len_le_byte_len(s.drop_first());
    }
}

} // verus!

verus! {

// ---------------------------------------------------------------------------
// Greedy breaking and re-wrapping
// ---------------------------------------------------------------------------

proof fn lemma_scan_words_append_word(x: Seq<char>, w: Seq<char>)
    requires
        no_white_space(w),
    ensures
        scan_words(x + w) == (scan_words(x).0, scan_words(x).1 + w),
    decreases w.len(),
{
    if w.len() == 0 {
        assert(x + w =~= x);
        assert(scan_words(x).1 + w =~= scan_words(x).1);
    } else {
        let wd = w.drop_last();
        assert forall|i: int| 0 <= i < wd.len() implies !is_white_space(#[trigger] wd[i]) by {
            assert(wd[i] == w[i]);
        }
        lemma_scan_words_append_word(x, wd);
        assert((x + w).drop_last() =~= x + wd);
        assert((x + w).last() == w[w.len() - 1]);
        assert(scan_words(x).1 + wd + seq![w.last()] =~= scan_words(x).1 + w);
        assert((scan_words(x).1 + wd).push(w.last()) =~= scan_words(x).1 + w);
    }
}

proof fn lemma_scan_join(ws: Seq<Seq<char>>)
    requires
        ws.len() > 0,
        forall|k: int| 0 <= k < ws.len() ==> (#[trigger] ws[k]).len() > 0 && no_white_space(ws[k]),
    ensures
        scan_words(join_words(ws)) == (ws.drop_last(), ws.last()),
    decreases ws.len(),
{
    let w = ws.last();
    assert(w == ws[ws.len() - 1]);
    if ws.len() == 1 {
        lemma_scan_words_append_word(Seq::empty(), w);
        assert(Seq::<char>::empty() + w =~= w);
        assert(Seq::<char>::empty() + w =~= w);
        assert(ws.drop_last() =~= Seq::<Seq<char>>::empty());
        assert(scan_words(Seq::<char>::empty()) == (Seq::<Seq<char>>::empty(), Seq::<char>::empty()));
    } else {
        let p = ws.drop_last();
        assert forall|k: int| 0 <= k < p.len() implies (#[trigger] p[k]).len() > 0 && no_white_space(
            p[k],
        ) by {
            assert(p[k] == ws[k]);
        }
        lemma_scan_join(p);
        let a = join_words(p);
        let sp = a + seq![' '];
        assert(sp.drop_last() =~= a);
        assert(sp.last() == ' ');
        assert(is_white_space(' ')) by {
            assert((' ' as u32) == 0x20);
        }
        assert(p.last() == p[p.len() - 1]);
        assert(scan_words(sp) == (p.drop_last().push(p.last()), Seq::<char>::empty()));
        assert(p.drop_last().push(p.last()) =~= p);
        lemma_scan_words_append_word(sp, w);
        assert(Seq::<char>::empty() + w =~= w);
        assert(join_words(ws) == sp + w);
    }
}

/// Joining words with single spaces and splitting the result gives the words
/// back, when each is non-empty and holds no white space.
pub proof fn lemma_words_of_join(ws: Seq<Seq<char>>)
    requires
        forall|k: int| 0 <= k < ws.len() ==> (#[trigger] ws[k]).len() > 0 && no_white_space(ws[k]),
    ensures
        words(join_words(ws)) == ws,
{
    if ws.len() == 0 {
        assert(scan_words(Seq::<char>::empty()) == (Seq::<Seq<char>>::empty(), Seq::<char>::empty()));
    } else {
        lemma_scan_join(ws);
        assert(ws.last() == ws[ws.len() - 1]);
        assert(ws.drop_last().push(ws.last()) =~= ws);
    }
}

/// Re-wrapping wrapped text changes nothing: the lines of a text, joined with
/// single spaces and wrapped again at the same width, are the same lines (the
/// "-" of a text without words included).
pub proof fn lemma_rewrap_stable(text: Seq<char>, max: nat)
    ensures
        wrap_lines(join_words(wrap_lines(text, max)), max) == wrap_lines(text, max),
{
    lemma_wrap_text_laws(text, max);
    lemma_words_shape(text);
    let ws = words(text);
    if ws.len() > 0 {
        lemma_words_of_join(ws);
        assert(words(join_words(wrap_lines(text, max))) == ws);
    } else {
        let dash = seq![seq!['-']];
        assert(dash[0] == seq!['-']);
        assert(!is_white_space('-'));
        assert(no_white_space(seq!['-'])) by {
            assert forall|i: int| 0 <= i < seq!['-'].len() implies !is_white_space(
                #[trigger] seq!['-'][i],
            ) by {}
        }
        lemma_words_of_join(dash);
        assert(dash.drop_last() =~= Seq::<Seq<char>>::empty());
        assert(dash.last() == seq!['-']);
        assert(wrap_scan(Seq::<Seq<char>>::empty(), max) == (
            Seq::<Seq<char>>::empty(),
            Seq::<char>::empty(),
        ));
        assert(wrap_scan(dash, max) == wrap_step(
            Seq::<Seq<char>>::empty(),
            Seq::<char>::empty(),
            seq!['-'],
            max,
        ));
    }
}

/// The leading word of a line: its characters up to the first white space.
pub open spec fn first_word(l: Seq<char>) -> Seq<char>
    decreases l.len(),
{
    if l.len() == 0 || is_white_space(l[0]) {
        Seq::empty()
    } else {
        seq![l[0]] + first_word(l.drop_first())
    }
}

proof fn lemma_first_word_extend(a: Seq<char>, b: Seq<char>)
    ensures
        first_word(a + seq![' '] + b) == first_word(a),
    decreases a.len(),
{
    assert(is_white_space(' ')) by {
        assert((' ' as u32) == 0x20);
    }
    if a.len() == 0 {
        assert(a + seq![' '] + b =~= seq![' '] + b);
        assert((seq![' '] + b)[0] == ' ');
    } else {
        assert((a + seq![' '] + b)[0] == a[0]);
        assert((a + seq![' '] + b).drop_first() =~= a.drop_first() + seq![' '] + b);
        lemma_first_word_extend(a.drop_first(), b);
    }
}

proof fn lemma_first_word_of_word(w: Seq<char>)
    requires
        no_white_space(w),
    ensures
        first_word(w) == w,
    decreases w.len(),
{
    if w.len() > 0 {
        let d = w.drop_first();
        assert forall|i: int| 0 <= i < d.len() implies !is_white_space(#[trigger] d[i]) by {
            assert(d[i] == w[i + 1]);
        }
        lemma_first_word_of_word(d);
        assert(seq![w[0]] + d =~= w);
    }
}

/// Whether each line of `lines`, followed by `cur`, is broken greedily: the
/// first word of what follows it would not have fit after a space.
pub open spec fn breaks_greedy(lines: Seq<Seq<char>>, cur: Seq<char>, max: nat) -> bool {
    forall|k: int|
        0 <= k < lines.len() ==> byte_len(#[trigger] lines[k]) + 1 + byte_len(
            first_word(if k + 1 < lines.len() { lines[k + 1] } else { cur }),
        ) > max
}

proof fn lemma_wrap_scan_greedy(ws: Seq<Seq<char>>, max: nat)
    requires
        forall|k: int| 0 <= k < ws.len() ==> (#[trigger] ws[k]).len() > 0 && no_white_space(ws[k]),
    ensures
        breaks_greedy(wrap_scan(ws, max).0, wrap_scan(ws, max).1, max),
    decreases ws.len(),
{
    if ws.len() > 0 {
        let prev = ws.drop_last();
        assert forall|k: int| 0 <= k < prev.len() implies (#[trigger] prev[k]).len() > 0
            && no_white_space(prev[k]) by {
            assert(prev[k] == ws[k]);
        }
        lemma_wrap_scan_greedy(prev, max);
        lemma_wrap_scan(prev, max);
        let (lines, cur) = wrap_scan(prev, max);
        let w = ws.last();
        assert(w == ws[ws.len() - 1]);
        if cur.len() == 0 {
        } else if byte_len(cur) + 1 + byte_len(w) <= max {
            lemma_first_word_extend(cur, w);
            let c2 = cur + seq![' '] + w;
            assert forall|k: int| 0 <= k < lines.len() implies byte_len(#[trigger] lines[k]) + 1
                + byte_len(first_word(if k + 1 < lines.len() { lines[k + 1] } else { c2 })) > max by {
            }
        } else {
            lemma_first_word_of_word(w);
            let nl = lines.push(cur);
            assert forall|k: int| 0 <= k < nl.len() implies byte_len(#[trigger] nl[k]) + 1 + byte_len(
                first_word(if k + 1 < nl.len() { nl[k + 1] } else { w }),
            ) > max by {
                if k < lines.len() {
                    assert(nl[k] == lines[k]);
                    if k + 1 < lines.len() {
                        assert(nl[k + 1] == lines[k + 1]);
                    } else {
                        assert(nl[k + 1] == cur);
                    }
                } else {
                    assert(nl[k] == cur);
                }
            }
        }
    }
}

/// Lines are broken greedily: each line but the last ends only because the
/// next line's first word would not have fit after it, past a space, within
/// `max` bytes.
pub proof fn lemma_wrap_greedy(text: Seq<char>, max: nat)
    ensures
        forall|k: int|
            0 <= k < wrap_lines(text, max).len() - 1 ==> byte_len(#[trigger] wrap_lines(text, max)[k])
                + 1 + byte_len(first_word(wrap_lines(text, max)[k + 1])) > max,
{
    lemma_words_shape(text);
    let ws = words(text);
    lemma_wrap_scan(ws, max);
    lemma_wrap_scan_greedy(ws, max);
    let (lines, cur) = wrap_scan(ws, max);
    let all = wrap_lines(text, max);
    if ws.len() > 0 {
        assert(all == lines.push(cur));
        assert forall|k: int| 0 <= k < all.len() - 1 implies byte_len(#[trigger] all[k]) + 1
            + byte_len(first_word(all[k + 1])) > max by {
            assert(all[k] == lines[k]);
            if k + 1 < lines.len() {
                assert(all[k + 1] == lines[k + 1]);
            } else {
                assert(all[k + 1] == cur);
            }
        }
    }
}

} // verus!
