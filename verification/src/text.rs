//! Text handling as the REPL does it: white space as Unicode defines it,
//! splitting a line into words, trimming, and joining words.
use vstd::prelude::*;

verus! {

/// Whether `c` has the Unicode `White_Space` property, which
/// `char::is_whitespace` tests.
pub open spec fn is_ws(c: char) -> bool {
    let n = c as int;
    ||| 9 <= n <= 13
    ||| n == 32
    ||| n == 0x85
    ||| n == 0xA0
    ||| n == 0x1680
    ||| 0x2000 <= n <= 0x200A
    ||| n == 0x2028
    ||| n == 0x2029
    ||| n == 0x202F
    ||| n == 0x205F
    ||| n == 0x3000
}

/// Law: white space is exactly the Unicode `White_Space` code points: the
/// controls 9 to 13, the space, U+0085, U+00A0, U+1680, U+2000 to U+200A,
/// U+2028, U+2029, U+202F, U+205F and U+3000. In particular no printable
/// ASCII character other than the space is white space, so `-` or `_` never
/// splits a word.
pub proof fn law_white_space_code_points(c: char)
    ensures
        is_ws(c) <==> ({
            let n = c as int;
            n == 9 || n == 10 || n == 11 || n == 12 || n == 13 || n == 32 || n == 0x85 || n == 0xA0
                || n == 0x1680 || (0x2000 <= n && n <= 0x200A) || n == 0x2028 || n == 0x2029 || n == 0x202F
                || n == 0x205F || n == 0x3000
        }),
        33 <= c as int <= 126 ==> !is_ws(c),
        c as int == 32 ==> is_ws(c),
{
}

/// Whether `c` is white space (`char::is_whitespace`).
pub fn is_whitespace(c: char) -> (r: bool)
    ensures
        r == is_ws(c),
{
    let n = c as u32;
    (9 <= n && n <= 13) || n == 32 || n == 0x85 || n == 0xA0 || n == 0x1680 || (0x2000 <= n && n
        <= 0x200A) || n == 0x2028 || n == 0x2029 || n == 0x202F || n == 0x205F || n == 0x3000
}

/// The words finished so far and the word under way, after reading `s` from
/// the left.
pub open spec fn scan_words(s: Seq<char>) -> (Seq<Seq<char>>, Seq<char>)
    decreases s.len(),
{
    if s.len() == 0 {
        (Seq::empty(), Seq::empty())
    } else {
        let (ws, cur) = scan_words(s.drop_last());
        let c = s.last();
        if is_ws(c) {
            if cur.len() > 0 {
                (ws.push(cur), Seq::empty())
            } else {
                (ws, cur)
            }
        } else {
            (ws, cur.push(c))
        }
    }
}

/// The words of `s`, in order: its longest runs of characters that are not
/// white space (`str::split_whitespace`).
pub open spec fn words(s: Seq<char>) -> Seq<Seq<char>> {
    let (ws, cur) = scan_words(s);
    if cur.len() > 0 {
        ws.push(cur)
    } else {
        ws
    }
}

/// A word: not empty, and without white space.
pub open spec fn is_word(w: Seq<char>) -> bool {
    w.len() > 0 && forall|k: int| 0 <= k < w.len() ==> !is_ws(#[trigger] w[k])
}

proof fn lemma_scan_shape(s: Seq<char>)
    ensures
        forall|i: int| 0 <= i < scan_words(s).0.len() ==> is_word(#[trigger] scan_words(s).0[i]),
        forall|k: int| 0 <= k < scan_words(s).1.len() ==> !is_ws(#[trigger] scan_words(s).1[k]),
    decreases s.len(),
{
    if s.len() > 0 {
        lemma_scan_shape(s.drop_last());
        let (ws, cur) = scan_words(s.drop_last());
        if !is_ws(s.last()) {
            assert forall|k: int| 0 <= k < cur.push(s.last()).len() implies !is_ws(#[trigger] cur.push(s.last())[k]) by {
                if k < cur.len() {
                    assert(cur.push(s.last())[k] == cur[k]);
                }
            }
        } else if cur.len() > 0 {
            assert forall|i: int| 0 <= i < ws.push(cur).len() implies is_word(#[trigger] ws.push(cur)[i]) by {
                if i < ws.len() {
                    assert(ws.push(cur)[i] == ws[i]);
                } else {
                    assert forall|k: int| 0 <= k < cur.len() implies !is_ws(#[trigger] cur[k]) by {}
                }
            }
        }
    }
}

/// Law: every word of a line is a word: not empty, without white space.
pub proof fn law_words_are_words(s: Seq<char>)
    ensures
        forall|i: int| 0 <= i < words(s).len() ==> is_word(#[trigger] words(s)[i]),
{
    lemma_scan_shape(s);
    let (ws, cur) = scan_words(s);
    if cur.len() > 0 {
        assert forall|i: int| 0 <= i < ws.push(cur).len() implies is_word(#[trigger] ws.push(cur)[i]) by {
            if i < ws.len() {
                assert(ws.push(cur)[i] == ws[i]);
            }
        }
    }
}

proof fn lemma_scan_append(p: Seq<char>, b: Seq<char>)
    requires
        scan_words(p).1.len() == 0,
    ensures
        scan_words(p + b) == (scan_words(p).0 + scan_words(b).0, scan_words(b).1),
    decreases b.len(),
{
    if b.len() == 0 {
        assert(p + b =~= p);
        assert(scan_words(p).0 + scan_words(b).0 =~= scan_words(p).0);
    } else {
        let b0 = b.drop_last();
        lemma_scan_append(p, b0);
        assert((p + b).drop_last() =~= p + b0);
        assert((p + b).last() == b.last());
        let w = scan_words(p).0;
        let (ws0, cur0) = scan_words(b0);
        if is_ws(b.last()) && cur0.len() > 0 {
            assert((w + ws0).push(cur0) =~= w + ws0.push(cur0));
        }
    }
}

proof fn lemma_scan_word(w: Seq<char>)
    requires
        forall|k: int| 0 <= k < w.len() ==> !is_ws(#[trigger] w[k]),
    ensures
        scan_words(w) == (Seq::<Seq<char>>::empty(), w),
    decreases w.len(),
{
    if w.len() > 0 {
        let w0 = w.drop_last();
        assert forall|k: int| 0 <= k < w0.len() implies !is_ws(#[trigger] w0[k]) by {
            assert(w0[k] == w[k]);
        }
        lemma_scan_word(w0);
        assert(!is_ws(w[w.len() - 1]));
        assert(w0.push(w.last()) =~= w);
    }
}

/// Law: a line without characters has no words.
pub proof fn law_words_empty()
    ensures
        words(Seq::<char>::empty()) == Seq::<Seq<char>>::empty(),
{
}

/// Law: a word alone is its own only word.
pub proof fn law_words_of_word(w: Seq<char>)
    requires
        is_word(w),
    ensures
        words(w) == seq![w],
{
    lemma_scan_word(w);
    assert(Seq::<Seq<char>>::empty().push(w) =~= seq![w]);
}

/// Law: a white-space character splits a line in two, and the words of the
/// line are the words before it followed by the words after it. With the two
/// laws above, this makes the words of a line its longest runs of characters
/// that are not white space, in order.
pub proof fn law_words_split(a: Seq<char>, c: char, b: Seq<char>)
    requires
        is_ws(c),
    ensures
        words(a + seq![c] + b) == words(a) + words(b),
{
    let p = a + seq![c];
    assert(p.drop_last() =~= a);
    assert(p.last() == c);
    assert(scan_words(p).0 == words(a));
    lemma_scan_append(p, b);
    let (wsb, curb) = scan_words(b);
    if curb.len() > 0 {
        assert((words(a) + wsb).push(curb) =~= words(a) + wsb.push(curb));
    }
}

/// The texts of a list of strings.
pub open spec fn string_texts(v: Seq<String>) -> Seq<Seq<char>> {
    v.map_values(|s: String| s@)
}

/// The words of `s`, in order (`str::split_whitespace`).
pub fn split_whitespace(s: &str) -> (r: Vec<String>)
    ensures
        string_texts(r@) == words(s@),
{
    let n = s.unicode_len();
    let mut out: Vec<String> = Vec::new();
    let mut start: usize = 0;
    let mut in_word = false;
    let mut i: usize = 0;
    while i < n
        invariant
            n == s@.len(),
            i <= n,
            start <= i,
            string_texts(out@) == scan_words(s@.subrange(0, i as int)).0,
            scan_words(s@.subrange(0, i as int)).1 == (if in_word { s@.subrange(start as int, i as int) } else { Seq::empty() }),
            in_word ==> start < i,
        decreases n - i,
    {
        let c = s.get_char(i);
        let ghost pre = s@.subrange(0, i as int);
        let ghost post = s@.subrange(0, i + 1);
        proof {
            assert(post.drop_last() =~= pre);
            assert(post.last() == c);
        }
        if is_whitespace(c) {
            if in_word {
                let w = String::from_str(s.substring_char(start, i));
                out.push(w);
                in_word = false;
                proof {
                    assert(string_texts(out@) =~= string_texts(out@.drop_last()).push(w@));
                    assert(out@.drop_last() =~= out@.subrange(0, out@.len() - 1));
                }
            }
        } else {
            if !in_word {
                start = i;
                in_word = true;
            }
            proof {
                assert(s@.subrange(start as int, i + 1) =~= (if start == i { Seq::<char>::empty() } else { s@.subrange(start as int, i as int) }).push(c));
            }
        }
        i = i + 1;
    }
    if in_word {
        let w = String::from_str(s.substring_char(start, n));
        out.push(w);
        proof {
            assert(string_texts(out@) =~= string_texts(out@.drop_last()).push(w@));
            assert(out@.drop_last() =~= out@.subrange(0, out@.len() - 1));
        }
    }
    assert(s@.subrange(0, n as int) =~= s@);
    out
}

/// `s` without its leading and trailing white space (`str::trim`).
pub open spec fn trimmed(s: Seq<char>) -> Seq<char>
    decreases s.len(),
{
    if s.len() > 0 && is_ws(s[0]) {
        trimmed(s.drop_first())
    } else if s.len() > 0 && is_ws(s.last()) {
        trimmed(s.drop_last())
    } else {
        s
    }
}

/// Whether every character of `s` from `lo` to `hi` is white space.
pub open spec fn all_ws(s: Seq<char>, lo: int, hi: int) -> bool {
    forall|k: int| lo <= k < hi ==> #[trigger] is_ws(s[k])
}

proof fn lemma_trim_bounds(s: Seq<char>) -> (ab: (int, int))
    ensures
        0 <= ab.0 <= ab.1 <= s.len(),
        trimmed(s) == s.subrange(ab.0, ab.1),
        all_ws(s, 0, ab.0),
        all_ws(s, ab.1, s.len() as int),
    decreases s.len(),
{
    if s.len() > 0 && is_ws(s[0]) {
        let t = s.drop_first();
        let (a, b) = lemma_trim_bounds(t);
        assert(t.subrange(a, b) =~= s.subrange(a + 1, b + 1));
        assert forall|k: int| 0 <= k < a + 1 implies #[trigger] is_ws(s[k]) by {
            if k > 0 {
                assert(s[k] == t[k - 1]);
                assert(is_ws(t[k - 1]));
            }
        }
        assert forall|k: int| b + 1 <= k < s.len() implies #[trigger] is_ws(s[k]) by {
            assert(s[k] == t[k - 1]);
            assert(is_ws(t[k - 1]));
        }
        (a + 1, b + 1)
    } else if s.len() > 0 && is_ws(s.last()) {
        let t = s.drop_last();
        let (a, b) = lemma_trim_bounds(t);
        assert(t.subrange(a, b) =~= s.subrange(a, b));
        assert forall|k: int| 0 <= k < a implies #[trigger] is_ws(s[k]) by {
            assert(s[k] == t[k]);
            assert(is_ws(t[k]));
        }
        assert forall|k: int| b <= k < s.len() implies #[trigger] is_ws(s[k]) by {
            if k < t.len() {
                assert(s[k] == t[k]);
                assert(is_ws(t[k]));
            }
        }
        (a, b)
    } else {
        assert(s.subrange(0, s.len() as int) =~= s);
        (0, s.len() as int)
    }
}

proof fn lemma_trimmed_ends(s: Seq<char>)
    ensures
        trimmed(s).len() > 0 ==> !is_ws(trimmed(s)[0]) && !is_ws(trimmed(s).last()),
    decreases s.len(),
{
    if s.len() > 0 && is_ws(s[0]) {
        lemma_trimmed_ends(s.drop_first());
    } else if s.len() > 0 && is_ws(s.last()) {
        lemma_trimmed_ends(s.drop_last());
    }
}

/// Law: trimming leaves the part of the text between its first and last
/// characters that are not white space: everything cut off before and after
/// it is white space, and it neither starts nor ends with white space.
pub proof fn law_trimmed_shape(s: Seq<char>)
    ensures
        trimmed(s).len() > 0 ==> !is_ws(trimmed(s)[0]) && !is_ws(trimmed(s).last()),
        exists|a: int, b: int|
            0 <= a <= b <= s.len() && trimmed(s) == s.subrange(a, b) && #[trigger] all_ws(s, 0, a) && #[trigger] all_ws(
                s,
                b,
                s.len() as int,
            ),
{
    lemma_trimmed_ends(s);
    let (a, b) = lemma_trim_bounds(s);
    assert(all_ws(s, 0, a) && all_ws(s, b, s.len() as int));
}

/// `s` without its leading and trailing white space (`str::trim`).
pub fn trim(s: &str) -> (r: String)
    ensures
        r@ == trimmed(s@),
{
    let n = s.unicode_len();
    let mut lo: usize = 0;
    let mut hi: usize = n;
    assert(s@.subrange(0, n as int) =~= s@);
    while lo < hi && is_whitespace(s.get_char(lo))
        invariant
            n == s@.len(),
            lo <= hi <= n,
            trimmed(s@) == trimmed(s@.subrange(lo as int, hi as int)),
        decreases hi - lo,
    {
        proof {
            assert(s@.subrange(lo as int, hi as int).drop_first() =~= s@.subrange(lo + 1, hi as int));
        }
        lo = lo + 1;
    }
    while lo < hi && is_whitespace(s.get_char(hi - 1))
        invariant
            n == s@.len(),
            lo <= hi <= n,
            lo < hi ==> !is_ws(s@[lo as int]),
            trimmed(s@) == trimmed(s@.subrange(lo as int, hi as int)),
        decreases hi - lo,
    {
        proof {
            let sub = s@.subrange(lo as int, hi as int);
            assert(sub[0] == s@[lo as int]);
            assert(sub.last() == s@[hi - 1]);
            assert(sub.drop_last() =~= s@.subrange(lo as int, hi - 1));
        }
        hi = hi - 1;
    }
    proof {
        let sub = s@.subrange(lo as int, hi as int);
        if lo < hi {
            assert(sub[0] == s@[lo as int]);
            assert(sub.last() == s@[hi - 1]);
        }
    }
    String::from_str(s.substring_char(lo, hi))
}

/// The words joined with `sep` between each two (`[&str]::join`).
pub open spec fn joined(ws: Seq<Seq<char>>, sep: Seq<char>) -> Seq<char>
    decreases ws.len(),
{
    if ws.len() == 0 {
        Seq::empty()
    } else if ws.len() == 1 {
        ws[0]
    } else {
        joined(ws.drop_last(), sep) + sep + ws.last()
    }
}

/// Law: joining no words gives nothing, and joining one word gives the word.
pub proof fn law_joined_small(w: Seq<char>, sep: Seq<char>)
    ensures
        joined(Seq::<Seq<char>>::empty(), sep) == Seq::<char>::empty(),
        joined(seq![w], sep) == w,
{
}

/// Law: joining two non-empty lists of words, one after the other, gives the
/// join of the first, the separator, and the join of the second.
pub proof fn law_joined_append(a: Seq<Seq<char>>, b: Seq<Seq<char>>, sep: Seq<char>)
    requires
        a.len() > 0,
        b.len() > 0,
    ensures
        joined(a + b, sep) == joined(a, sep) + sep + joined(b, sep),
    decreases b.len(),
{
    let ab = a + b;
    assert(ab.drop_last() =~= a + b.drop_last());
    assert(ab.last() == b.last());
    if b.len() == 1 {
        assert(b.drop_last() =~= Seq::<Seq<char>>::empty());
        assert(a + b.drop_last() =~= a);
        assert(joined(b, sep) == b[0]);
    } else {
        law_joined_append(a, b.drop_last(), sep);
        assert(joined(a, sep) + sep + joined(b.drop_last(), sep) + sep + b.last() =~= joined(a, sep) + sep + (
        joined(b.drop_last(), sep) + sep + b.last()));
    }
}

/// The strings of `parts` from index `from` on, joined with single spaces.
pub fn join_from(parts: &Vec<String>, from: usize) -> (r: String)
    requires
        from <= parts@.len(),
    ensures
        r@ == joined(string_texts(parts@).skip(from as int), " "@),
{
    let mut r = String::new();
    if from == parts.len() {
        assert(string_texts(parts@).skip(from as int) =~= Seq::<Seq<char>>::empty());
        return r;
    }
    let ghost all = string_texts(parts@).skip(from as int);
    let mut i: usize = from;
    while i < parts.len()
        invariant
            from < parts@.len(),
            from <= i <= parts@.len(),
            all == string_texts(parts@).skip(from as int),
            r@ == joined(all.subrange(0, i - from), " "@),
        decreases parts@.len() - i,
    {
        let ghost prefix = all.subrange(0, i - from);
        let ghost next = all.subrange(0, i - from + 1);
        proof {
            assert(next.drop_last() =~= prefix);
            assert(next.last() == parts@[i as int]@);
        }
        if i > from {
            r.append(" ");
        } else {
            assert(next.len() == 1);
        }
        r.append(parts[i].as_str());
        i = i + 1;
    }
    assert(all.subrange(0, parts@.len() - from) =~= all);
    r
}

} // verus!
