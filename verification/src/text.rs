use vstd::prelude::*;

verus! {

broadcast use vstd::string::group_string_axioms;

// ---------------------------------------------------------------------------
// Characters
// ---------------------------------------------------------------------------

/// The Unicode `White_Space` property, which is exactly what `char::is_whitespace` tests.
pub open spec fn is_white_space(c: char) -> bool {
    let u = c as u32;
    ||| (0x9 <= u && u <= 0xd)
    ||| u == 0x20
    ||| u == 0x85
    ||| u == 0xa0
    ||| u == 0x1680
    ||| (0x2000 <= u && u <= 0x200a)
    ||| u == 0x2028
    ||| u == 0x2029
    ||| u == 0x202f
    ||| u == 0x205f
    ||| u == 0x3000
}

/// Whether `c` is a white-space character.
pub fn is_whitespace_char(c: char) -> (res: bool)
    ensures
        res == is_white_space(c),
{
    let u = c as u32;
    (0x9 <= u && u <= 0xd) || u == 0x20 || u == 0x85 || u == 0xa0 || u == 0x1680 || (0x2000
        <= u && u <= 0x200a) || u == 0x2028 || u == 0x2029 || u == 0x202f || u == 0x205f || u
        == 0x3000
}

// ---------------------------------------------------------------------------
// Conversions between strings and character vectors
// ---------------------------------------------------------------------------

/// The characters of a string slice, in order.
pub fn chars_of(s: &str) -> (res: Vec<char>)
    ensures
        res@ == s@,
{
    let mut v: Vec<char> = Vec::new();
    for c in it: s.chars()
        invariant
            v@ == it.seq().take(it.index()),
            it.seq() == s@,
    {
        v.push(c);
    }
    v
}

/// Appends one character to a `String` (std's `String::push`).
#[verifier::external_body]
fn push_char(s: &mut String, c: char)
    ensures
        final(s)@ == old(s)@.push(c),
{
    s.push(c);
}

/// A string made of the given characters.
pub fn string_of(chars: &Vec<char>) -> (res: String)
    ensures
        res@ == chars@,
{
    let mut s = String::new();
    let mut i: usize = 0;
    while i < chars.len()
        invariant
            i <= chars.len(),
            s@ == chars@.take(i as int),
        decreases chars.len() - i,
    {
        push_char(&mut s, chars[i]);
        assert(chars@.take(i + 1) =~= chars@.take(i as int).push(chars@[i as int]));
        i = i + 1;
    }
    assert(chars@.take(chars.len() as int) =~= chars@);
    s
}

/// What `str::to_lowercase` returns for a string (the Unicode `Lowercase` mapping).
pub uninterp spec fn lowercase_of(s: Seq<char>) -> Seq<char>;

/// Whether `c` is one of the ASCII capitals `A`..`Z`.
pub open spec fn is_ascii_upper(c: char) -> bool {
    65 <= (c as u32) && (c as u32) <= 90
}

/// Whether no character of `s` is an ASCII capital.
pub open spec fn no_ascii_upper(s: Seq<char>) -> bool {
    forall|i: int| 0 <= i < s.len() ==> !is_ascii_upper(#[trigger] s[i])
}

/// Calls `str::to_lowercase`; its result is named by `lowercase_of`. The result holds no
/// ASCII capital: the Unicode lowercase mapping that the documentation names sends `A`..`Z`
/// to `a`..`z` and sends no character to an ASCII capital.
#[verifier::external_body]
pub(crate) fn to_lowercase(s: &str) -> (res: String)
    ensures
        res@ == lowercase_of(s@),
        no_ascii_upper(res@),
{
    s.to_lowercase()
}

// ---------------------------------------------------------------------------
// Comparisons
// ---------------------------------------------------------------------------

/// Whether two character sequences are equal.
pub fn chars_equal(a: &Vec<char>, b: &Vec<char>) -> (res: bool)
    ensures
        res == (a@ == b@),
{
    if a.len() != b.len() {
        return false;
    }
    let mut i: usize = 0;
    while i < a.len()
        invariant
            a.len() == b.len(),
            i <= a.len(),
            forall|k: int| 0 <= k < i ==> a@[k] == b@[k],
        decreases a.len() - i,
    {
        if a[i] != b[i] {
            return false;
        }
        i = i + 1;
    }
    assert(a@ =~= b@);
    true
}

/// Whether two string slices hold the same characters.
pub fn str_equal(a: &str, b: &str) -> (res: bool)
    ensures
        res == (a@ == b@),
{
    let va = chars_of(a);
    let vb = chars_of(b);
    chars_equal(&va, &vb)
}

/// Whether `prefix` occurs in `s` starting at position `at`.
pub open spec fn occurs_at(s: Seq<char>, at: int, prefix: Seq<char>) -> bool {
    &&& 0 <= at
    &&& at + prefix.len() <= s.len()
    &&& s.subrange(at, at + prefix.len()) == prefix
}

/// Whether `prefix` occurs in `s` starting at position `at`.
pub fn chars_occur_at(s: &Vec<char>, at: usize, prefix: &Vec<char>) -> (res: bool)
    ensures
        res == occurs_at(s@, at as int, prefix@),
{
    if at > s.len() || prefix.len() > s.len() - at {
        return false;
    }
    let mut k: usize = 0;
    while k < prefix.len()
        invariant
            at + prefix.len() <= s.len(),
            k <= prefix.len(),
            forall|j: int| 0 <= j < k ==> s@[at + j] == prefix@[j],
        decreases prefix.len() - k,
    {
        if s[at + k] != prefix[k] {
            assert(s@.subrange(at as int, at + prefix.len())[k as int] != prefix@[k as int]);
            return false;
        }
        k = k + 1;
    }
    assert(s@.subrange(at as int, at + prefix.len()) =~= prefix@);
    true
}

/// Whether the string `s` starts with `prefix` (std's `str::starts_with` for a string pattern).
pub fn str_starts_with(s: &str, prefix: &str) -> (res: bool)
    ensures
        res == occurs_at(s@, 0, prefix@),
{
    let vs = chars_of(s);
    let vp = chars_of(prefix);
    chars_occur_at(&vs, 0, &vp)
}


// ---------------------------------------------------------------------------
// Replacement (std's `str::replace` with a non-empty pattern)
// ---------------------------------------------------------------------------

/// `s` with every occurrence of `from` replaced by `to`, scanning left to right and
/// never letting two replaced occurrences overlap.
pub open spec fn replaced(s: Seq<char>, from: Seq<char>, to: Seq<char>) -> Seq<char>
    decreases s.len(),
{
    if s.len() == 0 || from.len() == 0 {
        s
    } else if occurs_at(s, 0, from) {
        to + replaced(s.skip(from.len() as int), from, to)
    } else {
        seq![s[0]] + replaced(s.skip(1), from, to)
    }
}

/// Replacing with text that holds no ASCII capital, in text that holds none, gives text that
/// holds none.
pub proof fn lemma_replaced_no_upper(s: Seq<char>, from: Seq<char>, to: Seq<char>)
    requires
        no_ascii_upper(s),
        no_ascii_upper(to),
    ensures
        no_ascii_upper(replaced(s, from, to)),
    decreases s.len(),
{
    if s.len() == 0 || from.len() == 0 {
    } else if occurs_at(s, 0, from) {
        let rest = s.skip(from.len() as int);
        assert forall|i: int| 0 <= i < rest.len() implies !is_ascii_upper(#[trigger] rest[i]) by {
            assert(rest[i] == s[i + from.len()]);
        }
        lemma_replaced_no_upper(rest, from, to);
        let r = to + replaced(rest, from, to);
        assert forall|i: int| 0 <= i < r.len() implies !is_ascii_upper(#[trigger] r[i]) by {
            if i >= to.len() {
                assert(r[i] == replaced(rest, from, to)[i - to.len()]);
            }
        }
    } else {
        let rest = s.skip(1);
        assert forall|i: int| 0 <= i < rest.len() implies !is_ascii_upper(#[trigger] rest[i]) by {
            assert(rest[i] == s[i + 1]);
        }
        lemma_replaced_no_upper(rest, from, to);
        let r = seq![s[0]] + replaced(rest, from, to);
        assert forall|i: int| 0 <= i < r.len() implies !is_ascii_upper(#[trigger] r[i]) by {
            if i >= 1 {
                assert(r[i] == replaced(rest, from, to)[i - 1]);
            }
        }
    }
}

/// Replaces every occurrence of `from` in `s` by `to`.
pub fn replace_all(s: &Vec<char>, from: &Vec<char>, to: &Vec<char>) -> (res: Vec<char>)
    requires
        from.len() > 0,
    ensures
        res@ == replaced(s@, from@, to@),
{
    let mut out: Vec<char> = Vec::new();
    let mut i: usize = 0;
    assert(s@.skip(0) =~= s@);
    while i < s.len()
        invariant
            from.len() > 0,
            i <= s.len(),
            out@ + replaced(s@.skip(i as int), from@, to@) == replaced(s@, from@, to@),
        decreases s.len() - i,
    {
        let ghost rest = s@.skip(i as int);
        if chars_occur_at(s, i, from) {
            assert(occurs_at(rest, 0, from@)) by {
                assert(rest.subrange(0, from@.len() as int) =~= s@.subrange(
                    i as int,
                    i + from@.len(),
                ));
            }
            assert(rest.skip(from@.len() as int) =~= s@.skip(i + from@.len()));
            let ghost old_out = out@;
            let mut k: usize = 0;
            while k < to.len()
                invariant
                    k <= to.len(),
                    out@ == old_out + to@.take(k as int),
                decreases to.len() - k,
            {
                out.push(to[k]);
                assert(to@.take(k + 1) =~= to@.take(k as int).push(to@[k as int]));
                k = k + 1;
            }
            assert(to@.take(to.len() as int) =~= to@);
            assert(old_out + (to@ + replaced(s@.skip(i + from@.len()), from@, to@)) =~= (old_out
                + to@) + replaced(s@.skip(i + from@.len()), from@, to@));
            i = i + from.len();
        } else {
            assert(!occurs_at(rest, 0, from@)) by {
                if occurs_at(rest, 0, from@) {
                    assert(rest.subrange(0, from@.len() as int) =~= s@.subrange(
                        i as int,
                        i + from@.len(),
                    ));
                }
            }
            assert(rest.skip(1) =~= s@.skip(i + 1));
            assert(rest[0] == s@[i as int]);
            let ghost old_out = out@;
            out.push(s[i]);
            assert(old_out + (seq![s@[i as int]] + replaced(s@.skip(i + 1), from@, to@)) =~= old_out.push(
                s@[i as int],
            ) + replaced(s@.skip(i + 1), from@, to@));
            i = i + 1;
        }
    }
    assert(s@.skip(s.len() as int) =~= Seq::<char>::empty());
    assert(out@ + Seq::<char>::empty() =~= out@);
    out
}


// ---------------------------------------------------------------------------
// Words (std's `split_whitespace` followed by `join(" ")`)
// ---------------------------------------------------------------------------

/// The length of the run of non-white-space characters at the start of `s`.
pub open spec fn word_len(s: Seq<char>) -> nat
    decreases s.len(),
{
    if s.len() == 0 || is_white_space(s[0]) {
        0
    } else {
        1 + word_len(s.drop_first())
    }
}

/// A leading word is never longer than the text, and is non-empty where the text starts
/// with a non-white-space character.
pub proof fn lemma_word_len_bound(s: Seq<char>)
    ensures
        word_len(s) <= s.len(),
        s.len() > 0 && !is_white_space(s[0]) ==> word_len(s) >= 1,
    decreases s.len(),
{
    if s.len() > 0 && !is_white_space(s[0]) {
        lemma_word_len_bound(s.drop_first());
    }
}

/// The maximal runs of non-white-space characters of `s`, in order.
pub open spec fn words(s: Seq<char>) -> Seq<Seq<char>>
    decreases s.len(),
{
    if s.len() == 0 {
        seq![]
    } else if is_white_space(s[0]) {
        words(s.drop_first())
    } else {
        proof {
            lemma_word_len_bound(s);
        }
        seq![s.take(word_len(s) as int)] + words(s.skip(word_len(s) as int))
    }
}

/// The words joined with single spaces between them.
pub open spec fn join_words(ws: Seq<Seq<char>>) -> Seq<char>
    decreases ws.len(),
{
    if ws.len() == 0 {
        seq![]
    } else if ws.len() == 1 {
        ws[0]
    } else {
        ws[0] + seq![' '] + join_words(ws.drop_first())
    }
}

/// `s` with leading and trailing white space removed and every inner run of white space
/// replaced by one space.
pub open spec fn collapsed(s: Seq<char>) -> Seq<char> {
    join_words(words(s))
}

/// Two pieces of text joined by one space, or either alone where the other is empty.
pub open spec fn space_join(a: Seq<char>, b: Seq<char>) -> Seq<char> {
    if a.len() == 0 {
        b
    } else if b.len() == 0 {
        a
    } else {
        a + seq![' '] + b
    }
}

proof fn lemma_word_len_is_first_space(t: Seq<char>, m: int)
    requires
        0 <= m <= t.len(),
        forall|k: int| 0 <= k < m ==> !is_white_space(#[trigger] t[k]),
        m == t.len() || is_white_space(t[m]),
    ensures
        word_len(t) == m,
    decreases m,
{
    if m > 0 {
        lemma_word_len_is_first_space(t.drop_first(), m - 1);
    }
}

proof fn lemma_words_nonempty(s: Seq<char>)
    ensures
        forall|k: int| 0 <= k < words(s).len() ==> #[trigger] words(s)[k].len() > 0,
    decreases s.len(),
{
    if s.len() == 0 {
    } else if is_white_space(s[0]) {
        lemma_words_nonempty(s.drop_first());
        assert(words(s) == words(s.drop_first()));
    } else {
        lemma_word_len_bound(s);
        lemma_words_nonempty(s.skip(word_len(s) as int));
        let ws = words(s);
        let rest = words(s.skip(word_len(s) as int));
        assert forall|k: int| 0 <= k < ws.len() implies #[trigger] ws[k].len() > 0 by {
            if k > 0 {
                assert(ws[k] == rest[k - 1]);
            } else {
                assert(ws[0] == s.take(word_len(s) as int));
            }
        }
        assert(words(s) == ws);
    }
}

proof fn lemma_join_empty(ws: Seq<Seq<char>>)
    requires
        forall|k: int| 0 <= k < ws.len() ==> #[trigger] ws[k].len() > 0,
    ensures
        (join_words(ws).len() == 0) == (ws.len() == 0),
{
    if ws.len() > 1 {
        assert(ws[0].len() > 0);
    }
}

proof fn lemma_join_cons(w: Seq<char>, rest: Seq<Seq<char>>)
    requires
        w.len() > 0,
        forall|k: int| 0 <= k < rest.len() ==> #[trigger] rest[k].len() > 0,
    ensures
        join_words(seq![w] + rest) == space_join(w, join_words(rest)),
{
    let ws = seq![w] + rest;
    assert(ws.drop_first() =~= rest);
    lemma_join_empty(rest);
    if rest.len() == 0 {
        assert(ws.len() == 1);
    }
}

proof fn lemma_space_join_assoc(a: Seq<char>, w: Seq<char>, r: Seq<char>)
    requires
        w.len() > 0,
    ensures
        space_join(a, space_join(w, r)) == space_join(space_join(a, w), r),
{
    if a.len() > 0 && r.len() > 0 {
        assert(a + seq![' '] + (w + seq![' '] + r) =~= (a + seq![' '] + w) + seq![' '] + r);
    }
}

proof fn lemma_word_len_prefix(s: Seq<char>)
    ensures
        forall|j: int| 0 <= j < word_len(s) ==> !is_white_space(#[trigger] s[j]),
    decreases s.len(),
{
    if s.len() > 0 && !is_white_space(s[0]) {
        lemma_word_len_bound(s);
        lemma_word_len_prefix(s.drop_first());
        assert forall|j: int| 0 <= j < word_len(s) implies !is_white_space(#[trigger] s[j]) by {
            if j > 0 {
                assert(s[j] == s.drop_first()[j - 1]);
            }
        }
    }
}

/// Whether no character of `w` is white space.
pub open spec fn no_white_space(w: Seq<char>) -> bool {
    forall|j: int| 0 <= j < w.len() ==> !is_white_space(#[trigger] w[j])
}

proof fn lemma_words_have_no_space(s: Seq<char>)
    ensures
        forall|k: int| 0 <= k < words(s).len() ==> no_white_space(#[trigger] words(s)[k]),
    decreases s.len(),
{
    if s.len() == 0 {
    } else if is_white_space(s[0]) {
        lemma_words_have_no_space(s.drop_first());
        assert(words(s) == words(s.drop_first()));
    } else {
        lemma_word_len_bound(s);
        lemma_word_len_prefix(s);
        lemma_words_have_no_space(s.skip(word_len(s) as int));
        let ws = words(s);
        let rest = words(s.skip(word_len(s) as int));
        assert forall|k: int| 0 <= k < ws.len() implies no_white_space(#[trigger] ws[k]) by {
            if k > 0 {
                assert(ws[k] == rest[k - 1]);
            } else {
                let w = s.take(word_len(s) as int);
                assert(ws[0] == w);
                assert forall|j: int| 0 <= j < w.len() implies !is_white_space(#[trigger] w[j]) by {
                    assert(w[j] == s[j]);
                }
            }
        }
        assert(words(s) == ws);
    }
}

proof fn lemma_words_of_join(ws: Seq<Seq<char>>)
    requires
        forall|k: int| 0 <= k < ws.len() ==> #[trigger] ws[k].len() > 0,
        forall|k: int| 0 <= k < ws.len() ==> no_white_space(#[trigger] ws[k]),
    ensures
        words(join_words(ws)) == ws,
    decreases ws.len(),
{
    if ws.len() == 0 {
        assert(words(join_words(ws)) =~= ws);
    } else {
        let w = ws[0];
        assert(w.len() > 0);
        assert(no_white_space(w));
        let rest = ws.drop_first();
        assert forall|k: int| 0 <= k < rest.len() implies #[trigger] rest[k].len() > 0 by {
            assert(rest[k] == ws[k + 1]);
        }
        assert forall|k: int| 0 <= k < rest.len() implies no_white_space(#[trigger] rest[k]) by {
            assert(rest[k] == ws[k + 1]);
        }
        let t = join_words(ws);
        if ws.len() == 1 {
            assert(t == w);
            lemma_word_len_is_first_space(t, w.len() as int);
            assert(t.take(w.len() as int) =~= w);
            assert(t.skip(w.len() as int) =~= Seq::<char>::empty());
            assert(words(Seq::<char>::empty()) =~= Seq::<Seq<char>>::empty());
            assert(words(t) =~= ws);
        } else {
            let r = join_words(rest);
            assert(t == w + seq![' '] + r);
            assert forall|k: int| 0 <= k < w.len() implies !is_white_space(#[trigger] t[k]) by {
                assert(t[k] == w[k]);
            }
            assert(t[w.len() as int] == ' ');
            lemma_word_len_is_first_space(t, w.len() as int);
            assert(t.take(w.len() as int) =~= w);
            let u = t.skip(w.len() as int);
            assert(u =~= seq![' '] + r);
            assert(u.drop_first() =~= r);
            assert(words(u) == words(r));
            lemma_words_of_join(rest);
            assert(words(t) == seq![w] + rest);
            assert(seq![w] + rest =~= ws);
        }
    }
}

/// Collapsing white space a second time changes nothing: the collapsed text is already in
/// normal form.
pub proof fn lemma_collapsed_idempotent(s: Seq<char>)
    ensures
        collapsed(collapsed(s)) == collapsed(s),
{
    lemma_words_nonempty(s);
    lemma_words_have_no_space(s);
    lemma_words_of_join(words(s));
}

proof fn lemma_words_no_upper(s: Seq<char>)
    requires
        no_ascii_upper(s),
    ensures
        forall|k: int| 0 <= k < words(s).len() ==> no_ascii_upper(#[trigger] words(s)[k]),
    decreases s.len(),
{
    if s.len() == 0 {
    } else if is_white_space(s[0]) {
        let rest = s.drop_first();
        assert forall|i: int| 0 <= i < rest.len() implies !is_ascii_upper(#[trigger] rest[i]) by {
            assert(rest[i] == s[i + 1]);
        }
        lemma_words_no_upper(rest);
        assert(words(s) == words(rest));
    } else {
        lemma_word_len_bound(s);
        let n = word_len(s) as int;
        let rest = s.skip(n);
        assert forall|i: int| 0 <= i < rest.len() implies !is_ascii_upper(#[trigger] rest[i]) by {
            assert(rest[i] == s[i + n]);
        }
        lemma_words_no_upper(rest);
        let ws = words(s);
        let w = s.take(n);
        assert(ws == seq![w] + words(rest));
        assert forall|k: int| 0 <= k < ws.len() implies no_ascii_upper(#[trigger] ws[k]) by {
            if k > 0 {
                assert(ws[k] == words(rest)[k - 1]);
            } else {
                assert forall|i: int| 0 <= i < w.len() implies !is_ascii_upper(#[trigger] w[i]) by {
                    assert(w[i] == s[i]);
                }
            }
        }
    }
}

proof fn lemma_join_no_upper(ws: Seq<Seq<char>>)
    requires
        forall|k: int| 0 <= k < ws.len() ==> no_ascii_upper(#[trigger] ws[k]),
    ensures
        no_ascii_upper(join_words(ws)),
    decreases ws.len(),
{
    if ws.len() > 1 {
        let rest = ws.drop_first();
        assert forall|k: int| 0 <= k < rest.len() implies no_ascii_upper(#[trigger] rest[k]) by {
            assert(rest[k] == ws[k + 1]);
        }
        lemma_join_no_upper(rest);
        let w = ws[0];
        assert(no_ascii_upper(w));
        let r = w + seq![' '] + join_words(rest);
        assert(join_words(ws) == r);
        assert forall|i: int| 0 <= i < r.len() implies !is_ascii_upper(#[trigger] r[i]) by {
            if i < w.len() {
                assert(r[i] == w[i]);
            } else if i == w.len() {
                assert(r[i] == ' ');
            } else {
                assert(r[i] == join_words(rest)[i - w.len() - 1]);
            }
        }
    } else if ws.len() == 1 {
        assert(no_ascii_upper(ws[0]));
    }
}

/// Collapsing white space in text without ASCII capitals gives text without them.
pub proof fn lemma_collapsed_no_upper(s: Seq<char>)
    requires
        no_ascii_upper(s),
    ensures
        no_ascii_upper(collapsed(s)),
{
    lemma_words_no_upper(s);
    lemma_join_no_upper(words(s));
}

/// Collapses white space: the words of `s` joined by single spaces.
pub fn collapse_whitespace(s: &Vec<char>) -> (res: Vec<char>)
    ensures
        res@ == collapsed(s@),
{
    let mut out: Vec<char> = Vec::new();
    let mut i: usize = 0;
    assert(s@.skip(0) =~= s@);
    while i < s.len()
        invariant
            i <= s.len(),
            space_join(out@, collapsed(s@.skip(i as int))) == collapsed(s@),
        decreases s.len() - i,
    {
        let ghost rest = s@.skip(i as int);
        if is_whitespace_char(s[i]) {
            assert(rest.drop_first() =~= s@.skip(i + 1));
            i = i + 1;
        } else {
            let mut j: usize = i;
            while j < s.len() && !is_whitespace_char(s[j])
                invariant
                    i <= j <= s.len(),
                    forall|k: int| i <= k < j ==> !is_white_space(#[trigger] s@[k]),
                decreases s.len() - j,
            {
                j = j + 1;
            }
            let ghost m = (j - i) as int;
            proof {
                assert forall|k: int| 0 <= k < m implies !is_white_space(#[trigger] rest[k]) by {
                    assert(rest[k] == s@[i + k]);
                }
                if j < s.len() {
                    assert(rest[m] == s@[j as int]);
                }
                lemma_word_len_is_first_space(rest, m);
                assert(rest.skip(m) =~= s@.skip(j as int));
                assert(rest.take(m) =~= s@.subrange(i as int, j as int));
                lemma_words_nonempty(s@.skip(j as int));
                lemma_join_cons(s@.subrange(i as int, j as int), words(s@.skip(j as int)));
                lemma_space_join_assoc(
                    out@,
                    s@.subrange(i as int, j as int),
                    collapsed(s@.skip(j as int)),
                );
            }
            let ghost old_out = out@;
            if out.len() > 0 {
                out.push(' ');
            }
            let ghost base = out@;
            let mut k: usize = i;
            while k < j
                invariant
                    i <= k <= j <= s.len(),
                    out@ == base + s@.subrange(i as int, k as int),
                decreases j - k,
            {
                out.push(s[k]);
                assert(s@.subrange(i as int, k + 1) =~= s@.subrange(i as int, k as int).push(
                    s@[k as int],
                ));
                k = k + 1;
            }
            assert(out@ =~= space_join(old_out, s@.subrange(i as int, j as int)));
            i = j;
        }
    }
    assert(s@.skip(s.len() as int) =~= Seq::<char>::empty());
    out
}


// ---------------------------------------------------------------------------
// Trimming (std's `str::trim` and `str::trim_start_matches` for one character)
// ---------------------------------------------------------------------------

/// `s` without its leading white space.
pub open spec fn trim_start(s: Seq<char>) -> Seq<char>
    decreases s.len(),
{
    if s.len() > 0 && is_white_space(s[0]) {
        trim_start(s.drop_first())
    } else {
        s
    }
}

/// `s` without its trailing white space.
pub open spec fn trim_end(s: Seq<char>) -> Seq<char>
    decreases s.len(),
{
    if s.len() > 0 && is_white_space(s.last()) {
        trim_end(s.drop_last())
    } else {
        s
    }
}

/// `s` without leading and trailing white space.
pub open spec fn trimmed(s: Seq<char>) -> Seq<char> {
    trim_end(trim_start(s))
}

/// `s` without the copies of `c` that it starts with.
pub open spec fn strip_leading(s: Seq<char>, c: char) -> Seq<char>
    decreases s.len(),
{
    if s.len() > 0 && s[0] == c {
        strip_leading(s.drop_first(), c)
    } else {
        s
    }
}

proof fn lemma_trim_start_at(s: Seq<char>, a: int)
    requires
        0 <= a <= s.len(),
        forall|k: int| 0 <= k < a ==> is_white_space(#[trigger] s[k]),
        a == s.len() || !is_white_space(s[a]),
    ensures
        trim_start(s) == s.skip(a),
    decreases a,
{
    if a > 0 {
        lemma_trim_start_at(s.drop_first(), a - 1);
        assert(s.drop_first().skip(a - 1) =~= s.skip(a));
    } else {
        assert(s.skip(0) =~= s);
    }
}

proof fn lemma_trim_end_at(s: Seq<char>, b: int)
    requires
        0 <= b <= s.len(),
        forall|k: int| b <= k < s.len() ==> is_white_space(#[trigger] s[k]),
        b == 0 || !is_white_space(s[b - 1]),
    ensures
        trim_end(s) == s.take(b),
    decreases s.len() - b,
{
    if b < s.len() {
        lemma_trim_end_at(s.drop_last(), b);
        assert(s.drop_last().take(b) =~= s.take(b));
    } else {
        assert(s.take(b) =~= s);
    }
}

proof fn lemma_strip_leading_at(s: Seq<char>, c: char, a: int)
    requires
        0 <= a <= s.len(),
        forall|k: int| 0 <= k < a ==> #[trigger] s[k] == c,
        a == s.len() || s[a] != c,
    ensures
        strip_leading(s, c) == s.skip(a),
    decreases a,
{
    if a > 0 {
        lemma_strip_leading_at(s.drop_first(), c, a - 1);
        assert(s.drop_first().skip(a - 1) =~= s.skip(a));
    } else {
        assert(s.skip(0) =~= s);
    }
}

/// What is left after stripping a character never starts with that character.
pub proof fn lemma_strip_leading_removes_all(s: Seq<char>, c: char)
    ensures
        strip_leading(s, c).len() == 0 || strip_leading(s, c)[0] != c,
    decreases s.len(),
{
    if s.len() > 0 && s[0] == c {
        lemma_strip_leading_removes_all(s.drop_first(), c);
    }
}

/// The characters of `s` from `from` up to (not including) `to`.
pub fn slice_chars(s: &Vec<char>, from: usize, to: usize) -> (res: Vec<char>)
    requires
        from <= to <= s.len(),
    ensures
        res@ == s@.subrange(from as int, to as int),
{
    let mut out: Vec<char> = Vec::new();
    let mut k: usize = from;
    while k < to
        invariant
            from <= k <= to <= s.len(),
            out@ == s@.subrange(from as int, k as int),
        decreases to - k,
    {
        out.push(s[k]);
        assert(s@.subrange(from as int, k + 1) =~= s@.subrange(from as int, k as int).push(
            s@[k as int],
        ));
        k = k + 1;
    }
    out
}

/// Removes leading and trailing white space.
pub fn trim(s: &Vec<char>) -> (res: Vec<char>)
    ensures
        res@ == trimmed(s@),
{
    let mut a: usize = 0;
    while a < s.len() && is_whitespace_char(s[a])
        invariant
            a <= s.len(),
            forall|k: int| 0 <= k < a ==> is_white_space(#[trigger] s@[k]),
        decreases s.len() - a,
    {
        a = a + 1;
    }
    proof {
        lemma_trim_start_at(s@, a as int);
    }
    let ghost t = s@.skip(a as int);
    let mut b: usize = s.len();
    while b > a && is_whitespace_char(s[b - 1])
        invariant
            a <= b <= s.len(),
            forall|k: int| b <= k < s.len() ==> is_white_space(#[trigger] s@[k]),
        decreases b,
    {
        b = b - 1;
    }
    proof {
        assert forall|k: int| b - a <= k < t.len() implies is_white_space(#[trigger] t[k]) by {
            assert(t[k] == s@[a + k]);
        }
        if b > a {
            assert(t[b - a - 1] == s@[b - 1]);
        }
        lemma_trim_end_at(t, (b - a) as int);
        assert(t.take((b - a) as int) =~= s@.subrange(a as int, b as int));
    }
    slice_chars(s, a, b)
}

/// Removes every leading copy of `c`.
pub fn strip_leading_char(s: &Vec<char>, c: char) -> (res: Vec<char>)
    ensures
        res@ == strip_leading(s@, c),
{
    let mut a: usize = 0;
    while a < s.len() && s[a] == c
        invariant
            a <= s.len(),
            forall|k: int| 0 <= k < a ==> #[trigger] s@[k] == c,
        decreases s.len() - a,
    {
        a = a + 1;
    }
    proof {
        lemma_strip_leading_at(s@, c, a as int);
    }
    slice_chars(s, a, s.len())
}

} // verus!
