//! Text handling shared by every record mapper: character access, the
//! normal form of free-text names, and code-point ordering.
use vstd::prelude::*;

verus! {

/// Appends one character to a string (`String::push`): the text afterwards is
/// the text before followed by `c`.
#[verifier::external_body]
pub(crate) fn push_char(s: &mut String, c: char)
    ensures
        final(s)@ == old(s)@.push(c),
{
    s.push(c)
}

/// The characters of `s`, in order.
pub fn chars_of(s: &str) -> (v: Vec<char>)
    ensures
        v@ == s@,
{
    let mut v: Vec<char> = Vec::new();
    for c in it: s.chars()
        invariant
            v@ == s@.take(it.index() as int),
            it.seq() == s@,
    {
        v.push(c);
    }
    v
}

/// The string made of the characters of `v`, in order.
pub fn string_of(v: &Vec<char>) -> (s: String)
    ensures
        s@ == v@,
{
    let mut s = String::new();
    let mut i: usize = 0;
    while i < v.len()
        invariant
            i <= v.len(),
            s@ == v@.take(i as int),
        decreases v.len() - i,
    {
        push_char(&mut s, v[i]);
        i += 1;
    }
    s
}

/// Whether two pieces of text hold the same characters.
pub fn same_text(a: &str, b: &str) -> (r: bool)
    ensures
        r == (a@ == b@),
{
    let x = chars_of(a);
    let y = chars_of(b);
    if x.len() != y.len() {
        return false;
    }
    let mut i: usize = 0;
    while i < x.len()
        invariant
            i <= x.len(),
            x.len() == y.len(),
            x@ == a@,
            y@ == b@,
            x@.take(i as int) == y@.take(i as int),
        decreases x.len() - i,
    {
        if x[i] != y[i] {
            return false;
        }
        i += 1;
    }
    assert(x@ == x@.take(x.len() as int));
    assert(y@ == y@.take(y.len() as int));
    true
}

/// The text of `a` followed by the text of `b`.
pub fn joined(a: &str, b: &str) -> (s: String)
    ensures
        s@ == a@ + b@,
{
    let mut s = String::from_str(a);
    s.append(b);
    s
}

/// Whether `s` has `prefix` at its start.
pub open spec fn has_prefix(s: Seq<char>, prefix: Seq<char>) -> bool {
    prefix.len() <= s.len() && s.take(prefix.len() as int) == prefix
}

/// Tests whether `s` begins with `prefix`.
pub fn starts_with(s: &str, prefix: &str) -> (r: bool)
    ensures
        r == has_prefix(s@, prefix@),
{
    let x = chars_of(s);
    let p = chars_of(prefix);
    if p.len() > x.len() {
        return false;
    }
    let mut i: usize = 0;
    while i < p.len()
        invariant
            i <= p.len() <= x.len(),
            x@ == s@,
            p@ == prefix@,
            x@.take(i as int) == p@.take(i as int),
        decreases p.len() - i,
    {
        if x[i] != p[i] {
            return false;
        }
        i += 1;
    }
    assert(p@ == p@.take(p.len() as int));
    true
}

/// The white-space characters: the code points that Unicode gives the
/// `White_Space` property.
pub open spec fn is_space(c: char) -> bool {
    let n = c as u32;
    ||| 0x09 <= n <= 0x0D
    ||| n == 0x20
    ||| n == 0x85
    ||| n == 0xA0
    ||| n == 0x1680
    ||| 0x2000 <= n <= 0x200A
    ||| n == 0x2028
    ||| n == 0x2029
    ||| n == 0x202F
    ||| n == 0x205F
    ||| n == 0x3000
}

/// Tests one character for white space.
pub fn is_space_char(c: char) -> (b: bool)
    ensures
        b == is_space(c),
{
    let n: u32 = c as u32;
    (0x09 <= n && n <= 0x0D) || n == 0x20 || n == 0x85 || n == 0xA0 || n == 0x1680 || (0x2000
        <= n && n <= 0x200A) || n == 0x2028 || n == 0x2029 || n == 0x202F || n == 0x205F || n
        == 0x3000
}

/// `s` without the white space at its start.
pub open spec fn trim_start(s: Seq<char>) -> Seq<char>
    decreases s.len(),
{
    if s.len() > 0 && is_space(s[0]) {
        trim_start(s.drop_first())
    } else {
        s
    }
}

/// `s` without the white space at its end.
pub open spec fn trim_end(s: Seq<char>) -> Seq<char>
    decreases s.len(),
{
    if s.len() > 0 && is_space(s.last()) {
        trim_end(s.drop_last())
    } else {
        s
    }
}

/// `s` without the white space at either end.
pub open spec fn trimmed(s: Seq<char>) -> Seq<char> {
    trim_end(trim_start(s))
}

/// Whether `s` is made of white space alone (the empty text included).
pub open spec fn is_blank(s: Seq<char>) -> bool {
    trimmed(s).len() == 0
}

/// The test that keeps every character but the full stop.
pub open spec fn not_dot() -> spec_fn(char) -> bool {
    |c: char| c != '.'
}

/// Whether the three characters of `s` from place `i` on are a typographic
/// apostrophe that was read in the wrong encoding: `â`, `€`, `™`.
pub open spec fn garbled_at(s: Seq<char>, i: int) -> bool {
    &&& 0 <= i
    &&& i + 3 <= s.len()
    &&& s[i] == '\u{e2}'
    &&& s[i + 1] == '\u{20ac}'
    &&& s[i + 2] == '\u{2122}'
}

/// `s` with each garbled apostrophe, taken from the left, replaced by the
/// right single quotation mark.
pub open spec fn mended(s: Seq<char>) -> Seq<char>
    decreases s.len(),
{
    if s.len() == 0 {
        s
    } else if garbled_at(s, 0) {
        seq!['\u{2019}'] + mended(s.skip(3))
    } else {
        seq![s[0]] + mended(s.drop_first())
    }
}

/// The typographic form of one character: the ASCII apostrophe becomes the
/// right single quotation mark, every other character stays.
pub open spec fn curled(c: char) -> char {
    if c == '\'' {
        '\u{2019}'
    } else {
        c
    }
}

/// The character-wise map of [`curled`].
pub open spec fn curl() -> spec_fn(char) -> char {
    |c: char| curled(c)
}

/// `s` without full stops, and with the right single quotation mark in
/// place of every apostrophe, garbled or ASCII.
pub open spec fn cleaned(s: Seq<char>) -> Seq<char> {
    mended(s.filter(not_dot())).map_values(curl())
}

/// The normal form of a free-text name: trimmed, then without full stops,
/// then with typographic apostrophes.
pub open spec fn normalized(s: Seq<char>) -> Seq<char> {
    cleaned(trimmed(s))
}

/// Whether `s` holds no full stop, no ASCII apostrophe and no garbled
/// apostrophe.
pub open spec fn is_clean(s: Seq<char>) -> bool {
    &&& forall|i: int| 0 <= i < s.len() ==> s[i] != '.' && s[i] != '\''
    &&& forall|i: int| !garbled_at(s, i)
}

/// Whether `s` neither starts nor ends with white space.
pub open spec fn is_trim(s: Seq<char>) -> bool {
    s.len() > 0 ==> !is_space(s[0]) && !is_space(s.last())
}

/// Where the first `k` characters are white space and the next one is not,
/// trimming the start skips exactly the first `k`.
pub proof fn lemma_trim_start_skips(s: Seq<char>, k: int)
    requires
        0 <= k <= s.len(),
        forall|i: int| 0 <= i < k ==> is_space(s[i]),
        k == s.len() || !is_space(s[k]),
    ensures
        trim_start(s) == s.skip(k),
    decreases k,
{
    if k > 0 {
        lemma_trim_start_skips(s.drop_first(), k - 1);
    }
}

/// Where the characters after the first `k` are white space and the one
/// before them is not, trimming the end keeps exactly the first `k`.
pub proof fn lemma_trim_end_takes(s: Seq<char>, k: int)
    requires
        0 <= k <= s.len(),
        forall|i: int| k <= i < s.len() ==> is_space(s[i]),
        k == 0 || !is_space(s[k - 1]),
    ensures
        trim_end(s) == s.take(k),
    decreases s.len() - k,
{
    if k < s.len() {
        lemma_trim_end_takes(s.drop_last(), k);
    }
}

/// Finds where the text without the white space at either end starts and
/// ends.
pub fn trim_bounds(v: &Vec<char>) -> (r: (usize, usize))
    ensures
        r.0 <= r.1 <= v@.len(),
        trimmed(v@) == v@.subrange(r.0 as int, r.1 as int),
{
    let n = v.len();
    let mut start: usize = 0;
    while start < n && is_space_char(v[start])
        invariant
            start <= n == v.len(),
            forall|i: int| 0 <= i < start ==> is_space(v@[i]),
        decreases n - start,
    {
        start += 1;
    }
    let mut end: usize = n;
    while end > start && is_space_char(v[end - 1])
        invariant
            start <= end <= n == v.len(),
            forall|i: int| end <= i < n ==> is_space(v@[i]),
        decreases end,
    {
        end -= 1;
    }
    proof {
        lemma_trim_start_skips(v@, start as int);
        let t = v@.skip(start as int);
        lemma_trim_end_takes(t, end - start);
    }
    (start, end)
}

/// Tests whether a text is made of white space alone.
pub fn is_blank_text(s: &str) -> (b: bool)
    ensures
        b == is_blank(s@),
{
    let v = chars_of(s);
    let (start, end) = trim_bounds(&v);
    start == end
}


/// Replaces the garbled apostrophes of a list of characters.
fn mend(v: &Vec<char>) -> (out: Vec<char>)
    ensures
        out@ == mended(v@),
{
    let mut out: Vec<char> = Vec::new();
    let mut j: usize = 0;
    assert(v@.skip(0) == v@);
    while j < v.len()
        invariant
            j <= v.len(),
            out@ + mended(v@.skip(j as int)) == mended(v@),
        decreases v.len() - j,
    {
        let ghost rest = v@.skip(j as int);
        if v.len() - j >= 3 && v[j] == '\u{e2}' && v[j + 1] == '\u{20ac}' && v[j + 2]
            == '\u{2122}' {
            assert(rest.skip(3) == v@.skip(j + 3));
            out.push('\u{2019}');
            j += 3;
        } else {
            assert(rest.drop_first() == v@.skip(j + 1));
            out.push(v[j]);
            j += 1;
        }
    }
    out
}

/// The normal form of a free-text name.
pub fn normalize_name(s: &str) -> (out: String)
    ensures
        out@ == normalized(s@),
        is_clean(out@),
{
    let v = chars_of(s);
    let (start, end) = trim_bounds(&v);
    let mut kept: Vec<char> = Vec::new();
    let mut i: usize = start;
    while i < end
        invariant
            start <= i <= end <= v.len(),
            kept@ == v@.subrange(start as int, i as int).filter(not_dot()),
        decreases end - i,
    {
        let c = v[i];
        proof {
            let before = v@.subrange(start as int, i as int);
            assert(v@.subrange(start as int, i + 1) == before.push(c));
            before.lemma_filter_push(c, not_dot());
        }
        if c != '.' {
            kept.push(c);
        }
        i += 1;
    }
    let whole = mend(&kept);
    let mut out = String::new();
    let mut k: usize = 0;
    while k < whole.len()
        invariant
            k <= whole.len(),
            out@ == whole@.take(k as int).map_values(curl()),
        decreases whole.len() - k,
    {
        let c = whole[k];
        if c == '\'' {
            push_char(&mut out, '\u{2019}');
        } else {
            push_char(&mut out, c);
        }
        k += 1;
    }
    proof {
        assert(whole@.take(whole@.len() as int) == whole@);
        lemma_normalized_is_clean(s@);
    }
    out
}

/// Every character of a mended text is the right single quotation mark or
/// a character of the text as it was.
pub proof fn lemma_mended_characters(s: Seq<char>)
    ensures
        forall|k: int|
            0 <= k < mended(s).len() ==> (#[trigger] mended(s)[k]) == '\u{2019}' || s.contains(
                mended(s)[k],
            ),
    decreases s.len(),
{
    if s.len() > 0 {
        let rest = if garbled_at(s, 0) {
            s.skip(3)
        } else {
            s.drop_first()
        };
        lemma_mended_characters(rest);
        assert forall|k: int| 0 <= k < mended(s).len() implies (#[trigger] mended(s)[k])
            == '\u{2019}' || s.contains(mended(s)[k]) by {
            if k > 0 {
                assert(mended(s)[k] == mended(rest)[k - 1]);
            }
        }
    }
}

/// A mended text holds no garbled apostrophe.
pub proof fn lemma_mended_is_whole(s: Seq<char>, i: int)
    ensures
        !garbled_at(mended(s), i),
    decreases s.len(),
{
    if s.len() > 0 && 0 <= i && i + 3 <= mended(s).len() {
        if garbled_at(s, 0) {
            if i >= 1 {
                lemma_mended_is_whole(s.skip(3), i - 1);
            }
        } else {
            let u = s.drop_first();
            if i >= 1 {
                lemma_mended_is_whole(u, i - 1);
            } else if !garbled_at(u, 0) {
                assert(mended(u)[0] == u[0] && mended(u)[1] == mended(u.drop_first())[0]);
            }
        }
    }
}

/// A text without a garbled apostrophe is left as it is by the mending.
pub proof fn lemma_mended_leaves_whole(s: Seq<char>)
    requires
        forall|i: int| !garbled_at(s, i),
    ensures
        mended(s) == s,
    decreases s.len(),
{
    if s.len() > 0 {
        let u = s.drop_first();
        assert forall|i: int| !garbled_at(u, i) by {
            if garbled_at(u, i) {
                assert(garbled_at(s, i + 1));
            }
        }
        lemma_mended_leaves_whole(u);
    }
}

/// A name in normal form holds no full stop, no ASCII apostrophe and no
/// garbled apostrophe.
pub proof fn lemma_normalized_is_clean(s: Seq<char>)
    ensures
        is_clean(normalized(s)),
{
    let kept = trimmed(s).filter(not_dot());
    let out = normalized(s);
    lemma_mended_characters(kept);
    assert forall|i: int| !garbled_at(out, i) by {
        lemma_mended_is_whole(kept, i);
    }
}

/// Normalizing changes nothing in a text that is clean and has no white
/// space at either end.
pub proof fn lemma_normalized_keeps_normal_form(s: Seq<char>)
    requires
        is_clean(s),
        is_trim(s),
    ensures
        normalized(s) == s,
{
    lemma_filter_keeps_all(s);
    lemma_mended_leaves_whole(s);
}

proof fn lemma_filter_keeps_all(s: Seq<char>)
    requires
        forall|i: int| 0 <= i < s.len() ==> s[i] != '.',
    ensures
        s.filter(not_dot()) == s,
    decreases s.len(),
{
    if s.len() > 0 {
        let t = s.drop_last();
        lemma_filter_keeps_all(t);
        assert(s == t.push(s.last()));
        t.lemma_filter_push(s.last(), not_dot());
    }
}

/// Normalizing twice gives what normalizing once gives, for every text whose
/// normal form neither starts nor ends with white space.
pub proof fn lemma_normalized_idempotent(s: Seq<char>)
    requires
        is_trim(normalized(s)),
    ensures
        normalized(normalized(s)) == normalized(s),
{
    lemma_normalized_is_clean(s);
    lemma_normalized_keeps_normal_form(normalized(s));
}

/// Whether `a` stands before `b` in the order of the dictionary, each
/// character taken by its code point.
pub open spec fn sorts_before(a: Seq<char>, b: Seq<char>) -> bool
    decreases a.len(),
{
    if b.len() == 0 {
        false
    } else if a.len() == 0 {
        true
    } else if a[0] != b[0] {
        (a[0] as u32) < (b[0] as u32)
    } else {
        sorts_before(a.drop_first(), b.drop_first())
    }
}

/// Tests whether `a` stands before `b` in code-point order.
pub fn stands_before(a: &str, b: &str) -> (r: bool)
    ensures
        r == sorts_before(a@, b@),
{
    let x = chars_of(a);
    let y = chars_of(b);
    let mut i: usize = 0;
    assert(x@.skip(0) == x@ && y@.skip(0) == y@);
    while i < x.len() && i < y.len()
        invariant
            i <= x.len(),
            i <= y.len(),
            x@ == a@,
            y@ == b@,
            sorts_before(a@, b@) == sorts_before(x@.skip(i as int), y@.skip(i as int)),
        decreases x.len() - i,
    {
        proof {
            let p = x@.skip(i as int);
            let q = y@.skip(i as int);
            assert(p.drop_first() == x@.skip(i + 1));
            assert(q.drop_first() == y@.skip(i + 1));
        }
        if x[i] != y[i] {
            return (x[i] as u32) < (y[i] as u32);
        }
        i += 1;
    }
    i < y.len()
}

} // verus!
