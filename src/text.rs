//! Whitespace reflow applied to every formatted message.
//!
//! Catalog templates may be hand-wrapped at a fixed column; the three passes
//! below turn that wrapping back into clean lines and paragraphs. Only three
//! characters take part in the rules: space, carriage return and line feed.
//! Every other character (tabs included) is a "word" character.
use vstd::prelude::*;

verus! {

/// A line break: carriage return or line feed.
pub open spec fn is_break(c: char) -> bool {
    c == '\n' || c == '\r'
}

/// Anything but a space or a line break.
pub open spec fn is_word(c: char) -> bool {
    c != '\n' && c != '\r' && c != ' '
}

/// Position `i` is preceded by a word character, possibly with spaces in between.
pub open spec fn follows_word(s: Seq<char>, i: int) -> bool
    decreases i,
{
    if i <= 0 || i > s.len() {
        false
    } else {
        is_word(s[i - 1]) || (s[i - 1] == ' ' && follows_word(s, i - 1))
    }
}

/// The space at `i` repeats a space that follows a word character.
pub open spec fn extra_space(s: Seq<char>, i: int) -> bool {
    1 <= i < s.len() && s[i] == ' ' && s[i - 1] == ' ' && follows_word(s, i)
}

/// First pass: each run of two or more spaces right after a word character
/// becomes a single space.
pub open spec fn collapse_spaces_upto(s: Seq<char>, n: int) -> Seq<char>
    decreases n,
{
    if n <= 0 {
        Seq::empty()
    } else if extra_space(s, n - 1) {
        collapse_spaces_upto(s, n - 1)
    } else {
        collapse_spaces_upto(s, n - 1).push(s[n - 1])
    }
}

pub open spec fn collapse_spaces(s: Seq<char>) -> Seq<char> {
    collapse_spaces_upto(s, s.len() as int)
}

/// The character at `i` is a single line break between two word characters.
pub open spec fn soft_break(s: Seq<char>, i: int) -> bool {
    1 <= i && i + 1 < s.len() && is_break(s[i]) && is_word(s[i - 1]) && is_word(s[i + 1])
}

/// Second pass: a single line break between two word characters becomes a space.
pub open spec fn join_lines(s: Seq<char>) -> Seq<char> {
    Seq::new(s.len(), |i: int| if soft_break(s, i) { ' ' } else { s[i] })
}

/// The run of line breaks that ends just before `i` starts right after a word character.
pub open spec fn breaks_after_word(s: Seq<char>, i: int) -> bool
    decreases i,
{
    if i <= 0 || i > s.len() {
        false
    } else {
        is_word(s[i - 1]) || (is_break(s[i - 1]) && breaks_after_word(s, i - 1))
    }
}

/// The run of line breaks that starts just after `i` ends right before a word character.
pub open spec fn breaks_before_word(s: Seq<char>, i: int) -> bool
    decreases s.len() - i,
{
    if i < -1 || i + 1 >= s.len() {
        false
    } else {
        is_word(s[i + 1]) || (is_break(s[i + 1]) && breaks_before_word(s, i + 1))
    }
}

/// How many line breaks stand immediately before position `i`.
pub open spec fn breaks_before(s: Seq<char>, i: int) -> nat
    decreases i,
{
    if i <= 0 || i > s.len() {
        0
    } else if is_break(s[i - 1]) {
        1 + breaks_before(s, i - 1)
    } else {
        0
    }
}

/// The character at `i` belongs to a run of two or more line breaks between two
/// word characters.
pub open spec fn paragraph_break(s: Seq<char>, i: int) -> bool {
    &&& 0 <= i < s.len()
    &&& is_break(s[i])
    &&& breaks_after_word(s, i)
    &&& breaks_before_word(s, i)
    &&& ((i >= 1 && is_break(s[i - 1])) || (i + 1 < s.len() && is_break(s[i + 1])))
}

/// What the third pass writes for the character at `i`.
pub open spec fn paragraph_piece(s: Seq<char>, i: int) -> Seq<char> {
    if paragraph_break(s, i) {
        if breaks_before(s, i) < 2 {
            seq!['\n']
        } else {
            Seq::empty()
        }
    } else {
        seq![s[i]]
    }
}

/// Third pass: a run of two or more line breaks between two word characters
/// becomes exactly one blank line (two line feeds).
pub open spec fn normalize_paragraphs_upto(s: Seq<char>, n: int) -> Seq<char>
    decreases n,
{
    if n <= 0 {
        Seq::empty()
    } else {
        normalize_paragraphs_upto(s, n - 1) + paragraph_piece(s, n - 1)
    }
}

pub open spec fn normalize_paragraphs(s: Seq<char>) -> Seq<char> {
    normalize_paragraphs_upto(s, s.len() as int)
}

/// The full reflow: the three passes in order, each over the previous one's output.
pub open spec fn normalized(s: Seq<char>) -> Seq<char> {
    normalize_paragraphs(join_lines(collapse_spaces(s)))
}

/// No space in `s` repeats a space that follows a word character.
pub open spec fn spaces_collapsed(s: Seq<char>) -> bool {
    forall|i: int| !#[trigger] extra_space(s, i)
}

/// No line break in `s` stands alone between two word characters.
pub open spec fn lines_joined(s: Seq<char>) -> bool {
    forall|i: int| !#[trigger] soft_break(s, i)
}

proof fn lemma_follows_word_prefix(s: Seq<char>, t: Seq<char>, i: int)
    requires
        0 <= i <= s.len(),
        i <= t.len(),
        forall|j: int| 0 <= j < i ==> s[j] == t[j],
    ensures
        follows_word(s, i) == follows_word(t, i),
    decreases i,
{
    if i > 0 {
        lemma_follows_word_prefix(s, t, i - 1);
    }
}

proof fn lemma_collapse_upto(x: Seq<char>, n: int)
    requires
        0 <= n <= x.len(),
    ensures
        spaces_collapsed(collapse_spaces_upto(x, n)),
        follows_word(collapse_spaces_upto(x, n), collapse_spaces_upto(x, n).len() as int)
            == follows_word(x, n),
        n > 0 ==> collapse_spaces_upto(x, n).len() > 0 && collapse_spaces_upto(x, n).last() == x[n
            - 1],
        n == 0 ==> collapse_spaces_upto(x, n).len() == 0,
    decreases n,
{
    if n > 0 {
        lemma_collapse_upto(x, n - 1);
        let p = collapse_spaces_upto(x, n - 1);
        if !extra_space(x, n - 1) {
            let out = p.push(x[n - 1]);
            let m = p.len() as int;
            assert forall|j: int| !#[trigger] extra_space(out, j) by {
                if 1 <= j < m {
                    lemma_follows_word_prefix(out, p, j);
                    assert(!extra_space(p, j));
                } else if j == m && m >= 1 {
                    lemma_follows_word_prefix(out, p, m);
                }
            }
            lemma_follows_word_prefix(out, p, m);
        }
    }
}

proof fn lemma_collapse_identity(s: Seq<char>, n: int)
    requires
        0 <= n <= s.len(),
        spaces_collapsed(s),
    ensures
        collapse_spaces_upto(s, n) == s.take(n),
    decreases n,
{
    if n > 0 {
        lemma_collapse_identity(s, n - 1);
        assert(!extra_space(s, n - 1));
        assert(s.take(n - 1).push(s[n - 1]) =~= s.take(n));
    } else {
        assert(s.take(0) =~= Seq::<char>::empty());
    }
}

proof fn lemma_collapse_fixed(s: Seq<char>)
    requires
        spaces_collapsed(s),
    ensures
        collapse_spaces(s) == s,
{
    lemma_collapse_identity(s, s.len() as int);
    assert(s.take(s.len() as int) =~= s);
}

proof fn lemma_join_follows_word(s: Seq<char>, k: int)
    requires
        0 <= k <= s.len(),
    ensures
        follows_word(join_lines(s), k) ==> follows_word(s, k) || (k >= 1 && soft_break(s, k - 1)),
    decreases k,
{
    if k > 0 {
        lemma_join_follows_word(s, k - 1);
    }
}

proof fn lemma_join_keeps_collapsed(s: Seq<char>)
    requires
        spaces_collapsed(s),
    ensures
        spaces_collapsed(join_lines(s)),
        lines_joined(join_lines(s)),
{
    let t = join_lines(s);
    assert forall|i: int| !#[trigger] extra_space(t, i) by {
        if 1 <= i < t.len() && t[i] == ' ' && t[i - 1] == ' ' {
            lemma_join_follows_word(s, i);
            assert(!extra_space(s, i));
        }
    }
    assert forall|i: int| !#[trigger] soft_break(t, i) by {
        if 1 <= i && i + 1 < t.len() {
            assert(!soft_break(s, i - 1) || is_word(s[i]));
        }
    }
}

proof fn lemma_join_fixed(s: Seq<char>)
    requires
        lines_joined(s),
    ensures
        join_lines(s) == s,
{
    assert(join_lines(s) =~= s);
}

/// Collapsing spaces twice gives what collapsing once gives.
pub proof fn law_collapse_spaces_idempotent(x: Seq<char>)
    ensures
        collapse_spaces(collapse_spaces(x)) == collapse_spaces(x),
{
    lemma_collapse_upto(x, x.len() as int);
    lemma_collapse_fixed(collapse_spaces(x));
}

/// Joining lines twice gives what joining once gives.
pub proof fn law_join_lines_idempotent(x: Seq<char>)
    ensures
        join_lines(join_lines(x)) == join_lines(x),
{
    let t = join_lines(x);
    assert forall|i: int| !#[trigger] soft_break(t, i) by {
        if 1 <= i && i + 1 < t.len() {
            assert(!soft_break(x, i - 1) || is_word(x[i]));
        }
    }
    lemma_join_fixed(t);
}

/// The third pass leaves nothing to redo: every paragraph break is a line
/// feed and is one of the first two of its run.
pub open spec fn paragraphs_normal(s: Seq<char>) -> bool {
    forall|i: int|
        #[trigger] paragraph_break(s, i) ==> s[i] == '\n' && breaks_before(s, i) < 2
}

/// The third pass drops the character at `i`.
pub open spec fn dropped(s: Seq<char>, i: int) -> bool {
    paragraph_break(s, i) && breaks_before(s, i) >= 2
}

/// What the third pass writes for a character that it keeps.
pub open spec fn kept_char(s: Seq<char>, i: int) -> char {
    if paragraph_break(s, i) {
        '\n'
    } else {
        s[i]
    }
}

/// For each character the third pass writes from the first `n`, where it came from.
pub open spec fn paragraph_sources(s: Seq<char>, n: int) -> Seq<int>
    decreases n,
{
    if n <= 0 {
        Seq::empty()
    } else if dropped(s, n - 1) {
        paragraph_sources(s, n - 1)
    } else {
        paragraph_sources(s, n - 1).push(n - 1)
    }
}

pub open spec fn breaks_between(s: Seq<char>, a: int, b: int) -> bool {
    forall|k: int| a < k < b ==> is_break(#[trigger] s[k])
}

pub open spec fn all_dropped(s: Seq<char>, a: int, b: int) -> bool {
    forall|k: int| a < k < b ==> #[trigger] dropped(s, k)
}

proof fn lemma_dropped_facts(s: Seq<char>, k: int)
    requires
        dropped(s, k),
    ensures
        2 <= k < s.len(),
        is_break(s[k]),
        is_break(s[k - 1]),
        is_break(s[k - 2]),
        breaks_before_word(s, k),
{
    assert(breaks_before(s, k) == 1 + breaks_before(s, k - 1));
    assert(breaks_before(s, k - 1) >= 1);
}

proof fn lemma_paragraph_structure(s: Seq<char>, n: int)
    requires
        0 <= n <= s.len(),
    ensures
        ({
            let t = normalize_paragraphs_upto(s, n);
            let f = paragraph_sources(s, n);
            &&& t.len() == f.len()
            &&& forall|j: int|
                0 <= j < f.len() ==> 0 <= #[trigger] f[j] < n && t[j] == kept_char(s, f[j])
                    && !dropped(s, f[j])
            &&& forall|j: int|
                0 <= j && j + 1 < f.len() ==> #[trigger] f[j] < f[j + 1] && all_dropped(
                    s,
                    f[j],
                    f[j + 1],
                )
            &&& n > 0 ==> f.len() > 0 && f[0] == 0 && all_dropped(s, f.last(), n)
        }),
    decreases n,
{
    if n > 0 {
        lemma_paragraph_structure(s, n - 1);
        let f = paragraph_sources(s, n - 1);
        if dropped(s, n - 1) {
            lemma_dropped_facts(s, n - 1);
            assert(normalize_paragraphs_upto(s, n) =~= normalize_paragraphs_upto(s, n - 1));
        } else {
            let t = normalize_paragraphs_upto(s, n - 1);
            assert(normalize_paragraphs_upto(s, n) =~= t.push(kept_char(s, n - 1)));
            let f2 = f.push(n - 1);
            assert forall|j: int| 0 <= j && j + 1 < f2.len() implies #[trigger] f2[j] < f2[j + 1]
                && all_dropped(s, f2[j], f2[j + 1]) by {
                if j + 1 < f.len() {
                    assert(f2[j] == f[j] && f2[j + 1] == f[j + 1]);
                }
            }
        }
    }
}

proof fn lemma_gap_ahead(s: Seq<char>, a: int, b: int)
    requires
        0 <= a < b <= s.len(),
        breaks_between(s, a, b),
    ensures
        breaks_before_word(s, a) == breaks_before_word(s, b - 1),
    decreases b - a,
{
    if a + 1 < b {
        lemma_gap_ahead(s, a + 1, b);
    }
}

proof fn lemma_gap_behind(s: Seq<char>, a: int, b: int)
    requires
        0 <= a < b <= s.len(),
        breaks_between(s, a, b),
    ensures
        breaks_after_word(s, b) == breaks_after_word(s, a + 1),
    decreases b - a,
{
    if a + 1 < b {
        lemma_gap_behind(s, a, b - 1);
    }
}

proof fn lemma_all_dropped_breaks(s: Seq<char>, a: int, b: int)
    requires
        all_dropped(s, a, b),
    ensures
        breaks_between(s, a, b),
{
    assert forall|k: int| a < k < b implies is_break(#[trigger] s[k]) by {
        assert(dropped(s, k));
        lemma_dropped_facts(s, k);
    }
}

proof fn lemma_paragraph_output(s: Seq<char>)
    requires
        spaces_collapsed(s),
        lines_joined(s),
    ensures
        spaces_collapsed(normalize_paragraphs(s)),
        lines_joined(normalize_paragraphs(s)),
        paragraphs_normal(normalize_paragraphs(s)),
{
    let n = s.len() as int;
    let t = normalize_paragraphs(s);
    let f = paragraph_sources(s, n);
    lemma_paragraph_structure(s, n);
    // Facts about the characters between two consecutive kept ones.
    assert forall|j: int| 0 <= j && j + 1 < f.len() implies breaks_between(s, #[trigger] f[j], f[j + 1]) by {
        assert(f[j] < f[j + 1] && all_dropped(s, f[j], f[j + 1]));
        lemma_all_dropped_breaks(s, f[j], f[j + 1]);
    }
    if n > 0 {
        lemma_all_dropped_breaks(s, f.last(), n);
    }
    assert forall|j: int| 0 <= j < f.len() implies #[trigger] breaks_before_word(t, j)
        == breaks_before_word(s, f[j]) by {
        lemma_ahead_at(s, t, f, j);
    }
    assert forall|j: int| 0 <= j < f.len() implies #[trigger] breaks_after_word(t, j)
        == breaks_after_word(s, f[j]) && follows_word(t, j) == follows_word(s, f[j]) by {
        lemma_behind_at(s, t, f, j);
    }
    assert forall|j: int| !#[trigger] extra_space(t, j) by {
        if extra_space(t, j) {
            let i = f[j];
            assert(f[j - 1] < i && all_dropped(s, f[j - 1], i));
            assert(t[j - 1] == kept_char(s, f[j - 1]) && t[j] == kept_char(s, i));
            if f[j - 1] + 1 < i {
                assert(dropped(s, f[j - 1] + 1));
                lemma_dropped_facts(s, f[j - 1] + 1);
            }
            assert(breaks_after_word(t, j) == breaks_after_word(s, i));
            assert(follows_word(t, j) == follows_word(s, i));
            assert(extra_space(s, i));
        }
    }
    assert forall|j: int| !#[trigger] soft_break(t, j) by {
        if soft_break(t, j) {
            assert(f[j - 1] < f[j] && f[j] < f[j + 1]);
            if f[j - 1] + 1 < f[j] {
                assert(dropped(s, f[j - 1] + 1));
                lemma_dropped_facts(s, f[j - 1] + 1);
            }
            if f[j] + 1 < f[j + 1] {
                assert(dropped(s, f[j] + 1));
                lemma_dropped_facts(s, f[j] + 1);
            }
            assert(!soft_break(s, f[j]));
        }
    }
    assert forall|j: int| #[trigger] paragraph_break(t, j) implies t[j] == '\n' && breaks_before(
        t,
        j,
    ) < 2 by {
        let i = f[j];
        assert(!dropped(s, i));
        if j >= 1 {
            assert(f[j - 1] < f[j]);
            if f[j - 1] + 1 < i {
                assert(dropped(s, i - 1));
                lemma_dropped_facts(s, i - 1);
            }
        }
        if j + 1 < t.len() {
            assert(f[j] < f[j + 1]);
            if i + 1 < f[j + 1] {
                assert(dropped(s, i + 1));
                lemma_dropped_facts(s, i + 1);
            }
        }
        assert(paragraph_break(s, i));
        lemma_breaks_before_agree(s, t, f, j);
    }
}

proof fn lemma_ahead_at(s: Seq<char>, t: Seq<char>, f: Seq<int>, j: int)
    requires
        t.len() == f.len(),
        0 <= j < f.len(),
        forall|i: int|
            0 <= i < f.len() ==> 0 <= #[trigger] f[i] < s.len() && t[i] == kept_char(s, f[i])
                && !dropped(s, f[i]),
        forall|i: int| 0 <= i && i + 1 < f.len() ==> #[trigger] f[i] < f[i + 1],
        forall|i: int| 0 <= i && i + 1 < f.len() ==> breaks_between(s, #[trigger] f[i], f[i + 1]),
        f.len() > 0 ==> breaks_between(s, f.last(), s.len() as int),
    ensures
        breaks_before_word(t, j) == breaks_before_word(s, f[j]),
    decreases f.len() - j,
{
    if j + 1 < f.len() {
        lemma_ahead_at(s, t, f, j + 1);
        assert(f[j] < f[j + 1] && breaks_between(s, f[j], f[j + 1]));
        lemma_gap_ahead(s, f[j], f[j + 1]);
    } else {
        lemma_gap_ahead(s, f[j], s.len() as int);
    }
}

proof fn lemma_behind_at(s: Seq<char>, t: Seq<char>, f: Seq<int>, j: int)
    requires
        t.len() == f.len(),
        0 <= j < f.len(),
        f[0] == 0,
        forall|i: int|
            0 <= i < f.len() ==> 0 <= #[trigger] f[i] < s.len() && t[i] == kept_char(s, f[i])
                && !dropped(s, f[i]),
        forall|i: int| 0 <= i && i + 1 < f.len() ==> #[trigger] f[i] < f[i + 1],
        forall|i: int| 0 <= i && i + 1 < f.len() ==> all_dropped(s, #[trigger] f[i], f[i + 1]),
    ensures
        breaks_after_word(t, j) == breaks_after_word(s, f[j]),
        follows_word(t, j) == follows_word(s, f[j]),
    decreases j,
{
    if j > 0 {
        lemma_behind_at(s, t, f, j - 1);
        let a = f[j - 1];
        let b = f[j];
        assert(a < b && all_dropped(s, a, b));
        assert(0 <= a < s.len() && t[j - 1] == kept_char(s, a));
        lemma_all_dropped_breaks(s, a, b);
        lemma_gap_behind(s, a, b);
        if a + 1 < b {
            assert(dropped(s, a + 1));
            lemma_dropped_facts(s, a + 1);
            assert(is_break(s[b - 1]));
        }
    }
}

proof fn lemma_breaks_before_agree(s: Seq<char>, t: Seq<char>, f: Seq<int>, j: int)
    requires
        t.len() == f.len(),
        0 <= j < f.len(),
        f[0] == 0,
        forall|i: int|
            0 <= i < f.len() ==> 0 <= #[trigger] f[i] < s.len() && t[i] == kept_char(s, f[i])
                && !dropped(s, f[i]),
        forall|i: int| 0 <= i && i + 1 < f.len() ==> #[trigger] f[i] < f[i + 1],
        forall|i: int| 0 <= i && i + 1 < f.len() ==> all_dropped(s, #[trigger] f[i], f[i + 1]),
        paragraph_break(s, f[j]),
    ensures
        breaks_before(t, j) < 2,
{
    let i = f[j];
    assert(breaks_before(s, i) < 2);
    if j >= 1 {
        assert(f[j - 1] < i);
        if f[j - 1] + 1 < i {
            assert(dropped(s, i - 1));
            lemma_dropped_facts(s, i - 1);
            assert(breaks_before(s, i) == 1 + breaks_before(s, i - 1));
        }
        if is_break(t[j - 1]) {
            assert(f[j - 1] == i - 1);
            assert(is_break(s[i - 1]));
            assert(breaks_before(s, i - 1) == 0);
            if j >= 2 {
                assert(f[j - 2] < f[j - 1]);
                if f[j - 2] + 1 < f[j - 1] {
                    assert(dropped(s, i - 2));
                    lemma_dropped_facts(s, i - 2);
                }
                assert(f[j - 2] == i - 2);
                assert(!is_break(t[j - 2]));
            }
            assert(breaks_before(t, j - 1) == 0);
        }
    }
}

proof fn lemma_paragraphs_identity(s: Seq<char>, n: int)
    requires
        0 <= n <= s.len(),
        paragraphs_normal(s),
    ensures
        normalize_paragraphs_upto(s, n) == s.take(n),
    decreases n,
{
    if n > 0 {
        lemma_paragraphs_identity(s, n - 1);
        if paragraph_break(s, n - 1) {
            assert(s[n - 1] == '\n' && breaks_before(s, n - 1) < 2);
        }
        assert(paragraph_piece(s, n - 1) =~= seq![s[n - 1]]);
        assert(s.take(n - 1) + seq![s[n - 1]] =~= s.take(n));
    } else {
        assert(s.take(0) =~= Seq::<char>::empty());
    }
}

/// Reflowing twice gives what reflowing once gives.
pub proof fn law_normalize_idempotent(x: Seq<char>)
    ensures
        normalized(normalized(x)) == normalized(x),
{
    lemma_collapse_upto(x, x.len() as int);
    let a = collapse_spaces(x);
    lemma_join_keeps_collapsed(a);
    let b = join_lines(a);
    lemma_paragraph_output(b);
    let y = normalize_paragraphs(b);
    lemma_collapse_fixed(y);
    lemma_join_fixed(y);
    lemma_paragraphs_identity(y, y.len() as int);
    assert(y.take(y.len() as int) =~= y);
}

/// The characters of a string, in order.
pub(crate) fn chars_of(s: &str) -> (r: Vec<char>)
    ensures
        r@ == s@,
{
    let n = s.unicode_len();
    let mut out: Vec<char> = Vec::new();
    let mut i: usize = 0;
    while i < n
        invariant
            i <= n,
            n == s@.len(),
            out@ == s@.take(i as int),
        decreases n - i,
    {
        out.push(s.get_char(i));
        assert(s@.take(i as int).push(s@[i as int]) =~= s@.take(i + 1));
        i = i + 1;
    }
    assert(s@.take(n as int) =~= s@);
    out
}

/// Relies on `String::from_iter` over `char`s: the string holding exactly those characters.
#[verifier::external_body]
pub(crate) fn string_of(v: &Vec<char>) -> (r: String)
    ensures
        r@ == v@,
{
    v.iter().collect()
}

fn is_break_char(c: char) -> (r: bool)
    ensures
        r == is_break(c),
{
    c == '\n' || c == '\r'
}

fn is_word_char(c: char) -> (r: bool)
    ensures
        r == is_word(c),
{
    c != '\n' && c != '\r' && c != ' '
}

/// First pass over a character sequence.
pub fn collapse_spaces_chars(s: &Vec<char>) -> (r: Vec<char>)
    ensures
        r@ == collapse_spaces(s@),
{
    let mut out: Vec<char> = Vec::new();
    let mut after_word = false;
    let mut i: usize = 0;
    while i < s.len()
        invariant
            i <= s.len(),
            out@ == collapse_spaces_upto(s@, i as int),
            after_word == follows_word(s@, i as int),
        decreases s.len() - i,
    {
        let c = s[i];
        let drop = c == ' ' && i >= 1 && s[i - 1] == ' ' && after_word;
        if !drop {
            out.push(c);
        }
        after_word = is_word_char(c) || (c == ' ' && after_word);
        i = i + 1;
    }
    assert(s@.len() == i);
    out
}

/// Second pass over a character sequence.
pub fn join_lines_chars(s: &Vec<char>) -> (r: Vec<char>)
    ensures
        r@ == join_lines(s@),
{
    let mut out: Vec<char> = Vec::new();
    let mut i: usize = 0;
    while i < s.len()
        invariant
            i <= s.len(),
            out@.len() == i,
            forall|j: int| 0 <= j < i ==> out@[j] == join_lines(s@)[j],
        decreases s.len() - i,
    {
        let c = s[i];
        let soft = i >= 1 && i + 1 < s.len() && is_break_char(c) && is_word_char(s[i - 1])
            && is_word_char(s[i + 1]);
        if soft {
            out.push(' ');
        } else {
            out.push(c);
        }
        i = i + 1;
    }
    assert(out@ =~= join_lines(s@));
    out
}

/// For each position, whether the line breaks after it run into a word character.
fn breaks_before_word_table(s: &Vec<char>) -> (r: Vec<bool>)
    ensures
        r@.len() == s@.len(),
        forall|j: int| 0 <= j < s@.len() ==> r@[j] == breaks_before_word(s@, j),
{
    let n = s.len();
    let mut table: Vec<bool> = Vec::new();
    let mut k: usize = 0;
    while k < n
        invariant
            k <= n,
            n == s@.len(),
            table@.len() == k,
        decreases n - k,
    {
        table.push(false);
        k = k + 1;
    }
    let mut i: usize = n;
    while i > 0
        invariant
            i <= n,
            n == s@.len(),
            table@.len() == n,
            forall|j: int| i <= j < n ==> table@[j] == breaks_before_word(s@, j),
        decreases i,
    {
        i = i - 1;
        let v = if i + 1 < n {
            let c = s[i + 1];
            is_word_char(c) || (is_break_char(c) && table[i + 1])
        } else {
            false
        };
        table.set(i, v);
    }
    table
}

/// Third pass over a character sequence.
pub fn normalize_paragraphs_chars(s: &Vec<char>) -> (r: Vec<char>)
    ensures
        r@ == normalize_paragraphs(s@),
{
    let ahead = breaks_before_word_table(s);
    let mut out: Vec<char> = Vec::new();
    let mut behind = false;
    let mut lead: usize = 0;
    let mut i: usize = 0;
    while i < s.len()
        invariant
            i <= s.len(),
            ahead@.len() == s@.len(),
            forall|j: int| 0 <= j < s@.len() ==> ahead@[j] == breaks_before_word(s@, j),
            out@ == normalize_paragraphs_upto(s@, i as int),
            behind == breaks_after_word(s@, i as int),
            lead as nat == breaks_before(s@, i as int),
            lead <= i,
        decreases s.len() - i,
    {
        let c = s[i];
        let brk = is_break_char(c);
        let in_run = (i >= 1 && is_break_char(s[i - 1])) || (i + 1 < s.len() && is_break_char(
            s[i + 1],
        ));
        let paragraph = brk && behind && ahead[i] && in_run;
        let ghost before = out@;
        if paragraph {
            if lead < 2 {
                out.push('\n');
                assert(out@ =~= before + seq!['\n']);
            } else {
                assert(out@ =~= before + Seq::<char>::empty());
            }
        } else {
            out.push(c);
            assert(out@ =~= before + seq![c]);
        }
        behind = is_word_char(c) || (brk && behind);
        lead = if brk {
            lead + 1
        } else {
            0
        };
        i = i + 1;
    }
    assert(s@.len() == i);
    out
}

/// Reflows formatted text: collapses repeated spaces after a word, joins
/// hand-wrapped lines, and normalizes paragraph breaks to one blank line.
pub fn normalize(text: &str) -> (r: String)
    ensures
        r@ == normalized(text@),
{
    let chars = chars_of(text);
    let spaced = collapse_spaces_chars(&chars);
    let joined = join_lines_chars(&spaced);
    let result = normalize_paragraphs_chars(&joined);
    string_of(&result)
}

} // verus!
