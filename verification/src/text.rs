//! Character and string helpers shared by the configuration and project
//! modules: whitespace blankness and trimming, prefix tests, and a
//! lexicographic order on character sequences.

use vstd::prelude::*;

verus! {

use vstd::string::StrSliceExecFns;

/// The whitespace characters this library trims and splits on: the Unicode
/// white-space code points.
pub open spec fn is_space_char(c: char) -> bool {
    let u = c as u32;
    u == 0x09 || u == 0x0A || u == 0x0B || u == 0x0C || u == 0x0D || u == 0x20 || u == 0x85 || u
        == 0xA0 || u == 0x1680 || (0x2000 <= u && u <= 0x200A) || u == 0x2028 || u == 0x2029 || u
        == 0x202F || u == 0x205F || u == 0x3000
}

/// A string is blank when every character is whitespace; the empty string is blank.
pub open spec fn is_blank(s: Seq<char>) -> bool {
    forall|i: int| 0 <= i < s.len() ==> is_space_char(s[i])
}

pub fn char_is_space(c: char) -> (r: bool)
    ensures
        r == is_space_char(c),
{
    let u = c as u32;
    u == 0x09 || u == 0x0A || u == 0x0B || u == 0x0C || u == 0x0D || u == 0x20 || u == 0x85 || u
        == 0xA0 || u == 0x1680 || (0x2000 <= u && u <= 0x200A) || u == 0x2028 || u == 0x2029 || u
        == 0x202F || u == 0x205F || u == 0x3000
}

pub fn is_blank_str(s: &str) -> (r: bool)
    ensures
        r == is_blank(s@),
{
    let n = s.unicode_len();
    let mut i: usize = 0;
    while i < n
        invariant
            0 <= i <= n,
            n == s@.len(),
            forall|k: int| 0 <= k < i ==> is_space_char(s@[k]),
        decreases n - i,
    {
        if !char_is_space(s.get_char(i)) {
            return false;
        }
        i = i + 1;
    }
    true
}

/// The given sequence with its leading whitespace removed.
pub open spec fn spec_trim_front(s: Seq<char>) -> Seq<char>
    decreases s.len(),
{
    if s.len() > 0 && is_space_char(s[0]) {
        spec_trim_front(s.drop_first())
    } else {
        s
    }
}

/// The given sequence with its trailing whitespace removed.
pub open spec fn spec_trim_back(s: Seq<char>) -> Seq<char>
    decreases s.len(),
{
    if s.len() > 0 && is_space_char(s[s.len() - 1]) {
        spec_trim_back(s.drop_last())
    } else {
        s
    }
}

/// The given sequence with leading and trailing whitespace removed.
pub open spec fn spec_trim(s: Seq<char>) -> Seq<char> {
    spec_trim_back(spec_trim_front(s))
}

proof fn lemma_trim_front_at(s: Seq<char>, i: int)
    requires
        0 <= i <= s.len(),
        forall|k: int| 0 <= k < i ==> is_space_char(s[k]),
        i < s.len() ==> !is_space_char(s[i]),
    ensures
        spec_trim_front(s) == s.skip(i),
    decreases i,
{
    if i == 0 {
        assert(s.skip(0) =~= s);
    } else {
        assert(is_space_char(s[0]));
        assert(s.len() > 0);
        lemma_trim_front_at(s.drop_first(), i - 1);
        assert(s.drop_first().skip(i - 1) =~= s.skip(i));
    }
}

proof fn lemma_trim_back_at(s: Seq<char>, j: int)
    requires
        0 <= j <= s.len(),
        forall|k: int| j <= k < s.len() ==> is_space_char(s[k]),
        j > 0 ==> !is_space_char(s[j - 1]),
    ensures
        spec_trim_back(s) == s.take(j),
    decreases s.len() - j,
{
    if j == s.len() {
        if s.len() > 0 && is_space_char(s[s.len() - 1]) {
            assert(!is_space_char(s[j - 1]));
            assert(false);
        }
        assert(s.take(j) =~= s);
    } else {
        assert(is_space_char(s[s.len() - 1]));
        lemma_trim_back_at(s.drop_last(), j);
        assert(s.drop_last().take(j) =~= s.take(j));
    }
}

/// Blankness coincides with the trimmed value being empty, which is how the
/// on-disk format defines a missing-in-substance field.
pub proof fn lemma_blank_iff_trim_empty(s: Seq<char>)
    ensures
        is_blank(s) <==> spec_trim(s).len() == 0,
    decreases s.len(),
{
    if is_blank(s) {
        lemma_trim_front_at(s, s.len() as int);
        assert(s.skip(s.len() as int) =~= Seq::<char>::empty());
    } else {
        if s.len() > 0 && is_space_char(s[0]) {
            assert(!is_blank(s.drop_first())) by {
                let w = choose|i: int| 0 <= i < s.len() && !is_space_char(s[i]);
                assert(w > 0);
                assert(s.drop_first()[w - 1] == s[w]);
            }
            lemma_blank_iff_trim_empty(s.drop_first());
        } else {
            lemma_trim_back_keeps_head(s);
        }
    }
}

proof fn lemma_trim_back_keeps_head(s: Seq<char>)
    requires
        s.len() > 0,
        !is_space_char(s[0]),
    ensures
        spec_trim_back(s).len() > 0,
        spec_trim_back(s)[0] == s[0],
    decreases s.len(),
{
    if is_space_char(s[s.len() - 1]) {
        lemma_trim_back_keeps_head(s.drop_last());
    }
}

proof fn lemma_trim_front_head(s: Seq<char>)
    ensures
        spec_trim_front(s).len() > 0 ==> !is_space_char(spec_trim_front(s)[0]),
    decreases s.len(),
{
    if s.len() > 0 && is_space_char(s[0]) {
        lemma_trim_front_head(s.drop_first());
    }
}

proof fn lemma_trim_back_last(s: Seq<char>)
    ensures
        spec_trim_back(s).len() > 0 ==> !is_space_char(spec_trim_back(s).last()),
    decreases s.len(),
{
    if s.len() > 0 && is_space_char(s[s.len() - 1]) {
        lemma_trim_back_last(s.drop_last());
    }
}

/// Trimming is idempotent: a trimmed value trims to itself.
pub proof fn lemma_trim_idempotent(s: Seq<char>)
    ensures
        spec_trim(spec_trim(s)) == spec_trim(s),
{
    let tf = spec_trim_front(s);
    let t = spec_trim(s);
    if t.len() == 0 {
        assert(spec_trim(t) =~= t);
    } else {
        assert(tf.len() > 0) by {
            if tf.len() == 0 {
                assert(spec_trim_back(tf).len() == 0);
            }
        }
        lemma_trim_front_head(s);
        lemma_trim_back_keeps_head(tf);
        lemma_trim_back_last(tf);
        assert(!is_space_char(t[0]));
        assert(!is_space_char(t[t.len() - 1]));
        assert(spec_trim_front(t) == t);
        assert(spec_trim_back(t) == t);
    }
}

/// Trimming a string that is not blank leaves a non-empty value that is not
/// blank either.
pub proof fn lemma_trim_not_blank(s: Seq<char>)
    requires
        !is_blank(s),
    ensures
        spec_trim(s).len() > 0,
        !is_blank(spec_trim(s)),
{
    lemma_blank_iff_trim_empty(s);
    let tf = spec_trim_front(s);
    assert(tf.len() > 0);
    lemma_trim_front_head(s);
    lemma_trim_back_keeps_head(tf);
    assert(!is_space_char(spec_trim(s)[0]));
}

/// Trims ASCII whitespace from both ends of a string.
pub fn trim_str(s: &str) -> (r: String)
    ensures
        r@ == spec_trim(s@),
{
    let n = s.unicode_len();
    let mut i: usize = 0;
    while i < n && char_is_space(s.get_char(i))
        invariant
            0 <= i <= n,
            n == s@.len(),
            forall|k: int| 0 <= k < i ==> is_space_char(s@[k]),
        decreases n - i,
    {
        i = i + 1;
    }
    proof {
        lemma_trim_front_at(s@, i as int);
    }
    if i == n {
        proof {
            assert(s@.skip(n as int) =~= Seq::<char>::empty());
        }
        return String::new();
    }
    let mut j: usize = n;
    while j > i + 1 && char_is_space(s.get_char(j - 1))
        invariant
            i < j <= n,
            n == s@.len(),
            forall|k: int| j <= k < n ==> is_space_char(s@[k]),
        decreases j,
    {
        j = j - 1;
    }
    proof {
        assert(!is_space_char(s@[i as int]));
        if is_space_char(s@[j - 1]) {
            assert(j == i + 1);
            assert(false);
        }
        lemma_trim_back_at(s@.skip(i as int), (j - i) as int);
        assert(s@.skip(i as int).take((j - i) as int) =~= s@.subrange(i as int, j as int));
    }
    let t = s.substring_char(i, j);
    t.to_owned()
}

/// `s` begins with the prefix `p`.
pub open spec fn starts_with(s: Seq<char>, p: Seq<char>) -> bool {
    p.len() <= s.len() && s.take(p.len() as int) == p
}

/// `s` ends with the suffix `p`.
pub open spec fn ends_with(s: Seq<char>, p: Seq<char>) -> bool {
    p.len() <= s.len() && s.skip(s.len() - p.len()) == p
}

pub fn starts_with_str(s: &str, p: &str) -> (r: bool)
    ensures
        r == starts_with(s@, p@),
{
    let n = s.unicode_len();
    let m = p.unicode_len();
    if m > n {
        return false;
    }
    let mut i: usize = 0;
    while i < m
        invariant
            0 <= i <= m <= n,
            n == s@.len(),
            m == p@.len(),
            forall|k: int| 0 <= k < i ==> s@[k] == p@[k],
        decreases m - i,
    {
        if s.get_char(i) != p.get_char(i) {
            assert(s@.take(m as int)[i as int] != p@[i as int]);
            return false;
        }
        i = i + 1;
    }
    proof {
        assert(s@.take(m as int) =~= p@);
    }
    true
}

/// Appending the same tail to a sequence and to one of its suffixes keeps
/// the suffix relation.
pub proof fn lemma_ends_with_concat(d: Seq<char>, q: Seq<char>, p: Seq<char>)
    requires
        ends_with(d, p),
    ensures
        ends_with(d + q, p + q),
{
    assert((d + q).skip((d + q).len() - (p + q).len()) =~= d.skip(d.len() - p.len()) + q);
}

/// Lexicographic "less than or equal" on character sequences, comparing
/// characters by their scalar values.
pub open spec fn lex_le(a: Seq<char>, b: Seq<char>) -> bool
    decreases a.len(),
{
    if a.len() == 0 {
        true
    } else if b.len() == 0 {
        false
    } else if (a[0] as u32) == (b[0] as u32) {
        lex_le(a.drop_first(), b.drop_first())
    } else {
        (a[0] as u32) < (b[0] as u32)
    }
}

/// The order is reflexive.
pub proof fn lemma_lex_le_refl(a: Seq<char>)
    ensures
        lex_le(a, a),
    decreases a.len(),
{
    if a.len() > 0 {
        lemma_lex_le_refl(a.drop_first());
    }
}

/// The order is total: of any two sequences, one is less than or equal to the other.
pub proof fn lemma_lex_le_total(a: Seq<char>, b: Seq<char>)
    ensures
        lex_le(a, b) || lex_le(b, a),
    decreases a.len(),
{
    if a.len() > 0 && b.len() > 0 && (a[0] as u32) == (b[0] as u32) {
        lemma_lex_le_total(a.drop_first(), b.drop_first());
    }
}

/// The order is transitive.
pub proof fn lemma_lex_le_trans(a: Seq<char>, b: Seq<char>, c: Seq<char>)
    requires
        lex_le(a, b),
        lex_le(b, c),
    ensures
        lex_le(a, c),
    decreases a.len(),
{
    if a.len() > 0 {
        assert(b.len() > 0);
        assert(c.len() > 0);
        if (a[0] as u32) == (b[0] as u32) && (b[0] as u32) == (c[0] as u32) {
            lemma_lex_le_trans(a.drop_first(), b.drop_first(), c.drop_first());
        }
    }
}

proof fn lemma_lex_le_skip_step(a: Seq<char>, b: Seq<char>, i: int)
    requires
        0 <= i < a.len(),
        0 <= i < b.len(),
    ensures
        (a[i] as u32) == (b[i] as u32) ==> lex_le(a.skip(i), b.skip(i)) == lex_le(
            a.skip(i + 1),
            b.skip(i + 1),
        ),
        (a[i] as u32) != (b[i] as u32) ==> lex_le(a.skip(i), b.skip(i)) == ((a[i] as u32) < (
        b[i] as u32)),
{
    assert(a.skip(i)[0] == a[i]);
    assert(b.skip(i)[0] == b[i]);
    assert(a.skip(i).drop_first() =~= a.skip(i + 1));
    assert(b.skip(i).drop_first() =~= b.skip(i + 1));
}

/// Compares two strings in the lexicographic order on their characters.
pub fn lex_le_str(a: &str, b: &str) -> (r: bool)
    ensures
        r == lex_le(a@, b@),
{
    let an = a.unicode_len();
    let bn = b.unicode_len();
    let mut i: usize = 0;
    proof {
        assert(a@.skip(0) =~= a@);
        assert(b@.skip(0) =~= b@);
    }
    while i < an && i < bn
        invariant
            0 <= i <= an,
            0 <= i <= bn,
            an == a@.len(),
            bn == b@.len(),
            lex_le(a@, b@) == lex_le(a@.skip(i as int), b@.skip(i as int)),
            lex_le(b@, a@) == lex_le(b@.skip(i as int), a@.skip(i as int)),
        decreases an - i,
    {
        let ca = a.get_char(i) as u32;
        let cb = b.get_char(i) as u32;
        proof {
            lemma_lex_le_skip_step(a@, b@, i as int);
            lemma_lex_le_skip_step(b@, a@, i as int);
        }
        if ca != cb {
            return ca < cb;
        }
        i = i + 1;
    }
    proof {
        if i == an {
            assert(a@.skip(i as int) =~= Seq::<char>::empty());
        } else {
            assert(b@.skip(i as int) =~= Seq::<char>::empty());
            assert(a@.skip(i as int).len() > 0);
        }
    }
    an <= bn
}

/// The length of the whitespace-free run at the head of `s`.
pub open spec fn token_len(s: Seq<char>) -> nat
    decreases s.len(),
{
    if s.len() == 0 || is_space_char(s[0]) {
        0
    } else {
        1 + token_len(s.drop_first())
    }
}

pub proof fn lemma_token_len_bounds(s: Seq<char>)
    ensures
        token_len(s) <= s.len(),
        forall|k: int| 0 <= k < token_len(s) ==> !is_space_char(s[k]),
        token_len(s) < s.len() ==> is_space_char(s[token_len(s) as int]),
    decreases s.len(),
{
    if s.len() > 0 && !is_space_char(s[0]) {
        lemma_token_len_bounds(s.drop_first());
        assert forall|k: int| 0 <= k < token_len(s) implies !is_space_char(s[k]) by {
            if k > 0 {
                assert(s.drop_first()[k - 1] == s[k]);
            }
        }
    }
}

/// The whitespace-separated tokens of `s`, in order, each non-empty.
pub open spec fn spec_split_ws(s: Seq<char>) -> Seq<Seq<char>>
    decreases s.len(),
    via spec_split_ws_decreases
{
    if s.len() == 0 {
        Seq::empty()
    } else if is_space_char(s[0]) {
        spec_split_ws(s.drop_first())
    } else {
        seq![s.take(token_len(s) as int)] + spec_split_ws(s.skip(token_len(s) as int))
    }
}

#[via_fn]
proof fn spec_split_ws_decreases(s: Seq<char>) {
    lemma_token_len_bounds(s);
}

proof fn lemma_split_ws_skip_space(s: Seq<char>, i: int)
    requires
        0 <= i < s.len(),
        is_space_char(s[i]),
    ensures
        spec_split_ws(s.skip(i)) == spec_split_ws(s.skip(i + 1)),
{
    assert(s.skip(i)[0] == s[i]);
    assert(s.skip(i).drop_first() =~= s.skip(i + 1));
}

proof fn lemma_split_ws_token(s: Seq<char>, i: int, j: int)
    requires
        0 <= i < j <= s.len(),
        !is_space_char(s[i]),
        forall|k: int| i <= k < j ==> !is_space_char(s[k]),
        j < s.len() ==> is_space_char(s[j]),
    ensures
        spec_split_ws(s.skip(i)) == seq![s.subrange(i, j)] + spec_split_ws(s.skip(j)),
{
    let t = s.skip(i);
    assert(t[0] == s[i]);
    assert(token_len(t) == j - i) by {
        lemma_token_len_bounds(t);
        let tl = token_len(t) as int;
        assert(forall|k: int| 0 <= k < j - i ==> !is_space_char(t[k]));
        if tl < j - i {
            assert(is_space_char(t[tl]));
        }
        if tl > j - i {
            assert(j < s.len());
            assert(!is_space_char(t[j - i]));
            assert(t[j - i] == s[j]);
        }
    }
    assert(t.take(j - i) =~= s.subrange(i, j));
    assert(t.skip(j - i) =~= s.skip(j));
}

/// A string that is not blank splits into at least one token.
pub proof fn lemma_split_ws_nonblank(s: Seq<char>)
    requires
        !is_blank(s),
    ensures
        spec_split_ws(s).len() > 0,
    decreases s.len(),
{
    if s.len() > 0 && is_space_char(s[0]) {
        assert(!is_blank(s.drop_first())) by {
            let w = choose|i: int| 0 <= i < s.len() && !is_space_char(s[i]);
            assert(w > 0);
            assert(s.drop_first()[w - 1] == s[w]);
        }
        lemma_split_ws_nonblank(s.drop_first());
    }
}

/// Splits a string into its whitespace-separated tokens.
pub fn split_ws_str(s: &str) -> (r: Vec<String>)
    ensures
        r@.map_values(|t: String| t@) == spec_split_ws(s@),
{
    let n = s.unicode_len();
    let mut r: Vec<String> = Vec::new();
    let mut i: usize = 0;
    proof {
        assert(s@.skip(0) =~= s@);
        assert(r@.map_values(|t: String| t@) + spec_split_ws(s@) =~= spec_split_ws(s@));
    }
    while i < n
        invariant
            0 <= i <= n,
            n == s@.len(),
            r@.map_values(|t: String| t@) + spec_split_ws(s@.skip(i as int)) == spec_split_ws(
                s@,
            ),
        decreases n - i,
    {
        if char_is_space(s.get_char(i)) {
            proof {
                lemma_split_ws_skip_space(s@, i as int);
            }
            i = i + 1;
        } else {
            let start = i;
            let mut j: usize = i;
            while j < n && !char_is_space(s.get_char(j))
                invariant
                    i <= j <= n,
                    n == s@.len(),
                    forall|k: int| i <= k < j ==> !is_space_char(s@[k]),
                decreases n - j,
            {
                j = j + 1;
            }
            proof {
                lemma_split_ws_token(s@, i as int, j as int);
            }
            let tok = s.substring_char(start, j).to_owned();
            let ghost prev = r@.map_values(|t: String| t@);
            r.push(tok);
            proof {
                assert(r@.map_values(|t: String| t@) =~= prev + seq![s@.subrange(
                    i as int,
                    j as int,
                )]);
                assert(prev + seq![s@.subrange(i as int, j as int)] + spec_split_ws(
                    s@.skip(j as int),
                ) =~= prev + (seq![s@.subrange(i as int, j as int)] + spec_split_ws(
                    s@.skip(j as int),
                )));
            }
            i = j;
        }
    }
    proof {
        assert(s@.skip(n as int) =~= Seq::<char>::empty());
        assert(r@.map_values(|t: String| t@) + Seq::<Seq<char>>::empty() =~= r@.map_values(
            |t: String| t@,
        ));
    }
    r
}

} // verus!
