use vstd::prelude::*;
use vstd::std_specs::iter::IteratorSpec;
use vstd::string::*;

verus! {

broadcast use vstd::string::group_string_axioms;

/// The Unicode `White_Space` characters, as `char::is_whitespace` and
/// `str::trim` understand whitespace.
pub open spec fn is_unicode_whitespace(c: char) -> bool {
    let v = c as u32;
    ||| 0x09 <= v <= 0x0d
    ||| v == 0x20
    ||| v == 0x85
    ||| v == 0xa0
    ||| v == 0x1680
    ||| 0x2000 <= v <= 0x200a
    ||| v == 0x2028
    ||| v == 0x2029
    ||| v == 0x202f
    ||| v == 0x205f
    ||| v == 0x3000
}

/// Which characters a trim removes from both ends of a string.
#[derive(Clone, Copy, Debug, PartialEq, Eq, Structural)]
pub enum Strip {
    /// Unicode whitespace.
    Whitespace,
    /// The double quote `"`.
    Quote,
}

pub open spec fn strippable(kind: Strip, c: char) -> bool {
    match kind {
        Strip::Whitespace => is_unicode_whitespace(c),
        Strip::Quote => c == '"',
    }
}

/// The index of the first character at or after `i` that is not strippable
/// (or the length of `s`).
pub open spec fn lead_end(s: Seq<char>, kind: Strip, i: nat) -> nat
    decreases s.len() - i,
{
    if i < s.len() && strippable(kind, s[i as int]) {
        lead_end(s, kind, i + 1)
    } else {
        i
    }
}

/// Moving back from `j`, the index just past the last character that is not
/// strippable, stopping at `lo`.
pub open spec fn trail_start(s: Seq<char>, kind: Strip, lo: nat, j: nat) -> nat
    decreases j,
{
    if j > lo && strippable(kind, s[j - 1]) {
        trail_start(s, kind, lo, (j - 1) as nat)
    } else {
        j
    }
}

/// `s` with every strippable character removed from its start and its end.
pub open spec fn trimmed(s: Seq<char>, kind: Strip) -> Seq<char> {
    let a = lead_end(s, kind, 0);
    let b = trail_start(s, kind, a, s.len());
    s.subrange(a as int, b as int)
}

/// `s` neither starts nor ends with a strippable character.
pub open spec fn is_clean(s: Seq<char>, kind: Strip) -> bool {
    s.len() == 0 || (!strippable(kind, s[0]) && !strippable(kind, s[s.len() - 1]))
}

proof fn lemma_lead_end(s: Seq<char>, kind: Strip, i: nat)
    requires
        i <= s.len(),
    ensures
        i <= lead_end(s, kind, i) <= s.len(),
        forall|k: int| i <= k < lead_end(s, kind, i) ==> strippable(kind, #[trigger] s[k]),
        lead_end(s, kind, i) == s.len() || !strippable(kind, s[lead_end(s, kind, i) as int]),
    decreases s.len() - i,
{
    if i < s.len() && strippable(kind, s[i as int]) {
        lemma_lead_end(s, kind, i + 1);
    }
}

proof fn lemma_trail_start(s: Seq<char>, kind: Strip, lo: nat, j: nat)
    requires
        lo <= j <= s.len(),
    ensures
        lo <= trail_start(s, kind, lo, j) <= j,
        forall|k: int| trail_start(s, kind, lo, j) <= k < j ==> strippable(kind, #[trigger] s[k]),
        trail_start(s, kind, lo, j) == lo || !strippable(
            kind,
            s[trail_start(s, kind, lo, j) - 1],
        ),
    decreases j,
{
    if j > lo && strippable(kind, s[j - 1]) {
        lemma_trail_start(s, kind, lo, (j - 1) as nat);
    }
}

/// What a trim removes and keeps: `s` is the trimmed string with strippable
/// characters only before and after it, and the trimmed string is clean.
pub proof fn lemma_trimmed_shape(s: Seq<char>, kind: Strip)
    ensures
        is_clean(trimmed(s, kind), kind),
        exists|a: int, b: int|
            0 <= a <= b <= s.len() && trimmed(s, kind) == s.subrange(a, b) && (forall|k: int|
                0 <= k < a ==> strippable(kind, #[trigger] s[k])) && (forall|k: int|
                b <= k < s.len() ==> strippable(kind, #[trigger] s[k])),
{
    let a = lead_end(s, kind, 0);
    lemma_lead_end(s, kind, 0);
    let b = trail_start(s, kind, a, s.len());
    lemma_trail_start(s, kind, a, s.len());
    let t = trimmed(s, kind);
    if a < b {
        assert(t[0] == s[a as int]);
        assert(t[t.len() - 1] == s[b - 1]);
    }
    assert(exists|x: int, y: int|
        0 <= x <= y <= s.len() && trimmed(s, kind) == s.subrange(x, y) && (forall|k: int|
            0 <= k < x ==> strippable(kind, #[trigger] s[k])) && (forall|k: int|
            y <= k < s.len() ==> strippable(kind, #[trigger] s[k]))) by {
        assert(0 <= a as int <= b as int <= s.len());
    }
}

/// Trimming a clean string leaves it unchanged.
pub proof fn lemma_trim_clean(s: Seq<char>, kind: Strip)
    requires
        is_clean(s, kind),
    ensures
        trimmed(s, kind) == s,
{
    assert(lead_end(s, kind, 0) == 0);
    assert(trail_start(s, kind, 0, s.len()) == s.len());
    assert(s.subrange(0, s.len() as int) =~= s);
}

/// Trimming twice gives what trimming once gives.
pub proof fn lemma_trim_idempotent(s: Seq<char>, kind: Strip)
    ensures
        trimmed(trimmed(s, kind), kind) == trimmed(s, kind),
{
    lemma_trimmed_shape(s, kind);
    lemma_trim_clean(trimmed(s, kind), kind);
}

fn is_unicode_whitespace_exec(c: char) -> (b: bool)
    ensures
        b == is_unicode_whitespace(c),
{
    let v = c as u32;
    (0x09 <= v && v <= 0x0d) || v == 0x20 || v == 0x85 || v == 0xa0 || v == 0x1680 || (0x2000
        <= v && v <= 0x200a) || v == 0x2028 || v == 0x2029 || v == 0x202f || v == 0x205f || v
        == 0x3000
}

fn strippable_exec(kind: Strip, c: char) -> (b: bool)
    ensures
        b == strippable(kind, c),
{
    match kind {
        Strip::Whitespace => is_unicode_whitespace_exec(c),
        Strip::Quote => c == '"',
    }
}

/// The characters of `s`, in order.
pub fn chars_of(s: &str) -> (v: Vec<char>)
    ensures
        v@ == s@,
{
    let mut it = s.chars();
    let mut v: Vec<char> = Vec::new();
    loop
        invariant
            v@ + it.remaining() == s@,
            it.decrease() is Some,
        ensures
            v@ == s@,
        decreases it.decrease()->0,
    {
        let ghost before = it.remaining();
        match it.next() {
            Some(c) => {
                v.push(c);
                assert(v@ + it.remaining() =~= s@) by {
                    assert(before =~= seq![c] + it.remaining());
                }
            },
            None => {
                assert(v@ =~= s@);
                break ;
            },
        }
    }
    v
}

/// `s` with the characters selected by `kind` removed from both ends.
pub fn trim_by(s: &str, kind: Strip) -> (t: String)
    ensures
        t@ == trimmed(s@, kind),
{
    let v = chars_of(s);
    let n = v.len();
    let mut a: usize = 0;
    while a < n && strippable_exec(kind, v[a])
        invariant
            n == s@.len(),
            v@ == s@,
            a <= n,
            lead_end(s@, kind, a as nat) == lead_end(s@, kind, 0),
        decreases n - a,
    {
        a = a + 1;
    }
    let mut b: usize = n;
    while b > a && strippable_exec(kind, v[b - 1])
        invariant
            n == s@.len(),
            v@ == s@,
            a <= b <= n,
            a == lead_end(s@, kind, 0),
            trail_start(s@, kind, a as nat, b as nat) == trail_start(s@, kind, a as nat, n as nat),
        decreases b,
    {
        b = b - 1;
    }
    String::from_str(s.substring_char(a, b))
}

/// `s` with leading and trailing Unicode whitespace removed.
pub fn trim_whitespace(s: &str) -> (t: String)
    ensures
        t@ == trimmed(s@, Strip::Whitespace),
{
    trim_by(s, Strip::Whitespace)
}

/// `s` with leading and trailing double quotes removed.
pub fn trim_quotes(s: &str) -> (t: String)
    ensures
        t@ == trimmed(s@, Strip::Quote),
{
    trim_by(s, Strip::Quote)
}

/// `s` with every occurrence of `pat` replaced by `rep`, scanning left to
/// right and not overlapping replaced occurrences (as `str::replace` does
/// for a non-empty pattern).
pub open spec fn replace_all(s: Seq<char>, pat: Seq<char>, rep: Seq<char>) -> Seq<char>
    decreases s.len(),
{
    if pat.len() == 0 || s.len() < pat.len() {
        s
    } else if s.subrange(0, pat.len() as int) == pat {
        rep + replace_all(s.skip(pat.len() as int), pat, rep)
    } else {
        seq![s[0]] + replace_all(s.skip(1), pat, rep)
    }
}

fn matches_at(v: &Vec<char>, pat: &Vec<char>, i: usize) -> (m: bool)
    requires
        i + pat@.len() <= v@.len(),
    ensures
        m == (v@.subrange(i as int, i + pat@.len()) == pat@),
{
    let n = v.len();
    let mut k: usize = 0;
    while k < pat.len()
        invariant
            n == v@.len(),
            i + pat@.len() <= v@.len(),
            k <= pat@.len(),
            forall|j: int| 0 <= j < k ==> v@[i + j] == pat@[j],
        decreases pat.len() - k,
    {
        if v[i + k] != pat[k] {
            assert(v@.subrange(i as int, i + pat@.len())[k as int] != pat@[k as int]);
            return false;
        }
        k = k + 1;
    }
    assert(v@.subrange(i as int, i + pat@.len()) =~= pat@);
    true
}

/// `s` with every occurrence of the non-empty `pat` replaced by `rep`.
pub fn replace_all_exec(s: &str, pat: &str, rep: &str) -> (r: String)
    requires
        pat@.len() > 0,
    ensures
        r@ == replace_all(s@, pat@, rep@),
{
    let v = chars_of(s);
    let pv = chars_of(pat);
    let n = v.len();
    let p = pv.len();
    let mut res = String::new();
    if p > n {
        res.append(s);
        assert(res@ == replace_all(s@, pat@, rep@));
        return res;
    }
    let mut seg: usize = 0;
    let mut i: usize = 0;
    assert(s@.skip(0) =~= s@);
    while i <= n - p
        invariant
            v@ == s@,
            pv@ == pat@,
            n == s@.len(),
            p == pat@.len(),
            0 < p <= n,
            seg <= i <= n,
            replace_all(s@, pat@, rep@) == res@ + s@.subrange(seg as int, i as int) + replace_all(
                s@.skip(i as int),
                pat@,
                rep@,
            ),
        decreases n - i,
    {
        let ghost rest = s@.skip(i as int);
        assert(rest.subrange(0, p as int) =~= s@.subrange(i as int, i + p));
        if matches_at(&v, &pv, i) {
            res.append(s.substring_char(seg, i));
            res.append(rep);
            assert(rest.skip(p as int) =~= s@.skip(i + p));
            i = i + p;
            seg = i;
            assert(s@.subrange(seg as int, i as int) =~= Seq::<char>::empty());
            assert(replace_all(s@, pat@, rep@) =~= res@ + s@.subrange(seg as int, i as int)
                + replace_all(s@.skip(i as int), pat@, rep@));
        } else {
            assert(rest.skip(1) =~= s@.skip(i + 1));
            assert(rest[0] == s@[i as int]);
            assert(s@.subrange(seg as int, i as int) + seq![s@[i as int]] =~= s@.subrange(
                seg as int,
                i + 1,
            ));
            i = i + 1;
            assert(replace_all(s@, pat@, rep@) =~= res@ + s@.subrange(seg as int, i as int)
                + replace_all(s@.skip(i as int), pat@, rep@));
        }
    }
    assert(s@.skip(i as int) =~= s@.subrange(i as int, n as int));
    res.append(s.substring_char(seg, n));
    assert(s@.subrange(seg as int, i as int) + s@.subrange(i as int, n as int) =~= s@.subrange(
        seg as int,
        n as int,
    ));
    res
}

/// `pat` occurs in `s` starting at index `i`.
pub open spec fn occurs_at(s: Seq<char>, pat: Seq<char>, i: int) -> bool {
    0 <= i && i + pat.len() <= s.len() && s.subrange(i, i + pat.len()) == pat
}

/// Text in which the pattern does not occur is left unchanged.
pub proof fn lemma_replace_without_occurrence(s: Seq<char>, pat: Seq<char>, rep: Seq<char>)
    requires
        pat.len() > 0,
        forall|i: int| !occurs_at(s, pat, i),
    ensures
        replace_all(s, pat, rep) == s,
    decreases s.len(),
{
    if s.len() >= pat.len() {
        assert(!occurs_at(s, pat, 0));
        let t = s.skip(1);
        assert forall|i: int| !occurs_at(t, pat, i) by {
            if occurs_at(t, pat, i) {
                assert(t.subrange(i, i + pat.len()) =~= s.subrange(i + 1, i + 1 + pat.len()));
                assert(occurs_at(s, pat, i + 1));
            }
        }
        lemma_replace_without_occurrence(t, pat, rep);
        assert(seq![s[0]] + t =~= s);
    }
}

/// The first occurrence of the pattern is replaced, everything before it is
/// kept as it is, and replacing goes on after it: when `pat` first occurs
/// in `x + pat + y` right after `x`, the result is `x + rep` followed by
/// the replacement in `y`.
pub proof fn lemma_replace_first_occurrence(
    x: Seq<char>,
    pat: Seq<char>,
    y: Seq<char>,
    rep: Seq<char>,
)
    requires
        pat.len() > 0,
        forall|i: int| 0 <= i < x.len() ==> !occurs_at(x + pat + y, pat, i),
    ensures
        replace_all(x + pat + y, pat, rep) == x + rep + replace_all(y, pat, rep),
    decreases x.len(),
{
    let s = x + pat + y;
    if x.len() == 0 {
        assert(s.subrange(0, pat.len() as int) =~= pat);
        assert(s.skip(pat.len() as int) =~= y);
        assert(x + rep =~= rep);
    } else {
        assert(!occurs_at(s, pat, 0));
        let x1 = x.skip(1);
        assert(s.skip(1) =~= x1 + pat + y);
        assert forall|i: int| 0 <= i < x1.len() implies !occurs_at(x1 + pat + y, pat, i) by {
            if occurs_at(x1 + pat + y, pat, i) {
                assert((x1 + pat + y).subrange(i, i + pat.len()) =~= s.subrange(
                    i + 1,
                    i + 1 + pat.len(),
                ));
                assert(occurs_at(s, pat, i + 1));
            }
        }
        lemma_replace_first_occurrence(x1, pat, y, rep);
        assert(s[0] == x[0]);
        assert(seq![x[0]] + (x1 + rep + replace_all(y, pat, rep)) =~= x + rep + replace_all(
            y,
            pat,
            rep,
        ));
    }
}

} // verus!
