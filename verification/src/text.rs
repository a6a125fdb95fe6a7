//! Character-level text operations with exact specifications: comparing,
//! searching, replacing, joining and printing numbers.
use vstd::prelude::*;

verus! {

/// `s` ends with `suffix`.
pub open spec fn has_suffix(s: Seq<char>, suffix: Seq<char>) -> bool {
    suffix.len() <= s.len() && s.subrange(s.len() - suffix.len(), s.len() as int) == suffix
}

/// `pat` occurs in `s` starting at position `i`.
pub open spec fn occurs_at(s: Seq<char>, pat: Seq<char>, i: int) -> bool {
    0 <= i && i + pat.len() <= s.len() && s.subrange(i, i + pat.len()) == pat
}

/// `pat` occurs somewhere in `s`.
pub open spec fn has_substring(s: Seq<char>, pat: Seq<char>) -> bool {
    exists|i: int| occurs_at(s, pat, i)
}

/// Every non-overlapping occurrence of `pat` in `s`, found from left to right,
/// replaced by `rep` (the meaning of `str::replace` for a non-empty pattern).
pub open spec fn replace_all(s: Seq<char>, pat: Seq<char>, rep: Seq<char>) -> Seq<char>
    decreases s.len(),
{
    if s.len() == 0 || pat.len() == 0 {
        s
    } else if pat.len() <= s.len() && s.subrange(0, pat.len() as int) == pat {
        rep + replace_all(s.skip(pat.len() as int), pat, rep)
    } else {
        seq![s[0]] + replace_all(s.skip(1), pat, rep)
    }
}

/// The parts, with `sep` between each two neighbours (the meaning of `join`).
pub open spec fn join_with(parts: Seq<Seq<char>>, sep: Seq<char>) -> Seq<char>
    decreases parts.len(),
{
    if parts.len() == 0 {
        Seq::empty()
    } else if parts.len() == 1 {
        parts[0]
    } else {
        join_with(parts.drop_last(), sep) + sep + parts.last()
    }
}

/// The decimal digit character for `d < 10`.
pub open spec fn digit_char(d: nat) -> char {
    if d == 0 {
        '0'
    } else if d == 1 {
        '1'
    } else if d == 2 {
        '2'
    } else if d == 3 {
        '3'
    } else if d == 4 {
        '4'
    } else if d == 5 {
        '5'
    } else if d == 6 {
        '6'
    } else if d == 7 {
        '7'
    } else if d == 8 {
        '8'
    } else {
        '9'
    }
}

/// The decimal notation of `n`, without leading zeros.
pub open spec fn decimal(n: nat) -> Seq<char>
    decreases n,
{
    if n < 10 {
        seq![digit_char(n)]
    } else {
        decimal(n / 10) + seq![digit_char(n % 10)]
    }
}

/// The views of a list of owned strings.
pub open spec fn string_views(v: Seq<String>) -> Seq<Seq<char>> {
    v.map_values(|s: String| s@)
}

/// The characters of `s`, one by one.
pub fn chars_of(s: &str) -> (v: Vec<char>)
    ensures
        v@ == s@,
{
    broadcast use vstd::string::group_string_axioms;

    let mut v: Vec<char> = Vec::new();
    for c in it: s.chars()
        invariant
            v@ == it.seq().take(it.index() as int),
            it.seq() == s@,
    {
        v.push(c);
        assert(it.seq().take(it.index() + 1) =~= v@);
    }
    assert(s@.take(s@.len() as int) =~= s@);
    v
}

/// An owned copy of `s`.
pub fn owned(s: &str) -> (r: String)
    ensures
        r@ == s@,
{
    s.to_owned()
}

/// `a` followed by `b`.
pub fn concat_text(a: &str, b: &str) -> (r: String)
    ensures
        r@ == a@ + b@,
{
    let mut r = a.to_owned();
    r.append(b);
    r
}

/// Whether the characters of `a` from `start` on begin with all of `pat`.
fn matches_at(a: &Vec<char>, pat: &Vec<char>, start: usize) -> (r: bool)
    ensures
        r == occurs_at(a@, pat@, start as int),
{
    if start > a.len() || pat.len() > a.len() - start {
        return false;
    }
    let m = pat.len();
    let n = a.len();
    let mut j: usize = 0;
    while j < m
        invariant
            m == pat@.len(),
            n == a@.len(),
            start + m <= n,
            j <= m,
            forall|k: int| 0 <= k < j ==> a@[start + k] == pat@[k],
        decreases m - j,
    {
        if a[start + j] != pat[j] {
            assert(a@.subrange(start as int, start + m)[j as int] != pat@[j as int]);
            return false;
        }
        j = j + 1;
    }
    assert(a@.subrange(start as int, start + m) =~= pat@);
    true
}

/// Whether `a` and `b` hold the same characters.
pub fn same_text(a: &str, b: &str) -> (r: bool)
    ensures
        r == (a@ == b@),
{
    let x = chars_of(a);
    let y = chars_of(b);
    if x.len() != y.len() {
        return false;
    }
    let r = matches_at(&x, &y, 0);
    assert(a@ =~= a@.subrange(0, y@.len() as int));
    r
}

/// Whether `s` ends with `suffix`.
pub fn ends_with(s: &str, suffix: &str) -> (r: bool)
    ensures
        r == has_suffix(s@, suffix@),
{
    let x = chars_of(s);
    let y = chars_of(suffix);
    if y.len() > x.len() {
        return false;
    }
    matches_at(&x, &y, x.len() - y.len())
}

/// Whether `pat` occurs in `s`.
pub fn contains(s: &str, pat: &str) -> (r: bool)
    ensures
        r == has_substring(s@, pat@),
{
    let x = chars_of(s);
    let y = chars_of(pat);
    let n = x.len();
    let mut i: usize = 0;
    loop
        invariant
            x@ == s@,
            y@ == pat@,
            n == s@.len(),
            i <= n,
            forall|k: int| 0 <= k < i ==> !occurs_at(s@, pat@, k),
        decreases n - i,
    {
        if matches_at(&x, &y, i) {
            return true;
        }
        if i == n {
            assert forall|k: int| !occurs_at(s@, pat@, k) by {
                if 0 <= k && k + pat@.len() <= s@.len() {
                    assert(k <= n);
                }
            }
            return false;
        }
        i = i + 1;
    }
}

/// `s` with every occurrence of `pat` replaced by `rep`, as `str::replace` does.
pub fn replace(s: &str, pat: &str, rep: &str) -> (r: String)
    requires
        pat@.len() > 0,
    ensures
        r@ == replace_all(s@, pat@, rep@),
{
    let text = chars_of(s);
    let pattern = chars_of(pat);
    let n = text.len();
    let m = pattern.len();
    let mut out = String::new();
    let mut seg: usize = 0;
    let mut i: usize = 0;
    assert(s@.skip(0) =~= s@);
    assert(s@.subrange(0, 0) =~= Seq::<char>::empty());
    assert(out@ + s@.subrange(0, 0) =~= Seq::<char>::empty());
    while i < n
        invariant
            text@ == s@,
            pattern@ == pat@,
            n == s@.len(),
            m == pat@.len(),
            m > 0,
            seg <= i <= n,
            out@ + s@.subrange(seg as int, i as int) + replace_all(s@.skip(i as int), pat@, rep@)
                == replace_all(s@, pat@, rep@),
        decreases n - i,
    {
        let ghost t = s@.skip(i as int);
        let ghost before = out@;
        if matches_at(&text, &pattern, i) {
            let piece = s.substring_char(seg, i);
            out.append(piece);
            out.append(rep);
            proof {
                assert(t.subrange(0, m as int) =~= s@.subrange(i as int, i + m));
                assert(t.skip(m as int) =~= s@.skip(i + m));
                assert(replace_all(t, pat@, rep@) == rep@ + replace_all(s@.skip(i + m), pat@, rep@));
                assert(s@.subrange((i + m) as int, (i + m) as int) =~= Seq::<char>::empty());
                assert(out@ =~= before + s@.subrange(seg as int, i as int) + rep@);
                assert(out@ + s@.subrange((i + m) as int, (i + m) as int) + replace_all(
                    s@.skip(i + m),
                    pat@,
                    rep@,
                ) =~= before + s@.subrange(seg as int, i as int) + replace_all(t, pat@, rep@));
            }
            i = i + m;
            seg = i;
        } else {
            proof {
                if m <= t.len() {
                    assert(t.subrange(0, m as int) =~= s@.subrange(i as int, i + m));
                }
                assert(t.skip(1) =~= s@.skip(i + 1));
                assert(replace_all(t, pat@, rep@) == seq![s@[i as int]] + replace_all(
                    s@.skip(i + 1),
                    pat@,
                    rep@,
                ));
                assert(s@.subrange(seg as int, i as int) + seq![s@[i as int]] =~= s@.subrange(
                    seg as int,
                    i + 1,
                ));
                assert(out@ + s@.subrange(seg as int, i + 1) + replace_all(
                    s@.skip(i + 1),
                    pat@,
                    rep@,
                ) =~= out@ + s@.subrange(seg as int, i as int) + replace_all(t, pat@, rep@));
            }
            i = i + 1;
        }
    }
    let tail = s.substring_char(seg, n);
    let ghost before = out@;
    out.append(tail);
    proof {
        assert(s@.skip(n as int).len() == 0);
        assert(replace_all(s@.skip(n as int), pat@, rep@) =~= Seq::<char>::empty());
        assert(out@ =~= before + s@.subrange(seg as int, n as int) + replace_all(
            s@.skip(n as int),
            pat@,
            rep@,
        ));
    }
    out
}

/// The parts joined with `sep` between neighbours, as `join` does.
pub fn join(parts: &Vec<String>, sep: &str) -> (r: String)
    ensures
        r@ == join_with(string_views(parts@), sep@),
{
    let ghost views = string_views(parts@);
    let mut out = String::new();
    let n = parts.len();
    let mut i: usize = 0;
    assert(views.take(0) =~= Seq::<Seq<char>>::empty());
    while i < n
        invariant
            n == parts@.len(),
            views == string_views(parts@),
            i <= n,
            out@ == join_with(views.take(i as int), sep@),
        decreases n - i,
    {
        if i > 0 {
            out.append(sep);
        }
        out.append(parts[i].as_str());
        proof {
            assert(views.take(i + 1).drop_last() =~= views.take(i as int));
            assert(views.take(i + 1).last() == parts@[i as int]@);
            if i == 0 {
                assert(views.take(1) =~= seq![parts@[0]@]);
            }
        }
        i = i + 1;
    }
    assert(views.take(n as int) =~= views);
    out
}

/// The digit `d < 10` as a one-character string.
fn digit_text(d: u32) -> (r: &'static str)
    requires
        d < 10,
    ensures
        r@ == seq![digit_char(d as nat)],
{
    proof {
        reveal_strlit("0");
        reveal_strlit("1");
        reveal_strlit("2");
        reveal_strlit("3");
        reveal_strlit("4");
        reveal_strlit("5");
        reveal_strlit("6");
        reveal_strlit("7");
        reveal_strlit("8");
        reveal_strlit("9");
    }
    if d == 0 {
        "0"
    } else if d == 1 {
        "1"
    } else if d == 2 {
        "2"
    } else if d == 3 {
        "3"
    } else if d == 4 {
        "4"
    } else if d == 5 {
        "5"
    } else if d == 6 {
        "6"
    } else if d == 7 {
        "7"
    } else if d == 8 {
        "8"
    } else {
        "9"
    }
}

/// The decimal notation of `n`, as `{}` formats an unsigned integer.
pub fn decimal_text(n: u32) -> (r: String)
    ensures
        r@ == decimal(n as nat),
    decreases n,
{
    if n < 10 {
        owned(digit_text(n))
    } else {
        let mut r = decimal_text(n / 10);
        r.append(digit_text(n % 10));
        r
    }
}

/// Splitting the text before replacing a single character is the same as
/// replacing in each part.
pub proof fn lemma_replace_char_concat(a: Seq<char>, b: Seq<char>, c: char, rep: Seq<char>)
    ensures
        replace_all(a + b, seq![c], rep) == replace_all(a, seq![c], rep) + replace_all(
            b,
            seq![c],
            rep,
        ),
    decreases a.len(),
{
    let pat = seq![c];
    if a.len() == 0 {
        assert(a + b =~= b);
        assert(replace_all(a, pat, rep) =~= Seq::<char>::empty());
        assert(Seq::<char>::empty() + replace_all(b, pat, rep) =~= replace_all(b, pat, rep));
    } else {
        let ab = a + b;
        assert(ab.subrange(0, 1) =~= a.subrange(0, 1));
        assert(ab.skip(1) =~= a.skip(1) + b);
        lemma_replace_char_concat(a.skip(1), b, c, rep);
        if a.subrange(0, 1) == pat {
            assert(replace_all(a, pat, rep) == rep + replace_all(a.skip(1), pat, rep));
            assert(replace_all(ab, pat, rep) == rep + replace_all(ab.skip(1), pat, rep));
            assert(rep + (replace_all(a.skip(1), pat, rep) + replace_all(b, pat, rep)) =~= (rep
                + replace_all(a.skip(1), pat, rep)) + replace_all(b, pat, rep));
        } else {
            assert(ab[0] == a[0]);
            assert(replace_all(a, pat, rep) == seq![a[0]] + replace_all(a.skip(1), pat, rep));
            assert(replace_all(ab, pat, rep) == seq![a[0]] + replace_all(ab.skip(1), pat, rep));
            assert(seq![a[0]] + (replace_all(a.skip(1), pat, rep) + replace_all(b, pat, rep))
                =~= (seq![a[0]] + replace_all(a.skip(1), pat, rep)) + replace_all(b, pat, rep));
        }
    }
}

/// Replacing a single character by nothing leaves no such character behind.
pub proof fn lemma_remove_char_leaves_none(s: Seq<char>, c: char)
    ensures
        !replace_all(s, seq![c], Seq::empty()).contains(c),
    decreases s.len(),
{
    let pat = seq![c];
    let r = replace_all(s, pat, Seq::empty());
    if s.len() > 0 {
        lemma_remove_char_leaves_none(s.skip(1), c);
        let rest = replace_all(s.skip(1), pat, Seq::empty());
        if s.subrange(0, 1) == pat {
            assert(r == Seq::<char>::empty() + rest);
            assert(r =~= rest);
        } else {
            assert(s[0] != c) by {
                if s[0] == c {
                    assert(s.subrange(0, 1) =~= pat);
                }
            }
            assert(r == seq![s[0]] + rest);
            assert forall|k: int| 0 <= k < r.len() implies r[k] != c by {
                if k > 0 {
                    assert(r[k] == rest[k - 1]);
                }
            }
        }
    }
}

/// Removing a character that does not occur changes nothing.
pub proof fn lemma_remove_absent_char(s: Seq<char>, c: char)
    requires
        !s.contains(c),
    ensures
        replace_all(s, seq![c], Seq::empty()) == s,
    decreases s.len(),
{
    let pat = seq![c];
    if s.len() > 0 {
        assert(!s.skip(1).contains(c)) by {
            if s.skip(1).contains(c) {
                let k = choose|k: int| 0 <= k < s.skip(1).len() && s.skip(1)[k] == c;
                assert(s[k + 1] == c);
            }
        }
        lemma_remove_absent_char(s.skip(1), c);
        assert(s.subrange(0, 1) != pat) by {
            if s.subrange(0, 1) == pat {
                assert(s[0] == s.subrange(0, 1)[0]);
            }
        }
        assert(seq![s[0]] + s.skip(1) =~= s);
    }
}

} // verus!
