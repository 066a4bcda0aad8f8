//! Character-level text operations shared by the rest of the crate.
use vstd::prelude::*;
use vstd::std_specs::iter::IteratorSpec;

verus! {

/// `s` with every non-overlapping occurrence of `pat` (scanned left to
/// right) replaced by `rep`.
pub open spec fn replace_all(s: Seq<char>, pat: Seq<char>, rep: Seq<char>) -> Seq<char>
    recommends
        pat.len() > 0,
    decreases s.len(),
{
    if pat.len() == 0 || s.len() < pat.len() {
        s
    } else if s.subrange(0, pat.len() as int) == pat {
        rep + replace_all(s.subrange(pat.len() as int, s.len() as int), pat, rep)
    } else {
        seq![s[0]] + replace_all(s.subrange(1, s.len() as int), pat, rep)
    }
}

/// `s` with its first occurrence of `pat` (if any) replaced by `rep`.
pub open spec fn replace_first(s: Seq<char>, pat: Seq<char>, rep: Seq<char>) -> Seq<char>
    recommends
        pat.len() > 0,
    decreases s.len(),
{
    if pat.len() == 0 || s.len() < pat.len() {
        s
    } else if s.subrange(0, pat.len() as int) == pat {
        rep + s.subrange(pat.len() as int, s.len() as int)
    } else {
        seq![s[0]] + replace_first(s.subrange(1, s.len() as int), pat, rep)
    }
}

/// Whether `s` starts with `prefix`.
pub open spec fn has_prefix(s: Seq<char>, prefix: Seq<char>) -> bool {
    prefix.len() <= s.len() && s.subrange(0, prefix.len() as int) == prefix
}

/// The decimal digit character for `d < 10`.
pub open spec fn digit_char(d: nat) -> char {
    if d == 0 { '0' }
    else if d == 1 { '1' }
    else if d == 2 { '2' }
    else if d == 3 { '3' }
    else if d == 4 { '4' }
    else if d == 5 { '5' }
    else if d == 6 { '6' }
    else if d == 7 { '7' }
    else if d == 8 { '8' }
    else { '9' }
}

/// The decimal representation of `n`, without leading zeros.
pub open spec fn decimal(n: nat) -> Seq<char>
    decreases n,
{
    if n < 10 {
        seq![digit_char(n)]
    } else {
        decimal(n / 10).push(digit_char(n % 10))
    }
}

/// Number of bytes of the UTF-8 encoding of `s`.
pub open spec fn utf8_len(s: Seq<char>) -> nat {
    vstd::utf8::encode_utf8(s).len()
}

/// The characters of `s`.
pub(crate) fn chars_of(s: &str) -> (v: Vec<char>)
    ensures
        v@ == s@,
{
    let mut it = s.chars();
    let mut v: Vec<char> = Vec::new();
    assert(it.remaining() == s@);
    loop
        invariant
            v@ + it.remaining() == s@,
            it.decrease() is Some,
        decreases it.decrease()->0,
    {
        let ghost before = it.remaining();
        match it.next() {
            Some(c) => {
                let ghost vb = v@;
                v.push(c);
                assert(v@ + it.remaining() =~= vb + before);
            },
            None => {
                assert(v@ =~= s@);
                return v;
            },
        }
    }
}

/// `String::push`: `s` with `c` appended.
#[verifier::external_body]
fn push_char(s: &mut String, c: char)
    ensures
        final(s)@ == old(s)@.push(c),
{
    s.push(c)
}

/// The string made of the characters `v`.
pub(crate) fn string_of(v: &[char]) -> (s: String)
    ensures
        s@ == v@,
{
    let mut s = String::new();
    let mut i: usize = 0;
    while i < v.len()
        invariant
            i <= v.len(),
            s@ == v@.subrange(0, i as int),
        decreases v.len() - i,
    {
        push_char(&mut s, v[i]);
        i = i + 1;
        assert(s@ =~= v@.subrange(0, i as int));
    }
    assert(v@.subrange(0, v.len() as int) =~= v@);
    s
}

/// The string whose UTF-8 encoding is `bytes`, if `bytes` is valid UTF-8.
#[verifier::external_body]
pub(crate) fn string_from_utf8(bytes: Vec<u8>) -> (r: Option<String>)
    ensures
        r is Some <==> vstd::utf8::valid_utf8(bytes@),
        r matches Some(s) ==> s@ == vstd::utf8::decode_utf8(bytes@),
{
    String::from_utf8(bytes).ok()
}

/// The number of bytes of the UTF-8 encoding of `s`.
pub fn byte_len(s: &str) -> (r: usize)
    ensures
        r == utf8_len(s@),
{
    s.as_bytes().len()
}

/// Whether `c` has the Unicode `White_Space` property, the set that
/// `char::is_whitespace` documents: U+0009 to U+000D, U+0020, U+0085,
/// U+00A0, U+1680, U+2000 to U+200A, U+2028, U+2029, U+202F, U+205F and
/// U+3000.
pub open spec fn is_white_space(c: char) -> bool {
    let n = c as u32;
    ||| 0x9 <= n <= 0xd
    ||| n == 0x20
    ||| n == 0x85
    ||| n == 0xa0
    ||| n == 0x1680
    ||| 0x2000 <= n <= 0x200a
    ||| n == 0x2028
    ||| n == 0x2029
    ||| n == 0x202f
    ||| n == 0x205f
    ||| n == 0x3000
}

/// `s` without its leading white space.
pub open spec fn trim_start(s: Seq<char>) -> Seq<char>
    decreases s.len(),
{
    if s.len() > 0 && is_white_space(s[0]) {
        trim_start(s.drop_first())
    } else {
        s
    }
}

/// `s` without its trailing white space.
pub open spec fn trim_end(s: Seq<char>) -> Seq<char>
    decreases s.len(),
{
    if s.len() > 0 && is_white_space(s.last()) {
        trim_end(s.drop_last())
    } else {
        s
    }
}

/// What `str::trim` leaves of `s`: `s` without leading and trailing white
/// space.
pub open spec fn trimmed(s: Seq<char>) -> Seq<char> {
    trim_end(trim_start(s))
}

/// Whether `c` is white space in the sense of [`is_white_space`].
pub fn char_is_white_space(c: char) -> (r: bool)
    ensures
        r == is_white_space(c),
{
    let n = c as u32;
    (0x9 <= n && n <= 0xd) || n == 0x20 || n == 0x85 || n == 0xa0 || n == 0x1680
        || (0x2000 <= n && n <= 0x200a) || n == 0x2028 || n == 0x2029 || n == 0x202f
        || n == 0x205f || n == 0x3000
}

/// `s` with leading and trailing white space (Unicode `White_Space`)
/// removed, as `str::trim` does.
pub fn trim_str(s: &str) -> (r: String)
    ensures
        r@ == trimmed(s@),
{
    let v = chars_of(s);
    let mut start: usize = 0;
    assert(v@.subrange(0, v@.len() as int) =~= v@);
    while start < v.len() && char_is_white_space(v[start])
        invariant
            start <= v.len(),
            trim_start(v@) == trim_start(v@.subrange(start as int, v@.len() as int)),
        decreases v.len() - start,
    {
        let ghost t = v@.subrange(start as int, v@.len() as int);
        assert(t.drop_first() =~= v@.subrange(start + 1, v@.len() as int));
        start = start + 1;
    }
    let ghost front = v@.subrange(start as int, v@.len() as int);
    assert(trim_start(v@) == front);
    let mut end: usize = v.len();
    assert(v@.subrange(start as int, end as int) =~= front);
    while end > start && char_is_white_space(v[end - 1])
        invariant
            start <= end <= v.len(),
            front == v@.subrange(start as int, v@.len() as int),
            trim_end(front) == trim_end(v@.subrange(start as int, end as int)),
        decreases end - start,
    {
        let ghost t = v@.subrange(start as int, end as int);
        assert(t.drop_last() =~= v@.subrange(start as int, end - 1));
        end = end - 1;
    }
    let mut out: Vec<char> = Vec::new();
    let mut i: usize = start;
    while i < end
        invariant
            start <= i <= end <= v.len(),
            out@ == v@.subrange(start as int, i as int),
        decreases end - i,
    {
        out.push(v[i]);
        i = i + 1;
        assert(out@ =~= v@.subrange(start as int, i as int));
    }
    string_of(out.as_slice())
}

/// What `str::to_lowercase` makes of `s`: its Unicode lowercase mapping.
pub uninterp spec fn lowercased(s: Seq<char>) -> Seq<char>;

/// `str::to_lowercase`. The result is named: it follows the Unicode case
/// mapping tables, which are not written out here.
#[verifier::external_body]
pub(crate) fn lowercase_str(s: &str) -> (r: String)
    ensures
        r@ == lowercased(s@),
{
    s.to_lowercase()
}

/// Whether `a` and `b` hold the same characters.
pub fn chars_eq(a: &[char], b: &[char]) -> (r: bool)
    ensures
        r == (a@ == b@),
{
    if a.len() != b.len() {
        return false;
    }
    let mut i: usize = 0;
    while i < a.len()
        invariant
            a.len() == b.len(),
            i <= a.len(),
            forall|j: int| 0 <= j < i ==> a@[j] == b@[j],
        decreases a.len() - i,
    {
        if a[i] != b[i] {
            return false;
        }
        i = i + 1;
    }
    assert(a@ =~= b@);
    true
}

/// The views of a list of string slices.
pub open spec fn strs_view(v: Seq<&str>) -> Seq<Seq<char>> {
    v.map_values(|s: &str| s@)
}

/// The views of a list of strings.
pub open spec fn strings_view(v: Seq<String>) -> Seq<Seq<char>> {
    v.map_values(|s: String| s@)
}

/// Whether `v` holds a string equal to `s`.
pub(crate) fn contains_string(v: &Vec<String>, s: &String) -> (r: bool)
    ensures
        r == strings_view(v@).contains(s@),
{
    let sc = chars_of(s.as_str());
    let mut i: usize = 0;
    while i < v.len()
        invariant
            sc@ == s@,
            i <= v.len(),
            forall|j: int| 0 <= j < i ==> v@[j]@ != s@,
        decreases v.len() - i,
    {
        let vc = chars_of(v[i].as_str());
        if chars_eq(vc.as_slice(), sc.as_slice()) {
            assert(strings_view(v@)[i as int] == s@);
            return true;
        }
        i = i + 1;
    }
    assert forall|j: int| 0 <= j < strings_view(v@).len() implies strings_view(v@)[j] != s@ by {
        assert(strings_view(v@)[j] == v@[j]@);
    }
    false
}

/// Whether the characters of `s` starting at `at` are those of `pat`.
pub fn matches_at(s: &[char], at: usize, pat: &[char]) -> (r: bool)
    requires
        at <= s.len(),
    ensures
        r == (at + pat.len() <= s.len() && s@.subrange(at as int, at + pat.len()) == pat@),
{
    if pat.len() > s.len() - at {
        return false;
    }
    let mut j: usize = 0;
    while j < pat.len()
        invariant
            at + pat.len() <= s.len(),
            j <= pat.len(),
            forall|k: int| 0 <= k < j ==> s@[at + k] == pat@[k],
        decreases pat.len() - j,
    {
        if s[at + j] != pat[j] {
            assert(s@.subrange(at as int, at + pat.len())[j as int] != pat@[j as int]);
            return false;
        }
        j = j + 1;
    }
    assert(s@.subrange(at as int, at + pat.len()) =~= pat@);
    true
}

/// Whether `s` starts with `prefix`.
pub fn starts_with(s: &[char], prefix: &[char]) -> (r: bool)
    ensures
        r == has_prefix(s@, prefix@),
{
    matches_at(s, 0, prefix)
}

/// Appends every character of `src` to `out`.
pub fn push_all(out: &mut Vec<char>, src: &[char])
    ensures
        final(out)@ == old(out)@ + src@,
{
    let mut i: usize = 0;
    while i < src.len()
        invariant
            i <= src.len(),
            out@ == old(out)@ + src@.subrange(0, i as int),
        decreases src.len() - i,
    {
        out.push(src[i]);
        i = i + 1;
        assert(src@.subrange(0, i as int) =~= src@.subrange(0, i - 1).push(src@[i - 1]));
    }
    assert(src@.subrange(0, src.len() as int) =~= src@);
}

proof fn lemma_replace_all_step(s: Seq<char>, i: int, pat: Seq<char>, rep: Seq<char>)
    requires
        pat.len() > 0,
        0 <= i < s.len(),
    ensures
        i + pat.len() <= s.len() && s.subrange(i, i + pat.len()) == pat ==>
            replace_all(s.subrange(i, s.len() as int), pat, rep)
                == rep + replace_all(s.subrange(i + pat.len(), s.len() as int), pat, rep),
        !(i + pat.len() <= s.len() && s.subrange(i, i + pat.len()) == pat) ==>
            replace_all(s.subrange(i, s.len() as int), pat, rep)
                == seq![s[i]] + replace_all(s.subrange(i + 1, s.len() as int), pat, rep),
{
    let t = s.subrange(i, s.len() as int);
    assert(t.subrange(0, pat.len() as int) =~= s.subrange(i, i + pat.len()) || t.len() < pat.len());
    assert(t.subrange(pat.len() as int, t.len() as int) =~= s.subrange(i + pat.len(), s.len() as int)
        || t.len() < pat.len());
    assert(t.subrange(1, t.len() as int) =~= s.subrange(i + 1, s.len() as int));
    if t.len() < pat.len() {
        lemma_replace_all_short(t, pat, rep);
        lemma_replace_all_short(t.subrange(1, t.len() as int), pat, rep);
        assert(t =~= seq![s[i]] + t.subrange(1, t.len() as int));
    }
}

proof fn lemma_replace_all_short(s: Seq<char>, pat: Seq<char>, rep: Seq<char>)
    requires
        pat.len() > 0,
        s.len() < pat.len(),
    ensures
        replace_all(s, pat, rep) == s,
{
}

/// `s` with every occurrence of `pat` replaced by `rep` (as `str::replace`).
pub fn replace_chars(s: &[char], pat: &[char], rep: &[char]) -> (r: Vec<char>)
    requires
        pat.len() > 0,
    ensures
        r@ == replace_all(s@, pat@, rep@),
{
    let mut out: Vec<char> = Vec::new();
    let mut i: usize = 0;
    assert(s@.subrange(0, s.len() as int) =~= s@);
    assert(out@ + s@ =~= s@);
    while i < s.len()
        invariant
            pat.len() > 0,
            i <= s.len(),
            out@ + replace_all(s@.subrange(i as int, s.len() as int), pat@, rep@)
                == replace_all(s@, pat@, rep@),
        decreases s.len() - i,
    {
        proof {
            lemma_replace_all_step(s@, i as int, pat@, rep@);
        }
        if matches_at(s, i, pat) {
            let ghost before = out@;
            push_all(&mut out, rep);
            assert(out@ + replace_all(s@.subrange(i + pat.len(), s.len() as int), pat@, rep@)
                =~= before + (rep@ + replace_all(s@.subrange(i + pat.len(), s.len() as int), pat@, rep@)));
            i = i + pat.len();
        } else {
            let ghost before = out@;
            out.push(s[i]);
            assert(out@ + replace_all(s@.subrange(i + 1, s.len() as int), pat@, rep@)
                =~= before + (seq![s@[i as int]] + replace_all(s@.subrange(i + 1, s.len() as int), pat@, rep@)));
            i = i + 1;
        }
    }
    assert(s@.subrange(s.len() as int, s.len() as int) =~= Seq::<char>::empty());
    assert(out@ + Seq::<char>::empty() =~= out@);
    out
}

/// `s` with `pat` replaced by `rep` (as `String::replace`).
pub fn replace_str(s: &str, pat: &str, rep: &str) -> (r: String)
    requires
        pat@.len() > 0,
    ensures
        r@ == replace_all(s@, pat@, rep@),
{
    let sv = chars_of(s);
    let pv = chars_of(pat);
    let rv = chars_of(rep);
    let out = replace_chars(sv.as_slice(), pv.as_slice(), rv.as_slice());
    string_of(out.as_slice())
}

proof fn lemma_replace_first_step(s: Seq<char>, i: int, pat: Seq<char>, rep: Seq<char>)
    requires
        pat.len() > 0,
        0 <= i < s.len(),
        !(i + pat.len() <= s.len() && s.subrange(i, i + pat.len()) == pat),
    ensures
        replace_first(s.subrange(i, s.len() as int), pat, rep)
            == seq![s[i]] + replace_first(s.subrange(i + 1, s.len() as int), pat, rep),
{
    let t = s.subrange(i, s.len() as int);
    assert(t.subrange(1, t.len() as int) =~= s.subrange(i + 1, s.len() as int));
    if t.len() >= pat.len() {
        assert(t.subrange(0, pat.len() as int) =~= s.subrange(i, i + pat.len()));
    } else {
        lemma_replace_first_short(t.subrange(1, t.len() as int), pat, rep);
        assert(t =~= seq![s[i]] + t.subrange(1, t.len() as int));
    }
}

proof fn lemma_replace_first_short(s: Seq<char>, pat: Seq<char>, rep: Seq<char>)
    requires
        pat.len() > 0,
        s.len() < pat.len(),
    ensures
        replace_first(s, pat, rep) == s,
{
}

/// `s` with its first occurrence of `pat` replaced by `rep`
/// (as `str::replacen(pat, rep, 1)`).
pub fn replace_first_chars(s: &[char], pat: &[char], rep: &[char]) -> (r: Vec<char>)
    requires
        pat.len() > 0,
    ensures
        r@ == replace_first(s@, pat@, rep@),
{
    let mut out: Vec<char> = Vec::new();
    let mut i: usize = 0;
    assert(s@.subrange(0, s.len() as int) =~= s@);
    assert(out@ + s@ =~= s@);
    while i < s.len()
        invariant
            pat.len() > 0,
            i <= s.len(),
            out@ + replace_first(s@.subrange(i as int, s.len() as int), pat@, rep@)
                == replace_first(s@, pat@, rep@),
        decreases s.len() - i,
    {
        if matches_at(s, i, pat) {
            let ghost t = s@.subrange(i as int, s.len() as int);
            assert(t.subrange(0, pat.len() as int) =~= s@.subrange(i as int, i + pat.len()));
            assert(t.subrange(pat.len() as int, t.len() as int) =~= s@.subrange(i + pat.len(), s.len() as int));
            push_all(&mut out, rep);
            let tail = slice_from(s, i + pat.len());
            push_all(&mut out, tail.as_slice());
            assert(out@ =~= replace_first(s@, pat@, rep@));
            return out;
        }
        proof {
            lemma_replace_first_step(s@, i as int, pat@, rep@);
        }
        let ghost before = out@;
        out.push(s[i]);
        assert(out@ + replace_first(s@.subrange(i + 1, s.len() as int), pat@, rep@)
            =~= before + (seq![s@[i as int]] + replace_first(s@.subrange(i + 1, s.len() as int), pat@, rep@)));
        i = i + 1;
    }
    assert(s@.subrange(s.len() as int, s.len() as int) =~= Seq::<char>::empty());
    assert(out@ + Seq::<char>::empty() =~= out@);
    out
}

/// The characters of `s` from index `from` on.
pub fn slice_from(s: &[char], from: usize) -> (r: Vec<char>)
    requires
        from <= s.len(),
    ensures
        r@ == s@.subrange(from as int, s.len() as int),
{
    let mut out: Vec<char> = Vec::new();
    let mut i: usize = from;
    while i < s.len()
        invariant
            from <= i <= s.len(),
            out@ == s@.subrange(from as int, i as int),
        decreases s.len() - i,
    {
        out.push(s[i]);
        i = i + 1;
        assert(out@ =~= s@.subrange(from as int, i as int));
    }
    out
}

/// Appends the decimal representation of `n` to `out`.
pub fn push_decimal(out: &mut Vec<char>, n: u64)
    ensures
        final(out)@ == old(out)@ + decimal(n as nat),
    decreases n,
{
    if n >= 10 {
        push_decimal(out, n / 10);
    }
    let d = n % 10;
    let c = if d == 0 { '0' }
        else if d == 1 { '1' }
        else if d == 2 { '2' }
        else if d == 3 { '3' }
        else if d == 4 { '4' }
        else if d == 5 { '5' }
        else if d == 6 { '6' }
        else if d == 7 { '7' }
        else if d == 8 { '8' }
        else { '9' };
    out.push(c);
    proof {
        if n < 10 {
            assert(old(out)@ + decimal(n as nat) =~= old(out)@.push(c));
        } else {
            assert(old(out)@ + decimal(n as nat) =~= (old(out)@ + decimal((n / 10) as nat)).push(c));
        }
    }
}

/// Appends the characters of the literal-free string `s` to `out`.
pub fn push_str(out: &mut Vec<char>, s: &str)
    ensures
        final(out)@ == old(out)@ + s@,
{
    let v = chars_of(s);
    push_all(out, v.as_slice());
}

} // verus!
