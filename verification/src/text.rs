//! Character-level text operations with their specifications.
use vstd::prelude::*;

verus! {

/// The texts of a list of strings.
pub open spec fn texts(v: Seq<String>) -> Seq<Seq<char>> {
    v.map_values(|s: String| s@)
}

/// `String::push`: appends one character at the end of the string.
#[verifier::external_body]
pub(crate) fn push_char(s: &mut String, c: char)
    ensures
        final(s)@ == old(s)@.push(c),
{
    s.push(c);
}

/// The characters of `s`, in order.
pub fn chars_of(s: &str) -> (r: Vec<char>)
    ensures
        r@ == s@,
{
    let mut r: Vec<char> = Vec::new();
    for c in it: s.chars()
        invariant
            r@ == it.seq().take(it.index() as int),
            it.seq() == s@,
    {
        r.push(c);
    }
    r
}

/// The string made of the characters of `cs`, in order.
pub fn string_from_chars(cs: &Vec<char>) -> (r: String)
    ensures
        r@ == cs@,
{
    let mut r = String::new();
    let mut i: usize = 0;
    while i < cs.len()
        invariant
            i <= cs.len(),
            r@ == cs@.take(i as int),
        decreases cs.len() - i,
    {
        push_char(&mut r, cs[i]);
        assert(cs@.take(i as int).push(cs@[i as int]) =~= cs@.take(i + 1));
        i += 1;
    }
    assert(cs@.take(cs.len() as int) =~= cs@);
    r
}


/// `p` occurs in `s` starting at position `i`.
pub open spec fn occurs_at(s: Seq<char>, p: Seq<char>, i: int) -> bool {
    0 <= i && i + p.len() <= s.len() && s.subrange(i, i + p.len()) =~= p
}

/// `s` begins with `p`.
pub open spec fn has_prefix(s: Seq<char>, p: Seq<char>) -> bool {
    occurs_at(s, p, 0)
}

/// `s` ends with `p`.
pub open spec fn has_suffix(s: Seq<char>, p: Seq<char>) -> bool {
    p.len() <= s.len() && occurs_at(s, p, s.len() - p.len())
}

/// `p` occurs somewhere in `s`.
pub open spec fn contains_text(s: Seq<char>, p: Seq<char>) -> bool {
    exists|i: int| occurs_at(s, p, i)
}

fn matches_at(s: &Vec<char>, p: &Vec<char>, i: usize) -> (r: bool)
    ensures
        r == occurs_at(s@, p@, i as int),
{
    if i > s.len() || p.len() > s.len() - i {
        return false;
    }
    let mut j: usize = 0;
    while j < p.len()
        invariant
            j <= p.len(),
            i + p.len() <= s.len(),
            s@.subrange(i as int, i + j) =~= p@.take(j as int),
        decreases p.len() - j,
    {
        if s[i + j] != p[j] {
            assert(s@.subrange(i as int, i + p.len())[j as int] != p@[j as int]);
            return false;
        }
        assert(s@.subrange(i as int, i + j + 1) =~= p@.take(j + 1));
        j += 1;
    }
    assert(p@.take(p.len() as int) =~= p@);
    true
}

/// Whether `s` begins with `p` (as `str::starts_with` with a string pattern).
pub fn starts_with_text(s: &str, p: &str) -> (r: bool)
    ensures
        r == has_prefix(s@, p@),
{
    let sc = chars_of(s);
    let pc = chars_of(p);
    matches_at(&sc, &pc, 0)
}

/// Whether `s` ends with `p` (as `str::ends_with` with a string pattern).
pub fn ends_with_text(s: &str, p: &str) -> (r: bool)
    ensures
        r == has_suffix(s@, p@),
{
    let sc = chars_of(s);
    let pc = chars_of(p);
    if pc.len() > sc.len() {
        return false;
    }
    matches_at(&sc, &pc, sc.len() - pc.len())
}

/// Whether `p` occurs in `s` (as `str::contains` with a string pattern).
pub fn contains_str(s: &str, p: &str) -> (r: bool)
    ensures
        r == contains_text(s@, p@),
{
    let sc = chars_of(s);
    let pc = chars_of(p);
    if pc.len() > sc.len() {
        return false;
    }
    let last = sc.len() - pc.len();
    let mut i: usize = 0;
    loop
        invariant
            i <= last,
            last + pc@.len() == sc@.len(),
            sc@ == s@,
            pc@ == p@,
            forall|k: int| 0 <= k < i ==> !occurs_at(sc@, pc@, k),
        ensures
            sc@ == s@,
            pc@ == p@,
            last + pc@.len() == sc@.len(),
            forall|k: int| 0 <= k <= last ==> !occurs_at(sc@, pc@, k),
        decreases last - i,
    {
        if matches_at(&sc, &pc, i) {
            return true;
        }
        if i == last {
            break;
        }
        i += 1;
    }
    assert forall|k: int| !occurs_at(sc@, pc@, k) by {
        if 0 <= k <= last {
        }
    }
    false
}


/// `s` with `r` put before each of its characters and once more at its end:
/// what `str::replace` makes of it when the pattern is empty, since the empty
/// pattern occurs at every character boundary.
pub open spec fn interleave(s: Seq<char>, r: Seq<char>) -> Seq<char>
    decreases s.len(),
{
    if s.len() == 0 {
        r
    } else {
        r + seq![s[0]] + interleave(s.skip(1), r)
    }
}

/// Every non-overlapping occurrence of `p` in `s`, scanning from the left,
/// replaced by `r` (as `str::replace`); an empty `p` occurs at every
/// character boundary.
pub open spec fn replace_all(s: Seq<char>, p: Seq<char>, r: Seq<char>) -> Seq<char>
    decreases s.len(),
{
    if p.len() == 0 {
        interleave(s, r)
    } else if s.len() == 0 {
        Seq::empty()
    } else if occurs_at(s, p, 0) {
        r + replace_all(s.skip(p.len() as int), p, r)
    } else {
        seq![s[0]] + replace_all(s.skip(1), p, r)
    }
}

/// Appends the characters of `rc` to `acc`.
fn extend_chars(acc: &mut Vec<char>, rc: &Vec<char>)
    ensures
        final(acc)@ == old(acc)@ + rc@,
{
    let mut k: usize = 0;
    while k < rc.len()
        invariant
            k <= rc.len(),
            acc@ == old(acc)@ + rc@.take(k as int),
        decreases rc.len() - k,
    {
        acc.push(rc[k]);
        assert(rc@.take(k as int).push(rc@[k as int]) =~= rc@.take(k + 1));
        k += 1;
    }
    assert(rc@.take(rc.len() as int) =~= rc@);
}

/// `r` put before each character of `sc` and once more at its end.
fn interleave_chars(sc: &Vec<char>, rc: &Vec<char>) -> (acc: Vec<char>)
    ensures
        acc@ == interleave(sc@, rc@),
{
    let mut acc: Vec<char> = Vec::new();
    let mut i: usize = 0;
    assert(sc@.skip(0) =~= sc@);
    assert(acc@ + interleave(sc@, rc@) =~= interleave(sc@, rc@));
    while i < sc.len()
        invariant
            i <= sc.len(),
            interleave(sc@, rc@) == acc@ + interleave(sc@.skip(i as int), rc@),
        decreases sc.len() - i,
    {
        let ghost rest = sc@.skip(i as int);
        assert(rest[0] == sc@[i as int]);
        assert(rest.skip(1) =~= sc@.skip(i + 1));
        let ghost before = acc@;
        extend_chars(&mut acc, rc);
        acc.push(sc[i]);
        assert(before + (rc@ + seq![sc@[i as int]] + interleave(sc@.skip(i + 1), rc@)) =~= acc@
            + interleave(sc@.skip(i + 1), rc@));
        i += 1;
    }
    assert(sc@.skip(i as int) =~= Seq::<char>::empty());
    extend_chars(&mut acc, rc);
    acc
}

/// Replaces every occurrence of `p` in `s` by `r`, as `str::replace` does.
pub fn replace_str(s: &str, p: &str, r: &str) -> (out: String)
    ensures
        out@ == replace_all(s@, p@, r@),
{
    let sc = chars_of(s);
    let pc = chars_of(p);
    let rc = chars_of(r);
    if pc.len() == 0 {
        let acc = interleave_chars(&sc, &rc);
        return string_from_chars(&acc);
    }
    let mut acc: Vec<char> = Vec::new();
    let mut i: usize = 0;
    assert(sc@.skip(0) =~= sc@);
    assert(acc@ + replace_all(sc@, pc@, rc@) =~= replace_all(sc@, pc@, rc@));
    while i < sc.len()
        invariant
            i <= sc.len(),
            pc@.len() > 0,
            replace_all(sc@, pc@, rc@) == acc@ + replace_all(sc@.skip(i as int), pc@, rc@),
        decreases sc.len() - i,
    {
        let ghost rest = sc@.skip(i as int);
        if matches_at(&sc, &pc, i) {
            assert(rest.subrange(0, pc@.len() as int) =~= sc@.subrange(i as int, i + pc@.len()));
            assert(rest.skip(pc@.len() as int) =~= sc@.skip(i + pc@.len()));
            let ghost before = acc@;
            extend_chars(&mut acc, &rc);
            assert(before + (rc@ + replace_all(sc@.skip(i + pc@.len()), pc@, rc@)) =~= acc@
                + replace_all(sc@.skip(i + pc@.len()), pc@, rc@));
            i = i + pc.len();
        } else {
            proof {
                if occurs_at(rest, pc@, 0int) {
                    assert(rest.subrange(0, pc@.len() as int) =~= sc@.subrange(
                        i as int,
                        i + pc@.len(),
                    ));
                }
            }
            assert(rest[0] == sc@[i as int]);
            assert(rest.skip(1) =~= sc@.skip(i + 1));
            assert(acc@ + (seq![sc@[i as int]] + replace_all(sc@.skip(i + 1), pc@, rc@)) =~= acc@.push(
                sc@[i as int],
            ) + replace_all(sc@.skip(i + 1), pc@, rc@));
            acc.push(sc[i]);
            i += 1;
        }
    }
    assert(sc@.skip(i as int) =~= Seq::<char>::empty());
    assert(acc@ + Seq::<char>::empty() =~= acc@);
    string_from_chars(&acc)
}


/// Unicode `White_Space`, the characters for which `char::is_whitespace` holds.
pub open spec fn is_white_space(c: char) -> bool {
    let u = c as u32;
    ||| 0x09 <= u <= 0x0d
    ||| u == 0x20
    ||| u == 0x85
    ||| u == 0xa0
    ||| u == 0x1680
    ||| 0x2000 <= u <= 0x200a
    ||| u == 0x2028
    ||| u == 0x2029
    ||| u == 0x202f
    ||| u == 0x205f
    ||| u == 0x3000
}

/// `s` without its leading white space.
pub open spec fn trim_start(s: Seq<char>) -> Seq<char>
    decreases s.len(),
{
    if s.len() > 0 && is_white_space(s[0]) {
        trim_start(s.drop_first())
    } else {
        s
    }
}

/// `s` without its trailing white space.
pub open spec fn trim_end(s: Seq<char>) -> Seq<char>
    decreases s.len(),
{
    if s.len() > 0 && is_white_space(s.last()) {
        trim_end(s.drop_last())
    } else {
        s
    }
}

/// `s` without leading and trailing white space (as `str::trim`).
pub open spec fn trimmed(s: Seq<char>) -> Seq<char> {
    trim_end(trim_start(s))
}

proof fn lemma_trim_start_shape(s: Seq<char>)
    ensures
        trim_start(s).len() <= s.len(),
        trim_start(s) =~= s.skip(s.len() - trim_start(s).len()),
        trim_start(s).len() > 0 ==> !is_white_space(trim_start(s)[0]),
    decreases s.len(),
{
    if s.len() > 0 && is_white_space(s[0]) {
        lemma_trim_start_shape(s.drop_first());
    }
}

proof fn lemma_trim_end_shape(s: Seq<char>)
    ensures
        trim_end(s).len() <= s.len(),
        trim_end(s) =~= s.take(trim_end(s).len() as int),
        trim_end(s).len() > 0 ==> !is_white_space(trim_end(s).last()),
    decreases s.len(),
{
    if s.len() > 0 && is_white_space(s.last()) {
        lemma_trim_end_shape(s.drop_last());
    }
}

/// A trimmed text neither begins nor ends with white space, lies within the
/// original, and trimming it again changes nothing.
pub proof fn law_trim_idempotent(s: Seq<char>)
    ensures
        trimmed(s).len() > 0 ==> !is_white_space(trimmed(s)[0]) && !is_white_space(
            trimmed(s).last(),
        ),
        trimmed(s).len() <= s.len(),
        trimmed(trimmed(s)) == trimmed(s),
{
    let a = trim_start(s);
    let t = trim_end(a);
    lemma_trim_start_shape(s);
    lemma_trim_end_shape(a);
    if t.len() > 0 {
        assert(t[0] == a[0]);
        assert(trim_start(t) == t);
        assert(trim_end(t) == t);
    } else {
        assert(trim_start(t) =~= t);
        assert(trim_end(t) =~= t);
    }
}

/// Where the pattern does not occur, replacing it leaves the text as it was.
pub proof fn law_replace_without_occurrence(s: Seq<char>, p: Seq<char>, r: Seq<char>)
    requires
        !contains_text(s, p),
    ensures
        replace_all(s, p, r) == s,
    decreases s.len(),
{
    if p.len() == 0 {
        assert(occurs_at(s, p, 0));
    } else if s.len() > 0 {
        assert(!occurs_at(s, p, 0));
        assert forall|k: int| !occurs_at(s.skip(1), p, k) by {
            if occurs_at(s.skip(1), p, k) {
                assert(s.subrange(k + 1, k + 1 + p.len()) =~= s.skip(1).subrange(k, k + p.len()));
                assert(occurs_at(s, p, k + 1));
            }
        }
        law_replace_without_occurrence(s.skip(1), p, r);
        assert(seq![s[0]] + s.skip(1) =~= s);
    }
}

/// Whether `c` is Unicode white space (as `char::is_whitespace`).
pub fn is_white_space_char(c: char) -> (r: bool)
    ensures
        r == is_white_space(c),
{
    let u = c as u32;
    (0x09 <= u && u <= 0x0d) || u == 0x20 || u == 0x85 || u == 0xa0 || u == 0x1680 || (0x2000 <= u
        && u <= 0x200a) || u == 0x2028 || u == 0x2029 || u == 0x202f || u == 0x205f || u == 0x3000
}

/// `s` with leading and trailing white space removed, as `str::trim` does.
pub fn trim_text(s: &str) -> (r: String)
    ensures
        r@ == trimmed(s@),
{
    let sc = chars_of(s);
    let mut a: usize = 0;
    assert(sc@.skip(0) =~= sc@);
    while a < sc.len() && is_white_space_char(sc[a])
        invariant
            a <= sc.len(),
            trim_start(sc@) == trim_start(sc@.skip(a as int)),
        decreases sc.len() - a,
    {
        assert(sc@.skip(a as int).drop_first() =~= sc@.skip(a + 1));
        a += 1;
    }
    let ghost front = sc@.skip(a as int);
    assert(trim_start(front) == front);
    let mut b: usize = sc.len();
    assert(front.take(b - a) =~= front);
    while b > a && is_white_space_char(sc[b - 1])
        invariant
            a <= b <= sc.len(),
            front == sc@.skip(a as int),
            trim_end(front) == trim_end(front.take(b - a)),
        decreases b - a,
    {
        assert(front.take(b - a).drop_last() =~= front.take(b - 1 - a));
        b -= 1;
    }
    let mut out: Vec<char> = Vec::new();
    let mut k: usize = a;
    while k < b
        invariant
            a <= k <= b <= sc.len(),
            out@ =~= sc@.subrange(a as int, k as int),
        decreases b - k,
    {
        out.push(sc[k]);
        k += 1;
    }
    assert(front.take(b - a) =~= sc@.subrange(a as int, b as int));
    string_from_chars(&out)
}


/// The lower-case digit for `d` in bases up to sixteen.
pub open spec fn digit_char(d: nat) -> char {
    if d < 10 {
        (48 + d) as char
    } else {
        (87 + d) as char
    }
}

/// `n` written in base `b` with lower-case digits and no leading zeros
/// (as the `{}` and `{:x}` formats write an unsigned integer).
pub open spec fn radix_digits(n: nat, b: nat) -> Seq<char>
    recommends
        2 <= b <= 16,
    decreases n,
{
    if n < b || b < 2 {
        seq![digit_char(n)]
    } else {
        proof {
            assert(n / b < n) by (nonlinear_arith)
                requires
                    2 <= b <= n,
            ;
        }
        radix_digits(n / b, b).push(digit_char(n % b))
    }
}

proof fn lemma_quotient_smaller(n: nat, b: nat)
    requires
        2 <= b <= n,
    ensures
        n / b < n,
        n % b < b,
{
    assert(n / b < n) by (nonlinear_arith)
        requires
            2 <= b <= n,
    ;
}

fn digit_of(d: u8) -> (c: char)
    requires
        d < 16,
    ensures
        c == digit_char(d as nat),
{
    if d < 10 {
        (48u8 + d) as char
    } else {
        (87u8 + d) as char
    }
}

fn radix_chars(n: u128, b: u128) -> (r: Vec<char>)
    requires
        2 <= b <= 16,
    ensures
        r@ == radix_digits(n as nat, b as nat),
    decreases n,
{
    if n < b {
        let mut v: Vec<char> = Vec::new();
        v.push(digit_of(n as u8));
        v
    } else {
        proof {
            lemma_quotient_smaller(n as nat, b as nat);
        }
        let mut v = radix_chars(n / b, b);
        v.push(digit_of((n % b) as u8));
        v
    }
}

/// `n` in decimal, as `format!("{}", n)` writes it.
pub fn decimal_text(n: u128) -> (r: String)
    ensures
        r@ == radix_digits(n as nat, 10),
{
    string_from_chars(&radix_chars(n, 10))
}

/// `n` in lower-case hexadecimal, as `format!("{:x}", n)` writes it.
pub fn hex_text(n: u128) -> (r: String)
    ensures
        r@ == radix_digits(n as nat, 16),
{
    string_from_chars(&radix_chars(n, 16))
}


/// Lexicographic order on byte strings.
pub open spec fn bytes_le(a: Seq<u8>, b: Seq<u8>) -> bool
    decreases a.len(),
{
    if a.len() == 0 {
        true
    } else if b.len() == 0 {
        false
    } else if a[0] != b[0] {
        a[0] < b[0]
    } else {
        bytes_le(a.drop_first(), b.drop_first())
    }
}

/// The order of `Ord` for `str` and `String`: their UTF-8 bytes compared lexicographically.
pub open spec fn text_le(a: Seq<char>, b: Seq<char>) -> bool {
    bytes_le(vstd::utf8::encode_utf8(a), vstd::utf8::encode_utf8(b))
}

/// Texts in non-decreasing order.
pub open spec fn texts_sorted(s: Seq<String>) -> bool {
    forall|i: int, j: int| 0 <= i < j < s.len() ==> text_le(#[trigger] s[i]@, #[trigger] s[j]@)
}

/// Any two byte strings are ordered one way or the other.
pub proof fn lemma_bytes_le_total(a: Seq<u8>, b: Seq<u8>)
    ensures
        bytes_le(a, b) || bytes_le(b, a),
    decreases a.len(),
{
    if a.len() > 0 && b.len() > 0 && a[0] == b[0] {
        lemma_bytes_le_total(a.drop_first(), b.drop_first());
    }
}

/// The order on byte strings is transitive.
pub proof fn lemma_bytes_le_transitive(a: Seq<u8>, b: Seq<u8>, c: Seq<u8>)
    requires
        bytes_le(a, b),
        bytes_le(b, c),
    ensures
        bytes_le(a, c),
    decreases a.len(),
{
    if a.len() > 0 && b.len() > 0 && c.len() > 0 && a[0] == b[0] && b[0] == c[0] {
        lemma_bytes_le_transitive(a.drop_first(), b.drop_first(), c.drop_first());
    }
}

fn bytes_le_exec(a: &[u8], b: &[u8]) -> (r: bool)
    ensures
        r == bytes_le(a@, b@),
{
    let mut i: usize = 0;
    assert(a@.skip(0) =~= a@ && b@.skip(0) =~= b@);
    while i < a.len() && i < b.len() && a[i] == b[i]
        invariant
            i <= a.len(),
            i <= b.len(),
            bytes_le(a@, b@) == bytes_le(a@.skip(i as int), b@.skip(i as int)),
        decreases a.len() - i,
    {
        assert(a@.skip(i as int).drop_first() =~= a@.skip(i + 1));
        assert(b@.skip(i as int).drop_first() =~= b@.skip(i + 1));
        i += 1;
    }
    if i == a.len() {
        true
    } else if i == b.len() {
        false
    } else {
        a[i] < b[i]
    }
}

/// Whether `a <= b` in the order of `Ord` for `String`.
pub fn text_le_exec(a: &String, b: &String) -> (r: bool)
    ensures
        r == text_le(a@, b@),
{
    bytes_le_exec(a.as_str().as_bytes(), b.as_str().as_bytes())
}

/// The texts of `v` in non-decreasing order, as `Vec::sort` orders them.
pub fn sort_texts(v: Vec<String>) -> (r: Vec<String>)
    ensures
        r@.to_multiset() == v@.to_multiset(),
        texts_sorted(r@),
{
    broadcast use vstd::seq_lib::to_multiset_insert;
    broadcast use vstd::seq_lib::group_to_multiset_ensures;

    let mut out: Vec<String> = Vec::new();
    let mut i: usize = 0;
    assert(v@.take(0) =~= out@);
    while i < v.len()
        invariant
            i <= v.len(),
            out@.to_multiset() == v@.take(i as int).to_multiset(),
            texts_sorted(out@),
        decreases v.len() - i,
    {
        let x = v[i].clone();
        let mut pos: usize = 0;
        while pos < out.len() && text_le_exec(&out[pos], &x)
            invariant
                pos <= out.len(),
                forall|k: int| 0 <= k < pos ==> text_le(#[trigger] out@[k]@, x@),
            decreases out.len() - pos,
        {
            pos += 1;
        }
        proof {
            if pos < out.len() {
                lemma_bytes_le_total(
                    vstd::utf8::encode_utf8(out@[pos as int]@),
                    vstd::utf8::encode_utf8(x@),
                );
                assert forall|k: int| pos <= k < out.len() implies text_le(x@, #[trigger] out@[k]@) by {
                    if k > pos {
                        lemma_bytes_le_transitive(
                            vstd::utf8::encode_utf8(x@),
                            vstd::utf8::encode_utf8(out@[pos as int]@),
                            vstd::utf8::encode_utf8(out@[k]@),
                        );
                    }
                }
            }
        }
        let ghost before = out@;
        out.insert(pos, x);
        proof {
            assert(v@.take(i + 1) =~= v@.take(i as int).push(v@[i as int]));
            assert(out@ == before.insert(pos as int, v@[i as int]));
            vstd::seq_lib::to_multiset_insert(before, pos as int, v@[i as int]);
            v@.take(i as int).to_multiset_ensures();
            assert(out@.to_multiset() == before.to_multiset().insert(v@[i as int]));
            assert(v@.take(i + 1).to_multiset() == v@.take(i as int).to_multiset().insert(
                v@[i as int],
            ));
            assert forall|a: int, b: int| 0 <= a < b < out@.len() implies text_le(
                #[trigger] out@[a]@,
                #[trigger] out@[b]@,
            ) by {
                if b < pos {
                } else if a < pos && b == pos {
                } else if a < pos {
                    assert(out@[b] == before[b - 1]);
                } else if a == pos {
                    assert(out@[b] == before[b - 1]);
                } else {
                    assert(out@[a] == before[a - 1]);
                    assert(out@[b] == before[b - 1]);
                }
            }
        }
        i += 1;
    }
    assert(v@.take(v.len() as int) =~= v@);
    out
}

} // verus!
