//! Character-level helpers for the textual responses of the module.

use vstd::prelude::*;

verus! {

/// Whether `c` has the Unicode `White_Space` property.
pub open spec fn is_white_space(c: char) -> bool {
    let v = c as u32;
    (0x09 <= v <= 0x0d) || v == 0x20 || v == 0x85 || v == 0xa0 || v == 0x1680 || (0x2000 <= v <= 0x200a)
        || v == 0x2028 || v == 0x2029 || v == 0x202f || v == 0x205f || v == 0x3000
}

/// Whether `c` has the Unicode `White_Space` property.
pub fn white_space(c: char) -> (r: bool)
    ensures
        r == is_white_space(c),
{
    let v = c as u32;
    (0x09 <= v && v <= 0x0d) || v == 0x20 || v == 0x85 || v == 0xa0 || v == 0x1680 || (0x2000 <= v
        && v <= 0x200a) || v == 0x2028 || v == 0x2029 || v == 0x202f || v == 0x205f || v == 0x3000
}

/// `s` without its leading white space.
pub open spec fn trim_start(s: Seq<char>) -> Seq<char>
    decreases s.len(),
{
    if s.len() > 0 && is_white_space(s[0]) {
        trim_start(s.drop_first())
    } else {
        s
    }
}

/// `s` without its trailing white space.
pub open spec fn trim_end(s: Seq<char>) -> Seq<char>
    decreases s.len(),
{
    if s.len() > 0 && is_white_space(s.last()) {
        trim_end(s.drop_last())
    } else {
        s
    }
}

/// `s` without its leading and trailing white space.
pub open spec fn trim(s: Seq<char>) -> Seq<char> {
    trim_end(trim_start(s))
}

/// The characters of `s`.
pub fn chars_of(s: &str) -> (r: Vec<char>)
    ensures
        r@ == s@,
{
    let mut r: Vec<char> = Vec::new();
    for c in it: s.chars()
        invariant
            r@ == it.seq().subrange(0, it.index() as int),
    {
        r.push(c);
    }
    assert(r@ =~= s@);
    r
}

/// `String::push` of std: appends the character `c` to the end of `s`.
#[verifier::external_body]
fn string_push(s: &mut String, c: char)
    ensures
        final(s)@ == old(s)@.push(c),
{
    s.push(c);
}

/// `char::from_u32` of std: the character with the code point `v`, where
/// `v` is one (at most `0x10FFFF`, and no surrogate).
#[verifier::external_body]
fn char_from_code(v: u32) -> (r: Option<char>)
    ensures
        r == (if v <= 0x10FFFF && !(0xD800 <= v <= 0xDFFF) {
            Some(v as char)
        } else {
            None
        }),
{
    char::from_u32(v)
}

/// The bytes of the characters `t`, each cut to its low eight bits: for
/// characters read one per byte (see [latin1]), the bytes they were read
/// from.
pub open spec fn low_bytes(t: Seq<char>) -> Seq<u8> {
    Seq::new(t.len(), |i: int| (t[i] as u32 % 256) as u8)
}

/// Whether `b` is a UTF-8 continuation byte.
pub open spec fn is_continuation(b: u8) -> bool {
    0x80 <= b <= 0xBF
}

/// The code point that the UTF-8 sequence at the start of `b` encodes and
/// the length of that sequence, where a well formed one starts there: one
/// byte below `0x80`; or a lead byte and one to three continuation bytes,
/// with no overlong form, no surrogate and no code point above `0x10FFFF`.
pub open spec fn utf8_first(b: Seq<u8>) -> Option<(u32, nat)> {
    if b.len() >= 1 && b[0] < 0x80 {
        Some((b[0] as u32, 1))
    } else if b.len() >= 2 && 0xC2 <= b[0] <= 0xDF && is_continuation(b[1]) {
        Some((((b[0] - 0xC0) * 64 + (b[1] - 0x80)) as u32, 2))
    } else if b.len() >= 3 && 0xE0 <= b[0] <= 0xEF && is_continuation(b[1]) && is_continuation(b[2]) {
        let v = (b[0] - 0xE0) * 4096 + (b[1] - 0x80) * 64 + (b[2] - 0x80);
        if v >= 0x800 && !(0xD800 <= v <= 0xDFFF) {
            Some((v as u32, 3))
        } else {
            None
        }
    } else if b.len() >= 4 && 0xF0 <= b[0] <= 0xF4 && is_continuation(b[1]) && is_continuation(b[2])
        && is_continuation(b[3]) {
        let v = (b[0] - 0xF0) * 262144 + (b[1] - 0x80) * 4096 + (b[2] - 0x80) * 64 + (b[3] - 0x80);
        if 0x10000 <= v <= 0x10FFFF {
            Some((v as u32, 4))
        } else {
            None
        }
    } else {
        None
    }
}

/// The characters that the bytes `b` encode in UTF-8, if they are well
/// formed UTF-8 throughout.
pub open spec fn utf8_decode(b: Seq<u8>) -> Option<Seq<char>>
    decreases b.len(),
{
    if b.len() == 0 {
        Some(Seq::empty())
    } else {
        match utf8_first(b) {
            Some((v, n)) => if 1 <= n <= b.len() {
                match utf8_decode(b.subrange(n as int, b.len() as int)) {
                    Some(rest) => Some(seq![v as char] + rest),
                    None => None,
                }
            } else {
                None
            },
            None => None,
        }
    }
}

fn first_code(b: &[u8], i: usize) -> (r: Option<(u32, usize)>)
    requires
        i < b@.len(),
    ensures
        match utf8_first(b@.subrange(i as int, b@.len() as int)) {
            Some((v, n)) => r == Some((v, n as usize)),
            None => r is None,
        },
{
    let ghost t = b@.subrange(i as int, b@.len() as int);
    let rest = b.len() - i;
    let b0 = b[i];
    assert(t[0] == b0);
    if b0 < 0x80 {
        return Some((b0 as u32, 1));
    }
    if rest >= 2 && 0xC2 <= b0 && b0 <= 0xDF {
        let b1 = b[i + 1];
        assert(t[1] == b1);
        if 0x80 <= b1 && b1 <= 0xBF {
            let v: u32 = (b0 as u32 - 0xC0) * 64 + (b1 as u32 - 0x80);
            return Some((v, 2));
        }
        return None;
    }
    if rest >= 3 && 0xE0 <= b0 && b0 <= 0xEF {
        let b1 = b[i + 1];
        let b2 = b[i + 2];
        assert(t[1] == b1 && t[2] == b2);
        if 0x80 <= b1 && b1 <= 0xBF && 0x80 <= b2 && b2 <= 0xBF {
            let v: u32 = (b0 as u32 - 0xE0) * 4096 + (b1 as u32 - 0x80) * 64 + (b2 as u32 - 0x80);
            if v >= 0x800 && !(0xD800 <= v && v <= 0xDFFF) {
                return Some((v, 3));
            }
        }
        return None;
    }
    if rest >= 4 && 0xF0 <= b0 && b0 <= 0xF4 {
        let b1 = b[i + 1];
        let b2 = b[i + 2];
        let b3 = b[i + 3];
        assert(t[1] == b1 && t[2] == b2 && t[3] == b3);
        if 0x80 <= b1 && b1 <= 0xBF && 0x80 <= b2 && b2 <= 0xBF && 0x80 <= b3 && b3 <= 0xBF {
            let v: u32 = (b0 as u32 - 0xF0) * 262144 + (b1 as u32 - 0x80) * 4096 + (b2 as u32 - 0x80) * 64 + (b3 as u32
                - 0x80);
            if 0x10000 <= v && v <= 0x10FFFF {
                return Some((v, 4));
            }
        }
        return None;
    }
    None
}

/// The string that the bytes `b` encode in UTF-8, if they are well formed
/// UTF-8 (see [utf8_decode]).
pub fn decode_utf8(b: &[u8]) -> (r: Option<String>)
    ensures
        match utf8_decode(b@) {
            Some(t) => r matches Some(s) && s@ == t,
            None => r is None,
        },
{
    let mut out: Vec<char> = Vec::new();
    let mut i: usize = 0;
    assert(b@.subrange(0, b@.len() as int) =~= b@);
    while i < b.len()
        invariant
            i <= b@.len(),
            utf8_decode(b@) == match utf8_decode(b@.subrange(i as int, b@.len() as int)) {
                Some(rest) => Some(out@ + rest),
                None => None::<Seq<char>>,
            },
        decreases b@.len() - i,
    {
        let ghost t = b@.subrange(i as int, b@.len() as int);
        match first_code(b, i) {
            Some((v, n)) => {
                let ghost later = b@.subrange(i + n, b@.len() as int);
                assert(t.subrange(n as int, t.len() as int) =~= later);
                let ghost before = out@;
                match char_from_code(v) {
                    Some(c) => {
                        assert(c == v as char);
                        assert(utf8_decode(t) == match utf8_decode(later) {
                            Some(rest) => Some(seq![c] + rest),
                            None => None::<Seq<char>>,
                        });
                        out.push(c);
                        i = i + n;
                        proof {
                            match utf8_decode(later) {
                                Some(rest) => {
                                    assert(before + (seq![c] + rest) =~= out@ + rest);
                                },
                                None => {},
                            }
                        }
                    },
                    None => {
                        return None;
                    },
                }
            },
            None => {
                return None;
            },
        }
    }
    proof {
        assert(b@.subrange(i as int, b@.len() as int) =~= Seq::<u8>::empty());
        assert(out@ + Seq::<char>::empty() =~= out@);
    }
    Some(string_of(out.as_slice()))
}

/// The string that the characters `t`, read one per byte, hold as UTF-8:
/// the bytes they were read from (see [low_bytes]), decoded (see
/// [utf8_decode]).
pub open spec fn utf8_text(t: Seq<char>) -> Option<Seq<char>> {
    utf8_decode(low_bytes(t))
}

/// The string that the characters `t`, read one per byte, hold as UTF-8
/// (see [utf8_text]).
pub fn read_utf8(t: &[char]) -> (r: Option<String>)
    ensures
        match utf8_text(t@) {
            Some(s) => r matches Some(v) && v@ == s,
            None => r is None,
        },
{
    let mut b: Vec<u8> = Vec::new();
    let mut i: usize = 0;
    while i < t.len()
        invariant
            i <= t@.len(),
            b@ == low_bytes(t@.subrange(0, i as int)),
        decreases t@.len() - i,
    {
        let v: u32 = t[i] as u32;
        b.push((v % 256) as u8);
        i = i + 1;
        proof {
            assert(b@ =~= low_bytes(t@.subrange(0, i as int)));
        }
    }
    proof {
        assert(t@.subrange(0, t@.len() as int) =~= t@);
    }
    decode_utf8(b.as_slice())
}

/// The string of the characters `c`.
pub fn string_of(c: &[char]) -> (r: String)
    ensures
        r@ == c@,
{
    let mut r = String::new();
    let mut i: usize = 0;
    while i < c.len()
        invariant
            0 <= i <= c@.len(),
            r@ == c@.subrange(0, i as int),
        decreases c@.len() - i,
    {
        string_push(&mut r, c[i]);
        proof {
            assert(c@.subrange(0, i + 1) =~= c@.subrange(0, i as int).push(c@[i as int]));
        }
        i = i + 1;
    }
    assert(c@.subrange(0, c@.len() as int) =~= c@);
    r
}

proof fn lemma_trim_start_skip(s: Seq<char>, i: int)
    requires
        0 <= i <= s.len(),
        forall|k: int| 0 <= k < i ==> is_white_space(#[trigger] s[k]),
    ensures
        trim_start(s) == trim_start(s.subrange(i, s.len() as int)),
    decreases i,
{
    if i > 0 {
        assert(s.drop_first().subrange(i - 1, s.drop_first().len() as int) =~= s.subrange(i, s.len() as int));
        lemma_trim_start_skip(s.drop_first(), i - 1);
    } else {
        assert(s.subrange(0, s.len() as int) =~= s);
    }
}

proof fn lemma_trim_end_skip(s: Seq<char>, j: int)
    requires
        0 <= j <= s.len(),
        forall|k: int| j <= k < s.len() ==> is_white_space(#[trigger] s[k]),
    ensures
        trim_end(s) == trim_end(s.subrange(0, j)),
    decreases s.len() - j,
{
    if j < s.len() {
        assert(s.drop_last().subrange(0, j) =~= s.subrange(0, j));
        lemma_trim_end_skip(s.drop_last(), j);
    } else {
        assert(s.subrange(0, j) =~= s);
    }
}

/// The characters of `s` without leading and trailing white space.
pub fn trimmed(s: &[char]) -> (r: Vec<char>)
    ensures
        r@ == trim(s@),
{
    let n = s.len();
    let mut i: usize = 0;
    while i < n && white_space(s[i])
        invariant
            0 <= i <= n,
            n == s@.len(),
            forall|k: int| 0 <= k < i ==> is_white_space(#[trigger] s@[k]),
        decreases n - i,
    {
        i = i + 1;
    }
    proof {
        lemma_trim_start_skip(s@, i as int);
    }
    let mut j: usize = n;
    while j > i && white_space(s[j - 1])
        invariant
            i <= j <= n,
            n == s@.len(),
            forall|k: int| j <= k < n ==> is_white_space(#[trigger] s@[k]),
        decreases j,
    {
        j = j - 1;
    }
    let ghost mid = s@.subrange(i as int, n as int);
    proof {
        if i < n {
            assert(!is_white_space(s@[i as int]));
            assert(trim_start(mid) == mid);
        } else {
            assert(mid.len() == 0);
        }
        assert forall|k: int| j - i <= k < mid.len() implies is_white_space(#[trigger] mid[k]) by {
            assert(mid[k] == s@[i + k]);
        }
        lemma_trim_end_skip(mid, j - i);
        if j > i {
            assert(mid.subrange(0, j - i).last() == s@[j - 1]);
        }
    }
    let mut r: Vec<char> = Vec::new();
    let mut k: usize = i;
    while k < j
        invariant
            i <= k <= j,
            j <= n,
            n == s@.len(),
            r@ == s@.subrange(i as int, k as int),
        decreases j - k,
    {
        r.push(s[k]);
        k = k + 1;
    }
    assert(mid.subrange(0, j - i) =~= s@.subrange(i as int, j as int));
    r
}

/// Whether the characters `s` spell out `lit`.
pub fn spells(s: &[char], lit: &str) -> (r: bool)
    ensures
        r == (s@ == lit@),
{
    let l = chars_of(lit);
    if l.len() != s.len() {
        return false;
    }
    let mut k: usize = 0;
    while k < s.len()
        invariant
            0 <= k <= s@.len(),
            l@.len() == s@.len(),
            l@ == lit@,
            forall|m: int| 0 <= m < k ==> s@[m] == l@[m],
        decreases s@.len() - k,
    {
        if s[k] != l[k] {
            return false;
        }
        k = k + 1;
    }
    assert(s@ =~= l@);
    true
}

/// If `s` starts with `lit`, the characters after it.
pub fn strip_prefix(s: &[char], lit: &str) -> (r: Option<Vec<char>>)
    ensures
        match r {
            Some(rest) => lit@.len() <= s@.len() && s@.subrange(0, lit@.len() as int) == lit@ && rest@
                == s@.subrange(lit@.len() as int, s@.len() as int),
            None => !(lit@.len() <= s@.len() && s@.subrange(0, lit@.len() as int) == lit@),
        },
{
    let l = chars_of(lit);
    if l.len() > s.len() {
        return None;
    }
    let mut k: usize = 0;
    while k < l.len()
        invariant
            0 <= k <= l@.len(),
            l@.len() <= s@.len(),
            l@ == lit@,
            forall|m: int| 0 <= m < k ==> s@[m] == l@[m],
        decreases l@.len() - k,
    {
        if s[k] != l[k] {
            assert(s@.subrange(0, lit@.len() as int)[k as int] != lit@[k as int]);
            return None;
        }
        k = k + 1;
    }
    assert(s@.subrange(0, lit@.len() as int) =~= lit@);
    let mut rest: Vec<char> = Vec::new();
    let mut m: usize = l.len();
    while m < s.len()
        invariant
            l@.len() <= m <= s@.len(),
            rest@ == s@.subrange(l@.len() as int, m as int),
        decreases s@.len() - m,
    {
        rest.push(s[m]);
        m = m + 1;
    }
    Some(rest)
}

/// The characters that the bytes `b` stand for, one for one (Latin-1).
pub open spec fn latin1(b: Seq<u8>) -> Seq<char> {
    Seq::new(b.len(), |i: int| b[i] as char)
}

/// The characters that the bytes `b` stand for, one for one.
pub fn chars_of_bytes(b: &[u8]) -> (r: Vec<char>)
    ensures
        r@ == latin1(b@),
{
    let mut r: Vec<char> = Vec::new();
    let mut i: usize = 0;
    while i < b.len()
        invariant
            0 <= i <= b@.len(),
            r@.len() == i,
            forall|k: int| 0 <= k < i ==> r@[k] == b@[k] as char,
        decreases b@.len() - i,
    {
        r.push(b[i] as char);
        i = i + 1;
    }
    assert(r@ =~= latin1(b@));
    r
}

/// The characters `s[i..j]`.
pub fn slice_of(s: &[char], i: usize, j: usize) -> (r: Vec<char>)
    requires
        i <= j <= s@.len(),
    ensures
        r@ == s@.subrange(i as int, j as int),
{
    let mut r: Vec<char> = Vec::new();
    let mut k: usize = i;
    while k < j
        invariant
            i <= k <= j,
            j <= s@.len(),
            r@ == s@.subrange(i as int, k as int),
        decreases j - k,
    {
        r.push(s[k]);
        k = k + 1;
    }
    r
}

/// Whether `c` is ASCII white space: space, tab, line feed, form feed or
/// carriage return.
pub open spec fn is_ascii_space(c: char) -> bool {
    c == ' ' || c == '\t' || c == '\n' || c == '\x0C' || c == '\r'
}

/// Whether `c` is ASCII white space.
pub fn ascii_space(c: char) -> (r: bool)
    ensures
        r == is_ascii_space(c),
{
    c == ' ' || c == '\t' || c == '\n' || c == '\x0C' || c == '\r'
}

/// `s` without its leading ASCII white space.
pub open spec fn trim_ascii_start(s: Seq<char>) -> Seq<char>
    decreases s.len(),
{
    if s.len() > 0 && is_ascii_space(s[0]) {
        trim_ascii_start(s.drop_first())
    } else {
        s
    }
}

/// `s` without its trailing ASCII white space.
pub open spec fn trim_ascii_end(s: Seq<char>) -> Seq<char>
    decreases s.len(),
{
    if s.len() > 0 && is_ascii_space(s.last()) {
        trim_ascii_end(s.drop_last())
    } else {
        s
    }
}

/// `s` without its leading and trailing ASCII white space.
pub open spec fn trim_ascii(s: Seq<char>) -> Seq<char> {
    trim_ascii_end(trim_ascii_start(s))
}

proof fn lemma_trim_ascii_start_skip(s: Seq<char>, i: int)
    requires
        0 <= i <= s.len(),
        forall|k: int| 0 <= k < i ==> is_ascii_space(#[trigger] s[k]),
    ensures
        trim_ascii_start(s) == trim_ascii_start(s.subrange(i, s.len() as int)),
    decreases i,
{
    if i > 0 {
        assert(s.drop_first().subrange(i - 1, s.drop_first().len() as int) =~= s.subrange(i, s.len() as int));
        lemma_trim_ascii_start_skip(s.drop_first(), i - 1);
    } else {
        assert(s.subrange(0, s.len() as int) =~= s);
    }
}

proof fn lemma_trim_ascii_end_skip(s: Seq<char>, j: int)
    requires
        0 <= j <= s.len(),
        forall|k: int| j <= k < s.len() ==> is_ascii_space(#[trigger] s[k]),
    ensures
        trim_ascii_end(s) == trim_ascii_end(s.subrange(0, j)),
    decreases s.len() - j,
{
    if j < s.len() {
        assert(s.drop_last().subrange(0, j) =~= s.subrange(0, j));
        lemma_trim_ascii_end_skip(s.drop_last(), j);
    } else {
        assert(s.subrange(0, j) =~= s);
    }
}

/// The characters of `s` without leading and trailing ASCII white space.
pub fn trimmed_ascii(s: &[char]) -> (r: Vec<char>)
    ensures
        r@ == trim_ascii(s@),
{
    let (i, j) = trim_ascii_bounds(s);
    slice_of(s, i, j)
}

/// Where the text of `s` without surrounding ASCII white space begins and ends.
pub fn trim_ascii_bounds(s: &[char]) -> (r: (usize, usize))
    ensures
        r.0 <= r.1 <= s@.len(),
        s@.subrange(r.0 as int, r.1 as int) == trim_ascii(s@),
{
    let n = s.len();
    let mut i: usize = 0;
    while i < n && ascii_space(s[i])
        invariant
            0 <= i <= n,
            n == s@.len(),
            forall|k: int| 0 <= k < i ==> is_ascii_space(#[trigger] s@[k]),
        decreases n - i,
    {
        i = i + 1;
    }
    proof {
        lemma_trim_ascii_start_skip(s@, i as int);
    }
    let mut j: usize = n;
    while j > i && ascii_space(s[j - 1])
        invariant
            i <= j <= n,
            n == s@.len(),
            forall|k: int| j <= k < n ==> is_ascii_space(#[trigger] s@[k]),
        decreases j,
    {
        j = j - 1;
    }
    let ghost mid = s@.subrange(i as int, n as int);
    proof {
        if i < n {
            assert(!is_ascii_space(s@[i as int]));
            assert(trim_ascii_start(mid) == mid);
        } else {
            assert(mid.len() == 0);
        }
        assert forall|k: int| j - i <= k < mid.len() implies is_ascii_space(#[trigger] mid[k]) by {
            assert(mid[k] == s@[i + k]);
        }
        lemma_trim_ascii_end_skip(mid, j - i);
        if j > i {
            assert(mid.subrange(0, j - i).last() == s@[j - 1]);
        }
        assert(mid.subrange(0, j - i) =~= s@.subrange(i as int, j as int));
    }
    (i, j)
}

/// The index of the first `c` in `s`, or the length of `s` if there is none.
pub open spec fn index_of(s: Seq<char>, c: char) -> nat
    decreases s.len(),
{
    if s.len() == 0 {
        0
    } else if s[0] == c {
        0
    } else {
        1 + index_of(s.drop_first(), c)
    }
}

/// `index_of` is the position of the first `c`, or the length of `s`.
pub proof fn lemma_index_of(s: Seq<char>, c: char, i: int)
    requires
        0 <= i <= s.len(),
        forall|k: int| 0 <= k < i ==> s[k] != c,
        i == s.len() || s[i] == c,
    ensures
        index_of(s, c) == i,
    decreases i,
{
    if i > 0 {
        lemma_index_of(s.drop_first(), c, i - 1);
    }
}

/// The index of the first `c` in `s[start..]`, counted from `start`, or
/// the length of `s` if there is none.
pub fn find_from(s: &[char], c: char, start: usize) -> (r: usize)
    requires
        start <= s@.len(),
    ensures
        r == start + index_of(s@.subrange(start as int, s@.len() as int), c),
        start <= r <= s@.len(),
{
    let mut i: usize = start;
    while i < s.len() && s[i] != c
        invariant
            start <= i <= s@.len(),
            forall|k: int| start <= k < i ==> s@[k] != c,
        decreases s@.len() - i,
    {
        i = i + 1;
    }
    proof {
        lemma_index_of(s@.subrange(start as int, s@.len() as int), c, i - start);
    }
    i
}

/// The comma separated fields of `s`: the text before the first comma, and
/// then the fields of the text after it.
pub open spec fn fields(s: Seq<char>) -> Seq<Seq<char>>
    decreases s.len(),
{
    let k = index_of(s, ',');
    if k >= s.len() {
        seq![s]
    } else {
        seq![s.subrange(0, k as int)] + fields(s.subrange(k as int + 1, s.len() as int))
    }
}

/// The comma separated fields of `s`.
pub fn split_fields(s: &[char]) -> (r: Vec<Vec<char>>)
    ensures
        r@.len() == fields(s@).len(),
        forall|i: int| 0 <= i < r@.len() ==> #[trigger] r@[i]@ == fields(s@)[i],
{
    let mut r: Vec<Vec<char>> = Vec::new();
    let ghost mut done: Seq<Seq<char>> = Seq::empty();
    let mut start: usize = 0;
    assert(s@.subrange(0, s@.len() as int) =~= s@);
    assert(done + fields(s@) =~= fields(s@));
    loop
        invariant
            start <= s@.len(),
            r@.len() == done.len(),
            forall|i: int| 0 <= i < r@.len() ==> #[trigger] r@[i]@ == done[i],
            fields(s@) == done + fields(s@.subrange(start as int, s@.len() as int)),
        decreases s@.len() - start,
    {
        let ghost rest = s@.subrange(start as int, s@.len() as int);
        let k = find_from(s, ',', start);
        if k >= s.len() {
            let piece = slice_of(s, start, s.len());
            proof {
                assert(fields(rest) == seq![rest]);
                done = done.push(rest);
            }
            r.push(piece);
            proof {
                assert(fields(s@) =~= done);
            }
            return r;
        }
        let piece = slice_of(s, start, k);
        proof {
            assert(rest.subrange(0, k - start) =~= s@.subrange(start as int, k as int));
            assert(rest.subrange(k - start + 1, rest.len() as int) =~= s@.subrange(k + 1, s@.len() as int));
            assert(fields(rest) == seq![s@.subrange(start as int, k as int)] + fields(s@.subrange(k + 1, s@.len() as int)));
            done = done.push(s@.subrange(start as int, k as int));
            assert(fields(s@) =~= done + fields(s@.subrange(k + 1, s@.len() as int)));
        }
        r.push(piece);
        start = k + 1;
    }
}

/// The pieces of `s` between the separators `sep`: the text before the
/// first separator, and then the pieces of the text after it.
pub open spec fn pieces(s: Seq<char>, sep: char) -> Seq<Seq<char>>
    decreases s.len(),
{
    let k = index_of(s, sep);
    if k >= s.len() {
        seq![s]
    } else {
        seq![s.subrange(0, k as int)] + pieces(s.subrange(k as int + 1, s.len() as int), sep)
    }
}

/// The lines of `s`: its pieces between line feeds.
pub open spec fn lines(s: Seq<char>) -> Seq<Seq<char>> {
    pieces(s, '\n')
}

/// The pieces of `s` between the separators `sep`.
pub fn split_pieces(s: &[char], sep: char) -> (r: Vec<Vec<char>>)
    ensures
        r@.len() == pieces(s@, sep).len(),
        forall|i: int| 0 <= i < r@.len() ==> #[trigger] r@[i]@ == pieces(s@, sep)[i],
{
    let mut r: Vec<Vec<char>> = Vec::new();
    let ghost mut done: Seq<Seq<char>> = Seq::empty();
    let mut start: usize = 0;
    assert(s@.subrange(0, s@.len() as int) =~= s@);
    assert(done + pieces(s@, sep) =~= pieces(s@, sep));
    loop
        invariant
            start <= s@.len(),
            r@.len() == done.len(),
            forall|i: int| 0 <= i < r@.len() ==> #[trigger] r@[i]@ == done[i],
            pieces(s@, sep) == done + pieces(s@.subrange(start as int, s@.len() as int), sep),
        decreases s@.len() - start,
    {
        let ghost rest = s@.subrange(start as int, s@.len() as int);
        let k = find_from(s, sep, start);
        if k >= s.len() {
            let piece = slice_of(s, start, s.len());
            proof {
                assert(pieces(rest, sep) == seq![rest]);
                done = done.push(rest);
            }
            r.push(piece);
            proof {
                assert(pieces(s@, sep) =~= done);
            }
            return r;
        }
        let piece = slice_of(s, start, k);
        proof {
            assert(rest.subrange(0, k - start) =~= s@.subrange(start as int, k as int));
            assert(rest.subrange(k - start + 1, rest.len() as int) =~= s@.subrange(k + 1, s@.len() as int));
            assert(pieces(rest, sep) == seq![s@.subrange(start as int, k as int)] + pieces(
                s@.subrange(k + 1, s@.len() as int),
                sep,
            ));
            done = done.push(s@.subrange(start as int, k as int));
            assert(pieces(s@, sep) =~= done + pieces(s@.subrange(k + 1, s@.len() as int), sep));
        }
        r.push(piece);
        start = k + 1;
    }
}

/// The lines of `s`.
pub fn split_lines(s: &[char]) -> (r: Vec<Vec<char>>)
    ensures
        r@.len() == lines(s@).len(),
        forall|i: int| 0 <= i < r@.len() ==> #[trigger] r@[i]@ == lines(s@)[i],
{
    split_pieces(s, '\n')
}

/// Whether `c` is a decimal digit.
pub open spec fn is_digit(c: char) -> bool {
    '0' <= c <= '9'
}

/// The number that the decimal digits `s` write.
pub open spec fn digits_value(s: Seq<char>) -> nat
    decreases s.len(),
{
    if s.len() == 0 {
        0
    } else {
        digits_value(s.drop_last()) * 10 + (s.last() as nat - '0' as nat) as nat
    }
}

/// Whether `s` is a non-empty run of decimal digits.
pub open spec fn is_decimal(s: Seq<char>) -> bool {
    s.len() > 0 && forall|i: int| 0 <= i < s.len() ==> is_digit(#[trigger] s[i])
}

/// The number that `s` writes in decimal, where `s` is a non-empty run of
/// decimal digits and the number is at most `max`.
pub open spec fn decimal_at_most(s: Seq<char>, max: nat) -> Option<nat> {
    if is_decimal(s) && digits_value(s) <= max {
        Some(digits_value(s))
    } else {
        None
    }
}

proof fn lemma_digits_value_grows(s: Seq<char>, i: int)
    requires
        0 <= i <= s.len(),
        forall|k: int| 0 <= k < s.len() ==> is_digit(#[trigger] s[k]),
    ensures
        digits_value(s.subrange(0, i)) <= digits_value(s),
    decreases s.len() - i,
{
    if i < s.len() {
        assert(s.drop_last() =~= s.subrange(0, s.len() - 1));
        assert(s.drop_last().subrange(0, i) =~= s.subrange(0, i));
        lemma_digits_value_grows(s.drop_last(), i);
    } else {
        assert(s.subrange(0, i) =~= s);
    }
}

/// The number that `s` writes in decimal, if `s` is a non-empty run of
/// decimal digits and the number is at most `max`.
pub fn parse_decimal(s: &[char], max: usize) -> (r: Option<usize>)
    ensures
        match decimal_at_most(s@, max as nat) {
            Some(v) => r == Some(v as usize),
            None => r is None,
        },
{
    if s.len() == 0 {
        return None;
    }
    let mut n: usize = 0;
    let mut i: usize = 0;
    while i < s.len()
        invariant
            0 <= i <= s@.len(),
            n == digits_value(s@.subrange(0, i as int)),
            n <= max,
            forall|k: int| 0 <= k < i ==> is_digit(#[trigger] s@[k]),
        decreases s@.len() - i,
    {
        let c = s[i];
        if !('0' <= c && c <= '9') {
            return None;
        }
        let d: u32 = (c as u32) - ('0' as u32);
        let m: u128 = (n as u128) * 10 + (d as u128);
        proof {
            assert(s@.subrange(0, i + 1).drop_last() =~= s@.subrange(0, i as int));
            assert(m == digits_value(s@.subrange(0, i + 1)));
        }
        if m > max as u128 {
            proof {
                if forall|k: int| 0 <= k < s@.len() ==> is_digit(#[trigger] s@[k]) {
                    lemma_digits_value_grows(s@, i + 1);
                }
            }
            return None;
        }
        n = m as usize;
        i = i + 1;
    }
    assert(s@.subrange(0, i as int) =~= s@);
    Some(n)
}

/// The number that `s` writes in decimal, if `s` is a non-empty run of
/// decimal digits and the number is at most `max` (up to 128 bits).
pub fn parse_decimal_wide(s: &[char], max: u128) -> (r: Option<u128>)
    ensures
        match decimal_at_most(s@, max as nat) {
            Some(v) => r == Some(v as u128),
            None => r is None,
        },
{
    if s.len() == 0 {
        return None;
    }
    let mut n: u128 = 0;
    let mut i: usize = 0;
    while i < s.len()
        invariant
            0 <= i <= s@.len(),
            n == digits_value(s@.subrange(0, i as int)),
            n <= max,
            forall|k: int| 0 <= k < i ==> is_digit(#[trigger] s@[k]),
        decreases s@.len() - i,
    {
        let c = s[i];
        if !('0' <= c && c <= '9') {
            return None;
        }
        let d: u32 = (c as u32) - ('0' as u32);
        proof {
            assert(s@.subrange(0, i + 1).drop_last() =~= s@.subrange(0, i as int));
        }
        let ghost next: nat = digits_value(s@.subrange(0, i + 1));
        assert(next == n * 10 + d);
        if (d as u128) > max || n > (max - d as u128) / 10 {
            proof {
                assert(next > max) by (nonlinear_arith)
                    requires
                        next == n * 10 + d,
                        n > (max - d) / 10 || d > max,
                        0 <= d,
                        0 <= n,
                ;
                if forall|k: int| 0 <= k < s@.len() ==> is_digit(#[trigger] s@[k]) {
                    lemma_digits_value_grows(s@, i + 1);
                }
            }
            return None;
        }
        proof {
            assert(n * 10 + d <= max) by (nonlinear_arith)
                requires
                    n <= (max - d) / 10,
                    d <= max,
                    0 <= d,
            ;
        }
        n = n * 10 + d as u128;
        i = i + 1;
    }
    assert(s@.subrange(0, i as int) =~= s@);
    Some(n)
}

/// `index_of` finds the first `c`: none before it, and `c` at it when it
/// lies inside `s`.
pub proof fn lemma_index_of_finds(s: Seq<char>, c: char)
    ensures
        index_of(s, c) <= s.len(),
        forall|j: int| 0 <= j < index_of(s, c) ==> s[j] != c,
        index_of(s, c) < s.len() ==> s[index_of(s, c) as int] == c,
    decreases s.len(),
{
    if s.len() > 0 && s[0] != c {
        lemma_index_of_finds(s.drop_first(), c);
        assert forall|j: int| 0 <= j < index_of(s, c) implies s[j] != c by {
            if j > 0 {
                assert(s[j] == s.drop_first()[j - 1]);
            }
        }
    }
}

/// Text without the separator `sep` is a single piece.
pub(crate) proof fn lemma_pieces_whole(s: Seq<char>, sep: char)
    requires
        forall|i: int| 0 <= i < s.len() ==> s[i] != sep,
    ensures
        pieces(s, sep) == seq![s],
{
    lemma_index_of(s, sep, s.len() as int);
    assert(s.subrange(0, s.len() as int) =~= s);
}

/// A piece without the separator, the separator, then the rest: that piece
/// comes first, then the pieces of the rest.
pub(crate) proof fn lemma_pieces_front(a: Seq<char>, sep: char, b: Seq<char>)
    requires
        forall|i: int| 0 <= i < a.len() ==> a[i] != sep,
    ensures
        pieces(a + seq![sep] + b, sep) == seq![a] + pieces(b, sep),
{
    let s = a + seq![sep] + b;
    lemma_index_of(s, sep, a.len() as int);
    assert(s.subrange(0, a.len() as int) =~= a);
    assert(s.subrange(a.len() as int + 1, s.len() as int) =~= b);
}

/// Text, the separator, then a piece without the separator: the pieces of
/// the text come first, then that piece.
pub(crate) proof fn lemma_pieces_back(a: Seq<char>, sep: char, b: Seq<char>)
    requires
        forall|i: int| 0 <= i < b.len() ==> b[i] != sep,
    ensures
        pieces(a + seq![sep] + b, sep) == pieces(a, sep) + seq![b],
    decreases a.len(),
{
    lemma_index_of_finds(a, sep);
    let k = index_of(a, sep);
    lemma_pieces_whole(b, sep);
    if k >= a.len() {
        lemma_pieces_front(a, sep, b);
        lemma_pieces_whole(a, sep);
    } else {
        let a1 = a.subrange(0, k as int);
        let a2 = a.subrange(k as int + 1, a.len() as int);
        assert(a =~= a1 + seq![sep] + a2);
        assert(a + seq![sep] + b =~= a1 + seq![sep] + (a2 + seq![sep] + b));
        lemma_pieces_front(a1, sep, a2 + seq![sep] + b);
        lemma_pieces_back(a2, sep, b);
        lemma_pieces_front(a1, sep, a2);
        assert(seq![a1] + (pieces(a2, sep) + seq![b]) =~= (seq![a1] + pieces(a2, sep)) + seq![b]);
    }
}

proof fn lemma_trim_start_head(s: Seq<char>)
    ensures
        trim_start(s).len() == 0 || !is_white_space(trim_start(s)[0]),
        trim_start(s).len() <= s.len(),
    decreases s.len(),
{
    if s.len() > 0 && is_white_space(s[0]) {
        lemma_trim_start_head(s.drop_first());
    }
}

proof fn lemma_trim_end_prefix(s: Seq<char>)
    ensures
        trim_end(s).len() <= s.len(),
        trim_end(s) == s.subrange(0, trim_end(s).len() as int),
        trim_end(s).len() == 0 || !is_white_space(trim_end(s).last()),
    decreases s.len(),
{
    if s.len() > 0 && is_white_space(s.last()) {
        lemma_trim_end_prefix(s.drop_last());
        assert(s.drop_last().subrange(0, trim_end(s).len() as int) =~= s.subrange(0, trim_end(s).len() as int));
    } else {
        assert(s.subrange(0, s.len() as int) =~= s);
    }
}

/// Trimming twice is trimming once.
pub proof fn lemma_trim_idempotent(s: Seq<char>)
    ensures
        trim(trim(s)) == trim(s),
{
    let ts = trim_start(s);
    let x = trim_end(ts);
    lemma_trim_start_head(s);
    lemma_trim_end_prefix(ts);
    if x.len() > 0 {
        assert(x[0] == ts[0]);
    }
    assert(trim_start(x) == x);
}

/// Whether every character of `t` is ASCII white space.
pub open spec fn all_ascii_space(t: Seq<char>) -> bool {
    forall|i: int| 0 <= i < t.len() ==> is_ascii_space(#[trigger] t[i])
}

proof fn lemma_trim_ascii_start_append(x: Seq<char>, t: Seq<char>)
    requires
        all_ascii_space(t),
    ensures
        all_ascii_space(x) ==> trim_ascii_start(x + t) == Seq::<char>::empty(),
        !all_ascii_space(x) ==> trim_ascii_start(x + t) == trim_ascii_start(x) + t,
    decreases x.len() + t.len(),
{
    if x.len() == 0 {
        assert(x + t =~= t);
        if t.len() > 0 {
            lemma_trim_ascii_start_append(x, t.drop_first());
            assert((x + t).drop_first() =~= x + t.drop_first());
        }
    } else if is_ascii_space(x[0]) {
        lemma_trim_ascii_start_append(x.drop_first(), t);
        assert((x + t).drop_first() =~= x.drop_first() + t);
        if !all_ascii_space(x) {
            let j = choose|j: int| 0 <= j < x.len() && !is_ascii_space(#[trigger] x[j]);
            assert(j > 0);
            assert(!is_ascii_space(x.drop_first()[j - 1]));
        } else {
            assert forall|i: int| 0 <= i < x.drop_first().len() implies is_ascii_space(#[trigger] x.drop_first()[i]) by {
                assert(x.drop_first()[i] == x[i + 1]);
            }
        }
    } else {
        assert((x + t)[0] == x[0]);
    }
}

proof fn lemma_trim_ascii_end_append(y: Seq<char>, t: Seq<char>)
    requires
        all_ascii_space(t),
    ensures
        trim_ascii_end(y + t) == trim_ascii_end(y),
    decreases t.len(),
{
    if t.len() == 0 {
        assert(y + t =~= y);
    } else {
        assert((y + t).last() == t.last());
        assert((y + t).drop_last() =~= y + t.drop_last());
        lemma_trim_ascii_end_append(y, t.drop_last());
    }
}

/// Trailing ASCII white space does not change what trimming gives.
pub proof fn lemma_trim_ascii_append_space(x: Seq<char>, t: Seq<char>)
    requires
        all_ascii_space(t),
    ensures
        trim_ascii(x + t) == trim_ascii(x),
{
    lemma_trim_ascii_start_append(x, t);
    if all_ascii_space(x) {
        lemma_trim_ascii_start_append(x, Seq::empty());
        assert(x + Seq::<char>::empty() =~= x);
    } else {
        lemma_trim_ascii_end_append(trim_ascii_start(x), t);
    }
}

} // verus!
