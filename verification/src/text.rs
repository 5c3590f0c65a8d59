//! String helpers shared by the IPP, connection and DNS-SD modules.

use vstd::prelude::*;
use vstd::string::StringSliceAdditionalSpecFns;

verus! {

/// True when `bytes` holds a zero byte, which a C string cannot carry.
pub open spec fn has_nul(bytes: Seq<u8>) -> bool {
    exists|i: int| 0 <= i < bytes.len() && bytes[i] == 0
}

/// The position of the first zero byte of `bytes`, if any.
pub open spec fn first_nul(bytes: Seq<u8>) -> Option<int> {
    if has_nul(bytes) {
        Some(choose|i: int| 0 <= i < bytes.len() && bytes[i] == 0 && forall|j: int| 0 <= j < i ==> bytes[j] != 0)
    } else {
        None
    }
}

/// Finds the first zero byte of a string's UTF-8 encoding, the byte that
/// would make it unusable as a C string.
pub fn nul_position(s: &str) -> (r: Option<usize>)
    ensures
        match r {
            Some(p) => p < s.spec_bytes().len() && s.spec_bytes()[p as int] == 0
                && forall|j: int| 0 <= j < p ==> s.spec_bytes()[j] != 0,
            None => !has_nul(s.spec_bytes()),
        },
        r matches Some(p) ==> first_nul(s.spec_bytes()) == Some(p as int),
        r is None <==> first_nul(s.spec_bytes()) is None,
{
    let bytes = s.as_bytes();
    let mut i: usize = 0;
    while i < bytes.len()
        invariant
            bytes@ == s.spec_bytes(),
            i <= bytes@.len(),
            forall|j: int| 0 <= j < i ==> bytes@[j] != 0,
        decreases bytes@.len() - i,
    {
        if bytes[i] == 0 {
            proof {
                let p = i as int;
                assert(has_nul(bytes@));
                let c = choose|k: int| 0 <= k < bytes@.len() && bytes@[k] == 0 && forall|j: int| 0 <= j < k ==> bytes@[j] != 0;
                assert(0 <= p < bytes@.len() && bytes@[p] == 0 && forall|j: int| 0 <= j < p ==> bytes@[j] != 0);
                if c < p { assert(bytes@[c] != 0); }
                if p < c { assert(bytes@[p] != 0); }
            }
            return Some(i);
        }
        i = i + 1;
    }
    None
}


/// `u` is the code of an ASCII capital letter.
pub open spec fn ascii_upper(u: u32) -> bool {
    0x41 <= u <= 0x5a
}

/// A character code with ASCII capitals folded to small letters.
pub open spec fn ascii_fold(u: u32) -> u32 {
    if ascii_upper(u) {
        (u + 32) as u32
    } else {
        u
    }
}

/// Two strings are the same once ASCII letters are folded to one case.
pub open spec fn same_ignoring_ascii_case(a: Seq<char>, b: Seq<char>) -> bool {
    &&& a.len() == b.len()
    &&& forall|i: int| 0 <= i < a.len() ==> ascii_fold(a[i] as u32) == ascii_fold(#[trigger] b[i] as u32)
}

/// Whether two strings are the same once ASCII letters are folded to one
/// case, the way libcups compares attribute names.
pub fn eq_ignore_ascii_case(a: &str, b: &str) -> (r: bool)
    ensures
        r == same_ignoring_ascii_case(a@, b@),
{
    let n = a.unicode_len();
    if n != b.unicode_len() {
        return false;
    }
    let mut i: usize = 0;
    while i < n
        invariant
            n == a@.len(),
            n == b@.len(),
            i <= n,
            forall|j: int| 0 <= j < i ==> ascii_fold(a@[j] as u32) == ascii_fold(#[trigger] b@[j] as u32),
        decreases n - i,
    {
        let x = a.get_char(i) as u32;
        let y = b.get_char(i) as u32;
        let fx = if 0x41 <= x && x <= 0x5a { x + 32 } else { x };
        let fy = if 0x41 <= y && y <= 0x5a { y + 32 } else { y };
        if fx != fy {
            assert(ascii_fold(a@[i as int] as u32) != ascii_fold(b@[i as int] as u32));
            return false;
        }
        i = i + 1;
    }
    true
}

/// Names compare whole, up to ASCII case: two strings match exactly when
/// they have the same length and each pair of characters has the same code
/// point or is one ASCII capital (`A` to `Z`) against its small letter, 32 code points on.
/// So matching is symmetric, and never takes a prefix for the whole.
pub proof fn lemma_ascii_case_match(a: Seq<char>, b: Seq<char>)
    ensures
        same_ignoring_ascii_case(a, b) ==> a.len() == b.len(),
        same_ignoring_ascii_case(a, b) == same_ignoring_ascii_case(b, a),
        same_ignoring_ascii_case(a, b) <==> {
            &&& a.len() == b.len()
            &&& forall|i: int| #![trigger a[i], b[i]] 0 <= i < a.len() ==> {
                ||| a[i] as u32 == b[i] as u32
                ||| 0x41 <= a[i] as u32 <= 0x5a && b[i] as u32 == a[i] as u32 + 32
                ||| 0x41 <= b[i] as u32 <= 0x5a && a[i] as u32 == b[i] as u32 + 32
            }
        },
{
    if same_ignoring_ascii_case(a, b) {
        assert forall|i: int| 0 <= i < b.len() implies ascii_fold(b[i] as u32) == ascii_fold(
            #[trigger] a[i] as u32,
        ) by {
            assert(ascii_fold(a[i] as u32) == ascii_fold(b[i] as u32));
        }
        assert forall|i: int| #![trigger a[i], b[i]] 0 <= i < a.len() implies {
            ||| a[i] as u32 == b[i] as u32
            ||| 0x41 <= a[i] as u32 <= 0x5a && b[i] as u32 == a[i] as u32 + 32
            ||| 0x41 <= b[i] as u32 <= 0x5a && a[i] as u32 == b[i] as u32 + 32
        } by {
            let u = a[i] as u32;
            let v = b[i] as u32;
            assert(ascii_fold(u) == ascii_fold(v));
            if !ascii_upper(u) && !ascii_upper(v) || ascii_upper(u) && ascii_upper(v) {
                assert(u == v);
            }
        }
    }
    if same_ignoring_ascii_case(b, a) {
        assert forall|i: int| 0 <= i < a.len() implies ascii_fold(a[i] as u32) == ascii_fold(
            #[trigger] b[i] as u32,
        ) by {
            assert(ascii_fold(b[i] as u32) == ascii_fold(a[i] as u32));
        }
    }
    if a.len() == b.len() && forall|i: int| #![trigger a[i], b[i]] 0 <= i < a.len() ==> {
        ||| a[i] as u32 == b[i] as u32
        ||| 0x41 <= a[i] as u32 <= 0x5a && b[i] as u32 == a[i] as u32 + 32
        ||| 0x41 <= b[i] as u32 <= 0x5a && a[i] as u32 == b[i] as u32 + 32
    } {
        assert forall|i: int| 0 <= i < a.len() implies ascii_fold(a[i] as u32) == ascii_fold(
            #[trigger] b[i] as u32,
        ) by {
            let x = a[i];
            let y = b[i];
            assert(x as u32 == y as u32 || (0x41 <= x as u32 <= 0x5a && y as u32 == x as u32 + 32)
                || (0x41 <= y as u32 <= 0x5a && x as u32 == y as u32 + 32));
        }
    }
}

/// The Unicode `White_Space` property: the characters that `str::trim`
/// removes.
pub open spec fn white_space(c: char) -> bool {
    let u = c as u32;
    ||| 0x9 <= u <= 0xd
    ||| u == 0x20
    ||| u == 0x85
    ||| u == 0xa0
    ||| u == 0x1680
    ||| 0x2000 <= u <= 0x200a
    ||| u == 0x2028
    ||| u == 0x2029
    ||| u == 0x202f
    ||| u == 0x205f
    ||| u == 0x3000
}

/// `s` without its leading white space.
pub open spec fn trim_start_ws(s: Seq<char>) -> Seq<char>
    decreases s.len(),
{
    if s.len() > 0 && white_space(s[0]) {
        trim_start_ws(s.drop_first())
    } else {
        s
    }
}

/// `s` without its trailing characters that satisfy `strip`.
pub open spec fn trim_end_by(s: Seq<char>, strip: spec_fn(char) -> bool) -> Seq<char>
    decreases s.len(),
{
    if s.len() > 0 && strip(s.last()) {
        trim_end_by(s.drop_last(), strip)
    } else {
        s
    }
}

/// `s` without leading and trailing white space, as `str::trim` gives it.
pub open spec fn trim_ws(s: Seq<char>) -> Seq<char> {
    trim_end_by(trim_start_ws(s), |c: char| white_space(c))
}

/// `s` without its trailing dots, as `trim_end_matches('.')` gives it.
pub open spec fn trim_dots(s: Seq<char>) -> Seq<char> {
    trim_end_by(s, |c: char| c == '.')
}

/// Whether `c` has the Unicode `White_Space` property.
pub fn is_white_space(c: char) -> (r: bool)
    ensures
        r == white_space(c),
{
    let u = c as u32;
    (0x9 <= u && u <= 0xd) || u == 0x20 || u == 0x85 || u == 0xa0 || u == 0x1680 || (0x2000
        <= u && u <= 0x200a) || u == 0x2028 || u == 0x2029 || u == 0x202f || u == 0x205f || u
        == 0x3000
}

proof fn lemma_trim_start_skip(s: Seq<char>, k: int)
    requires
        0 <= k <= s.len(),
        forall|j: int| 0 <= j < k ==> white_space(#[trigger] s[j]),
    ensures
        trim_start_ws(s) == trim_start_ws(s.subrange(k, s.len() as int)),
    decreases k,
{
    if k == 0 {
        assert(s.subrange(0, s.len() as int) =~= s);
    } else {
        let t = s.drop_first();
        assert forall|j: int| 0 <= j < k - 1 implies white_space(#[trigger] t[j]) by {
            assert(t[j] == s[j + 1]);
        }
        lemma_trim_start_skip(t, k - 1);
        assert(t.subrange(k - 1, t.len() as int) =~= s.subrange(k, s.len() as int));
    }
}

proof fn lemma_trim_end_skip(s: Seq<char>, strip: spec_fn(char) -> bool, k: int)
    requires
        0 <= k <= s.len(),
        forall|j: int| k <= j < s.len() ==> strip(#[trigger] s[j]),
    ensures
        trim_end_by(s, strip) == trim_end_by(s.subrange(0, k), strip),
    decreases s.len() - k,
{
    if k == s.len() {
        assert(s.subrange(0, k) =~= s);
    } else {
        let t = s.drop_last();
        assert(strip(s[s.len() - 1]));
        assert forall|j: int| k <= j < t.len() implies strip(#[trigger] t[j]) by {
            assert(t[j] == s[j]);
        }
        lemma_trim_end_skip(t, strip, k);
        assert(t.subrange(0, k) =~= s.subrange(0, k));
    }
}

proof fn lemma_trim_start_edge(s: Seq<char>)
    ensures
        trim_start_ws(s).len() > 0 ==> !white_space(trim_start_ws(s)[0]),
    decreases s.len(),
{
    if s.len() > 0 && white_space(s[0]) {
        lemma_trim_start_edge(s.drop_first());
    }
}

proof fn lemma_trim_end_edges(s: Seq<char>)
    ensures
        ({
            let t = trim_end_by(s, |c: char| white_space(c));
            &&& t.len() <= s.len()
            &&& t.len() > 0 ==> !white_space(t.last())
            &&& forall|i: int| 0 <= i < t.len() ==> t[i] == s[i]
        }),
    decreases s.len(),
{
    if s.len() > 0 && white_space(s.last()) {
        lemma_trim_end_edges(s.drop_last());
    }
}

/// Trimming leaves no white space at either end, and what it leaves is
/// never longer than what it was given.
pub proof fn lemma_trim_ws_edges(s: Seq<char>)
    ensures
        trim_ws(s).len() <= s.len(),
        trim_ws(s).len() > 0 ==> !white_space(trim_ws(s)[0]) && !white_space(trim_ws(s).last()),
{
    lemma_trim_start_edge(s);
    lemma_trim_start_len(s);
    lemma_trim_end_edges(trim_start_ws(s));
}

proof fn lemma_trim_start_len(s: Seq<char>)
    ensures
        trim_start_ws(s).len() <= s.len(),
    decreases s.len(),
{
    if s.len() > 0 && white_space(s[0]) {
        lemma_trim_start_len(s.drop_first());
    }
}

proof fn lemma_trim_start_shape(s: Seq<char>) -> (k: int)
    ensures
        0 <= k <= s.len(),
        trim_start_ws(s) == s.subrange(k, s.len() as int),
        forall|j: int| 0 <= j < k ==> white_space(#[trigger] s[j]),
    decreases s.len(),
{
    if s.len() > 0 && white_space(s[0]) {
        let t = s.drop_first();
        let k1 = lemma_trim_start_shape(t);
        assert(t.subrange(k1, t.len() as int) =~= s.subrange(k1 + 1, s.len() as int));
        assert forall|j: int| 0 <= j < k1 + 1 implies white_space(#[trigger] s[j]) by {
            if j > 0 {
                assert(s[j] == t[j - 1]);
            }
        }
        k1 + 1
    } else {
        assert(s.subrange(0, s.len() as int) =~= s);
        0
    }
}

proof fn lemma_trim_end_shape(s: Seq<char>, strip: spec_fn(char) -> bool)
    ensures
        trim_end_by(s, strip).len() <= s.len(),
        trim_end_by(s, strip) == s.take(trim_end_by(s, strip).len() as int),
        forall|j: int| trim_end_by(s, strip).len() <= j < s.len() ==> strip(#[trigger] s[j]),
        trim_end_by(s, strip).len() > 0 ==> !strip(trim_end_by(s, strip).last()),
    decreases s.len(),
{
    if s.len() > 0 && strip(s.last()) {
        let t = s.drop_last();
        lemma_trim_end_shape(t, strip);
        let n = trim_end_by(t, strip).len() as int;
        assert(t.take(n) =~= s.take(n));
        assert forall|j: int| n <= j < s.len() implies strip(#[trigger] s[j]) by {
            if j < s.len() - 1 {
                assert(s[j] == t[j]);
            }
        }
    } else {
        assert(s.take(s.len() as int) =~= s);
    }
}

/// Trimming keeps one unbroken stretch of the string and removes only what it
/// should. `trim_ws` keeps the characters from `start` on, dropping only white
/// space before them and after them, and keeps no white space at either end;
/// `trim_dots` keeps a prefix, dropping only dots after it, and keeps no dot
/// at its end.
pub proof fn lemma_trim_shape(s: Seq<char>) -> (start: int)
    ensures
        0 <= start,
        start + trim_ws(s).len() <= s.len(),
        trim_ws(s) == s.subrange(start, start + trim_ws(s).len()),
        forall|j: int| 0 <= j < start ==> white_space(#[trigger] s[j]),
        forall|j: int| start + trim_ws(s).len() <= j < s.len() ==> white_space(#[trigger] s[j]),
        trim_ws(s).len() > 0 ==> !white_space(trim_ws(s)[0]) && !white_space(trim_ws(s).last()),
        trim_dots(s) == s.take(trim_dots(s).len() as int),
        forall|j: int| trim_dots(s).len() <= j < s.len() ==> #[trigger] s[j] == '.',
        trim_dots(s).len() > 0 ==> trim_dots(s).last() != '.',
{
    let ws = |c: char| white_space(c);
    let k = lemma_trim_start_shape(s);
    let rest = trim_start_ws(s);
    lemma_trim_end_shape(rest, ws);
    let n = trim_ws(s).len() as int;
    assert(rest.take(n) =~= s.subrange(k, k + n));
    assert forall|j: int| k + n <= j < s.len() implies white_space(#[trigger] s[j]) by {
        assert(s[j] == rest[j - k]);
        assert(ws(rest[j - k]));
    }
    lemma_trim_ws_edges(s);
    let dot = |c: char| c == '.';
    lemma_trim_end_shape(s, dot);
    assert forall|j: int| trim_dots(s).len() <= j < s.len() implies #[trigger] s[j] == '.' by {
        assert(dot(s[j]));
    }
    k
}

/// Returns `s` with leading and trailing white space removed.
pub fn trim_white_space(s: &str) -> (r: String)
    ensures
        r@ == trim_ws(s@),
{
    let n = s.unicode_len();
    let mut lo: usize = 0;
    while lo < n && is_white_space(s.get_char(lo))
        invariant
            n == s@.len(),
            lo <= n,
            forall|j: int| 0 <= j < lo ==> white_space(#[trigger] s@[j]),
        decreases n - lo,
    {
        lo = lo + 1;
    }
    let mut hi: usize = n;
    while hi > lo && is_white_space(s.get_char(hi - 1))
        invariant
            n == s@.len(),
            lo <= hi <= n,
            forall|j: int| hi <= j < n ==> white_space(#[trigger] s@[j]),
        decreases hi - lo,
    {
        hi = hi - 1;
    }
    proof {
        let ws = |c: char| white_space(c);
        lemma_trim_start_skip(s@, lo as int);
        let rest = s@.subrange(lo as int, n as int);
        if lo < n {
            assert(!white_space(s@[lo as int]));
            assert(rest[0] == s@[lo as int]);
        } else {
            assert(rest.len() == 0);
        }
        assert(trim_start_ws(rest) == rest);
        assert forall|j: int| hi - lo <= j < rest.len() implies ws(#[trigger] rest[j]) by {
            assert(rest[j] == s@[j + lo]);
        }
        lemma_trim_end_skip(rest, ws, hi - lo);
        let kept = rest.subrange(0, hi - lo);
        if hi > lo {
            assert(!white_space(s@[hi - 1]));
            assert(kept.last() == s@[hi - 1]);
        }
        assert(trim_end_by(kept, ws) == kept);
        assert(kept =~= s@.subrange(lo as int, hi as int));
    }
    s.substring_char(lo, hi).to_owned()
}

/// Returns `s` with its trailing dots removed.
pub fn trim_trailing_dots(s: &str) -> (r: String)
    ensures
        r@ == trim_dots(s@),
{
    let n = s.unicode_len();
    let mut hi: usize = n;
    while hi > 0 && s.get_char(hi - 1) == '.'
        invariant
            n == s@.len(),
            hi <= n,
            forall|j: int| hi <= j < n ==> #[trigger] s@[j] == '.',
        decreases hi,
    {
        hi = hi - 1;
    }
    proof {
        let dot = |c: char| c == '.';
        assert forall|j: int| hi <= j < s@.len() implies dot(#[trigger] s@[j]) by {}
        lemma_trim_end_skip(s@, dot, hi as int);
        let kept = s@.subrange(0, hi as int);
        if hi > 0 {
            assert(kept.last() == s@[hi - 1]);
        }
        assert(trim_end_by(kept, dot) == kept);
    }
    s.substring_char(0, hi).to_owned()
}

} // verus!
