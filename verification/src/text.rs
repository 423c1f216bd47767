//! Text handling for the values that the metadata service returns:
//! trimming, splitting into lines, and picking a segment of a path or a host name.
use vstd::prelude::*;
use crate::error::{text_result, Error, ErrorKind, Failure};

verus! {

/// Whether `c` has the Unicode property `White_Space`.
pub open spec fn is_space(c: char) -> bool {
    let u = c as u32;
    ||| 0x09 <= u <= 0x0D
    ||| u == 0x20
    ||| u == 0x85
    ||| u == 0xA0
    ||| u == 0x1680
    ||| 0x2000 <= u <= 0x200A
    ||| u == 0x2028
    ||| u == 0x2029
    ||| u == 0x202F
    ||| u == 0x205F
    ||| u == 0x3000
}

/// `s` without the white space it starts with.
pub open spec fn skip_spaces(s: Seq<char>) -> Seq<char>
    decreases s.len(),
{
    if s.len() > 0 && is_space(s.first()) {
        skip_spaces(s.drop_first())
    } else {
        s
    }
}

/// `s` without the white space it ends with.
pub open spec fn drop_trailing_spaces(s: Seq<char>) -> Seq<char>
    decreases s.len(),
{
    if s.len() > 0 && is_space(s.last()) {
        drop_trailing_spaces(s.drop_last())
    } else {
        s
    }
}

/// `s` without leading and trailing white space.
pub open spec fn trimmed(s: Seq<char>) -> Seq<char> {
    drop_trailing_spaces(skip_spaces(s))
}

/// The index of the first `c` in `s`, or the length of `s` where there is none.
pub open spec fn find(s: Seq<char>, c: char) -> int
    decreases s.len(),
{
    if s.len() == 0 || s.first() == c {
        0
    } else {
        1 + find(s.drop_first(), c)
    }
}

/// The pieces of `s` between occurrences of `sep`. There is always at least one piece.
pub open spec fn split(s: Seq<char>, sep: char) -> Seq<Seq<char>>
    decreases s.len(),
{
    let i = find(s, sep);
    if 0 <= i < s.len() {
        seq![s.take(i)] + split(s.skip(i + 1), sep)
    } else {
        seq![s]
    }
}

/// The lines in `ls`, each one trimmed, the empty ones left out.
pub open spec fn tidy(ls: Seq<Seq<char>>) -> Seq<Seq<char>> {
    ls.map_values(|l: Seq<char>| trimmed(l)).filter(|l: Seq<char>| l.len() > 0)
}

/// The lines of `s`: split at newlines, each line trimmed, empty lines left out.
pub open spec fn lines_of(s: Seq<char>) -> Seq<Seq<char>> {
    tidy(split(s, '\n'))
}

/// The instance name in a host name: what stands in front of the first dot, which
/// may not be empty.
pub open spec fn instance_name_in(s: Seq<char>) -> Result<Seq<char>, Failure> {
    let name = split(s, '.').first();
    if name.len() > 0 {
        Ok(name)
    } else {
        Err(Failure::MetadataParse("instance name"@))
    }
}

/// The zone in a path: what stands behind the last slash, which may not be empty.
pub open spec fn zone_in(s: Seq<char>) -> Result<Seq<char>, Failure> {
    let zone = split(s, '/').last();
    if zone.len() > 0 {
        Ok(zone)
    } else {
        Err(Failure::MetadataParse("zone"@))
    }
}

/// The texts that a vector of strings holds.
pub open spec fn texts(v: Seq<String>) -> Seq<Seq<char>> {
    v.map_values(|x: String| x@)
}

/// `c` with an ASCII capital letter turned into the small one.
pub open spec fn ascii_lower(c: char) -> u32 {
    let u = c as u32;
    if 0x41 <= u <= 0x5A {
        (u + 0x20) as u32
    } else {
        u
    }
}

/// Whether `a` and `b` are the same but for the case of ASCII letters.
pub open spec fn same_ignoring_ascii_case(a: Seq<char>, b: Seq<char>) -> bool {
    &&& a.len() == b.len()
    &&& forall|i: int| 0 <= i < a.len() ==> ascii_lower(a[i]) == ascii_lower(b[i])
}

// ---------------------------------------------------------------------------
// Facts about the definitions above
// ---------------------------------------------------------------------------

/// White space in front of position `i` does not change what `skip_spaces` leaves.
pub proof fn lemma_skip_spaces_from(s: Seq<char>, i: int)
    requires
        0 <= i <= s.len(),
        forall|j: int| 0 <= j < i ==> is_space(s[j]),
    ensures
        skip_spaces(s) == skip_spaces(s.skip(i)),
    decreases i,
{
    if i == 0 {
        assert(s.skip(0) == s);
    } else {
        lemma_skip_spaces_from(s, i - 1);
        let t = s.skip(i - 1);
        assert(t.first() == s[i - 1]);
        assert(t.drop_first() == s.skip(i));
    }
}

/// White space from position `k` on does not change what `drop_trailing_spaces` leaves.
pub proof fn lemma_drop_trailing_spaces_to(s: Seq<char>, k: int)
    requires
        0 <= k <= s.len(),
        forall|j: int| k <= j < s.len() ==> is_space(s[j]),
    ensures
        drop_trailing_spaces(s) == drop_trailing_spaces(s.take(k)),
    decreases s.len() - k,
{
    if k == s.len() {
        assert(s.take(k) == s);
    } else {
        lemma_drop_trailing_spaces_to(s, k + 1);
        let t = s.take(k + 1);
        assert(t.last() == s[k]);
        assert(t.drop_last() == s.take(k));
    }
}

/// `trimmed(s)` is the part of `s` between two positions; all that is cut off is
/// white space, and what is left neither starts nor ends with white space.
pub proof fn lemma_trimmed_bounds(s: Seq<char>) -> (bounds: (int, int))
    ensures
        0 <= bounds.0 <= bounds.1 <= s.len(),
        trimmed(s) == s.subrange(bounds.0, bounds.1),
        forall|j: int| 0 <= j < bounds.0 ==> is_space(s[j]),
        forall|j: int| bounds.1 <= j < s.len() ==> is_space(s[j]),
        bounds.0 < bounds.1 ==> !is_space(s[bounds.0]) && !is_space(s[bounds.1 - 1]),
    decreases s.len(),
{
    if s.len() > 0 && is_space(s.first()) {
        let inner = lemma_trimmed_bounds(s.drop_first());
        let t = s.drop_first();
        assert(t.subrange(inner.0, inner.1) == s.subrange(inner.0 + 1, inner.1 + 1));
        assert forall|j: int| 0 <= j < inner.0 + 1 implies is_space(s[j]) by {
            if j > 0 {
                assert(s[j] == t[j - 1]);
            }
        }
        assert forall|j: int| inner.1 + 1 <= j < s.len() implies is_space(s[j]) by {
            assert(s[j] == t[j - 1]);
        }
        if inner.0 < inner.1 {
            assert(s[inner.0 + 1] == t[inner.0]);
            assert(s[inner.1] == t[inner.1 - 1]);
        }
        (inner.0 + 1, inner.1 + 1)
    } else if s.len() > 0 && is_space(s.last()) {
        assert(skip_spaces(s) == s);
        let t = s.drop_last();
        assert(!(t.len() > 0 && is_space(t.first()))) by {
            if t.len() > 0 {
                assert(t.first() == s.first());
            }
        }
        assert(skip_spaces(t) == t);
        let inner = lemma_trimmed_bounds(t);
        assert(t.subrange(inner.0, inner.1) == s.subrange(inner.0, inner.1));
        assert(inner.0 == 0) by {
            if inner.0 > 0 {
                assert(is_space(t[0]));
                assert(t[0] == s[0]);
            }
        }
        assert forall|j: int| inner.1 <= j < s.len() implies is_space(s[j]) by {
            if j < t.len() {
                assert(s[j] == t[j]);
            }
        }
        if inner.0 < inner.1 {
            assert(s[inner.1 - 1] == t[inner.1 - 1]);
        }
        (inner.0, inner.1)
    } else {
        assert(skip_spaces(s) == s);
        assert(drop_trailing_spaces(s) == s);
        assert(s.subrange(0, s.len() as int) == s);
        (0, s.len() as int)
    }
}

/// Trimming what is trimmed changes nothing.
pub proof fn lemma_trimmed_idempotent(s: Seq<char>)
    ensures
        trimmed(trimmed(s)) == trimmed(s),
{
    let b = lemma_trimmed_bounds(s);
    let t = trimmed(s);
    if t.len() > 0 {
        assert(t.first() == s[b.0]);
        assert(t.last() == s[b.1 - 1]);
    }
    assert(skip_spaces(t) == t);
    assert(drop_trailing_spaces(t) == t);
}

/// `find` stays within the sequence, passes over no `c`, and stops at one.
pub proof fn lemma_find(s: Seq<char>, c: char)
    ensures
        0 <= find(s, c) <= s.len(),
        forall|j: int| 0 <= j < find(s, c) ==> s[j] != c,
        find(s, c) < s.len() ==> s[find(s, c)] == c,
    decreases s.len(),
{
    if s.len() == 0 || s.first() == c {
    } else {
        let t = s.drop_first();
        lemma_find(t, c);
        assert forall|j: int| 0 <= j < find(s, c) implies s[j] != c by {
            if j > 0 {
                assert(s[j] == t[j - 1]);
            }
        }
        if find(s, c) < s.len() {
            assert(s[find(s, c)] == t[find(t, c)]);
        }
    }
}

/// A position that passes over no `c` and stops at one, or at the end, is `find`.
pub proof fn lemma_find_is(s: Seq<char>, c: char, k: int)
    requires
        0 <= k <= s.len(),
        forall|j: int| 0 <= j < k ==> s[j] != c,
        k == s.len() || s[k] == c,
    ensures
        find(s, c) == k,
    decreases s.len(),
{
    if k == 0 {
    } else {
        let t = s.drop_first();
        assert(s.first() == s[0]);
        assert forall|j: int| 0 <= j < k - 1 implies t[j] != c by {
            assert(t[j] == s[j + 1]);
        }
        if k < s.len() {
            assert(t[k - 1] == s[k]);
        }
        lemma_find_is(t, c, k - 1);
    }
}

/// A split has at least one piece, and its first piece ends at the first separator.
pub proof fn lemma_split_first(s: Seq<char>, sep: char)
    ensures
        split(s, sep).len() >= 1,
        split(s, sep).first() == s.take(find(s, sep)),
{
    lemma_find(s, sep);
    let i = find(s, sep);
    if 0 <= i < s.len() {
    } else {
        assert(s.take(i) == s);
    }
}

/// The last piece of a split starts just behind the last separator.
pub proof fn lemma_split_last(s: Seq<char>, sep: char, k: int)
    requires
        0 <= k <= s.len(),
        forall|j: int| k <= j < s.len() ==> s[j] != sep,
        k == 0 || s[k - 1] == sep,
    ensures
        split(s, sep).last() == s.skip(k),
    decreases s.len(),
{
    lemma_find(s, sep);
    let i = find(s, sep);
    if 0 <= i < s.len() {
        let t = s.skip(i + 1);
        assert(i < k);
        assert forall|j: int| k - i - 1 <= j < t.len() implies t[j] != sep by {
            assert(t[j] == s[j + i + 1]);
        }
        if k - i - 1 > 0 {
            assert(t[k - i - 2] == s[k - 1]);
        }
        lemma_split_last(t, sep, k - i - 1);
        lemma_split_first(t, sep);
        assert(t.skip(k - i - 1) == s.skip(k));
        let rest = split(t, sep);
        assert((seq![s.take(i)] + rest).last() == rest.last());
    } else {
        if k > 0 {
            assert(s[k - 1] != sep);
        }
        assert(s.skip(0) == s);
    }
}

/// What one piece of a split adds to the lines: itself, trimmed, unless that is empty.
pub open spec fn kept(piece: Seq<char>) -> Seq<Seq<char>> {
    if trimmed(piece).len() > 0 {
        seq![trimmed(piece)]
    } else {
        seq![]
    }
}

/// The lines of `s` are what its first piece adds, then the lines of the rest.
pub proof fn lemma_lines_unfold(s: Seq<char>)
    ensures
        lines_of(s) == if 0 <= find(s, '\n') < s.len() {
            kept(s.take(find(s, '\n'))) + lines_of(s.skip(find(s, '\n') + 1))
        } else {
            kept(s)
        },
{
    let i = find(s, '\n');
    if 0 <= i < s.len() {
        lemma_tidy_cons(s.take(i), split(s.skip(i + 1), '\n'));
    } else {
        lemma_tidy_one(s);
    }
}

/// One line alone gives what `kept` says.
pub proof fn lemma_tidy_one(line: Seq<char>)
    ensures
        tidy(seq![line]) == kept(line),
{
    let one = seq![line].map_values(|l: Seq<char>| trimmed(l));
    assert(one == seq![trimmed(line)]);
    reveal_with_fuel(Seq::filter, 2);
    assert(one.drop_last() == Seq::<Seq<char>>::empty());
    assert(one.last() == trimmed(line));
    assert(Seq::<Seq<char>>::empty().push(trimmed(line)) == seq![trimmed(line)]);
}

/// A line in front of others gives what `kept` says, then what the others give.
pub proof fn lemma_tidy_cons(line: Seq<char>, others: Seq<Seq<char>>)
    ensures
        tidy(seq![line] + others) == kept(line) + tidy(others),
{
    let t = |l: Seq<char>| trimmed(l);
    let p = |l: Seq<char>| l.len() > 0;
    let head = seq![line];
    lemma_tidy_one(line);
    assert((head + others).map_values(t) == head.map_values(t) + others.map_values(t));
    Seq::filter_distributes_over_add(head.map_values(t), others.map_values(t), p);
}

/// Pushing a string adds its text.
pub proof fn lemma_texts_push(v: Seq<String>, x: String)
    ensures
        texts(v.push(x)) == texts(v).push(x@),
{
    assert(texts(v.push(x)) =~= texts(v).push(x@));
}

// ---------------------------------------------------------------------------
// Executable functions
// ---------------------------------------------------------------------------

/// Tells whether `c` is white space.
pub fn is_whitespace(c: char) -> (b: bool)
    ensures
        b == is_space(c),
{
    let u: u32 = c as u32;
    (0x09 <= u && u <= 0x0D) || u == 0x20 || u == 0x85 || u == 0xA0 || u == 0x1680 || (0x2000 <= u
        && u <= 0x200A) || u == 0x2028 || u == 0x2029 || u == 0x202F || u == 0x205F || u == 0x3000
}

/// The characters of `s`, one by one.
pub fn chars_of(s: &str) -> (v: Vec<char>)
    ensures
        v@ == s@,
{
    let mut v: Vec<char> = Vec::new();
    for c in it: s.chars()
        invariant
            v@ == it.seq().take(it.index() as int),
            it.seq() == s@,
    {
        v.push(c);
    }
    v
}

/// Where the trimmed part of `cs[lo..hi]` starts and ends.
pub fn trim_bounds(cs: &Vec<char>, lo: usize, hi: usize) -> (bounds: (usize, usize))
    requires
        lo <= hi <= cs.len(),
    ensures
        lo <= bounds.0 <= bounds.1 <= hi,
        cs@.subrange(bounds.0 as int, bounds.1 as int) == trimmed(cs@.subrange(lo as int, hi as int)),
{
    let ghost whole = cs@.subrange(lo as int, hi as int);
    let mut a: usize = lo;
    while a < hi && is_whitespace(cs[a])
        invariant
            lo <= a <= hi <= cs.len(),
            forall|j: int| lo <= j < a ==> is_space(cs@[j]),
        decreases hi - a,
    {
        a += 1;
    }
    let ghost front = cs@.subrange(a as int, hi as int);
    proof {
        assert forall|j: int| 0 <= j < a - lo implies is_space(whole[j]) by {
            assert(whole[j] == cs@[j + lo]);
        }
        lemma_skip_spaces_from(whole, a - lo);
        assert(whole.skip(a - lo) == front);
        if front.len() > 0 {
            assert(front.first() == cs@[a as int]);
        }
        assert(skip_spaces(whole) == front);
    }
    let mut b: usize = hi;
    while b > a && is_whitespace(cs[b - 1])
        invariant
            a <= b <= hi <= cs.len(),
            forall|j: int| b <= j < hi ==> is_space(cs@[j]),
        decreases b,
    {
        b -= 1;
    }
    proof {
        let kept = cs@.subrange(a as int, b as int);
        assert forall|j: int| b - a <= j < front.len() implies is_space(front[j]) by {
            assert(front[j] == cs@[j + a]);
        }
        lemma_drop_trailing_spaces_to(front, b - a);
        assert(front.take(b - a) == kept);
        if kept.len() > 0 {
            assert(kept.last() == cs@[b - 1]);
        }
        assert(drop_trailing_spaces(front) == kept);
    }
    (a, b)
}

/// Returns `s` without leading and trailing white space.
pub fn trim(s: &str) -> (r: String)
    ensures
        r@ == trimmed(s@),
{
    let cs = chars_of(s);
    let (a, b) = trim_bounds(&cs, 0, cs.len());
    proof {
        assert(cs@.subrange(0, cs@.len() as int) == cs@);
    }
    s.substring_char(a, b).to_owned()
}

/// The position of the first `sep` in `cs[lo..]`, or the length of `cs`.
pub fn find_from(cs: &Vec<char>, lo: usize, sep: char) -> (k: usize)
    requires
        lo <= cs.len(),
    ensures
        lo <= k <= cs.len(),
        k - lo == find(cs@.skip(lo as int), sep),
{
    let mut k: usize = lo;
    while k < cs.len() && cs[k] != sep
        invariant
            lo <= k <= cs.len(),
            forall|j: int| lo <= j < k ==> cs@[j] != sep,
        decreases cs.len() - k,
    {
        k += 1;
    }
    proof {
        let t = cs@.skip(lo as int);
        assert forall|j: int| 0 <= j < k - lo implies t[j] != sep by {
            assert(t[j] == cs@[j + lo]);
        }
        if k < cs.len() {
            assert(t[k - lo] == cs@[k as int]);
        }
        lemma_find_is(t, sep, k - lo);
    }
    k
}

/// Splits `s` into lines, trims each line and leaves the empty ones out.
pub fn lines(s: &str) -> (r: Vec<String>)
    ensures
        texts(r@) == lines_of(s@),
{
    let cs = chars_of(s);
    let n = cs.len();
    let mut out: Vec<String> = Vec::new();
    let mut start: usize = 0;
    proof {
        assert(cs@.skip(0) == cs@);
        assert(texts(out@) + lines_of(cs@) == lines_of(cs@));
    }
    loop
        invariant_except_break
            lines_of(s@) == texts(out@) + lines_of(cs@.skip(start as int)),
        invariant
            cs@ == s@,
            n == cs.len(),
            start <= n,
        ensures
            texts(out@) == lines_of(s@),
        decreases n - start,
    {
        let k = find_from(&cs, start, '\n');
        let (a, b) = trim_bounds(&cs, start, k);
        let ghost rest = cs@.skip(start as int);
        let ghost before = texts(out@);
        proof {
            lemma_lines_unfold(rest);
            assert(rest.take(k - start) == cs@.subrange(start as int, k as int));
            if k == n {
                assert(rest.take(k - start) == rest);
            }
        }
        if a < b {
            let line = s.substring_char(a, b).to_owned();
            proof {
                lemma_texts_push(out@, line);
            }
            out.push(line);
        }
        proof {
            assert(texts(out@) == before + kept(cs@.subrange(start as int, k as int)));
        }
        if k == n {
            proof {
                assert(before + kept(rest) == lines_of(s@));
            }
            break ;
        }
        proof {
            assert(rest.skip(k - start + 1) == cs@.skip(k + 1));
            let tail = lines_of(cs@.skip(k + 1));
            let piece = kept(cs@.subrange(start as int, k as int));
            assert(before + (piece + tail) == (before + piece) + tail);
        }
        start = k + 1;
    }
    out
}

/// Takes the instance name out of a host name of the form
/// `<name>.c.<project>.internal`: the part in front of the first dot.
///
/// An empty name is refused with the tag `instance name`.
pub fn parse_instance_name(s: &str) -> (r: Result<String, Error>)
    ensures
        text_result(r) == instance_name_in(s@),
{
    let cs = chars_of(s);
    let k = find_from(&cs, 0, '.');
    proof {
        assert(cs@.skip(0) == cs@);
        lemma_split_first(s@, '.');
    }
    if k == 0 {
        Err(Error::new(ErrorKind::MetadataParse("instance name")))
    } else {
        Ok(s.substring_char(0, k).to_owned())
    }
}

/// Takes the zone out of a path of the form `projects/<id>/zones/<zone>`:
/// the part behind the last slash.
///
/// An empty zone is refused with the tag `zone`.
pub fn parse_zone(s: &str) -> (r: Result<String, Error>)
    ensures
        text_result(r) == zone_in(s@),
{
    let zone = last_segment(s, '/');
    if zone.as_str().is_empty() {
        Err(Error::new(ErrorKind::MetadataParse("zone")))
    } else {
        Ok(zone)
    }
}

/// The part of `s` behind the last `sep`, or all of `s` where there is none.
pub fn last_segment(s: &str, sep: char) -> (r: String)
    ensures
        r@ == split(s@, sep).last(),
{
    let cs = chars_of(s);
    let n = cs.len();
    let mut k: usize = n;
    while k > 0 && cs[k - 1] != sep
        invariant
            k <= n,
            n == cs.len(),
            forall|j: int| k <= j < n ==> cs@[j] != sep,
        decreases k,
    {
        k -= 1;
    }
    proof {
        lemma_split_last(cs@, sep, k as int);
        assert(cs@.subrange(k as int, n as int) == cs@.skip(k as int));
    }
    s.substring_char(k, n).to_owned()
}

/// Tells whether `a` and `b` are the same but for the case of ASCII letters.
pub fn eq_ignore_ascii_case(a: &str, b: &str) -> (same: bool)
    ensures
        same == same_ignoring_ascii_case(a@, b@),
{
    let x = chars_of(a);
    let y = chars_of(b);
    if x.len() != y.len() {
        return false;
    }
    let mut i: usize = 0;
    while i < x.len()
        invariant
            x@ == a@,
            y@ == b@,
            x.len() == y.len(),
            i <= x.len(),
            forall|j: int| 0 <= j < i ==> ascii_lower(x@[j]) == ascii_lower(y@[j]),
        decreases x.len() - i,
    {
        if lower(x[i]) != lower(y[i]) {
            return false;
        }
        i += 1;
    }
    true
}

/// The code of `c`, with an ASCII capital letter turned into the small one.
pub fn lower(c: char) -> (u: u32)
    ensures
        u == ascii_lower(c),
{
    let u: u32 = c as u32;
    if 0x41 <= u && u <= 0x5A {
        u + 0x20
    } else {
        u
    }
}

} // verus!
