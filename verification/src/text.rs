use vstd::prelude::*;

verus! {

/// `str`'s `==` from the standard library: it holds exactly when both slices
/// hold the same characters.
pub assume_specification[ <str as PartialEq>::eq ](a: &str, b: &str) -> (r: bool)
    ensures
        r == (a@ == b@),
;

/// `String::push` from the standard library: the character is appended.
pub assume_specification[ String::push ](s: &mut String, c: char)
    ensures
        final(s)@ == old(s)@.push(c),
;

/// The characters of each string of a sequence.
pub open spec fn texts(v: Seq<String>) -> Seq<Seq<char>> {
    v.map_values(|s: String| s@)
}

/// The characters of an optional string.
pub open spec fn opt_text(o: Option<String>) -> Option<Seq<char>> {
    match o {
        Some(s) => Some(s@),
        None => None,
    }
}

/// Unicode white space, as `char::is_whitespace` has it.
pub open spec fn spec_is_space(c: char) -> bool {
    let n = c as u32;
    ||| 0x09 <= n <= 0x0D
    ||| n == 0x20
    ||| n == 0x85
    ||| n == 0xA0
    ||| n == 0x1680
    ||| 0x2000 <= n <= 0x200A
    ||| n == 0x2028
    ||| n == 0x2029
    ||| n == 0x202F
    ||| n == 0x205F
    ||| n == 0x3000
}

/// Whether `c` is white space.
#[verifier::when_used_as_spec(spec_is_space)]
pub fn is_space(c: char) -> (r: bool)
    ensures
        r == spec_is_space(c),
{
    let n: u32 = c as u32;
    (0x09 <= n && n <= 0x0D) || n == 0x20 || n == 0x85 || n == 0xA0 || n == 0x1680 || (0x2000 <= n
        && n <= 0x200A) || n == 0x2028 || n == 0x2029 || n == 0x202F || n == 0x205F || n == 0x3000
}

/// The characters of a string slice, in order.
pub fn chars_of(s: &str) -> (v: Vec<char>)
    ensures
        v@ == s@,
{
    let mut v: Vec<char> = Vec::new();
    for c in it: s.chars()
        invariant
            v@ == it.seq().take(it.index() as int),
            it.seq() == s@,
    {
        v.push(c);
    }
    v
}

/// The string made of `v[from..to]`.
pub fn string_of_range(v: &Vec<char>, from: usize, to: usize) -> (s: String)
    requires
        from <= to <= v.len(),
    ensures
        s@ == v@.subrange(from as int, to as int),
{
    let mut s = String::new();
    let mut i: usize = from;
    while i < to
        invariant
            from <= i <= to <= v.len(),
            s@ == v@.subrange(from as int, i as int),
        decreases to - i,
    {
        s.push(v[i]);
        i += 1;
    }
    s
}

/// The string made of the characters of `v`.
pub fn string_of(v: &Vec<char>) -> (s: String)
    ensures
        s@ == v@,
{
    let s = string_of_range(v, 0, v.len());
    assert(v@.subrange(0, v.len() as int) == v@);
    s
}

/// `a` followed by `b`.
pub fn concat(a: &str, b: &str) -> (s: String)
    ensures
        s@ == a@ + b@,
{
    let mut s = a.to_owned();
    s.append(b);
    s
}

/// Whether `p` stands at position `i` of `s`.
pub open spec fn occurs_at(s: Seq<char>, p: Seq<char>, i: int) -> bool {
    0 <= i && i + p.len() <= s.len() && s.subrange(i, i + p.len()) == p
}

/// Whether `s` begins with `p`.
pub open spec fn spec_starts_with(s: Seq<char>, p: Seq<char>) -> bool {
    occurs_at(s, p, 0)
}

/// Whether `p` occurs somewhere in `s`.
pub open spec fn spec_contains(s: Seq<char>, p: Seq<char>) -> bool {
    exists|i: int| occurs_at(s, p, i)
}

/// Whether `p` stands at position `i` of `s`.
fn matches_at(s: &Vec<char>, p: &Vec<char>, i: usize) -> (r: bool)
    ensures
        r == occurs_at(s@, p@, i as int),
{
    if p.len() > s.len() || i > s.len() - p.len() {
        return false;
    }
    let mut k: usize = 0;
    while k < p.len()
        invariant
            k <= p.len(),
            i + p.len() <= s.len(),
            forall|j: int| 0 <= j < k ==> s[i + j] == p[j],
        decreases p.len() - k,
    {
        if s[i + k] != p[k] {
            assert(s@.subrange(i as int, i + p.len())[k as int] != p@[k as int]);
            return false;
        }
        k += 1;
    }
    assert(s@.subrange(i as int, i + p.len()) =~= p@);
    true
}

/// Whether `s` begins with `prefix`.
pub fn starts_with(s: &str, prefix: &str) -> (r: bool)
    ensures
        r == spec_starts_with(s@, prefix@),
{
    let sv = chars_of(s);
    let pv = chars_of(prefix);
    matches_at(&sv, &pv, 0)
}

/// Whether `pat` occurs somewhere in `s`.
pub fn contains(s: &str, pat: &str) -> (r: bool)
    ensures
        r == spec_contains(s@, pat@),
{
    let sv = chars_of(s);
    let pv = chars_of(pat);
    if pv.len() > sv.len() {
        return false;
    }
    let last: usize = sv.len() - pv.len();
    let mut i: usize = 0;
    while i < last
        invariant
            i <= last,
            last == sv.len() - pv.len(),
            pv.len() <= sv.len(),
            sv@ == s@,
            pv@ == pat@,
            forall|j: int| 0 <= j < i ==> !occurs_at(s@, pat@, j),
        decreases last - i,
    {
        if matches_at(&sv, &pv, i) {
            return true;
        }
        i += 1;
    }
    matches_at(&sv, &pv, last)
}

/// `s` without the white space it begins with.
pub open spec fn spec_trim_start(s: Seq<char>) -> Seq<char>
    decreases s.len(),
{
    if s.len() > 0 && is_space(s[0]) {
        spec_trim_start(s.drop_first())
    } else {
        s
    }
}

/// `s` without the white space it ends with.
pub open spec fn spec_trim_end(s: Seq<char>) -> Seq<char>
    decreases s.len(),
{
    if s.len() > 0 && is_space(s.last()) {
        spec_trim_end(s.drop_last())
    } else {
        s
    }
}

/// `s` without the white space at either end.
pub open spec fn spec_trim(s: Seq<char>) -> Seq<char> {
    spec_trim_end(spec_trim_start(s))
}

/// The index of the first character of `v` at or after `from` that is no
/// white space, or the length of `v`.
fn skip_spaces(v: &Vec<char>, from: usize) -> (a: usize)
    requires
        from <= v.len(),
    ensures
        from <= a <= v.len(),
        spec_trim_start(v@.subrange(from as int, v.len() as int)) == v@.subrange(
            a as int,
            v.len() as int,
        ),
{
    let mut a: usize = from;
    while a < v.len() && is_space(v[a])
        invariant
            from <= a <= v.len(),
            spec_trim_start(v@.subrange(from as int, v.len() as int)) == spec_trim_start(
                v@.subrange(a as int, v.len() as int),
            ),
        decreases v.len() - a,
    {
        assert(v@.subrange(a as int, v.len() as int).drop_first() == v@.subrange(
            a + 1,
            v.len() as int,
        ));
        a += 1;
    }
    a
}

/// The end of `v[from..]` once the white space it ends with is cut off.
fn skip_spaces_back(v: &Vec<char>, from: usize) -> (b: usize)
    requires
        from <= v.len(),
    ensures
        from <= b <= v.len(),
        spec_trim_end(v@.subrange(from as int, v.len() as int)) == v@.subrange(
            from as int,
            b as int,
        ),
{
    let mut b: usize = v.len();
    assert(v@.subrange(from as int, v.len() as int) == v@.subrange(from as int, b as int));
    while b > from && is_space(v[b - 1])
        invariant
            from <= b <= v.len(),
            spec_trim_end(v@.subrange(from as int, v.len() as int)) == spec_trim_end(
                v@.subrange(from as int, b as int),
            ),
        decreases b,
    {
        assert(v@.subrange(from as int, b as int).drop_last() == v@.subrange(
            from as int,
            b - 1,
        ));
        b -= 1;
    }
    b
}

/// `s` without the white space it begins with.
pub fn trim_start(s: &str) -> (r: String)
    ensures
        r@ == spec_trim_start(s@),
{
    let v = chars_of(s);
    let a = skip_spaces(&v, 0);
    assert(v@.subrange(0, v.len() as int) == v@);
    string_of_range(&v, a, v.len())
}

/// `s` without the white space at either end.
pub fn trim(s: &str) -> (r: String)
    ensures
        r@ == spec_trim(s@),
{
    let v = chars_of(s);
    let a = skip_spaces(&v, 0);
    assert(v@.subrange(0, v.len() as int) == v@);
    let b = skip_spaces_back(&v, a);
    string_of_range(&v, a, b)
}

/// The pieces between runs of white space, from position `i` of `s` on, where
/// `cur` is the piece that is being read.
pub open spec fn words_from(s: Seq<char>, i: int, cur: Seq<char>) -> Seq<Seq<char>>
    decreases s.len() - i,
{
    if i < 0 || i >= s.len() {
        if cur.len() > 0 {
            seq![cur]
        } else {
            Seq::empty()
        }
    } else if is_space(s[i]) {
        if cur.len() > 0 {
            seq![cur] + words_from(s, i + 1, Seq::empty())
        } else {
            words_from(s, i + 1, Seq::empty())
        }
    } else {
        words_from(s, i + 1, cur.push(s[i]))
    }
}

/// The non-empty pieces of `s` between runs of white space, in order.
pub open spec fn spec_split_whitespace(s: Seq<char>) -> Seq<Seq<char>> {
    words_from(s, 0, Seq::empty())
}

/// The non-empty pieces of `s` between runs of white space, in order.
pub fn split_whitespace(s: &str) -> (r: Vec<String>)
    ensures
        texts(r@) == spec_split_whitespace(s@),
{
    let v = chars_of(s);
    let mut out: Vec<String> = Vec::new();
    let mut cur = String::new();
    let mut i: usize = 0;
    assert(texts(out@) =~= Seq::<Seq<char>>::empty());
    while i < v.len()
        invariant
            i <= v.len(),
            v@ == s@,
            spec_split_whitespace(s@) == texts(out@) + words_from(s@, i as int, cur@),
        decreases v.len() - i,
    {
        let c = v[i];
        if is_space(c) {
            if cur.unicode_len() > 0 {
                let ghost before = out@;
                out.push(cur);
                assert(texts(out@) =~= texts(before) + seq![cur@]);
                cur = String::new();
            } else {
                assert(cur@ =~= Seq::<char>::empty());
            }
        } else {
            cur.push(c);
        }
        i += 1;
    }
    if cur.unicode_len() > 0 {
        let ghost before = out@;
        out.push(cur);
        assert(texts(out@) =~= texts(before) + seq![cur@]);
    }
    out
}

/// `line` without a carriage return at its end.
pub open spec fn strip_cr(line: Seq<char>) -> Seq<char> {
    if line.len() > 0 && line.last() == '\r' {
        line.drop_last()
    } else {
        line
    }
}

/// The lines from position `i` of `s` on, where `cur` is the line that is
/// being read.
pub open spec fn lines_from(s: Seq<char>, i: int, cur: Seq<char>) -> Seq<Seq<char>>
    decreases s.len() - i,
{
    if i < 0 || i >= s.len() {
        if cur.len() > 0 {
            seq![cur]
        } else {
            Seq::empty()
        }
    } else if s[i] == '\n' {
        seq![strip_cr(cur)] + lines_from(s, i + 1, Seq::empty())
    } else {
        lines_from(s, i + 1, cur.push(s[i]))
    }
}

/// The lines of `s`: each ends at a line feed, which is left out together
/// with a carriage return before it; what follows the last line feed is a
/// line if it is not empty.
pub open spec fn spec_lines(s: Seq<char>) -> Seq<Seq<char>> {
    lines_from(s, 0, Seq::empty())
}

/// The lines of `s`, without their line endings.
pub fn lines(s: &str) -> (r: Vec<String>)
    ensures
        texts(r@) == spec_lines(s@),
{
    let v = chars_of(s);
    let mut out: Vec<String> = Vec::new();
    let mut cur: Vec<char> = Vec::new();
    let mut i: usize = 0;
    assert(texts(out@) =~= Seq::<Seq<char>>::empty());
    while i < v.len()
        invariant
            i <= v.len(),
            v@ == s@,
            spec_lines(s@) == texts(out@) + lines_from(s@, i as int, cur@),
        decreases v.len() - i,
    {
        let c = v[i];
        if c == '\n' {
            let n = cur.len();
            let line = if n > 0 && cur[n - 1] == '\r' {
                string_of_range(&cur, 0, n - 1)
            } else {
                string_of(&cur)
            };
            assert(line@ == strip_cr(cur@));
            let ghost before = out@;
            out.push(line);
            assert(texts(out@) =~= texts(before) + seq![line@]);
            cur = Vec::new();
        } else {
            cur.push(c);
        }
        i += 1;
    }
    if cur.len() > 0 {
        let line = string_of(&cur);
        let ghost before = out@;
        out.push(line);
        assert(texts(out@) =~= texts(before) + seq![line@]);
    }
    out
}

/// The character of a decimal digit.
pub open spec fn digit_char(d: nat) -> char {
    ((48 + d) as u8) as char
}

/// `n` in decimal, without leading zeros.
pub open spec fn spec_decimal(n: nat) -> Seq<char>
    decreases n,
{
    if n < 10 {
        seq![digit_char(n)]
    } else {
        spec_decimal(n / 10).push(digit_char(n % 10))
    }
}

/// `n` in decimal, without leading zeros.
pub fn decimal(n: u128) -> (s: String)
    ensures
        s@ == spec_decimal(n as nat),
        s@.len() > 0,
    decreases n,
{
    if n < 10 {
        let mut s = String::new();
        s.push((48u8 + n as u8) as char);
        s
    } else {
        let mut s = decimal(n / 10);
        s.push((48u8 + (n % 10) as u8) as char);
        s
    }
}

/// Whether `c` is one of the ten decimal digits.
pub open spec fn is_digit(c: char) -> bool {
    '0' <= c && c <= '9'
}

/// The number that a sequence of decimal digits stands for.
pub open spec fn digits_value(s: Seq<char>) -> nat
    decreases s.len(),
{
    if s.len() == 0 {
        0
    } else {
        (digits_value(s.drop_last()) * 10 + (s.last() as u8 - 48)) as nat
    }
}

/// Whether `s` holds decimal digits only.
pub open spec fn all_digits(s: Seq<char>) -> bool {
    forall|i: int| 0 <= i < s.len() ==> is_digit(#[trigger] s[i])
}

/// Whether `s` begins with a sign.
pub open spec fn has_sign(s: Seq<char>) -> bool {
    s.len() > 0 && (s[0] == '-' || s[0] == '+')
}

/// What follows the sign of `s`, or `s` itself where it has none.
pub open spec fn unsigned_part(s: Seq<char>) -> Seq<char> {
    if has_sign(s) {
        s.drop_first()
    } else {
        s
    }
}

/// The integer that `s` spells: an optional sign, then one decimal digit or
/// more, and nothing else.
pub open spec fn spec_parse_int(s: Seq<char>) -> Option<int> {
    let body = unsigned_part(s);
    if body.len() == 0 || !all_digits(body) {
        None
    } else if has_sign(s) && s[0] == '-' {
        Some(-(digits_value(body) as int))
    } else {
        Some(digits_value(body) as int)
    }
}

/// The integer that `s` spells, where it lies between `low` and `high`.
pub open spec fn spec_parse_bounded(s: Seq<char>, low: int, high: int) -> Option<int> {
    match spec_parse_int(s) {
        Some(v) => if low <= v <= high {
            Some(v)
        } else {
            None
        },
        None => None,
    }
}

/// The digits read so far never stand for more than all the digits do.
proof fn lemma_digits_value_grows(s: Seq<char>, k: int)
    requires
        0 <= k <= s.len(),
        all_digits(s),
    ensures
        digits_value(s.subrange(0, k)) <= digits_value(s),
    decreases s.len() - k,
{
    if k == s.len() {
        assert(s.subrange(0, k) == s);
    } else {
        let t = s.subrange(0, k + 1);
        assert(t.drop_last() == s.subrange(0, k));
        assert(is_digit(s[k]));
        assert(t.last() == s[k]);
        lemma_digits_value_grows(s, k + 1);
    }
}

/// The sign and the magnitude of the integer between `-limit` and `limit`
/// that `v` spells.
#[verifier::loop_isolation(false)]
fn parse_magnitude(v: &Vec<char>, limit: u64) -> (r: Option<(bool, u64)>)
    requires
        limit <= 0x1_0000_0000,
    ensures
        match r {
            Some((negative, magnitude)) => magnitude <= limit && spec_parse_int(v@) == Some(
                if negative {
                    -(magnitude as int)
                } else {
                    magnitude as int
                },
            ) && negative == (v@.len() > 0 && v@[0] == '-'),
            None => match spec_parse_int(v@) {
                Some(x) => x < -(limit as int) || x > limit as int,
                None => true,
            },
        },
{
    let n = v.len();
    let signed = n > 0 && (v[0] == '-' || v[0] == '+');
    let start: usize = if signed {
        1
    } else {
        0
    };
    let ghost body = unsigned_part(v@);
    if start == n {
        return None;
    }
    let mut acc: u64 = 0;
    let mut i: usize = start;
    assert(body.subrange(0, 0) =~= Seq::<char>::empty());
    while i < n
        invariant
            start <= i <= n,
            n == v.len(),
            body.len() == n - start,
            forall|j: int| 0 <= j < body.len() ==> body[j] == v[j + start],
            forall|j: int| 0 <= j < i - start ==> is_digit(#[trigger] body[j]),
            acc == digits_value(body.subrange(0, i - start)),
            acc <= limit,
            limit <= 0x1_0000_0000,
        decreases n - i,
    {
        let c = v[i];
        if !(c >= '0' && c <= '9') {
            assert(!is_digit(body[i - start]));
            return None;
        }
        let d: u64 = (c as u8 - 48u8) as u64;
        let next: u64 = acc * 10 + d;
        proof {
            let t = body.subrange(0, i - start + 1);
            assert(t.drop_last() == body.subrange(0, i - start));
            assert(t.last() == c);
            assert(next == digits_value(t));
        }
        if next > limit {
            // The digits read so far already spell too large a number.
            let mut k: usize = i + 1;
            while k < n
                invariant
                    i < k <= n,
                    n == v.len(),
                    body.len() == n - start,
                    forall|j: int| 0 <= j < body.len() ==> body[j] == v[j + start],
                    forall|j: int| 0 <= j < k - start ==> is_digit(#[trigger] body[j]),
                decreases n - k,
            {
                let c2 = v[k];
                if !(c2 >= '0' && c2 <= '9') {
                    assert(!is_digit(body[k - start]));
                    return None;
                }
                k += 1;
            }
            proof {
                lemma_digits_value_grows(body, i - start + 1);
            }
            return None;
        }
        acc = next;
        i += 1;
    }
    assert(body.subrange(0, body.len() as int) == body);
    Some((signed && v[0] == '-', acc))
}

/// The `i32` that `s` spells, if it spells one.
pub fn parse_i32(s: &str) -> (r: Option<i32>)
    ensures
        match r {
            Some(x) => spec_parse_bounded(s@, i32::MIN as int, i32::MAX as int) == Some(x as int),
            None => spec_parse_bounded(s@, i32::MIN as int, i32::MAX as int) is None,
        },
{
    let v = chars_of(s);
    match parse_magnitude(&v, 0x8000_0000) {
        Some((negative, magnitude)) => {
            if negative {
                if magnitude == 0x8000_0000 {
                    Some(i32::MIN)
                } else {
                    Some(-(magnitude as i32))
                }
            } else if magnitude == 0x8000_0000 {
                None
            } else {
                Some(magnitude as i32)
            }
        },
        None => None,
    }
}

/// The `u32` that `s` spells, if it spells one; a minus sign is not accepted.
pub fn parse_u32(s: &str) -> (r: Option<u32>)
    ensures
        match r {
            Some(x) => spec_parse_bounded(s@, 0, u32::MAX as int) == Some(x as int) && !(s@.len()
                > 0 && s@[0] == '-'),
            None => spec_parse_bounded(s@, 0, u32::MAX as int) is None || (s@.len() > 0 && s@[0]
                == '-'),
        },
{
    let v = chars_of(s);
    match parse_magnitude(&v, 0xFFFF_FFFF) {
        Some((negative, magnitude)) => {
            if negative {
                None
            } else {
                Some(magnitude as u32)
            }
        },
        None => None,
    }
}

/// The pieces of `parts` one after the other.
pub open spec fn spec_concat_all(parts: Seq<Seq<char>>) -> Seq<char>
    decreases parts.len(),
{
    if parts.len() == 0 {
        Seq::empty()
    } else {
        spec_concat_all(parts.drop_last()) + parts.last()
    }
}

/// The characters of each string slice of a sequence.
pub open spec fn slices(v: Seq<&str>) -> Seq<Seq<char>> {
    v.map_values(|s: &str| s@)
}

/// The pieces of `parts` one after the other.
pub fn concat_all(parts: &Vec<&str>) -> (s: String)
    ensures
        s@ == spec_concat_all(slices(parts@)),
{
    let mut s = String::new();
    let mut i: usize = 0;
    assert(slices(parts@).subrange(0, 0) =~= Seq::<Seq<char>>::empty());
    while i < parts.len()
        invariant
            i <= parts.len(),
            s@ == spec_concat_all(slices(parts@).subrange(0, i as int)),
        decreases parts.len() - i,
    {
        proof {
            let next = slices(parts@).subrange(0, i + 1);
            assert(next.drop_last() =~= slices(parts@).subrange(0, i as int));
            assert(next.last() == parts[i as int]@);
        }
        s.append(parts[i]);
        i += 1;
    }
    assert(slices(parts@).subrange(0, parts.len() as int) =~= slices(parts@));
    s
}

/// `s` with every `from` turned into `to`.
pub open spec fn spec_replace_char(s: Seq<char>, from: char, to: char) -> Seq<char> {
    s.map_values(
        |c: char|
            if c == from {
                to
            } else {
                c
            },
    )
}

/// `s` with every `from` turned into `to`.
pub fn replace_char(s: &str, from: char, to: char) -> (r: String)
    ensures
        r@ == spec_replace_char(s@, from, to),
{
    let v = chars_of(s);
    let mut r = String::new();
    let mut i: usize = 0;
    while i < v.len()
        invariant
            i <= v.len(),
            v@ == s@,
            r@ == spec_replace_char(s@, from, to).subrange(0, i as int),
        decreases v.len() - i,
    {
        let c = v[i];
        r.push(if c == from { to } else { c });
        assert(r@ =~= spec_replace_char(s@, from, to).subrange(0, i + 1));
        i += 1;
    }
    assert(r@ =~= spec_replace_char(s@, from, to));
    r
}

} // verus!
