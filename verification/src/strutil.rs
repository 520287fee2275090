//! Small string-building helpers shared by the identifier transform and the
//! code generator: appending one character to a `String`, and decimal
//! formatting of machine integers.

use vstd::prelude::*;

verus! {

/// Relies on std's `String::push`: it appends exactly the one given character.
#[verifier::external_body]
pub fn string_push_char(s: &mut String, c: char)
    ensures
        final(s)@ == old(s)@.push(c),
{
    s.push(c);
}

/// Whether two strings spell the same characters.
pub fn str_eq(a: &str, b: &str) -> (r: bool)
    ensures
        r == (a@ == b@),
{
    let la = a.unicode_len();
    let lb = b.unicode_len();
    if la != lb {
        return false;
    }
    let mut i: usize = 0;
    while i < la
        invariant
            la == a@.len(),
            la == b@.len(),
            0 <= i <= la,
            forall|j: int| 0 <= j < i ==> a@[j] == b@[j],
        decreases la - i,
    {
        if a.get_char(i) != b.get_char(i) {
            return false;
        }
        i += 1;
    }
    proof {
        assert(a@ =~= b@);
    }
    true
}

/// The character spelling one decimal digit.
pub open spec fn spec_digit_char(d: nat) -> char
    recommends
        d < 10,
{
    (('0' as u8) + d) as char
}

/// The decimal spelling of a number, most significant digit first, with no
/// leading zeros (a single zero spells zero itself).
pub open spec fn spec_decimal(n: nat) -> Seq<char>
    decreases n,
{
    if n < 10 {
        seq![spec_digit_char(n)]
    } else {
        spec_decimal(n / 10) + seq![spec_digit_char(n % 10)]
    }
}

/// Append the decimal spelling of `n`.
pub fn push_decimal(out: &mut String, n: usize)
    ensures
        final(out)@ == old(out)@ + spec_decimal(n as nat),
    decreases n,
{
    if n < 10 {
        let d = n as u8;
        string_push_char(out, (('0' as u8) + d) as char);
        proof {
            assert(out@ =~= old(out)@ + spec_decimal(n as nat));
        }
    } else {
        push_decimal(out, n / 10);
        let d = (n % 10) as u8;
        string_push_char(out, (('0' as u8) + d) as char);
        proof {
            assert(out@ =~= old(out)@ + spec_decimal(n as nat));
        }
    }
}

/// Append the decimal spelling of a 64-bit value.
pub fn push_decimal_u64(out: &mut String, n: u64)
    ensures
        final(out)@ == old(out)@ + spec_decimal(n as nat),
    decreases n,
{
    if n < 10 {
        let d = n as u8;
        string_push_char(out, (('0' as u8) + d) as char);
        proof {
            assert(out@ =~= old(out)@ + spec_decimal(n as nat));
        }
    } else {
        push_decimal_u64(out, n / 10);
        let d = (n % 10) as u8;
        string_push_char(out, (('0' as u8) + d) as char);
        proof {
            assert(out@ =~= old(out)@ + spec_decimal(n as nat));
        }
    }
}

/// The decimal spelling of a signed number: a minus sign before the magnitude
/// when it is negative.
pub open spec fn spec_decimal_signed(v: int) -> Seq<char> {
    if v < 0 {
        seq!['-'] + spec_decimal((-v) as nat)
    } else {
        spec_decimal(v as nat)
    }
}

/// Append the decimal spelling of a signed 32-bit value.
pub fn push_decimal_i32(out: &mut String, v: i32)
    ensures
        final(out)@ == old(out)@ + spec_decimal_signed(v as int),
{
    if v < 0 {
        let ghost pre = out@;
        string_push_char(out, '-');
        let magnitude = (-(v as i64)) as usize;
        push_decimal(out, magnitude);
        proof {
            assert(out@ =~= pre + spec_decimal_signed(v as int));
        }
    } else {
        push_decimal(out, v as usize);
    }
}

/// The string with `p` removed from its front when `p` leads it; unchanged
/// otherwise.
pub open spec fn spec_strip_prefix(s: Seq<char>, p: Seq<char>) -> Seq<char> {
    if p.len() <= s.len() && s.take(p.len() as int) == p {
        s.skip(p.len() as int)
    } else {
        s
    }
}

/// Remove a leading occurrence of `p` from `s`.
pub fn strip_prefix_str(s: &str, p: &str) -> (r: String)
    ensures
        r@ == spec_strip_prefix(s@, p@),
{
    let sl = s.unicode_len();
    let pl = p.unicode_len();
    if pl > sl {
        return s.to_owned();
    }
    let mut i: usize = 0;
    while i < pl
        invariant
            sl == s@.len(),
            pl == p@.len(),
            pl <= sl,
            0 <= i <= pl,
            forall|j: int| 0 <= j < i ==> s@[j] == p@[j],
        decreases pl - i,
    {
        if s.get_char(i) != p.get_char(i) {
            proof {
                assert(s@.take(pl as int)[i as int] != p@[i as int]);
            }
            return s.to_owned();
        }
        i += 1;
    }
    proof {
        assert(s@.take(pl as int) =~= p@);
    }
    s.substring_char(pl, sl).to_owned()
}

pub open spec fn spec_is_space(c: char) -> bool {
    c == ' ' || c == '\t' || c == '\n' || c == '\r'
}

fn is_space(c: char) -> (r: bool)
    ensures
        r == spec_is_space(c),
{
    c == ' ' || c == '\t' || c == '\n' || c == '\r'
}

/// The string with its leading whitespace removed.
pub open spec fn spec_trim_start(s: Seq<char>) -> Seq<char>
    decreases s.len(),
{
    if s.len() > 0 && spec_is_space(s[0]) {
        spec_trim_start(s.drop_first())
    } else {
        s
    }
}

/// The string with its trailing whitespace removed.
pub open spec fn spec_trim_end(s: Seq<char>) -> Seq<char>
    decreases s.len(),
{
    if s.len() > 0 && spec_is_space(s[s.len() - 1]) {
        spec_trim_end(s.drop_last())
    } else {
        s
    }
}

/// The string with whitespace removed from both ends.
pub open spec fn spec_trim(s: Seq<char>) -> Seq<char> {
    spec_trim_end(spec_trim_start(s))
}

proof fn lemma_trim_start_skip(s: Seq<char>, i: int)
    requires
        0 <= i <= s.len(),
        forall|j: int| 0 <= j < i ==> spec_is_space(#[trigger] s[j]),
        i < s.len() ==> !spec_is_space(s[i]),
    ensures
        spec_trim_start(s) == s.skip(i),
    decreases i,
{
    if i == 0 {
        assert(s.skip(0) =~= s);
    } else {
        lemma_trim_start_skip(s.drop_first(), i - 1);
        assert(s.drop_first().skip(i - 1) =~= s.skip(i));
    }
}

proof fn lemma_trim_end_take(s: Seq<char>, k: int)
    requires
        0 <= k <= s.len(),
        forall|j: int| k <= j < s.len() ==> spec_is_space(#[trigger] s[j]),
        k > 0 ==> !spec_is_space(s[k - 1]),
    ensures
        spec_trim_end(s) == s.take(k),
    decreases s.len() - k,
{
    if k == s.len() {
        assert(s.take(k) =~= s);
    } else {
        lemma_trim_end_take(s.drop_last(), k);
        assert(s.drop_last().take(k) =~= s.take(k));
    }
}

/// The string with surrounding whitespace removed.
pub fn trim_str(s: &str) -> (r: &str)
    ensures
        r@ == spec_trim(s@),
{
    let len = s.unicode_len();
    let mut start: usize = 0;
    while start < len && is_space(s.get_char(start))
        invariant
            len == s@.len(),
            0 <= start <= len,
            forall|j: int| 0 <= j < start ==> spec_is_space(#[trigger] s@[j]),
        decreases len - start,
    {
        start += 1;
    }
    proof {
        lemma_trim_start_skip(s@, start as int);
    }
    let mut end: usize = len;
    while end > start && is_space(s.get_char(end - 1))
        invariant
            len == s@.len(),
            start <= end <= len,
            forall|j: int| end <= j < len ==> spec_is_space(#[trigger] s@[j]),
        decreases end,
    {
        end -= 1;
    }
    proof {
        let t = s@.skip(start as int);
        assert(forall|j: int|
            end - start <= j < t.len() ==> spec_is_space(#[trigger] t[j]) && t[j] == s@[j
                + start]);
        lemma_trim_end_take(t, end - start as int);
        assert(t.take(end - start as int) =~= s@.subrange(start as int, end as int));
    }
    s.substring_char(start, end)
}

/// The pieces a text falls into at line feeds: always one more piece than
/// there are line feeds, empty pieces kept.
pub open spec fn spec_split_lines(s: Seq<char>) -> Seq<Seq<char>>
    decreases s.len(),
{
    if s.len() == 0 {
        seq![Seq::<char>::empty()]
    } else if s[0] == '\n' {
        seq![Seq::<char>::empty()] + spec_split_lines(s.drop_first())
    } else {
        spec_prepend_first(seq![s[0]], spec_split_lines(s.drop_first()))
    }
}

/// The line list with `p` prepended to its first line.
pub open spec fn spec_prepend_first(p: Seq<char>, ls: Seq<Seq<char>>) -> Seq<Seq<char>>
    recommends
        ls.len() > 0,
{
    seq![p + ls[0]] + ls.drop_first()
}

pub proof fn lemma_split_lines_nonempty(s: Seq<char>)
    ensures
        spec_split_lines(s).len() >= 1,
    decreases s.len(),
{
    if s.len() == 0 {
    } else {
        lemma_split_lines_nonempty(s.drop_first());
    }
}

/// Split a text at line feeds.
pub fn split_lines(s: &str) -> (r: Vec<String>)
    ensures
        r.deep_view() == spec_split_lines(s@),
{
    let len = s.unicode_len();
    let mut lines: Vec<String> = Vec::new();
    let mut cur = String::new();
    let mut i: usize = 0;
    proof {
        assert(s@.skip(0) =~= s@);
        assert(lines.deep_view() =~= Seq::<Seq<char>>::empty());
        lemma_split_lines_nonempty(s@);
        assert(spec_prepend_first(cur@, spec_split_lines(s@)) =~~= spec_split_lines(s@));
    }
    while i < len
        invariant
            len == s@.len(),
            0 <= i <= len,
            spec_split_lines(s@) =~~= lines.deep_view() + spec_prepend_first(
                cur@,
                spec_split_lines(s@.skip(i as int)),
            ),
        decreases len - i,
    {
        let c = s.get_char(i);
        proof {
            assert(s@.skip(i as int)[0] == s@[i as int]);
            assert(s@.skip(i as int).drop_first() =~= s@.skip(i + 1 as int));
            lemma_split_lines_nonempty(s@.skip(i + 1 as int));
        }
        if c == '\n' {
            let ghost old_lines = lines.deep_view();
            let ghost old_cur = cur@;
            lines.push(cur);
            cur = String::new();
            proof {
                let rest = spec_split_lines(s@.skip(i + 1 as int));
                assert(lines.deep_view() =~~= old_lines.push(old_cur));
                assert(spec_split_lines(s@.skip(i as int)) =~~= seq![Seq::<char>::empty()]
                    + rest);
                assert(spec_prepend_first(old_cur, seq![Seq::<char>::empty()] + rest)
                    =~~= seq![old_cur] + rest);
                assert(spec_prepend_first(cur@, rest) =~~= seq![Seq::<char>::empty() + rest[0]]
                    + rest.drop_first());
                assert(Seq::<char>::empty() + rest[0] =~= rest[0]);
                assert(seq![rest[0]] + rest.drop_first() =~~= rest);
                assert(old_lines.push(old_cur) + rest =~~= old_lines + (seq![old_cur] + rest));
            }
        } else {
            let ghost old_cur = cur@;
            string_push_char(&mut cur, c);
            proof {
                let rest = spec_split_lines(s@.skip(i + 1 as int));
                assert(spec_split_lines(s@.skip(i as int)) =~~= spec_prepend_first(
                    seq![s@[i as int]],
                    rest,
                ));
                assert(spec_prepend_first(old_cur, spec_prepend_first(seq![s@[i as int]], rest))
                    =~~= spec_prepend_first(cur@, rest));
            }
        }
        i += 1;
    }
    proof {
        assert(s@.skip(len as int) =~= Seq::<char>::empty());
        assert(spec_split_lines(Seq::<char>::empty()) =~~= seq![Seq::<char>::empty()]);
        assert(spec_prepend_first(cur@, seq![Seq::<char>::empty()]) =~~= seq![cur@]);
    }
    let ghost old_lines = lines.deep_view();
    let ghost old_cur = cur@;
    lines.push(cur);
    proof {
        assert(lines.deep_view() =~~= old_lines.push(old_cur));
        assert(old_lines.push(old_cur) =~~= old_lines + seq![old_cur]);
    }
    lines
}

} // verus!
