//! Text handling shared by the other modules: white space, lines, markers
//! at the start of a line, and joining lines.
//!
//! Every function here works on characters, never on bytes, and its contract
//! is stated over the sequence of characters that the string stands for.

use vstd::prelude::*;

verus! {

/// Whether `c` has the Unicode property `White_Space`.
pub open spec fn is_whitespace(c: char) -> bool {
    let n = c as u32;
    ||| 0x09 <= n <= 0x0D
    ||| n == 0x20
    ||| n == 0x85
    ||| n == 0xA0
    ||| n == 0x1680
    ||| 0x2000 <= n <= 0x200A
    ||| n == 0x2028
    ||| n == 0x2029
    ||| n == 0x202F
    ||| n == 0x205F
    ||| n == 0x3000
}

/// `s` without the white space it starts with.
pub open spec fn trim_start(s: Seq<char>) -> Seq<char>
    decreases s.len(),
{
    if s.len() > 0 && is_whitespace(s.first()) {
        trim_start(s.drop_first())
    } else {
        s
    }
}

/// `s` without the white space it ends with.
pub open spec fn trim_end(s: Seq<char>) -> Seq<char>
    decreases s.len(),
{
    if s.len() > 0 && is_whitespace(s.last()) {
        trim_end(s.drop_last())
    } else {
        s
    }
}

/// `s` without the white space on either side. White space inside stays.
pub open spec fn trimmed(s: Seq<char>) -> Seq<char> {
    trim_end(trim_start(s))
}

/// The number of characters before the first line feed of `s`; the length
/// of `s` where it holds no line feed.
pub open spec fn line_len(s: Seq<char>) -> nat
    decreases s.len(),
{
    if s.len() == 0 || s.first() == '\n' {
        0
    } else {
        1 + line_len(s.drop_first())
    }
}

/// `line` without one carriage return at its end, if it has one.
pub open spec fn without_cr(line: Seq<char>) -> Seq<char> {
    if line.len() > 0 && line.last() == '\r' {
        line.drop_last()
    } else {
        line
    }
}

/// The lines of `s`. A line ends at a line feed, or at a carriage return
/// directly followed by a line feed; neither belongs to the line. What
/// follows the last line feed is a line too unless it is empty, and a
/// carriage return at its end stays.
pub open spec fn lines(s: Seq<char>) -> Seq<Seq<char>>
    decreases s.len(),
{
    let k = line_len(s) as int;
    if s.len() == 0 {
        Seq::empty()
    } else if k >= s.len() {
        seq![s]
    } else {
        seq![without_cr(s.take(k))] + lines(s.skip(k + 1))
    }
}

/// What `line` says under `marker`: nothing unless the line starts with
/// the marker, else the rest of the line behind it. The marker is taken
/// once: a value that starts with the marker again keeps that.
pub open spec fn marked_value(line: Seq<char>, marker: Seq<char>) -> Option<Seq<char>> {
    if marker.is_prefix_of(line) {
        Some(line.skip(marker.len() as int))
    } else {
        None
    }
}

/// The parts in order, with one line feed between each two neighbours.
pub open spec fn join_lines(parts: Seq<Seq<char>>) -> Seq<char>
    decreases parts.len(),
{
    if parts.len() == 0 {
        Seq::empty()
    } else if parts.len() == 1 {
        parts.last()
    } else {
        join_lines(parts.drop_last()) + seq!['\n'] + parts.last()
    }
}

/// Whether `line` is what reading one line gives: it holds a line feed
/// at its end or nowhere.
pub open spec fn is_one_line(line: Seq<char>) -> bool {
    forall|i: int| 0 <= i < line.len() - 1 ==> #[trigger] line[i] != '\n'
}

/// The characters of an optional string slice.
pub open spec fn text_of_str(value: Option<&str>) -> Option<Seq<char>> {
    match value {
        Some(text) => Some(text@),
        None => None,
    }
}

/// The characters of an optional string.
pub open spec fn text_of(value: Option<String>) -> Option<Seq<char>> {
    match value {
        Some(text) => Some(text@),
        None => None,
    }
}

/// `trim_start` cuts exactly at the first character that is no white space.
pub proof fn lemma_trim_start_at(s: Seq<char>, a: int)
    requires
        0 <= a <= s.len(),
        forall|j: int| 0 <= j < a ==> is_whitespace(#[trigger] s[j]),
        a == s.len() || !is_whitespace(s[a]),
    ensures
        trim_start(s) == s.skip(a),
    decreases a,
{
    if a == 0 {
        assert(s.skip(0) =~= s);
    } else {
        let rest = s.drop_first();
        assert forall|j: int| 0 <= j < a - 1 implies is_whitespace(#[trigger] rest[j]) by {
            assert(rest[j] == s[j + 1]);
        }
        lemma_trim_start_at(rest, a - 1);
        assert(rest.skip(a - 1) =~= s.skip(a));
    }
}

/// `trim_end` cuts exactly behind the last character that is no white space.
pub proof fn lemma_trim_end_at(s: Seq<char>, b: int)
    requires
        0 <= b <= s.len(),
        forall|j: int| b <= j < s.len() ==> is_whitespace(#[trigger] s[j]),
        b == 0 || !is_whitespace(s[b - 1]),
    ensures
        trim_end(s) == s.take(b),
    decreases s.len() - b,
{
    if b == s.len() {
        assert(s.take(b) =~= s);
    } else {
        let rest = s.drop_last();
        lemma_trim_end_at(rest, b);
        assert(rest.take(b) =~= s.take(b));
    }
}

/// What `trim_start` leaves is the end of what was there.
pub proof fn lemma_trim_start_is_suffix(s: Seq<char>)
    ensures
        trim_start(s).len() <= s.len(),
        trim_start(s) == s.skip(s.len() - trim_start(s).len()),
    decreases s.len(),
{
    if s.len() > 0 && is_whitespace(s.first()) {
        let rest = s.drop_first();
        lemma_trim_start_is_suffix(rest);
        assert(rest.skip(rest.len() - trim_start(rest).len()) =~= s.skip(
            s.len() - trim_start(rest).len(),
        ));
    } else {
        assert(s.skip(0) =~= s);
    }
}

/// What `trim_end` leaves is the start of what was there, and does not
/// end in white space.
pub proof fn lemma_trim_end_is_prefix(s: Seq<char>)
    ensures
        trim_end(s).len() <= s.len(),
        trim_end(s) == s.take(trim_end(s).len() as int),
        trim_end(s).len() > 0 ==> !is_whitespace(trim_end(s).last()),
    decreases s.len(),
{
    if s.len() > 0 && is_whitespace(s.last()) {
        let rest = s.drop_last();
        lemma_trim_end_is_prefix(rest);
        assert(rest.take(trim_end(rest).len() as int) =~= s.take(trim_end(rest).len() as int));
    } else {
        assert(s.take(s.len() as int) =~= s);
    }
}

/// A line that was read, once trimmed, holds no line feed and does not
/// end in a carriage return.
pub proof fn lemma_trimmed_line(line: Seq<char>)
    requires
        is_one_line(line),
    ensures
        !trimmed(line).contains('\n'),
        trimmed(line).len() > 0 ==> trimmed(line).last() != '\r',
{
    let head = trim_start(line);
    let value = trimmed(line);
    lemma_trim_start_is_suffix(line);
    lemma_trim_end_is_prefix(head);
    let a = line.len() - head.len();
    assert(is_whitespace('\r'));
    assert(is_whitespace('\n'));
    assert forall|i: int| 0 <= i < value.len() implies value[i] != '\n' by {
        assert(value[i] == head[i]);
        assert(head[i] == line[i + a]);
        if i + a == line.len() - 1 {
            assert(i == value.len() - 1);
            assert(value[i] == value.last());
        }
    }
}

/// `line_len` is the index of the first line feed, or the length.
pub proof fn lemma_line_len_at(s: Seq<char>, k: int)
    requires
        0 <= k <= s.len(),
        forall|j: int| 0 <= j < k ==> #[trigger] s[j] != '\n',
        k == s.len() || s[k] == '\n',
    ensures
        line_len(s) == k,
    decreases k,
{
    if k > 0 {
        let rest = s.drop_first();
        assert forall|j: int| 0 <= j < k - 1 implies #[trigger] rest[j] != '\n' by {
            assert(rest[j] == s[j + 1]);
        }
        lemma_line_len_at(rest, k - 1);
    }
}

/// A line, its line feed and then `rest` have the lines of `rest` behind
/// that one line.
pub proof fn lemma_lines_first(line: Seq<char>, rest: Seq<char>)
    requires
        !line.contains('\n'),
    ensures
        lines(line + seq!['\n'] + rest) == seq![without_cr(line)] + lines(rest),
{
    let s = line + seq!['\n'] + rest;
    let k = line.len() as int;
    assert forall|j: int| 0 <= j < k implies #[trigger] s[j] != '\n' by {
        assert(s[j] == line[j]);
    }
    assert(s[k] == '\n');
    lemma_line_len_at(s, k);
    assert(s.take(k) =~= line);
    assert(s.skip(k + 1) =~= rest);
}

/// No line holds a line feed.
pub proof fn lemma_lines_hold_no_line_feed(s: Seq<char>)
    ensures
        forall|i: int| 0 <= i < lines(s).len() ==> !(#[trigger] lines(s)[i]).contains('\n'),
    decreases s.len(),
{
    lemma_line_len_first(s);
    let k = line_len(s) as int;
    if s.len() == 0 {
    } else if k >= s.len() {
        assert(!s.contains('\n'));
    } else {
        let head = without_cr(s.take(k));
        let rest = s.skip(k + 1);
        lemma_lines_hold_no_line_feed(rest);
        assert forall|j: int| 0 <= j < head.len() implies head[j] != '\n' by {
            assert(head[j] == s[j]);
        }
        assert(!head.contains('\n'));
        assert forall|i: int| 0 <= i < lines(s).len() implies !(#[trigger] lines(s)[i]).contains(
            '\n',
        ) by {
            if i > 0 {
                assert(lines(s)[i] == lines(rest)[i - 1]);
            }
        }
    }
}

/// `line_len` stops at the first line feed: there is none before it, and
/// one at it unless it is the length.
pub proof fn lemma_line_len_first(s: Seq<char>)
    ensures
        line_len(s) <= s.len(),
        forall|j: int| 0 <= j < line_len(s) ==> #[trigger] s[j] != '\n',
        line_len(s) < s.len() ==> s[line_len(s) as int] == '\n',
    decreases s.len(),
{
    if s.len() == 0 || s.first() == '\n' {
    } else {
        let rest = s.drop_first();
        lemma_line_len_first(rest);
        assert forall|j: int| 0 <= j < line_len(s) implies #[trigger] s[j] != '\n' by {
            if j > 0 {
                assert(s[j] == rest[j - 1]);
            }
        }
        if line_len(s) < s.len() {
            assert(s[line_len(s) as int] == rest[line_len(rest) as int]);
        }
    }
}

/// A value behind its marker is read back as it is.
pub proof fn lemma_marked_value_of(marker: Seq<char>, value: Seq<char>)
    ensures
        marked_value(marker + value, marker) == Some(value),
{
    let line = marker + value;
    let m = marker.len() as int;
    assert(line.subrange(0, m) =~= marker);
    assert(line.skip(m) =~= value);
}

/// The characters of `s`, in order.
pub fn chars_of(s: &str) -> (v: Vec<char>)
    ensures
        v@ == s@,
{
    let mut v: Vec<char> = Vec::new();
    for c in it: s.chars()
        invariant
            it.seq() == s@,
            v@ == it.seq().take(it.index()),
    {
        v.push(c);
    }
    v
}

/// Whether `c` is white space.
pub fn char_is_whitespace(c: char) -> (r: bool)
    ensures
        r == is_whitespace(c),
{
    let n: u32 = c as u32;
    (0x09 <= n && n <= 0x0D) || n == 0x20 || n == 0x85 || n == 0xA0 || n == 0x1680 || (0x2000 <= n
        && n <= 0x200A) || n == 0x2028 || n == 0x2029 || n == 0x202F || n == 0x205F || n == 0x3000
}

/// A copy of `s` without the white space on either side.
pub fn trim(s: &str) -> (r: String)
    ensures
        r@ == trimmed(s@),
{
    let cs = chars_of(s);
    let n = cs.len();
    let mut a: usize = 0;
    while a < n && char_is_whitespace(cs[a])
        invariant
            a <= n,
            n == cs@.len(),
            forall|j: int| 0 <= j < a ==> is_whitespace(#[trigger] cs@[j]),
        decreases n - a,
    {
        a += 1;
    }
    let mut b: usize = n;
    while b > a && char_is_whitespace(cs[b - 1])
        invariant
            a <= b <= n,
            n == cs@.len(),
            forall|j: int| b <= j < n ==> is_whitespace(#[trigger] cs@[j]),
        decreases b,
    {
        b -= 1;
    }
    proof {
        let head = s@.skip(a as int);
        lemma_trim_start_at(s@, a as int);
        assert forall|j: int| b - a <= j < head.len() implies is_whitespace(#[trigger] head[j]) by {
            assert(head[j] == cs@[j + a]);
        }
        lemma_trim_end_at(head, b - a);
        assert(head.take(b - a) =~= s@.subrange(a as int, b as int));
    }
    String::from_str(s.substring_char(a, b))
}

/// The lines of `s`, each as a string of its own.
pub fn split_lines(s: &str) -> (out: Vec<String>)
    ensures
        out.deep_view() == lines(s@),
{
    let cs = chars_of(s);
    let n = cs.len();
    let mut out: Vec<String> = Vec::new();
    let mut pos: usize = 0;
    assert(s@.skip(0) =~= s@);
    assert(out.deep_view() + lines(s@) =~= lines(s@));
    while pos < n
        invariant
            pos <= n,
            n == cs@.len(),
            cs@ == s@,
            lines(s@) == out.deep_view() + lines(s@.skip(pos as int)),
        decreases n - pos,
    {
        let mut end: usize = pos;
        while end < n && cs[end] != '\n'
            invariant
                pos <= end <= n,
                n == cs@.len(),
                forall|j: int| pos <= j < end ==> #[trigger] cs@[j] != '\n',
            decreases n - end,
        {
            end += 1;
        }
        let ghost before = out.deep_view();
        let ghost tail = s@.skip(pos as int);
        proof {
            assert forall|j: int| 0 <= j < end - pos implies #[trigger] tail[j] != '\n' by {
                assert(tail[j] == cs@[j + pos]);
            }
            lemma_line_len_at(tail, end - pos);
        }
        if end == n {
            let line = String::from_str(s.substring_char(pos, n));
            out.push(line);
            proof {
                assert(s@.subrange(pos as int, n as int) =~= tail);
                assert(s@.skip(n as int) =~= Seq::<char>::empty());
                assert(out.deep_view() =~= before.push(tail));
                assert(before + lines(tail) =~= out.deep_view() + lines(s@.skip(n as int)));
            }
            pos = n;
        } else {
            let stop: usize = if end > pos && cs[end - 1] == '\r' {
                end - 1
            } else {
                end
            };
            let line = String::from_str(s.substring_char(pos, stop));
            out.push(line);
            proof {
                let whole = tail.take(end - pos);
                assert(whole =~= s@.subrange(pos as int, end as int));
                assert(without_cr(whole) =~= s@.subrange(pos as int, stop as int));
                assert(tail.skip(end - pos + 1) =~= s@.skip(end + 1));
                assert(out.deep_view() =~= before.push(without_cr(whole)));
                assert(before + lines(tail) =~= out.deep_view() + lines(s@.skip(end + 1)));
            }
            pos = end + 1;
        }
    }
    proof {
        assert(s@.skip(n as int) =~= Seq::<char>::empty());
        assert(out.deep_view() + lines(s@.skip(n as int)) =~= out.deep_view());
    }
    out
}

/// Whether `marker` stands in `cs` at index `at`.
fn has_prefix_at(cs: &Vec<char>, at: usize, marker: &Vec<char>) -> (r: bool)
    requires
        at <= cs@.len(),
    ensures
        r == marker@.is_prefix_of(cs@.skip(at as int)),
{
    let n = cs.len();
    let m = marker.len();
    if m > n - at {
        return false;
    }
    let ghost tail = cs@.skip(at as int);
    let mut i: usize = 0;
    while i < m
        invariant
            i <= m,
            m == marker@.len(),
            n == cs@.len(),
            at <= n,
            m <= n - at,
            tail == cs@.skip(at as int),
            forall|j: int| 0 <= j < i ==> marker@[j] == #[trigger] tail[j],
        decreases m - i,
    {
        if cs[at + i] != marker[i] {
            proof {
                assert(tail[i as int] == cs@[at + i]);
                assert(tail.subrange(0, m as int)[i as int] == tail[i as int]);
            }
            return false;
        }
        proof {
            assert(tail[i as int] == cs@[at + i]);
        }
        i += 1;
    }
    proof {
        assert(marker@ =~= tail.subrange(0, m as int));
    }
    true
}

/// What `line` says under `marker`: `None` unless the line starts with the
/// marker, else the rest of the line behind it.
pub fn strip_marker(line: &str, marker: &str) -> (r: Option<String>)
    ensures
        text_of(r) == marked_value(line@, marker@),
{
    let cs = chars_of(line);
    let ms = chars_of(marker);
    let n = cs.len();
    let m = ms.len();
    assert(line@.skip(0) =~= line@);
    if !has_prefix_at(&cs, 0, &ms) {
        return None;
    }
    proof {
        assert(line@.subrange(m as int, n as int) =~= line@.skip(m as int));
    }
    Some(String::from_str(line.substring_char(m, n)))
}

/// The parts in order, with one line feed between each two neighbours.
pub fn join(parts: &Vec<String>) -> (r: String)
    ensures
        r@ == join_lines(parts.deep_view()),
{
    let mut r = String::new();
    let mut i: usize = 0;
    let ghost all = parts.deep_view();
    assert(all.take(0) =~= Seq::<Seq<char>>::empty());
    while i < parts.len()
        invariant
            i <= parts@.len(),
            all == parts.deep_view(),
            r@ == join_lines(all.take(i as int)),
        decreases parts@.len() - i,
    {
        proof {
            reveal_strlit("\n");
            assert("\n"@ =~= seq!['\n']);
            assert(all.take(i + 1).drop_last() =~= all.take(i as int));
            assert(all.take(i + 1).last() == parts@[i as int]@);
            if i == 0 {
                assert(Seq::<char>::empty() + parts@[0]@ =~= parts@[0]@);
            }
        }
        if i > 0 {
            r.append("\n");
        }
        r.append(parts[i].as_str());
        i += 1;
    }
    proof {
        assert(all.take(parts@.len() as int) =~= all);
    }
    r
}

/// Whether `a` and `b` hold the same characters.
pub fn same_text(a: &str, b: &str) -> (r: bool)
    ensures
        r == (a@ == b@),
{
    let x = chars_of(a);
    let y = chars_of(b);
    if x.len() != y.len() {
        return false;
    }
    let mut i: usize = 0;
    while i < x.len()
        invariant
            i <= x@.len(),
            x@.len() == y@.len(),
            x@ == a@,
            y@ == b@,
            forall|j: int| 0 <= j < i ==> x@[j] == y@[j],
        decreases x@.len() - i,
    {
        if x[i] != y[i] {
            return false;
        }
        i += 1;
    }
    assert(a@ =~= b@);
    true
}

} // verus!
