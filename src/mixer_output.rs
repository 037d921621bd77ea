use vstd::prelude::*;

use crate::error::SoundError;

verus! {

/// ASCII whitespace: space, tab, line feed, vertical tab, form feed, carriage return.
pub open spec fn is_space(b: u8) -> bool {
    b == 32 || (9 <= b && b <= 13)
}

/// The text without its trailing whitespace.
pub open spec fn trim_end(s: Seq<u8>) -> Seq<u8>
    decreases s.len(),
{
    if s.len() > 0 && is_space(s.last()) {
        trim_end(s.drop_last())
    } else {
        s
    }
}

/// What follows the last line feed of the text (all of it if it has none).
pub open spec fn final_line(s: Seq<u8>) -> Seq<u8>
    decreases s.len(),
{
    if s.len() == 0 {
        s
    } else if s.last() == 10 {
        Seq::empty()
    } else {
        final_line(s.drop_last()).push(s.last())
    }
}

/// The last line of the text once trailing whitespace is removed.
pub open spec fn last_line(s: Seq<u8>) -> Seq<u8> {
    final_line(trim_end(s))
}

/// The whitespace-separated words of a text, in order.
pub open spec fn words(s: Seq<u8>) -> Seq<Seq<u8>>
    decreases s.len(),
{
    if s.len() == 0 {
        Seq::empty()
    } else {
        let w = words(s.drop_last());
        let c = s.last();
        if is_space(c) {
            w
        } else if s.len() >= 2 && !is_space(s[s.len() - 2]) {
            w.drop_last().push(w.last().push(c))
        } else {
            w.push(seq![c])
        }
    }
}

/// The word holds the two letters `dB` next to each other.
pub open spec fn has_decibels(w: Seq<u8>) -> bool {
    exists|i: int| 0 <= i < w.len() - 1 && #[trigger] w[i] == 100u8 && w[i + 1] == 66u8
}

/// A bracketed word that is not a decibel figure.
pub open spec fn is_field(w: Seq<u8>) -> bool {
    w.len() > 0 && w[0] == 91u8 && !has_decibels(w)
}

/// `[`, `]` or `%`.
pub open spec fn is_mark(b: u8) -> bool {
    b == 91u8 || b == 93u8 || b == 37u8
}

pub open spec fn strip_front(w: Seq<u8>) -> Seq<u8>
    decreases w.len(),
{
    if w.len() > 0 && is_mark(w[0]) {
        strip_front(w.drop_first())
    } else {
        w
    }
}

pub open spec fn strip_back(w: Seq<u8>) -> Seq<u8>
    decreases w.len(),
{
    if w.len() > 0 && is_mark(w.last()) {
        strip_back(w.drop_last())
    } else {
        w
    }
}

/// The word without the marks at either end.
pub open spec fn strip_marks(w: Seq<u8>) -> Seq<u8> {
    strip_back(strip_front(w))
}

/// The bracketed fields among the words, each stripped of its marks.
pub open spec fn bracket_fields(ws: Seq<Seq<u8>>) -> Seq<Seq<u8>>
    decreases ws.len(),
{
    if ws.len() == 0 {
        Seq::empty()
    } else {
        let f = bracket_fields(ws.drop_last());
        if is_field(ws.last()) {
            f.push(strip_marks(ws.last()))
        } else {
            f
        }
    }
}

pub open spec fn is_digit(b: u8) -> bool {
    48 <= b && b <= 57
}

/// The number that a run of decimal digits writes.
pub open spec fn digits_value(d: Seq<u8>) -> nat
    decreases d.len(),
{
    if d.len() == 0 {
        0
    } else {
        digits_value(d.drop_last()) * 10 + (d.last() - 48) as nat
    }
}

/// The text without one leading `+`.
pub open spec fn unsigned_part(t: Seq<u8>) -> Seq<u8> {
    if t.len() > 0 && t[0] == 43u8 {
        t.drop_first()
    } else {
        t
    }
}

/// The text writes an unsigned 32-bit number in decimal, with an optional `+`.
pub open spec fn parses_as_u32(t: Seq<u8>) -> bool {
    let d = unsigned_part(t);
    &&& d.len() > 0
    &&& forall|i: int| 0 <= i < d.len() ==> is_digit(d[i])
    &&& digits_value(d) <= u32::MAX
}

/// The bracketed fields of the mixer's last output line.
pub open spec fn mixer_fields(out: Seq<u8>) -> Seq<Seq<u8>> {
    bracket_fields(words(last_line(out)))
}

/// Volume and mute flag read from the mixer's output: the first field is the
/// volume, and a second field `off` means muted. `None` where there is no
/// field or the first one is no number.
pub open spec fn mixer_reading(out: Seq<u8>) -> Option<(u32, bool)> {
    let f = mixer_fields(out);
    if f.len() == 0 || !parses_as_u32(f[0]) {
        None
    } else {
        Some((digits_value(unsigned_part(f[0])) as u32, f.len() > 1 && f[1] == seq![111u8, 102u8, 102u8]))
    }
}

pub open spec fn byte_views(v: Seq<Vec<u8>>) -> Seq<Seq<u8>> {
    v.map_values(|x: Vec<u8>| x@)
}

proof fn lemma_digits_grow(d: Seq<u8>, k: int)
    requires
        0 <= k <= d.len(),
        forall|i: int| 0 <= i < d.len() ==> is_digit(d[i]),
    ensures
        digits_value(d.take(k)) <= digits_value(d),
    decreases d.len(),
{
    if k < d.len() {
        assert(d.drop_last().take(k) =~= d.take(k));
        lemma_digits_grow(d.drop_last(), k);
    } else {
        assert(d.take(k) =~= d);
    }
}

/// Reads the number that `t` writes in decimal, if it is one that fits in 32 bits.
pub fn parse_u32(t: &[u8]) -> (r: Option<u32>)
    ensures
        r == (if parses_as_u32(t@) {
            Some(digits_value(unsigned_part(t@)) as u32)
        } else {
            None
        }),
{
    let start: usize = if t.len() > 0 && t[0] == 43u8 {
        1
    } else {
        0
    };
    let ghost d = unsigned_part(t@);
    assert(d =~= t@.subrange(start as int, t@.len() as int));
    if start == t.len() {
        return None;
    }
    let mut val: u64 = 0;
    let mut i: usize = start;
    while i < t.len()
        invariant
            start <= i <= t@.len(),
            d == unsigned_part(t@),
            d =~= t@.subrange(start as int, t@.len() as int),
            forall|k: int| 0 <= k < i - start ==> is_digit(d[k]),
            val as nat == digits_value(d.take(i - start)),
            val <= u32::MAX,
        decreases t.len() - i,
    {
        let b = t[i];
        assert(d[i - start] == b);
        if b < 48 || b > 57 {
            assert(!is_digit(d[i - start]));
            assert(!parses_as_u32(t@));
            return None;
        }
        proof {
            assert(d.take(i - start + 1).drop_last() =~= d.take(i - start));
            assert(d.take(i - start + 1).last() == b);
            assert(digits_value(d.take(i - start + 1)) == val * 10 + (b - 48) as nat);
        }
        val = val * 10 + (b - 48) as u64;
        if val > u32::MAX as u64 {
            proof {
                if forall|k: int| 0 <= k < d.len() ==> is_digit(#[trigger] d[k]) {
                    lemma_digits_grow(d, i - start + 1);
                }
                assert(!parses_as_u32(t@));
            }
            return None;
        }
        i = i + 1;
    }
    assert(d.take(d.len() as int) =~= d);
    Some(val as u32)
}

fn is_space_byte(b: u8) -> (r: bool)
    ensures
        r == is_space(b),
{
    b == 32 || (9 <= b && b <= 13)
}

fn is_mark_byte(b: u8) -> (r: bool)
    ensures
        r == is_mark(b),
{
    b == 91 || b == 93 || b == 37
}

fn contains_decibels(w: &Vec<u8>) -> (r: bool)
    ensures
        r == has_decibels(w@),
{
    if w.len() == 0 {
        return false;
    }
    let mut i: usize = 0;
    while i < w.len() - 1
        invariant
            w@.len() > 0,
            forall|k: int| 0 <= k < i ==> !(#[trigger] w@[k] == 100u8 && w@[k + 1] == 66u8),
        decreases w.len() - i,
    {
        if w[i] == 100 && w[i + 1] == 66 {
            return true;
        }
        i = i + 1;
    }
    false
}

proof fn lemma_strip_front_skip(w: Seq<u8>, a: int)
    requires
        0 <= a < w.len(),
        is_mark(w[a]),
        strip_front(w) == strip_front(w.subrange(a, w.len() as int)),
    ensures
        strip_front(w) == strip_front(w.subrange(a + 1, w.len() as int)),
{
    assert(w.subrange(a, w.len() as int).drop_first() =~= w.subrange(a + 1, w.len() as int));
}

proof fn lemma_strip_back_skip(w: Seq<u8>, b: int)
    requires
        0 < b <= w.len(),
        is_mark(w[b - 1]),
    ensures
        strip_back(w.take(b)) == strip_back(w.take(b - 1)),
{
    assert(w.take(b).drop_last() =~= w.take(b - 1));
}

/// `w` without the `[`, `]` and `%` at either end.
fn strip_field_marks(w: &Vec<u8>) -> (r: Vec<u8>)
    ensures
        r@ == strip_marks(w@),
{
    let n = w.len();
    let mut a: usize = 0;
    assert(w@.subrange(0, n as int) =~= w@);
    while a < n && is_mark_byte(w[a])
        invariant
            a <= n == w@.len(),
            strip_front(w@) == strip_front(w@.subrange(a as int, n as int)),
        decreases n - a,
    {
        proof {
            lemma_strip_front_skip(w@, a as int);
        }
        a = a + 1;
    }
    let ghost front = w@.subrange(a as int, n as int);
    assert(strip_front(w@) == front);
    let mut b: usize = n;
    assert(front.take(front.len() as int) =~= front);
    while b > a && is_mark_byte(w[b - 1])
        invariant
            a <= b <= n == w@.len(),
            front == w@.subrange(a as int, n as int),
            strip_back(front) == strip_back(front.take(b - a)),
        decreases b,
    {
        proof {
            lemma_strip_back_skip(front, (b - a) as int);
        }
        b = b - 1;
    }
    assert(strip_back(front.take(b - a)) == front.take(b - a));
    let mut r: Vec<u8> = Vec::new();
    let mut k: usize = a;
    while k < b
        invariant
            a <= k <= b <= n == w@.len(),
            r@ =~= w@.subrange(a as int, k as int),
        decreases b - k,
    {
        r.push(w[k]);
        k = k + 1;
    }
    assert(r@ =~= front.take(b - a));
    r
}

/// Adds `word`, stripped of its marks, to `fields` if it is a field.
fn push_field(word: &Vec<u8>, fields: &mut Vec<Vec<u8>>)
    ensures
        byte_views(final(fields)@) == (if is_field(word@) {
            byte_views(old(fields)@).push(strip_marks(word@))
        } else {
            byte_views(old(fields)@)
        }),
{
    if word.len() > 0 && word[0] == 91 && !contains_decibels(word) {
        let f = strip_field_marks(word);
        fields.push(f);
        assert(byte_views(fields@) =~= byte_views(old(fields)@).push(strip_marks(word@)));
    }
}

/// Reads volume and mute flag from the mixer's output.
///
/// The last line of the output is split at whitespace; words that start with
/// `[` and do not hold `dB` are its fields, stripped of `[`, `]` and `%`. The
/// first field is the volume in percent; a second field `off` means muted.
pub fn parse_mixer_output(out: &[u8]) -> (r: Result<(u32, bool), SoundError>)
    ensures
        r == (match mixer_reading(out@) {
            Some(v) => Ok::<(u32, bool), SoundError>(v),
            None => Err(SoundError::Query),
        }),
{
    let ghost s = out@;
    let n = out.len();
    // End of the text once trailing whitespace is removed.
    let mut e: usize = n;
    assert(s.take(n as int) =~= s);
    while e > 0 && is_space_byte(out[e - 1])
        invariant
            e <= n == s.len(),
            s == out@,
            trim_end(s) == trim_end(s.take(e as int)),
        decreases e,
    {
        assert(s.take(e as int).drop_last() =~= s.take(e - 1));
        e = e - 1;
    }
    assert(trim_end(s.take(e as int)) == s.take(e as int));
    // Start of the last line.
    let mut b: usize = e;
    assert(s.take(e as int).subrange(e as int, e as int) =~= Seq::<u8>::empty());
    assert(final_line(s.take(e as int)) =~= final_line(s.take(b as int)) + s.subrange(b as int, e as int));
    while b > 0 && out[b - 1] != 10
        invariant
            b <= e <= n == s.len(),
            s == out@,
            final_line(s.take(e as int)) == final_line(s.take(b as int)) + s.subrange(b as int, e as int),
        decreases b,
    {
        assert(s.take(b as int).drop_last() =~= s.take(b - 1));
        assert(s.subrange(b - 1, e as int) =~= seq![s[b - 1]] + s.subrange(b as int, e as int));
        assert(final_line(s.take(b - 1)).push(s[b - 1]) + s.subrange(b as int, e as int)
            =~= final_line(s.take(b - 1)) + s.subrange(b - 1, e as int));
        b = b - 1;
    }
    assert(final_line(s.take(b as int)) =~= Seq::<u8>::empty());
    let ghost line = s.subrange(b as int, e as int);
    assert(last_line(s) =~= line);

    // Words of the line; the bracketed ones are kept as fields.
    let mut fields: Vec<Vec<u8>> = Vec::new();
    let mut word: Vec<u8> = Vec::new();
    let ghost mut done: Seq<Seq<u8>> = Seq::empty();
    let mut j: usize = b;
    assert(s.subrange(b as int, b as int) =~= Seq::<u8>::empty());
    while j < e
        invariant
            b <= j <= e <= n == s.len(),
            s == out@,
            words(s.subrange(b as int, j as int)) == (if word@.len() > 0 {
                done.push(word@)
            } else {
                done
            }),
            word@.len() > 0 <==> (j > b && !is_space(s[j - 1])),
            line == s.subrange(b as int, e as int),
            byte_views(fields@) == bracket_fields(done),
        decreases e - j,
    {
        let x = out[j];
        proof {
            let t = s.subrange(b as int, j + 1);
            assert(t.drop_last() =~= s.subrange(b as int, j as int));
            assert(t.last() == x);
            if j > b {
                assert(t[t.len() - 2] == s[j - 1]);
            }
            assert(done.push(word@).drop_last() =~= done);
        }
        if is_space_byte(x) {
            if word.len() > 0 {
                push_field(&word, &mut fields);
                proof {
                    done = done.push(word@);
                }
                word = Vec::new();
            }
        } else {
            proof {
                assert(word@.push(x) =~= (if word@.len() > 0 { word@ } else { Seq::<u8>::empty() }).push(x));
            }
            word.push(x);
        }
        j = j + 1;
    }
    assert(s.subrange(b as int, j as int) == line);
    if word.len() > 0 {
        assert(done.push(word@).drop_last() =~= done);
        push_field(&word, &mut fields);
        proof {
            done = done.push(word@);
        }
    }
    assert(words(line) == done);
    assert(byte_views(fields@) == mixer_fields(s));
    if fields.len() == 0 {
        return Err(SoundError::Query);
    }
    assert(fields@[0]@ == mixer_fields(s)[0]);
    let volume = match parse_u32(fields[0].as_slice()) {
        Some(v) => v,
        None => {
            return Err(SoundError::Query);
        },
    };
    let muted = fields.len() > 1 && fields[1].len() == 3 && fields[1][0] == 111 && fields[1][1] == 102
        && fields[1][2] == 102;
    proof {
        if fields.len() > 1 {
            assert(fields@[1]@ == mixer_fields(s)[1]);
            if fields@[1]@ == seq![111u8, 102u8, 102u8] {
                assert(muted);
            }
            if muted {
                assert(fields@[1]@ =~= seq![111u8, 102u8, 102u8]);
            }
        }
    }
    Ok((volume, muted))
}

} // verus!
