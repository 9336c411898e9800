//! Whitespace-separated words and decimal numbers, over the characters of a string.
use vstd::prelude::*;

verus! {

/// The characters that `char::is_whitespace` accepts (Unicode's White_Space property).
pub open spec fn is_space(c: char) -> bool {
    let u = c as u32;
    ||| u == 0x20
    ||| 0x09 <= u <= 0x0D
    ||| u == 0x85
    ||| u == 0xA0
    ||| u == 0x1680
    ||| 0x2000 <= u <= 0x200A
    ||| u == 0x2028
    ||| u == 0x2029
    ||| u == 0x202F
    ||| u == 0x205F
    ||| u == 0x3000
}

pub open spec fn is_digit(c: char) -> bool {
    0x30 <= c as u32 <= 0x39
}

/// The value of a run of decimal digits, most significant first.
pub open spec fn digits_value(d: Seq<char>) -> nat
    decreases d.len(),
{
    if d.len() == 0 {
        0
    } else {
        digits_value(d.drop_last()) * 10 + (d.last() as u32 - 0x30) as nat
    }
}

/// The digits of a numeral: what follows an optional leading `+`.
pub open spec fn unsigned_digits(s: Seq<char>) -> Seq<char> {
    if s.len() > 0 && s[0] == '+' {
        s.drop_first()
    } else {
        s
    }
}

/// A numeral as `u32`'s parser reads it: an optional `+`, then at least one decimal digit,
/// and nothing else; its value must fit in a `u32`.
pub open spec fn numeral_value(s: Seq<char>) -> Option<u32> {
    let d = unsigned_digits(s);
    if d.len() > 0 && (forall|i: int| 0 <= i < d.len() ==> is_digit(#[trigger] d[i]))
        && digits_value(d) <= u32::MAX {
        Some(digits_value(d) as u32)
    } else {
        None
    }
}

/// The maximal runs of non-space characters of `s`, in order, built one character at a time.
pub open spec fn words(s: Seq<char>) -> Seq<Seq<char>>
    decreases s.len(),
{
    if s.len() == 0 {
        Seq::empty()
    } else {
        let before = words(s.drop_last());
        let c = s.last();
        if is_space(c) {
            before
        } else if s.len() >= 2 && !is_space(s[s.len() - 2]) {
            before.update(before.len() - 1, before.last().push(c))
        } else {
            before.push(seq![c])
        }
    }
}

/// The words joined by single spaces.
pub open spec fn joined(ws: Seq<Seq<char>>) -> Seq<char>
    decreases ws.len(),
{
    if ws.len() == 0 {
        Seq::empty()
    } else if ws.len() == 1 {
        ws[0]
    } else {
        joined(ws.drop_last()) + seq![' '] + ws.last()
    }
}

proof fn lemma_digits_value_prefix(d: Seq<char>, k: int)
    requires
        0 <= k <= d.len(),
        forall|i: int| 0 <= i < d.len() ==> is_digit(#[trigger] d[i]),
    ensures
        digits_value(d.subrange(0, k)) <= digits_value(d),
    decreases d.len(),
{
    if k < d.len() {
        let p = d.drop_last();
        assert(forall|i: int| 0 <= i < p.len() ==> is_digit(#[trigger] p[i]) <== is_digit(d[i]));
        lemma_digits_value_prefix(p, k);
        assert(p.subrange(0, k) =~= d.subrange(0, k));
    } else {
        assert(d.subrange(0, k) =~= d);
    }
}

proof fn lemma_words_nonempty(s: Seq<char>)
    requires
        s.len() > 0,
        !is_space(s.last()),
    ensures
        words(s).len() > 0,
    decreases s.len(),
{
    if s.len() >= 2 && !is_space(s[s.len() - 2]) {
        lemma_words_nonempty(s.drop_last());
    }
}

fn is_space_char(c: char) -> (r: bool)
    ensures
        r == is_space(c),
{
    let u = c as u32;
    u == 0x20 || (0x09 <= u && u <= 0x0D) || u == 0x85 || u == 0xA0 || u == 0x1680 || (0x2000
        <= u && u <= 0x200A) || u == 0x2028 || u == 0x2029 || u == 0x202F || u == 0x205F || u
        == 0x3000
}

/// Reads a whole string as a `u32` numeral; `None` when it is not one or does not fit.
pub fn parse_u32(s: &str) -> (r: Option<u32>)
    ensures
        r == numeral_value(s@),
{
    let n = s.unicode_len();
    let mut i: usize = 0;
    if n > 0 && s.get_char(0) == '+' {
        i = 1;
    }
    let start = i;
    let ghost d = unsigned_digits(s@);
    assert(d =~= s@.subrange(start as int, n as int));
    if i >= n {
        return None;
    }
    let mut acc: u64 = 0;
    while i < n
        invariant
            start <= i <= n,
            n == s@.len(),
            d == s@.subrange(start as int, n as int),
            d == unsigned_digits(s@),
            forall|j: int| start <= j < i ==> is_digit(#[trigger] s@[j]),
            acc == digits_value(s@.subrange(start as int, i as int)),
            acc <= u32::MAX,
        decreases n - i,
    {
        let c = s.get_char(i);
        let u = c as u32;
        if !(0x30 <= u && u <= 0x39) {
            assert(d[i - start] == c);
            return None;
        }
        let next: u64 = acc * 10 + (u - 0x30) as u64;
        proof {
            let p = s@.subrange(start as int, i + 1);
            assert(p.drop_last() =~= s@.subrange(start as int, i as int));
            assert(p.last() == c);
        }
        if next > u32::MAX as u64 {
            proof {
                if forall|j: int| 0 <= j < d.len() ==> is_digit(#[trigger] d[j]) {
                    lemma_digits_value_prefix(d, i + 1 - start);
                    assert(d.subrange(0, i + 1 - start) =~= s@.subrange(start as int, i + 1));
                }
            }
            return None;
        }
        acc = next;
        i = i + 1;
    }
    assert(d =~= s@.subrange(start as int, i as int));
    Some(acc as u32)
}

/// Splits a string into its whitespace-separated words.
pub fn words_of(s: &str) -> (r: Vec<String>)
    ensures
        r.deep_view() == words(s@),
{
    let n = s.unicode_len();
    let mut out: Vec<String> = Vec::new();
    let mut i: usize = 0;
    while i < n
        invariant
            i <= n,
            n == s@.len(),
            out.deep_view() == words(s@.subrange(0, i as int)),
        decreases n - i,
    {
        let c = s.get_char(i);
        let ghost pre = s@.subrange(0, i as int);
        let ghost cur = s@.subrange(0, i + 1);
        assert(cur.drop_last() =~= pre);
        assert(cur.last() == c);
        let piece = s.substring_char(i, i + 1);
        assert(piece@ =~= seq![c]);
        assert(i >= 1 ==> cur[i - 1] == s@[i - 1]);
        if is_space_char(c) {
        } else if i >= 1 && !is_space_char(s.get_char(i - 1)) {
            proof {
                assert(pre.last() == s@[i - 1]);
                lemma_words_nonempty(pre);
            }
            let ghost before = out.deep_view();
            let k = out.len() - 1;
            let mut w = out[k].clone();
            assert(w@ == before[k as int]);
            w.append(piece);
            assert(words(cur) == before.update(k as int, before[k as int].push(c)));
            let ghost old_items = out@;
            let ghost wv = w@;
            out.set(k, w);
            assert(out@ == old_items.update(k as int, out@[k as int]));
            assert(out@[k as int]@ == wv);
            assert forall|j: int| 0 <= j < out.len() implies #[trigger] out.deep_view()[j] == before.update(
                k as int,
                before[k as int].push(c),
            )[j] by {
                if j != k {
                    assert(out@[j] == old_items[j]);
                }
            }
            assert(out.deep_view() =~= before.update(k as int, before[k as int].push(c)));
        } else {
            let ghost before = out.deep_view();
            let mut w = String::new();
            w.append(piece);
            assert(words(cur) == before.push(seq![c]));
            out.push(w);
            assert(out.deep_view() =~= before.push(seq![c]));
        }
        i = i + 1;
    }
    assert(s@.subrange(0, n as int) =~= s@);
    out
}

/// Joins the first `k` words with single spaces.
pub fn join_words(ws: &Vec<String>, k: usize) -> (r: String)
    requires
        k <= ws.len(),
    ensures
        r@ == joined(ws.deep_view().subrange(0, k as int)),
{
    let mut out = String::new();
    let mut j: usize = 0;
    let ghost dv = ws.deep_view();
    assert(dv.subrange(0, 0) =~= Seq::<Seq<char>>::empty());
    while j < k
        invariant
            j <= k <= ws.len(),
            dv == ws.deep_view(),
            out@ == joined(dv.subrange(0, j as int)),
        decreases k - j,
    {
        let ghost next = dv.subrange(0, j + 1);
        assert(next.drop_last() =~= dv.subrange(0, j as int));
        if j > 0 {
            let sep = " ";
            proof {
                reveal_strlit(" ");
            }
            out.append(sep);
        }
        out.append(ws[j].as_str());
        proof {
            if j == 0 {
                assert(dv.subrange(0, 0) =~= Seq::<Seq<char>>::empty());
                assert(out@ =~= next[0]);
            } else {
                assert(out@ =~= joined(next));
            }
        }
        j = j + 1;
    }
    out
}

} // verus!
