//! Splitting text on a separator character, and comparing text.
use vstd::prelude::*;
use vstd::std_specs::iter::IteratorSpec;
use vstd::string::*;
use vstd::utf8::*;

verus! {

/// The texts of a sequence of string slices.
pub open spec fn str_views(v: Seq<&str>) -> Seq<Seq<char>> {
    v.map_values(|p: &str| p@)
}

/// The pieces that `str::split` with a single-character separator yields:
/// always one more piece than there are separators, none holding the separator.
pub open spec fn split_chars(s: Seq<char>, sep: char) -> Seq<Seq<char>>
    decreases s.len(),
{
    if s.len() == 0 {
        seq![Seq::<char>::empty()]
    } else {
        let init = split_chars(s.drop_last(), sep);
        if s.last() == sep {
            init.push(Seq::<char>::empty())
        } else {
            init.update(init.len() - 1, init.last().push(s.last()))
        }
    }
}

/// The pieces joined back together, with the separator between neighbours.
pub open spec fn join_chars(parts: Seq<Seq<char>>, sep: char) -> Seq<char>
    decreases parts.len(),
{
    if parts.len() == 0 {
        Seq::<char>::empty()
    } else if parts.len() == 1 {
        parts[0]
    } else {
        join_chars(parts.drop_last(), sep).push(sep) + parts.last()
    }
}

/// How often `c` occurs in `s`.
pub open spec fn count_char(s: Seq<char>, c: char) -> nat
    decreases s.len(),
{
    if s.len() == 0 {
        0
    } else {
        count_char(s.drop_last(), c) + if s.last() == c {
            1nat
        } else {
            0nat
        }
    }
}

/// Splitting always yields at least one piece.
pub proof fn lemma_split_nonempty(s: Seq<char>, sep: char)
    ensures
        split_chars(s, sep).len() >= 1,
    decreases s.len(),
{
    if s.len() > 0 {
        lemma_split_nonempty(s.drop_last(), sep);
    }
}

/// Splitting yields exactly one piece more than the number of separators.
pub proof fn lemma_split_len(s: Seq<char>, sep: char)
    ensures
        split_chars(s, sep).len() == count_char(s, sep) + 1,
    decreases s.len(),
{
    if s.len() > 0 {
        lemma_split_len(s.drop_last(), sep);
        lemma_split_nonempty(s.drop_last(), sep);
    }
}

/// No piece holds the separator.
pub proof fn lemma_split_pieces_free_of_sep(s: Seq<char>, sep: char)
    ensures
        forall|i: int|
            0 <= i < split_chars(s, sep).len() ==> !(#[trigger] split_chars(s, sep)[i]).contains(sep),
    decreases s.len(),
{
    if s.len() > 0 {
        lemma_split_pieces_free_of_sep(s.drop_last(), sep);
        lemma_split_nonempty(s.drop_last(), sep);
        let init = split_chars(s.drop_last(), sep);
        if s.last() != sep {
            let last = init.last();
            assert(!last.contains(sep));
            assert forall|k: int| 0 <= k < last.push(s.last()).len() implies last.push(s.last())[k]
                != sep by {
                if k < last.len() {
                    assert(last.push(s.last())[k] == last[k]);
                }
            }
        }
    }
}

proof fn lemma_join_push_last(parts: Seq<Seq<char>>, sep: char, c: char)
    requires
        parts.len() >= 1,
    ensures
        join_chars(parts.update(parts.len() - 1, parts.last().push(c)), sep) == join_chars(
            parts,
            sep,
        ).push(c),
{
    let q = parts.update(parts.len() - 1, parts.last().push(c));
    if parts.len() == 1 {
    } else {
        assert(q.drop_last() == parts.drop_last());
    }
}

/// Joining the pieces with the separator gives back the text that was split.
pub proof fn lemma_join_split(s: Seq<char>, sep: char)
    ensures
        join_chars(split_chars(s, sep), sep) == s,
    decreases s.len(),
{
    if s.len() > 0 {
        lemma_join_split(s.drop_last(), sep);
        lemma_split_nonempty(s.drop_last(), sep);
        let init = split_chars(s.drop_last(), sep);
        if s.last() == sep {
            let p = init.push(Seq::<char>::empty());
            assert(p.drop_last() == init);
            assert(join_chars(p, sep) == join_chars(init, sep).push(sep) + Seq::<char>::empty());
            assert(s == s.drop_last().push(s.last()));
        } else {
            lemma_join_push_last(init, sep, s.last());
            assert(s == s.drop_last().push(s.last()));
        }
    }
}

/// Text free of the separator is a single piece.
pub proof fn lemma_split_single(a: Seq<char>, sep: char)
    requires
        !a.contains(sep),
    ensures
        split_chars(a, sep) == seq![a],
    decreases a.len(),
{
    if a.len() > 0 {
        assert(!a.drop_last().contains(sep)) by {
            if a.drop_last().contains(sep) {
                let k = choose|k: int| 0 <= k < a.drop_last().len() && a.drop_last()[k] == sep;
                assert(a[k] == sep);
            }
        }
        lemma_split_single(a.drop_last(), sep);
        assert(a.last() != sep) by {
            assert(a[a.len() - 1] == a.last());
        }
        assert(a.drop_last().push(a.last()) == a);
        assert(seq![a.drop_last()].update(0, a.drop_last().push(a.last())) == seq![a]);
    } else {
        assert(a == Seq::<char>::empty());
    }
}

/// Splitting `a`, a separator, then `b`, gives the pieces of `a` followed by those of `b`.
pub proof fn lemma_split_concat(a: Seq<char>, b: Seq<char>, sep: char)
    ensures
        split_chars(a.push(sep) + b, sep) == split_chars(a, sep) + split_chars(b, sep),
    decreases b.len(),
{
    lemma_split_nonempty(a, sep);
    if b.len() == 0 {
        let s = a.push(sep) + b;
        assert(s == a.push(sep));
        assert(s.drop_last() == a);
    } else {
        lemma_split_concat(a, b.drop_last(), sep);
        lemma_split_nonempty(b.drop_last(), sep);
        let s = a.push(sep) + b;
        assert(s.drop_last() == a.push(sep) + b.drop_last());
        assert(s.last() == b.last());
        let sa = split_chars(a, sep);
        let sb = split_chars(b.drop_last(), sep);
        if b.last() != sep {
            assert((sa + sb).update((sa + sb).len() - 1, (sa + sb).last().push(b.last())) == sa
                + sb.update(sb.len() - 1, sb.last().push(b.last())));
        } else {
            assert((sa + sb).push(Seq::<char>::empty()) == sa + sb.push(Seq::<char>::empty()));
        }
    }
}

/// Encoding a concatenation concatenates the encodings.
proof fn lemma_encode_concat(a: Seq<char>, b: Seq<char>)
    ensures
        encode_utf8(a + b) == encode_utf8(a) + encode_utf8(b),
    decreases a.len(),
{
    if a.len() == 0 {
        assert(a + b == b);
        assert(encode_utf8(a) == Seq::<u8>::empty());
    } else {
        lemma_encode_concat(a.drop_first(), b);
        assert((a + b)[0] == a[0]);
        assert((a + b).drop_first() == a.drop_first() + b);
    }
}

/// The end of the encoding of `a` is a character boundary of the encoding of `a + b`.
proof fn lemma_encode_boundary(a: Seq<char>, b: Seq<char>)
    ensures
        is_char_boundary(encode_utf8(a + b), encode_utf8(a).len() as int),
    decreases a.len(),
{
    let bytes = encode_utf8(a + b);
    encode_utf8_valid_utf8(a + b);
    if a.len() == 0 {
        assert(encode_utf8(a).len() == 0);
    } else {
        lemma_encode_concat(a, b);
        lemma_encode_concat(a.drop_first(), b);
        encode_utf8_first_scalar(a + b);
        assert((a + b)[0] == a[0]);
        assert((a + b).drop_first() == a.drop_first() + b);
        assert(pop_first_scalar(bytes) == encode_utf8((a + b).drop_first()));
        assert(encode_scalar(a[0] as u32).len() >= 1);
        lemma_encode_boundary(a.drop_first(), b);
    }
}

/// The text whose encoding is that of `x` is `x`.
proof fn lemma_encode_injective(x: Seq<char>, y: Seq<char>)
    requires
        encode_utf8(x) == encode_utf8(y),
    ensures
        x == y,
{
    encode_utf8_decode_utf8(x);
    encode_utf8_decode_utf8(y);
}

/// The number of bytes in the UTF-8 encoding of `c`.
fn char_len(c: char) -> (n: usize)
    ensures
        n == encode_utf8(seq![c]).len(),
        1 <= n <= 4,
{
    proof {
        char_is_scalar(c);
        assert(seq![c].drop_first() == Seq::<char>::empty());
        assert(seq![c][0] == c);
        assert(encode_utf8(seq![c].drop_first()) == Seq::<u8>::empty());
        assert(encode_scalar(c as u32) + Seq::<u8>::empty() == encode_scalar(c as u32));
        assert(encode_utf8(seq![c]) == encode_scalar(c as u32));
    }
    let v = c as u32;
    if v <= 0x7F {
        1
    } else if v <= 0x7FF {
        2
    } else if v <= 0xFFFF {
        3
    } else {
        4
    }
}

/// Splits `s` at every occurrence of `sep`, as `s.split(sep)` does, in one pass.
pub fn split_str<'a>(s: &'a str, sep: char) -> (parts: Vec<&'a str>)
    ensures
        str_views(parts@) == split_chars(s@, sep),
{
    broadcast use vstd::string::group_string_axioms;

    let total = s.as_bytes().len();
    let sep_len = char_len(sep);
    let mut parts: Vec<&'a str> = Vec::new();
    let mut rest: &'a str = s;
    let mut offset: usize = 0;
    let mut it = s.chars();
    let ghost mut k: int = 0;
    let ghost mut start: int = 0;
    proof {
        assert(s@.subrange(0, 0) == Seq::<char>::empty());
        assert(s@.take(0) == Seq::<char>::empty());
        assert(s@.subrange(0, s@.len() as int) == s@);
        assert(str_views(parts@).push(Seq::<char>::empty()) == seq![Seq::<char>::empty()]);
        assert(encode_utf8(Seq::<char>::empty()).len() == 0);
    }
    loop
        invariant
            0 <= start <= k <= s@.len(),
            it.remaining() == s@.subrange(k, s@.len() as int),
            rest@ == s@.subrange(start, s@.len() as int),
            offset == encode_utf8(s@.subrange(start, k)).len(),
            str_views(parts@).push(s@.subrange(start, k)) == split_chars(s@.take(k), sep),
            total == encode_utf8(s@).len(),
            sep_len == encode_utf8(seq![sep]).len(),
        ensures
            k == s@.len(),
            rest@ == s@.subrange(start, s@.len() as int),
            str_views(parts@).push(s@.subrange(start, k)) == split_chars(s@.take(k), sep),
        decreases s@.len() - k,
    {
        let ghost before = str_views(parts@);
        let ghost x = s@.subrange(start, k);
        let ghost y = s@.subrange(k, s@.len() as int);
        match it.next() {
            None => {
                proof {
                    assert(k == s@.len());
                }
                break ;
            },
            Some(c) => {
                proof {
                    assert(c == s@[k]);
                    assert(s@.take(k + 1).drop_last() == s@.take(k));
                    assert(s@.take(k + 1).last() == c);
                    lemma_split_nonempty(s@.take(k), sep);
                }
                if c == sep {
                    proof {
                        assert(rest@ == x + y);
                        lemma_encode_boundary(x, y);
                        lemma_encode_concat(x, y);
                    }
                    let (piece, tail) = rest.split_at(offset);
                    proof {
                        assert(piece.spec_bytes() == encode_utf8(x));
                        lemma_encode_injective(piece@, x);
                        assert(tail.spec_bytes() == encode_utf8(y));
                        lemma_encode_injective(tail@, y);
                        assert(y == seq![sep] + y.drop_first());
                        lemma_encode_boundary(seq![sep], y.drop_first());
                        lemma_encode_concat(seq![sep], y.drop_first());
                    }
                    let (_, after) = tail.split_at(sep_len);
                    proof {
                        assert(after.spec_bytes() == encode_utf8(y.drop_first()));
                        lemma_encode_injective(after@, y.drop_first());
                        assert(y.drop_first() == s@.subrange(k + 1, s@.len() as int));
                    }
                    parts.push(piece);
                    rest = after;
                    offset = 0;
                    proof {
                        assert(str_views(parts@) == before.push(x));
                        assert(s@.subrange(k + 1, k + 1) == Seq::<char>::empty());
                        assert(encode_utf8(Seq::<char>::empty()).len() == 0);
                        start = k + 1;
                    }
                } else {
                    let n = char_len(c);
                    proof {
                        let x1 = s@.subrange(start, k + 1);
                        assert(x1 == x + seq![c]);
                        assert(x.push(c) == x1);
                        lemma_encode_concat(x, seq![c]);
                        let pre = s@.take(start);
                        let post = s@.subrange(k + 1, s@.len() as int);
                        assert(s@ == pre + (x1 + post));
                        lemma_encode_concat(pre, x1 + post);
                        lemma_encode_concat(x1, post);
                        assert(before.push(x).update(before.len() as int, x.push(c)) == before.push(x1));
                    }
                    offset = offset + n;
                }
                proof {
                    k = k + 1;
                }
            },
        }
    }
    let ghost before = str_views(parts@);
    parts.push(rest);
    proof {
        assert(str_views(parts@) == before.push(rest@));
        assert(s@.take(s@.len() as int) == s@);
    }
    parts
}

/// Whether two pieces of text are the same.
pub fn str_eq(a: &str, b: &str) -> (r: bool)
    ensures
        r == (a@ == b@),
{
    broadcast use encode_utf8_decode_utf8;

    let x = a.as_bytes();
    let y = b.as_bytes();
    if x.len() != y.len() {
        proof {
            if a@ == b@ {
                assert(x@ == y@);
            }
        }
        return false;
    }
    let mut i: usize = 0;
    while i < x.len()
        invariant
            x.len() == y.len(),
            x@ == a.spec_bytes(),
            y@ == b.spec_bytes(),
            i <= x.len(),
            forall|k: int| 0 <= k < i ==> x@[k] == y@[k],
        decreases x.len() - i,
    {
        if x[i] != y[i] {
            proof {
                if a@ == b@ {
                    assert(x@ == y@);
                }
            }
            return false;
        }
        i = i + 1;
    }
    proof {
        assert(x@ == y@);
        assert(decode_utf8(encode_utf8(a@)) == a@);
        assert(decode_utf8(encode_utf8(b@)) == b@);
    }
    true
}

} // verus!
