//! Texts as characters with their byte offsets, building text, and writing
//! numbers in decimal.
use vstd::prelude::*;
use vstd::std_specs::iter::IteratorSpec;
use vstd::string::StringSliceAdditionalSpecFns;
use vstd::utf8::{encode_scalar, encode_utf8};

verus! {

/// `String::push` appends one character to the string.
pub assume_specification[ std::string::String::push ](s: &mut std::string::String, c: char)
    ensures
        final(s)@ == old(s)@.push(c),
;

/// The character that writes the digit `d`.
pub open spec fn digit_char(d: nat) -> char
    recommends
        d < 10,
{
    ((48 + d) as u8) as char
}

/// The decimal digits of `n`, the most significant first.
pub open spec fn decimal(n: nat) -> Seq<char>
    decreases n,
{
    if n < 10 {
        seq![digit_char(n)]
    } else {
        decimal(n / 10).push(digit_char(n % 10))
    }
}

/// Appends the decimal digits of `n` to `s`.
pub fn push_decimal(s: &mut String, n: usize)
    ensures
        final(s)@ == old(s)@ + decimal(n as nat),
    decreases n,
{
    if n >= 10 {
        push_decimal(s, n / 10);
    }
    let d: u8 = (n % 10) as u8;
    s.push((48 + d) as char);
    assert(s@ =~= old(s)@ + decimal(n as nat));
}

/// A copy of the characters of `v` from `from` up to `to`.
pub fn collect(v: &Vec<char>, from: usize, to: usize) -> (s: String)
    requires
        from <= to <= v@.len(),
    ensures
        s@ == v@.subrange(from as int, to as int),
{
    let mut s = String::new();
    let mut i: usize = from;
    while i < to
        invariant
            from <= i <= to <= v@.len(),
            s@ == v@.subrange(from as int, i as int),
        decreases to - i,
    {
        s.push(v[i]);
        i += 1;
        assert(s@ =~= v@.subrange(from as int, i as int));
    }
    assert(s@ =~= v@.subrange(from as int, to as int));
    s
}

/// Whether the characters of `v` from `from` on start with `word`.
pub open spec fn starts_with(v: Seq<char>, from: nat, word: Seq<char>) -> bool {
    from + word.len() <= v.len() && v.subrange(from as int, (from + word.len()) as int) == word
}

pub fn has_word(v: &Vec<char>, from: usize, word: &str) -> (r: bool)
    ensures
        r == starts_with(v@, from as nat, word@),
{
    let n = word.unicode_len();
    if from > v.len() || n > v.len() - from {
        return false;
    }
    let len = v.len();
    let mut i: usize = 0;
    while i < n
        invariant
            n == word@.len(),
            len == v@.len(),
            from + n <= len,
            i <= n,
            v@.subrange(from as int, from + i) == word@.take(i as int),
        decreases n - i,
    {
        if v[from + i] != word.get_char(i) {
            assert(v@.subrange(from as int, from + n)[i as int] != word@[i as int]);
            return false;
        }
        i += 1;
        assert(v@.subrange(from as int, from + i) =~= word@.take(i as int));
    }
    assert(word@.take(n as int) =~= word@);
    true
}

/// Whether the characters of `chars` from `from` up to `to` are those of
/// `word`.
pub fn same_text(chars: &Vec<char>, from: usize, to: usize, word: &str) -> (r: bool)
    requires
        from <= to <= chars@.len(),
    ensures
        r == (chars@.subrange(from as int, to as int) == word@),
{
    let n = word.unicode_len();
    if to - from != n {
        return false;
    }
    let mut i: usize = 0;
    while i < n
        invariant
            n == word@.len(),
            from + n == to,
            to <= chars@.len(),
            i <= n,
            chars@.subrange(from as int, from + i) == word@.take(i as int),
        decreases n - i,
    {
        if chars[from + i] != word.get_char(i) {
            assert(chars@.subrange(from as int, to as int)[i as int] != word@[i as int]);
            return false;
        }
        i += 1;
        assert(chars@.subrange(from as int, from + i) =~= word@.take(i as int));
    }
    assert(word@.take(n as int) =~= word@);
    true
}

// ------------------------------------------------------------- byte positions
/// The number of bytes that the first `i` characters take in UTF-8.
pub open spec fn byte_offset(chars: Seq<char>, i: nat) -> nat {
    encode_utf8(chars.take(i as int)).len()
}

/// Whether `offsets` holds, for each `i` up to the number of characters,
/// the byte offset of the character `i`.
pub open spec fn offsets_of(chars: Seq<char>, offsets: Seq<usize>) -> bool {
    &&& offsets.len() == chars.len() + 1
    &&& forall|i: int| 0 <= i <= chars.len() ==> #[trigger] offsets[i] == byte_offset(chars, i as nat)
    &&& forall|i: int, j: int|
        0 <= i < j <= chars.len() ==> (#[trigger] offsets[i]) < (#[trigger] offsets[j])
}

/// The encoding of a text is the encoding of its parts, one after the other.
pub proof fn encode_concat(a: Seq<char>, b: Seq<char>)
    ensures
        encode_utf8(a + b) == encode_utf8(a) + encode_utf8(b),
    decreases a.len(),
{
    if a.len() == 0 {
        assert(a + b =~= b);
        assert(encode_utf8(a) + encode_utf8(b) =~= encode_utf8(b));
    } else {
        assert((a + b).drop_first() =~= a.drop_first() + b);
        encode_concat(a.drop_first(), b);
        assert(encode_utf8(a + b) =~= encode_utf8(a) + encode_utf8(b));
    }
}

/// The number of bytes that `c` takes in UTF-8.
pub fn utf8_width(c: char) -> (n: usize)
    ensures
        n == encode_scalar(c as u32).len(),
        1 <= n <= 4,
{
    broadcast use vstd::utf8::char_is_scalar;

    let v: u32 = c as u32;
    if v < 0x80 {
        1
    } else if v < 0x800 {
        2
    } else if v < 0x10000 {
        3
    } else {
        4
    }
}

/// The characters of `src`, and the byte offset of each of them and of the
/// end of the text.
pub fn decode(src: &str) -> (r: (Vec<char>, Vec<usize>))
    ensures
        r.0@ == src@,
        offsets_of(r.0@, r.1@),
        r.1@[src@.len() as int] == src.spec_bytes().len(),
{
    broadcast use vstd::string::group_string_axioms;

    let total = src.as_bytes().len();
    let mut chars: Vec<char> = Vec::new();
    let mut offsets: Vec<usize> = Vec::new();
    let mut offset: usize = 0;
    offsets.push(0);
    let mut it = src.chars();
    assert(chars@.take(0) =~= Seq::<char>::empty());
    loop
        invariant
            it.obeys_prophetic_iter_laws(),
            it.decrease() is Some,
            chars@ + it.remaining() == src@,
            total == encode_utf8(src@).len(),
            offsets@.len() == chars@.len() + 1,
            offset == encode_utf8(chars@).len(),
            offsets@[chars@.len() as int] == offset,
            forall|i: int| 0 <= i <= chars@.len() ==> #[trigger] offsets@[i] == byte_offset(
                chars@,
                i as nat,
            ),
            forall|i: int, j: int|
                0 <= i < j <= chars@.len() ==> (#[trigger] offsets@[i]) < (#[trigger] offsets@[j]),
        ensures
            chars@ == src@,
            offsets_of(chars@, offsets@),
            offsets@[chars@.len() as int] == total,
        decreases it.decrease()->0,
    {
        let ghost before = it.remaining();
        let ghost old_chars = chars@;
        let ghost old_offsets = offsets@;
        match it.next() {
            Some(c) => {
                let width = utf8_width(c);
                proof {
                    assert(before =~= seq![c] + before.drop_first());
                    assert(old_chars.push(c) + it.remaining() =~= src@);
                    encode_concat(old_chars.push(c), it.remaining());
                    assert(old_chars.push(c) =~= old_chars + seq![c]);
                    encode_concat(old_chars, seq![c]);
                    assert(seq![c].drop_first() =~= Seq::<char>::empty());
                    assert(encode_utf8(Seq::<char>::empty()) =~= Seq::<u8>::empty());
                    assert(seq![c][0] == c);
                    assert(encode_utf8(seq![c]) =~= encode_scalar(c as u32));
                }
                chars.push(c);
                offset = offset + width;
                offsets.push(offset);
                proof {
                    assert(chars@.take(chars@.len() as int) =~= chars@);
                    assert forall|i: int| 0 <= i <= chars@.len() implies #[trigger] offsets@[i]
                        == byte_offset(chars@, i as nat) by {
                        if i < chars@.len() {
                            assert(chars@.take(i) =~= old_chars.take(i));
                            assert(offsets@[i] == old_offsets[i]);
                        }
                    }
                    assert forall|i: int, j: int| 0 <= i < j <= chars@.len() implies (
                    #[trigger] offsets@[i]) < (#[trigger] offsets@[j]) by {
                        assert(offsets@[i] == old_offsets[i]);
                        if j < chars@.len() {
                            assert(offsets@[j] == old_offsets[j]);
                        } else {
                            assert(old_offsets[i] <= old_offsets[old_chars.len() as int]);
                        }
                    }
                }
            },
            None => {
                assert(chars@ =~= src@);
                break;
            },
        }
    }
    (chars, offsets)
}

} // verus!
