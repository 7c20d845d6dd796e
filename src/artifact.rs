use vstd::prelude::*;

verus! {

/// The value of an ASCII hex digit of either case.
pub open spec fn hex_value(c: u8) -> Option<u8> {
    if 0x30 <= c <= 0x39 {
        Some((c - 0x30) as u8)
    } else if 0x61 <= c <= 0x66 {
        Some((c - 0x61 + 10) as u8)
    } else if 0x41 <= c <= 0x46 {
        Some((c - 0x41 + 10) as u8)
    } else {
        None
    }
}

/// The bytes that a hex string spells, two digits per byte, high digit first;
/// `None` for an odd length or a byte that is not a hex digit.
pub open spec fn hex_decoding(s: Seq<u8>) -> Option<Seq<u8>> {
    if s.len() % 2 == 0 && forall|i: int| 0 <= i < s.len() ==> (#[trigger] hex_value(s[i])) is Some {
        Some(
            Seq::new(
                s.len() / 2,
                |i: int| (hex_value(s[2 * i]).unwrap() * 16 + hex_value(s[2 * i + 1]).unwrap()) as u8,
            ),
        )
    } else {
        None
    }
}

/// Relies on `hex::decode`: the bytes spelled by pairs of hex digits of either
/// case, and an error, without panicking, for an odd length or any other byte.
#[verifier::external_body]
fn hex_decode(s: &[u8]) -> (r: Option<Vec<u8>>)
    ensures
        match r {
            Some(v) => hex_decoding(s@) == Some(v@),
            None => hex_decoding(s@) is None,
        },
{
    hex::decode(s).ok()
}

/// Space, tab, line feed, carriage return or form feed.
pub open spec fn is_ascii_space(b: u8) -> bool {
    b == 0x20 || b == 0x09 || b == 0x0a || b == 0x0d || b == 0x0c
}

/// `s` without its leading white space.
pub open spec fn trim_start(s: Seq<u8>) -> Seq<u8>
    decreases s.len(),
{
    if s.len() > 0 && is_ascii_space(s[0]) {
        trim_start(s.drop_first())
    } else {
        s
    }
}

/// `s` without its trailing white space.
pub open spec fn trim_end(s: Seq<u8>) -> Seq<u8>
    decreases s.len(),
{
    if s.len() > 0 && is_ascii_space(s.last()) {
        trim_end(s.drop_last())
    } else {
        s
    }
}

/// The hex digits of a bytecode file: its text without surrounding white space
/// and without a leading `0x`.
pub open spec fn bytecode_hex(text: Seq<u8>) -> Seq<u8> {
    let t = trim_end(trim_start(text));
    if t.len() >= 2 && t[0] == 0x30 && t[1] == 0x78 {
        t.subrange(2, t.len() as int)
    } else {
        t
    }
}

proof fn lemma_trim_start(s: Seq<u8>, i: int)
    requires
        0 <= i <= s.len(),
        forall|k: int| 0 <= k < i ==> is_ascii_space(#[trigger] s[k]),
        i == s.len() || !is_ascii_space(s[i]),
    ensures
        trim_start(s) == s.subrange(i, s.len() as int),
    decreases i,
{
    if i == 0 {
        assert(s.subrange(0, s.len() as int) =~= s);
    } else {
        assert(is_ascii_space(s[0]));
        let d = s.drop_first();
        assert forall|k: int| 0 <= k < i - 1 implies is_ascii_space(#[trigger] d[k]) by {
            assert(d[k] == s[k + 1]);
        }
        if i < s.len() {
            assert(d[i - 1] == s[i]);
        }
        lemma_trim_start(d, i - 1);
        assert(d.subrange(i - 1, d.len() as int) =~= s.subrange(i, s.len() as int));
    }
}

proof fn lemma_trim_end(s: Seq<u8>, j: int)
    requires
        0 <= j <= s.len(),
        forall|k: int| j <= k < s.len() ==> is_ascii_space(#[trigger] s[k]),
        j == 0 || !is_ascii_space(s[j - 1]),
    ensures
        trim_end(s) == s.subrange(0, j),
    decreases s.len() - j,
{
    if j == s.len() {
        assert(s.subrange(0, s.len() as int) =~= s);
    } else {
        assert(is_ascii_space(s.last()));
        let d = s.drop_last();
        assert forall|k: int| j <= k < d.len() implies is_ascii_space(#[trigger] d[k]) by {
            assert(d[k] == s[k]);
        }
        if j > 0 {
            assert(d[j - 1] == s[j - 1]);
        }
        lemma_trim_end(d, j);
        assert(d.subrange(0, j) =~= s.subrange(0, j));
    }
}

fn is_space(b: u8) -> (r: bool)
    ensures
        r == is_ascii_space(b),
{
    b == 0x20 || b == 0x09 || b == 0x0a || b == 0x0d || b == 0x0c
}

/// Decodes the text of a bytecode file: hex digits, possibly after `0x`, with
/// white space around them. `None` where they do not spell bytes.
pub fn decode_bytecode_text(text: &[u8]) -> (r: Option<Vec<u8>>)
    ensures
        match r {
            Some(v) => hex_decoding(bytecode_hex(text@)) == Some(v@),
            None => hex_decoding(bytecode_hex(text@)) is None,
        },
{
    let n = text.len();
    let mut start: usize = 0;
    while start < n && is_space(text[start])
        invariant
            n == text@.len(),
            start <= n,
            forall|k: int| 0 <= k < start ==> is_ascii_space(#[trigger] text@[k]),
        decreases n - start,
    {
        start = start + 1;
    }
    let mut end: usize = n;
    while end > start && is_space(text[end - 1])
        invariant
            n == text@.len(),
            start <= end <= n,
            forall|k: int| end <= k < n ==> is_ascii_space(#[trigger] text@[k]),
        decreases end,
    {
        end = end - 1;
    }
    let ghost lead = text@.subrange(start as int, n as int);
    proof {
        lemma_trim_start(text@, start as int);
        assert forall|k: int| end - start <= k < lead.len() implies is_ascii_space(#[trigger] lead[k]) by {
            assert(lead[k] == text@[start + k]);
        }
        if end > start {
            assert(lead[end - start - 1] == text@[end - 1]);
        }
        lemma_trim_end(lead, end - start);
        assert(lead.subrange(0, end - start) =~= text@.subrange(start as int, end as int));
    }
    if end - start >= 2 && text[start] == 0x30 && text[start + 1] == 0x78 {
        start = start + 2;
    }
    assert(bytecode_hex(text@) =~= text@.subrange(start as int, end as int));
    let mut digits: Vec<u8> = Vec::with_capacity(end - start);
    let mut i: usize = start;
    while i < end
        invariant
            n == text@.len(),
            start <= i <= end <= n,
            digits@ == text@.subrange(start as int, i as int),
        decreases end - i,
    {
        digits.push(text[i]);
        assert(text@.subrange(start as int, i + 1) =~= text@.subrange(start as int, i as int).push(text@[i as int]));
        i = i + 1;
    }
    hex_decode(digits.as_slice())
}

} // verus!
