use vstd::prelude::*;

verus! {

/// The wide (UTF-16) code units that encode a single character: one unit
/// for a character below `0x10000`, otherwise a surrogate pair.
pub open spec fn wide_units(c: char) -> Seq<u16> {
    if (c as int) < 0x10000 {
        seq![c as u16]
    } else {
        seq![
            (0xD800 + ((c as int) - 0x10000) / 0x400) as u16,
            (0xDC00 + ((c as int) - 0x10000) % 0x400) as u16,
        ]
    }
}

/// The wide encoding of a character sequence: the code units of each
/// character, in order.
pub open spec fn wide_encoding(s: Seq<char>) -> Seq<u16>
    decreases s.len(),
{
    if s.len() == 0 {
        Seq::empty()
    } else {
        wide_units(s[0]) + wide_encoding(s.drop_first())
    }
}

/// Appending a character extends the encoding by that character's units.
pub proof fn lemma_wide_encoding_push(s: Seq<char>, c: char)
    ensures
        wide_encoding(s.push(c)) =~= wide_encoding(s) + wide_units(c),
    decreases s.len(),
{
    if s.len() == 0 {
        assert(s.push(c)[0] == c);
        assert(s.push(c).drop_first() =~= Seq::<char>::empty());
        assert(wide_encoding(s.push(c)) == wide_units(c) + wide_encoding(Seq::<char>::empty()));
    } else {
        let rest = s.drop_first();
        assert(s.push(c)[0] == s[0]);
        assert(s.push(c).drop_first() =~= rest.push(c));
        lemma_wide_encoding_push(rest, c);
        assert(wide_encoding(s.push(c)) == wide_units(s[0]) + wide_encoding(rest.push(c)));
        assert(wide_encoding(s) == wide_units(s[0]) + wide_encoding(rest));
        assert(wide_units(s[0]) + (wide_encoding(rest) + wide_units(c)) =~= (wide_units(s[0])
            + wide_encoding(rest)) + wide_units(c));
    }
}

/// Encodes a string as wide code units, without a terminator.
pub fn encode_wide(s: &str) -> (r: Vec<u16>)
    ensures
        r@ == wide_encoding(s@),
{
    let n = s.unicode_len();
    let mut r: Vec<u16> = Vec::new();
    let mut i: usize = 0;
    while i < n
        invariant
            n == s@.len(),
            i <= n,
            r@ =~= wide_encoding(s@.subrange(0, i as int)),
        decreases n - i,
    {
        let c = s.get_char(i);
        proof {
            assert(s@.subrange(0, (i + 1) as int) =~= s@.subrange(0, i as int).push(c));
            lemma_wide_encoding_push(s@.subrange(0, i as int), c);
        }
        let code: u32 = c as u32;
        if code < 0x10000 {
            r.push(code as u16);
            proof {
                assert(wide_units(c) =~= seq![c as u16]);
            }
        } else {
            let v: u32 = code - 0x10000;
            let hi: u16 = (0xD800 + v / 0x400) as u16;
            let lo: u16 = (0xDC00 + v % 0x400) as u16;
            r.push(hi);
            r.push(lo);
            proof {
                assert(wide_units(c) =~= seq![hi, lo]);
            }
        }
        i = i + 1;
    }
    proof {
        assert(s@.subrange(0, n as int) =~= s@);
    }
    r
}

/// Encodes a string as wide code units with the explicit zero terminator
/// that the host's entry points expect.
pub fn encode_wide_terminated(s: &str) -> (r: Vec<u16>)
    ensures
        r@ =~= wide_encoding(s@).push(0u16),
        r@.len() > 0 && r@.last() == 0u16,
{
    let mut r = encode_wide(s);
    r.push(0);
    r
}

/// The unit buffer submitted for one record: the encoded message text with
/// its explicit NUL terminator, closed by the buffer's own zero unit.
pub open spec fn record_units(message: Seq<char>) -> Seq<u16> {
    wide_encoding(message).push(0u16).push(0u16)
}

/// Encodes one record's message text for submission, terminated as
/// [`record_units`] states. The buffer lives only for the duration of the
/// report call and is never shared.
pub fn encode_record(message: &str) -> (r: Vec<u16>)
    ensures
        r@ =~= record_units(message@),
        r@.len() > 0 && r@.last() == 0u16,
{
    let mut r = encode_wide_terminated(message);
    r.push(0);
    r
}

} // verus!
