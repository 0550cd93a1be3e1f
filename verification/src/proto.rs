//! Protobuf wire-format primitives for the message subset the proxy reads and
//! rewrites: base-128 varints, field keys, and length-delimited fields.
//! Parsing skips fields it does not know while keeping their raw bytes, so a
//! rewritten message carries unmodelled content through unchanged.

use vstd::prelude::*;

verus! {

pub const WIRE_VARINT: u64 = 0;
pub const WIRE_FIXED64: u64 = 1;
pub const WIRE_LEN: u64 = 2;
pub const WIRE_FIXED32: u64 = 5;

/// Largest value a varint tail may carry and still leave the full value
/// representable in 64 bits after one more 7-bit limb.
pub const VARINT_TAIL_MAX: u64 = 0x01FF_FFFF_FFFF_FFFF;

/// The base-128 varint encoding of `n`, low limbs first, continuation bit on
/// every limb but the last.
pub open spec fn spec_varint(n: u64) -> Seq<u8>
    decreases n,
        via spec_varint_decreases
{
    if n < 0x80 {
        seq![n as u8]
    } else {
        seq![(n % 0x80 + 0x80) as u8] + spec_varint(n / 0x80)
    }
}

#[via_fn]
proof fn spec_varint_decreases(n: u64) {
    assert(n >= 0x80 ==> n / 0x80 < n) by (nonlinear_arith);
}

/// Appends the varint encoding of `n` to `buf`.
pub fn write_varint(buf: &mut Vec<u8>, n: u64)
    ensures
        final(buf)@ == old(buf)@ + spec_varint(n),
{
    let ghost n0 = n;
    let ghost start = buf@;
    let mut n = n;
    while n >= 0x80
        invariant
            start + spec_varint(n0) == buf@ + spec_varint(n),
        decreases n,
    {
        buf.push((n % 0x80 + 0x80) as u8);
        proof {
            assert(n / 0x80 < n) by (nonlinear_arith)
                requires
                    n >= 0x80,
            ;
        }
        n = n / 0x80;
    }
    buf.push(n as u8);
    proof {
        assert(final(buf)@ =~= start + spec_varint(n0));
    }
}

/// Reads the varint starting at `i`: its value and the index just past it.
/// `None` when the bytes run out or the value would not fit in 64 bits.
pub open spec fn spec_read_varint(s: Seq<u8>, i: int) -> Option<(u64, int)>
    decreases s.len() - i,
{
    if i < 0 || i >= s.len() {
        None
    } else {
        let b = s[i];
        if b < 0x80 {
            Some((b as u64, i + 1))
        } else {
            match spec_read_varint(s, i + 1) {
                None => None,
                Some((v, j)) => if v <= VARINT_TAIL_MAX {
                    Some(((v * 0x80 + (b - 0x80) as u64) as u64, j))
                } else {
                    None
                },
            }
        }
    }
}

/// A decoded varint ends past where it began and within the buffer.
pub proof fn lemma_read_varint_advances(s: Seq<u8>, i: int)
    requires
        spec_read_varint(s, i) is Some,
    ensures
        i < spec_read_varint(s, i)->Some_0.1 <= s.len(),
    decreases s.len() - i,
{
    let b = s[i];
    if b >= 0x80 {
        lemma_read_varint_advances(s, i + 1);
    }
}

/// Reading where a varint was written gives back the written value.
pub proof fn lemma_read_varint_of_encode(s: Seq<u8>, i: int, n: u64)
    requires
        0 <= i,
        i + spec_varint(n).len() <= s.len(),
        s.subrange(i, i + spec_varint(n).len() as int) == spec_varint(n),
    ensures
        spec_read_varint(s, i) == Some((n, i + spec_varint(n).len() as int)),
    decreases n,
{
    let e = spec_varint(n);
    assert(s[i] == e[0]);
    if n < 0x80 {
    } else {
        assert(n / 0x80 < n) by (nonlinear_arith)
            requires
                n >= 0x80,
        ;
        let tail = spec_varint(n / 0x80);
        assert forall|k: int| 0 <= k < tail.len() implies s.subrange(
            i + 1,
            i + 1 + tail.len() as int,
        )[k] == tail[k] by {
            assert(s[i + 1 + k] == e[1 + k]);
        }
        assert(s.subrange(i + 1, i + 1 + tail.len() as int) =~= tail);
        lemma_read_varint_of_encode(s, i + 1, n / 0x80);
        assert(n / 0x80 <= VARINT_TAIL_MAX) by (nonlinear_arith)
            requires
                n >= 0x80,
        ;
        assert((n / 0x80) * 0x80 + (n % 0x80) == n) by (nonlinear_arith);
        assert(s[i] == (n % 0x80 + 0x80) as u8);
        assert(((n / 0x80) * 0x80 + (s[i] - 0x80) as u64) as u64 == n);
    }
}

/// Reads the varint starting at `pos`, as `spec_read_varint` describes.
pub fn read_varint(s: &[u8], pos: usize) -> (r: Option<(u64, usize)>)
    ensures
        match r {
            Some((v, j)) => spec_read_varint(s@, pos as int) == Some((v, j as int)),
            None => spec_read_varint(s@, pos as int) is None,
        },
    decreases s@.len() - pos,
{
    if pos >= s.len() {
        return None;
    }
    let b = s[pos];
    if b < 0x80 {
        Some((b as u64, pos + 1))
    } else {
        match read_varint(s, pos + 1) {
            None => None,
            Some((v, j)) => {
                if v <= VARINT_TAIL_MAX {
                    proof {
                        assert(v * 0x80 + 0x7F <= u64::MAX) by (nonlinear_arith)
                            requires
                                v <= VARINT_TAIL_MAX,
                        ;
                    }
                    Some((v * 0x80 + (b - 0x80) as u64, j))
                } else {
                    None
                }
            },
        }
    }
}

/// The key introducing a field: field number and wire type packed in one
/// varint.
pub open spec fn spec_key(field: u64, wire: u64) -> Seq<u8> {
    spec_varint((field * 8 + wire) as u64)
}

/// A varint-valued field: key then value.
pub open spec fn spec_varint_field(field: u64, value: u64) -> Seq<u8> {
    spec_key(field, WIRE_VARINT) + spec_varint(value)
}

/// A length-delimited field: key, byte length, then the bytes.
pub open spec fn spec_len_field(field: u64, body: Seq<u8>) -> Seq<u8> {
    spec_key(field, WIRE_LEN) + spec_varint(body.len() as u64) + body
}

/// Largest field number the writers below accept; keeps `field * 8 + wire`
/// within `u64` with room to spare.
pub const MAX_FIELD: u64 = 0x1FFF_FFFF;

/// Appends `field` as a varint-valued field.
pub fn write_varint_field(buf: &mut Vec<u8>, field: u64, value: u64)
    requires
        field <= MAX_FIELD,
    ensures
        final(buf)@ == old(buf)@ + spec_varint_field(field, value),
{
    write_varint(buf, field * 8 + WIRE_VARINT);
    write_varint(buf, value);
    proof {
        assert(final(buf)@ =~= old(buf)@ + spec_varint_field(field, value));
    }
}

/// Appends `body` as a length-delimited field.
pub fn write_len_field(buf: &mut Vec<u8>, field: u64, body: &[u8])
    requires
        field <= MAX_FIELD,
    ensures
        final(buf)@ == old(buf)@ + spec_len_field(field, body@),
{
    write_varint(buf, field * 8 + WIRE_LEN);
    write_varint(buf, body.len() as u64);
    buf.extend_from_slice(body);
    proof {
        assert(final(buf)@ =~= old(buf)@ + spec_len_field(field, body@));
    }
}

/// Index just past the value of a field with wire type `wire` whose value
/// starts at `i`; `None` when the bytes run out or the wire type is unknown.
pub open spec fn spec_skip_value(s: Seq<u8>, i: int, wire: u64) -> Option<int> {
    if wire == WIRE_VARINT {
        match spec_read_varint(s, i) {
            Some((_, j)) => Some(j),
            None => None,
        }
    } else if wire == WIRE_FIXED64 {
        if i + 8 <= s.len() {
            Some(i + 8)
        } else {
            None
        }
    } else if wire == WIRE_FIXED32 {
        if i + 4 <= s.len() {
            Some(i + 4)
        } else {
            None
        }
    } else if wire == WIRE_LEN {
        match spec_read_varint(s, i) {
            Some((n, j)) => if j + n <= s.len() {
                Some(j + n as int)
            } else {
                None
            },
            None => None,
        }
    } else {
        None
    }
}

/// Advances past a field value, as `spec_skip_value` describes.
pub fn skip_value(s: &[u8], pos: usize, wire: u64) -> (r: Option<usize>)
    requires
        pos <= s@.len(),
    ensures
        match r {
            Some(j) => spec_skip_value(s@, pos as int, wire) == Some(j as int) && pos <= j
                <= s@.len(),
            None => spec_skip_value(s@, pos as int, wire) is None,
        },
{
    if wire == WIRE_VARINT {
        match read_varint(s, pos) {
            Some((_, j)) => {
                proof {
                    lemma_read_varint_advances(s@, pos as int);
                }
                Some(j)
            },
            None => None,
        }
    } else if wire == WIRE_FIXED64 {
        if s.len() >= 8 && pos <= s.len() - 8 {
            Some(pos + 8)
        } else {
            None
        }
    } else if wire == WIRE_FIXED32 {
        if s.len() >= 4 && pos <= s.len() - 4 {
            Some(pos + 4)
        } else {
            None
        }
    } else if wire == WIRE_LEN {
        match read_varint(s, pos) {
            Some((n, j)) => {
                proof {
                    lemma_read_varint_advances(s@, pos as int);
                }
                if n <= (s.len() - j) as u64 {
                    Some(j + n as usize)
                } else {
                    None
                }
            },
            None => None,
        }
    } else {
        None
    }
}

/// A varint of a value below `2^21` is at most three bytes.
pub proof fn lemma_varint_small_len(n: u64)
    requires
        n < 0x200000,
    ensures
        1 <= spec_varint(n).len() <= 3,
{
    reveal_with_fuel(spec_varint, 4);
    if n >= 0x80 {
        assert(n / 0x80 < 0x4000) by (nonlinear_arith)
            requires
                n < 0x200000,
        ;
        if n / 0x80 >= 0x80 {
            assert((n / 0x80) / 0x80 < 0x80) by (nonlinear_arith)
                requires
                    n / 0x80 < 0x4000,
            ;
        }
    }
}

/// The view of a list of byte vectors.
pub open spec fn bytes_list_view(v: Seq<Vec<u8>>) -> Seq<Seq<u8>> {
    v.map_values(|b: Vec<u8>| b@)
}

/// A repeated length-delimited field: one `spec_len_field` per item, in
/// order.
pub open spec fn spec_encode_raw_list(field: u64, items: Seq<Seq<u8>>) -> Seq<u8>
    decreases items.len(),
{
    if items.len() == 0 {
        Seq::empty()
    } else {
        spec_len_field(field, items[0]) + spec_encode_raw_list(field, items.skip(1))
    }
}

/// Appends every item of `items` as a length-delimited field numbered
/// `field`.
pub fn write_raw_list(buf: &mut Vec<u8>, field: u64, items: &Vec<Vec<u8>>)
    requires
        field <= MAX_FIELD,
    ensures
        final(buf)@ == old(buf)@ + spec_encode_raw_list(field, bytes_list_view(items@)),
{
    let ghost vs = bytes_list_view(items@);
    let ghost start = buf@;
    proof {
        assert(vs.skip(0) =~= vs);
    }
    let mut k: usize = 0;
    while k < items.len()
        invariant
            k <= items@.len(),
            vs == bytes_list_view(items@),
            buf@ + spec_encode_raw_list(field, vs.skip(k as int)) == start + spec_encode_raw_list(
                field,
                vs,
            ),
            field <= MAX_FIELD,
        decreases items@.len() - k,
    {
        proof {
            assert(vs.skip(k as int)[0] == vs[k as int]);
            assert(vs.skip(k as int).skip(1) =~= vs.skip(k as int + 1));
        }
        write_len_field(buf, field, items[k].as_slice());
        k = k + 1;
    }
    proof {
        assert(vs.skip(k as int) =~= Seq::<Seq<u8>>::empty());
    }
}

/// A repeated varint field of 32-bit values: one `spec_varint_field` per
/// item, in order.
pub open spec fn spec_encode_u32_list(field: u64, items: Seq<u32>) -> Seq<u8>
    decreases items.len(),
{
    if items.len() == 0 {
        Seq::empty()
    } else {
        spec_varint_field(field, items[0] as u64) + spec_encode_u32_list(field, items.skip(1))
    }
}

/// Appends every item of `items` as a varint field numbered `field`.
pub fn write_u32_list(buf: &mut Vec<u8>, field: u64, items: &Vec<u32>)
    requires
        field <= MAX_FIELD,
    ensures
        final(buf)@ == old(buf)@ + spec_encode_u32_list(field, items@),
{
    let ghost vs = items@;
    let ghost start = buf@;
    proof {
        assert(vs.skip(0) =~= vs);
    }
    let mut k: usize = 0;
    while k < items.len()
        invariant
            k <= items@.len(),
            vs == items@,
            buf@ + spec_encode_u32_list(field, vs.skip(k as int)) == start + spec_encode_u32_list(
                field,
                vs,
            ),
            field <= MAX_FIELD,
        decreases items@.len() - k,
    {
        proof {
            assert(vs.skip(k as int)[0] == vs[k as int]);
            assert(vs.skip(k as int).skip(1) =~= vs.skip(k as int + 1));
        }
        write_varint_field(buf, field, items[k] as u64);
        k = k + 1;
    }
    proof {
        assert(vs.skip(k as int) =~= Seq::<u32>::empty());
    }
}

/// Whether two byte slices hold the same bytes.
pub fn slice_eq(a: &[u8], b: &[u8]) -> (r: bool)
    ensures
        r == (a@ == b@),
{
    if a.len() != b.len() {
        proof {
            assert(a@ != b@);
        }
        return false;
    }
    let mut k: usize = 0;
    while k < a.len()
        invariant
            k <= a@.len(),
            a@.len() == b@.len(),
            forall|j: int| 0 <= j < k ==> a@[j] == b@[j],
        decreases a@.len() - k,
    {
        if a[k] != b[k] {
            return false;
        }
        k = k + 1;
    }
    proof {
        assert(a@ =~= b@);
    }
    true
}

/// Copies `s[from..to]` into a fresh vector.
pub fn slice_range_to_vec(s: &[u8], from: usize, to: usize) -> (r: Vec<u8>)
    requires
        from <= to <= s@.len(),
    ensures
        r@ == s@.subrange(from as int, to as int),
{
    let mut r: Vec<u8> = Vec::new();
    let mut i = from;
    while i < to
        invariant
            from <= i <= to <= s@.len(),
            r@ == s@.subrange(from as int, i as int),
        decreases to - i,
    {
        r.push(s[i]);
        proof {
            assert(r@ =~= s@.subrange(from as int, i + 1 as int));
        }
        i = i + 1;
    }
    r
}

} // verus!
