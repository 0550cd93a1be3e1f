//! Sensor-channel and navigation-channel messages the proxy reads or
//! rewrites: sensor requests and responses, the driving-status entries of a
//! sensor batch, and the maneuver type inside a navigation state.  Several of
//! these are protobuf messages whose single modelled field is a varint at
//! field number one; `ScalarMsg` stands for all of them, with the raw bytes
//! of every other field preserved in `rest`.

use vstd::prelude::*;

use crate::proto::{
    read_varint, skip_value, slice_range_to_vec, spec_len_field, spec_read_varint, spec_skip_value,
    spec_varint_field, write_len_field, write_varint_field, WIRE_LEN, WIRE_VARINT,
};

verus! {

pub const FIELD_SCALAR_VALUE: u64 = 1;

pub const FIELD_BATCH_DRIVING_STATUS: u64 = 1;

pub const FIELD_NAV_STEPS: u64 = 1;

pub const FIELD_STEP_MANEUVER: u64 = 1;

/// A message whose one modelled field is a varint at field number one.  It
/// stands for a `SensorRequest` (the field is the sensor type), a
/// `SensorResponse` (the status), a `DrivingStatusData` entry (the status)
/// and a `NavigationManeuver` (the maneuver type).
pub struct ScalarMsg {
    pub value: Option<u32>,
    pub rest: Vec<u8>,
}

pub struct ScalarMsgView {
    pub value: Option<u32>,
    pub rest: Seq<u8>,
}

impl View for ScalarMsg {
    type V = ScalarMsgView;

    open spec fn view(&self) -> ScalarMsgView {
        ScalarMsgView { value: self.value, rest: self.rest@ }
    }
}

impl Clone for ScalarMsg {
    fn clone(&self) -> (r: Self)
        ensures
            r@ == self@,
    {
        ScalarMsg { value: self.value, rest: self.rest.clone() }
    }
}

pub open spec fn spec_empty_scalar() -> ScalarMsgView {
    ScalarMsgView { value: None, rest: Seq::empty() }
}

pub fn empty_scalar() -> (r: ScalarMsg)
    ensures
        r@ == spec_empty_scalar(),
{
    let r = ScalarMsg { value: None, rest: Vec::new() };
    proof {
        assert(r@.rest =~= spec_empty_scalar().rest);
    }
    r
}

/// Parses the fields of a scalar message body from `i` on.
pub open spec fn spec_parse_scalar_fields(s: Seq<u8>, i: int, m: ScalarMsgView) -> Option<
    ScalarMsgView,
>
    decreases s.len() - i,
{
    if i == s.len() {
        Some(m)
    } else if i < 0 || i > s.len() {
        None
    } else {
        match spec_read_varint(s, i) {
            None => None,
            Some((key, j)) => {
                let field = key / 8;
                let wire = key % 8;
                if field == FIELD_SCALAR_VALUE && wire == WIRE_VARINT {
                    match spec_read_varint(s, j) {
                        None => None,
                        Some((v, j2)) => if v <= u32::MAX as u64 && i < j2 <= s.len() {
                            spec_parse_scalar_fields(
                                s,
                                j2,
                                ScalarMsgView { value: Some(v as u32), ..m },
                            )
                        } else {
                            None
                        },
                    }
                } else {
                    match spec_skip_value(s, j, wire) {
                        None => None,
                        Some(j2) => if i < j2 <= s.len() {
                            spec_parse_scalar_fields(
                                s,
                                j2,
                                ScalarMsgView { rest: m.rest + s.subrange(i, j2), ..m },
                            )
                        } else {
                            None
                        },
                    }
                }
            },
        }
    }
}

pub open spec fn spec_parse_scalar(s: Seq<u8>) -> Option<ScalarMsgView> {
    spec_parse_scalar_fields(s, 0, spec_empty_scalar())
}

fn parse_scalar_fields(s: &[u8], pos: usize, m: ScalarMsg) -> (r: Option<ScalarMsg>)
    requires
        pos <= s@.len(),
    ensures
        match r {
            Some(v) => spec_parse_scalar_fields(s@, pos as int, m@) == Some(v@),
            None => spec_parse_scalar_fields(s@, pos as int, m@) is None,
        },
    decreases s@.len() - pos,
{
    if pos == s.len() {
        return Some(m);
    }
    match read_varint(s, pos) {
        None => None,
        Some((key, j)) => {
            proof {
                crate::proto::lemma_read_varint_advances(s@, pos as int);
            }
            let field = key / 8;
            let wire = key % 8;
            if field == FIELD_SCALAR_VALUE && wire == WIRE_VARINT {
                match read_varint(s, j) {
                    None => None,
                    Some((v, j2)) => {
                        proof {
                            crate::proto::lemma_read_varint_advances(s@, j as int);
                        }
                        if v <= u32::MAX as u64 {
                            parse_scalar_fields(
                                s,
                                j2,
                                ScalarMsg { value: Some(v as u32), rest: m.rest },
                            )
                        } else {
                            None
                        }
                    },
                }
            } else {
                match skip_value(s, j, wire) {
                    None => None,
                    Some(j2) => {
                        let mut rest = m.rest;
                        let mut extra = slice_range_to_vec(s, pos, j2);
                        rest.append(&mut extra);
                        parse_scalar_fields(s, j2, ScalarMsg { value: m.value, rest })
                    },
                }
            }
        },
    }
}

/// Parses a scalar message body, as `spec_parse_scalar` describes.
pub fn parse_scalar(s: &[u8]) -> (r: Option<ScalarMsg>)
    ensures
        match r {
            Some(v) => spec_parse_scalar(s@) == Some(v@),
            None => spec_parse_scalar(s@) is None,
        },
{
    parse_scalar_fields(s, 0, empty_scalar())
}

pub open spec fn spec_encode_scalar(m: ScalarMsgView) -> Seq<u8> {
    (match m.value {
        Some(v) => spec_varint_field(FIELD_SCALAR_VALUE, v as u64),
        None => Seq::<u8>::empty(),
    }) + m.rest
}

pub fn encode_scalar(m: &ScalarMsg, buf: &mut Vec<u8>)
    ensures
        final(buf)@ == old(buf)@ + spec_encode_scalar(m@),
{
    match m.value {
        Some(v) => write_varint_field(buf, FIELD_SCALAR_VALUE, v as u64),
        None => (),
    }
    buf.extend_from_slice(m.rest.as_slice());
    proof {
        assert(final(buf)@ =~= old(buf)@ + spec_encode_scalar(m@));
    }
}

pub open spec fn scalars_view(v: Seq<ScalarMsg>) -> Seq<ScalarMsgView> {
    v.map_values(|x: ScalarMsg| x@)
}

/// A message holding a list of scalar submessages at field number one: a
/// `SensorBatch` seen through its `driving_status_data` entries, with every
/// other field of the batch preserved in `rest`.
pub struct ListMsg {
    pub items: Vec<ScalarMsg>,
    pub rest: Vec<u8>,
}

pub struct ListMsgView {
    pub items: Seq<ScalarMsgView>,
    pub rest: Seq<u8>,
}

impl View for ListMsg {
    type V = ListMsgView;

    open spec fn view(&self) -> ListMsgView {
        ListMsgView { items: scalars_view(self.items@), rest: self.rest@ }
    }
}

pub open spec fn spec_empty_list() -> ListMsgView {
    ListMsgView { items: Seq::empty(), rest: Seq::empty() }
}

pub fn empty_list() -> (r: ListMsg)
    ensures
        r@ == spec_empty_list(),
{
    let r = ListMsg { items: Vec::new(), rest: Vec::new() };
    proof {
        assert(r@.items =~= spec_empty_list().items);
        assert(r@.rest =~= spec_empty_list().rest);
    }
    r
}

/// Parses the fields of a list message body from `i` on.
pub open spec fn spec_parse_list_fields(s: Seq<u8>, i: int, m: ListMsgView) -> Option<ListMsgView>
    decreases s.len() - i,
{
    if i == s.len() {
        Some(m)
    } else if i < 0 || i > s.len() {
        None
    } else {
        match spec_read_varint(s, i) {
            None => None,
            Some((key, j)) => {
                let field = key / 8;
                let wire = key % 8;
                if field == FIELD_BATCH_DRIVING_STATUS && wire == WIRE_LEN {
                    match spec_read_varint(s, j) {
                        None => None,
                        Some((n, j2)) => if j2 + n <= s.len() && i < j2 + n {
                            match spec_parse_scalar(s.subrange(j2, j2 + n as int)) {
                                None => None,
                                Some(item) => spec_parse_list_fields(
                                    s,
                                    j2 + n as int,
                                    ListMsgView { items: m.items.push(item), ..m },
                                ),
                            }
                        } else {
                            None
                        },
                    }
                } else {
                    match spec_skip_value(s, j, wire) {
                        None => None,
                        Some(j2) => if i < j2 <= s.len() {
                            spec_parse_list_fields(
                                s,
                                j2,
                                ListMsgView { rest: m.rest + s.subrange(i, j2), ..m },
                            )
                        } else {
                            None
                        },
                    }
                }
            },
        }
    }
}

pub open spec fn spec_parse_list(s: Seq<u8>) -> Option<ListMsgView> {
    spec_parse_list_fields(s, 0, spec_empty_list())
}

fn parse_list_fields(s: &[u8], pos: usize, m: ListMsg) -> (r: Option<ListMsg>)
    requires
        pos <= s@.len(),
    ensures
        match r {
            Some(v) => spec_parse_list_fields(s@, pos as int, m@) == Some(v@),
            None => spec_parse_list_fields(s@, pos as int, m@) is None,
        },
    decreases s@.len() - pos,
{
    if pos == s.len() {
        return Some(m);
    }
    match read_varint(s, pos) {
        None => None,
        Some((key, j)) => {
            proof {
                crate::proto::lemma_read_varint_advances(s@, pos as int);
            }
            let field = key / 8;
            let wire = key % 8;
            if field == FIELD_BATCH_DRIVING_STATUS && wire == WIRE_LEN {
                match read_varint(s, j) {
                    None => None,
                    Some((n, j2)) => {
                        proof {
                            crate::proto::lemma_read_varint_advances(s@, j as int);
                        }
                        if n <= (s.len() - j2) as u64 {
                            let end = j2 + n as usize;
                            let body = slice_range_to_vec(s, j2, end);
                            match parse_scalar(body.as_slice()) {
                                None => None,
                                Some(item) => {
                                    let mut items = m.items;
                                    items.push(item);
                                    let m2 = ListMsg { items, rest: m.rest };
                                    proof {
                                        assert(m2@.items =~= m@.items.push(
                                            spec_parse_scalar(s@.subrange(j2 as int, j2 + n as int))->Some_0,
                                        ));
                                    }
                                    parse_list_fields(s, end, m2)
                                },
                            }
                        } else {
                            None
                        }
                    },
                }
            } else {
                match skip_value(s, j, wire) {
                    None => None,
                    Some(j2) => {
                        let mut rest = m.rest;
                        let mut extra = slice_range_to_vec(s, pos, j2);
                        rest.append(&mut extra);
                        parse_list_fields(s, j2, ListMsg { items: m.items, rest })
                    },
                }
            }
        },
    }
}

/// Parses a list message body, as `spec_parse_list` describes.
pub fn parse_list(s: &[u8]) -> (r: Option<ListMsg>)
    ensures
        match r {
            Some(v) => spec_parse_list(s@) == Some(v@),
            None => spec_parse_list(s@) is None,
        },
{
    parse_list_fields(s, 0, empty_list())
}

pub open spec fn spec_encode_scalar_list(ss: Seq<ScalarMsgView>) -> Seq<u8>
    decreases ss.len(),
{
    if ss.len() == 0 {
        Seq::empty()
    } else {
        spec_len_field(FIELD_BATCH_DRIVING_STATUS, spec_encode_scalar(ss[0]))
            + spec_encode_scalar_list(ss.skip(1))
    }
}

fn encode_scalar_list(items: &Vec<ScalarMsg>, buf: &mut Vec<u8>)
    ensures
        final(buf)@ == old(buf)@ + spec_encode_scalar_list(scalars_view(items@)),
{
    let ghost vs = scalars_view(items@);
    let ghost start = buf@;
    proof {
        assert(vs.skip(0) =~= vs);
    }
    let mut k: usize = 0;
    while k < items.len()
        invariant
            k <= items@.len(),
            vs == scalars_view(items@),
            buf@ + spec_encode_scalar_list(vs.skip(k as int)) == start + spec_encode_scalar_list(
                vs,
            ),
        decreases items@.len() - k,
    {
        proof {
            assert(vs.skip(k as int)[0] == vs[k as int]);
            assert(vs.skip(k as int).skip(1) =~= vs.skip(k as int + 1));
        }
        let mut body: Vec<u8> = Vec::new();
        encode_scalar(&items[k], &mut body);
        write_len_field(buf, FIELD_BATCH_DRIVING_STATUS, body.as_slice());
        k = k + 1;
    }
    proof {
        assert(vs.skip(k as int) =~= Seq::<ScalarMsgView>::empty());
    }
}

pub open spec fn spec_encode_list(m: ListMsgView) -> Seq<u8> {
    spec_encode_scalar_list(m.items) + m.rest
}

/// Encodes a list message body.
pub fn encode_list(m: &ListMsg) -> (r: Vec<u8>)
    ensures
        r@ == spec_encode_list(m@),
{
    let mut buf: Vec<u8> = Vec::new();
    encode_scalar_list(&m.items, &mut buf);
    buf.extend_from_slice(m.rest.as_slice());
    proof {
        assert(buf@ =~= spec_encode_list(m@));
    }
    buf
}

/// Encodes a scalar message body on its own.
pub fn encode_scalar_msg(m: &ScalarMsg) -> (r: Vec<u8>)
    ensures
        r@ == spec_encode_scalar(m@),
{
    let mut buf: Vec<u8> = Vec::new();
    encode_scalar(m, &mut buf);
    proof {
        assert(buf@ =~= spec_encode_scalar(m@));
    }
    buf
}

} // verus!
