//! The EV battery injection: patching the configured energy-model template
//! with live battery readings and framing it as a sensor batch packet.  The
//! template's nesting is modelled one level per type, each keeping unknown
//! fields in `rest`; readings arrive as plain integers (floating-point
//! readings as their raw bit patterns), converted at the HTTP edge outside
//! the crate.

use vstd::prelude::*;

use crate::frame::{Packet, PacketView};
use crate::ids::SENSOR_MESSAGE_BATCH;
use crate::mitm::SYNTH_FLAGS;
use crate::proto::{
    read_varint, skip_value, slice_range_to_vec, spec_len_field, spec_read_varint, spec_skip_value,
    spec_varint_field, write_len_field, write_varint_field, WIRE_FIXED32, WIRE_LEN, WIRE_VARINT,
};

verus! {

pub const FIELD_SCALAR64_VALUE: u64 = 1;

pub const FIELD_MODEL_LEVEL: u64 = 3;

pub const FIELD_MODEL_CAPACITY: u64 = 4;

pub const FIELD_MODEL_AIR_DENSITY: u64 = 6;

pub const FIELD_MODEL_EXTERNAL_TEMP: u64 = 7;

pub const FIELD_CONTROL_MODEL: u64 = 1;

pub const FIELD_BATCH_ENERGY_CONTROL: u64 = 2;

/// A message whose one modelled field is a 64-bit varint at field number
/// one: the level and capacity holders of the energy model.
pub struct Scalar64Msg {
    pub value: Option<u64>,
    pub rest: Vec<u8>,
}

pub struct Scalar64MsgView {
    pub value: Option<u64>,
    pub rest: Seq<u8>,
}

impl View for Scalar64Msg {
    type V = Scalar64MsgView;

    open spec fn view(&self) -> Scalar64MsgView {
        Scalar64MsgView { value: self.value, rest: self.rest@ }
    }
}

pub open spec fn spec_empty_scalar64() -> Scalar64MsgView {
    Scalar64MsgView { value: None, rest: Seq::empty() }
}

pub fn empty_scalar64() -> (r: Scalar64Msg)
    ensures
        r@ == spec_empty_scalar64(),
{
    let r = Scalar64Msg { value: None, rest: Vec::new() };
    proof {
        assert(r@.rest =~= spec_empty_scalar64().rest);
    }
    r
}

pub open spec fn spec_parse_scalar64_fields(s: Seq<u8>, i: int, m: Scalar64MsgView) -> Option<
    Scalar64MsgView,
>
    decreases s.len() - i,
{
    if i == s.len() {
        Some(m)
    } else if i < 0 || i > s.len() {
        None
    } else {
        match spec_read_varint(s, i) {
            None => None,
            Some((key, j)) => {
                let field = key / 8;
                let wire = key % 8;
                if field == FIELD_SCALAR64_VALUE && wire == WIRE_VARINT {
                    match spec_read_varint(s, j) {
                        None => None,
                        Some((v, j2)) => if i < j2 <= s.len() {
                            spec_parse_scalar64_fields(
                                s,
                                j2,
                                Scalar64MsgView { value: Some(v), ..m },
                            )
                        } else {
                            None
                        },
                    }
                } else {
                    match spec_skip_value(s, j, wire) {
                        None => None,
                        Some(j2) => if i < j2 <= s.len() {
                            spec_parse_scalar64_fields(
                                s,
                                j2,
                                Scalar64MsgView { rest: m.rest + s.subrange(i, j2), ..m },
                            )
                        } else {
                            None
                        },
                    }
                }
            },
        }
    }
}

pub open spec fn spec_parse_scalar64(s: Seq<u8>) -> Option<Scalar64MsgView> {
    spec_parse_scalar64_fields(s, 0, spec_empty_scalar64())
}

fn parse_scalar64_fields(s: &[u8], pos: usize, m: Scalar64Msg) -> (r: Option<Scalar64Msg>)
    requires
        pos <= s@.len(),
    ensures
        match r {
            Some(v) => spec_parse_scalar64_fields(s@, pos as int, m@) == Some(v@),
            None => spec_parse_scalar64_fields(s@, pos as int, m@) is None,
        },
    decreases s@.len() - pos,
{
    if pos == s.len() {
        return Some(m);
    }
    match read_varint(s, pos) {
        None => None,
        Some((key, j)) => {
            proof {
                crate::proto::lemma_read_varint_advances(s@, pos as int);
            }
            let field = key / 8;
            let wire = key % 8;
            if field == FIELD_SCALAR64_VALUE && wire == WIRE_VARINT {
                match read_varint(s, j) {
                    None => None,
                    Some((v, j2)) => {
                        proof {
                            crate::proto::lemma_read_varint_advances(s@, j as int);
                        }
                        parse_scalar64_fields(s, j2, Scalar64Msg { value: Some(v), rest: m.rest })
                    },
                }
            } else {
                match skip_value(s, j, wire) {
                    None => None,
                    Some(j2) => {
                        let mut rest = m.rest;
                        let mut extra = slice_range_to_vec(s, pos, j2);
                        rest.append(&mut extra);
                        parse_scalar64_fields(s, j2, Scalar64Msg { value: m.value, rest })
                    },
                }
            }
        },
    }
}

/// Parses a level or capacity holder, as `spec_parse_scalar64` describes.
pub fn parse_scalar64(s: &[u8]) -> (r: Option<Scalar64Msg>)
    ensures
        match r {
            Some(v) => spec_parse_scalar64(s@) == Some(v@),
            None => spec_parse_scalar64(s@) is None,
        },
{
    parse_scalar64_fields(s, 0, empty_scalar64())
}

pub open spec fn spec_encode_scalar64(m: Scalar64MsgView) -> Seq<u8> {
    (match m.value {
        Some(v) => spec_varint_field(FIELD_SCALAR64_VALUE, v),
        None => Seq::<u8>::empty(),
    }) + m.rest
}

pub fn encode_scalar64(m: &Scalar64Msg, buf: &mut Vec<u8>)
    ensures
        final(buf)@ == old(buf)@ + spec_encode_scalar64(m@),
{
    match m.value {
        Some(v) => write_varint_field(buf, FIELD_SCALAR64_VALUE, v),
        None => (),
    }
    buf.extend_from_slice(m.rest.as_slice());
    proof {
        assert(final(buf)@ =~= old(buf)@ + spec_encode_scalar64(m@));
    }
}

/// A fixed-width 32-bit field: key then the value, little-endian.
pub open spec fn spec_fixed32_field(field: u64, v: u32) -> Seq<u8> {
    crate::proto::spec_key(field, WIRE_FIXED32) + seq![
        (v as int % 0x100) as u8,
        ((v as int / 0x100) % 0x100) as u8,
        ((v as int / 0x10000) % 0x100) as u8,
        (v as int / 0x1000000) as u8,
    ]
}

fn write_fixed32_field(buf: &mut Vec<u8>, field: u64, v: u32)
    requires
        field <= crate::proto::MAX_FIELD,
    ensures
        final(buf)@ == old(buf)@ + spec_fixed32_field(field, v),
{
    crate::proto::write_varint(buf, field * 8 + WIRE_FIXED32);
    buf.push((v % 0x100) as u8);
    buf.push(((v / 0x100) % 0x100) as u8);
    buf.push(((v / 0x10000) % 0x100) as u8);
    buf.push((v / 0x1000000) as u8);
    proof {
        assert(final(buf)@ =~= old(buf)@ + spec_fixed32_field(field, v));
    }
}

/// The 32-bit value starting at `i`, little-endian.
pub open spec fn spec_fixed32_at(s: Seq<u8>, i: int) -> u32 {
    (s[i] as int + s[i + 1] as int * 0x100 + s[i + 2] as int * 0x10000 + s[i + 3] as int
        * 0x1000000) as u32
}

/// The energy model inside one control entry: the level and capacity
/// holders, the reference air density and the external temperature (their
/// raw 32-bit patterns).
pub struct EnergyModel {
    pub level: Option<Scalar64Msg>,
    pub capacity: Option<Scalar64Msg>,
    pub air_density_bits: Option<u32>,
    pub external_temp_bits: Option<u32>,
    pub rest: Vec<u8>,
}

pub struct EnergyModelView {
    pub level: Option<Scalar64MsgView>,
    pub capacity: Option<Scalar64MsgView>,
    pub air_density_bits: Option<u32>,
    pub external_temp_bits: Option<u32>,
    pub rest: Seq<u8>,
}

pub open spec fn opt_scalar64_view(v: Option<Scalar64Msg>) -> Option<Scalar64MsgView> {
    match v {
        Some(x) => Some(x@),
        None => None,
    }
}

impl View for EnergyModel {
    type V = EnergyModelView;

    open spec fn view(&self) -> EnergyModelView {
        EnergyModelView {
            level: opt_scalar64_view(self.level),
            capacity: opt_scalar64_view(self.capacity),
            air_density_bits: self.air_density_bits,
            external_temp_bits: self.external_temp_bits,
            rest: self.rest@,
        }
    }
}

pub open spec fn spec_empty_model() -> EnergyModelView {
    EnergyModelView {
        level: None,
        capacity: None,
        air_density_bits: None,
        external_temp_bits: None,
        rest: Seq::empty(),
    }
}

pub fn empty_model() -> (r: EnergyModel)
    ensures
        r@ == spec_empty_model(),
{
    let r = EnergyModel {
        level: None,
        capacity: None,
        air_density_bits: None,
        external_temp_bits: None,
        rest: Vec::new(),
    };
    proof {
        assert(r@.rest =~= spec_empty_model().rest);
    }
    r
}

pub open spec fn spec_parse_model_fields(s: Seq<u8>, i: int, m: EnergyModelView) -> Option<
    EnergyModelView,
>
    decreases s.len() - i,
{
    if i == s.len() {
        Some(m)
    } else if i < 0 || i > s.len() {
        None
    } else {
        match spec_read_varint(s, i) {
            None => None,
            Some((key, j)) => {
                let field = key / 8;
                let wire = key % 8;
                if wire == WIRE_LEN && (field == FIELD_MODEL_LEVEL || field
                    == FIELD_MODEL_CAPACITY) {
                    match spec_read_varint(s, j) {
                        None => None,
                        Some((n, j2)) => if j2 + n <= s.len() && i < j2 + n {
                            match spec_parse_scalar64(s.subrange(j2, j2 + n as int)) {
                                None => None,
                                Some(holder) => if field == FIELD_MODEL_LEVEL {
                                    spec_parse_model_fields(
                                        s,
                                        j2 + n as int,
                                        EnergyModelView { level: Some(holder), ..m },
                                    )
                                } else {
                                    spec_parse_model_fields(
                                        s,
                                        j2 + n as int,
                                        EnergyModelView { capacity: Some(holder), ..m },
                                    )
                                },
                            }
                        } else {
                            None
                        },
                    }
                } else if wire == WIRE_FIXED32 && (field == FIELD_MODEL_AIR_DENSITY || field
                    == FIELD_MODEL_EXTERNAL_TEMP) {
                    if j + 4 <= s.len() && i < j + 4 {
                        let v = spec_fixed32_at(s, j);
                        if field == FIELD_MODEL_AIR_DENSITY {
                            spec_parse_model_fields(
                                s,
                                j + 4,
                                EnergyModelView { air_density_bits: Some(v), ..m },
                            )
                        } else {
                            spec_parse_model_fields(
                                s,
                                j + 4,
                                EnergyModelView { external_temp_bits: Some(v), ..m },
                            )
                        }
                    } else {
                        None
                    }
                } else {
                    match spec_skip_value(s, j, wire) {
                        None => None,
                        Some(j2) => if i < j2 <= s.len() {
                            spec_parse_model_fields(
                                s,
                                j2,
                                EnergyModelView { rest: m.rest + s.subrange(i, j2), ..m },
                            )
                        } else {
                            None
                        },
                    }
                }
            },
        }
    }
}

pub open spec fn spec_parse_model(s: Seq<u8>) -> Option<EnergyModelView> {
    spec_parse_model_fields(s, 0, spec_empty_model())
}

fn parse_model_fields(s: &[u8], pos: usize, m: EnergyModel) -> (r: Option<EnergyModel>)
    requires
        pos <= s@.len(),
    ensures
        match r {
            Some(v) => spec_parse_model_fields(s@, pos as int, m@) == Some(v@),
            None => spec_parse_model_fields(s@, pos as int, m@) is None,
        },
    decreases s@.len() - pos,
{
    if pos == s.len() {
        return Some(m);
    }
    match read_varint(s, pos) {
        None => None,
        Some((key, j)) => {
            proof {
                crate::proto::lemma_read_varint_advances(s@, pos as int);
            }
            let field = key / 8;
            let wire = key % 8;
            if wire == WIRE_LEN && (field == FIELD_MODEL_LEVEL || field == FIELD_MODEL_CAPACITY) {
                match read_varint(s, j) {
                    None => None,
                    Some((n, j2)) => {
                        proof {
                            crate::proto::lemma_read_varint_advances(s@, j as int);
                        }
                        if n <= (s.len() - j2) as u64 {
                            let end = j2 + n as usize;
                            let body = slice_range_to_vec(s, j2, end);
                            match parse_scalar64(body.as_slice()) {
                                None => None,
                                Some(holder) => {
                                    if field == FIELD_MODEL_LEVEL {
                                        parse_model_fields(
                                            s,
                                            end,
                                            EnergyModel { level: Some(holder), ..m },
                                        )
                                    } else {
                                        parse_model_fields(
                                            s,
                                            end,
                                            EnergyModel { capacity: Some(holder), ..m },
                                        )
                                    }
                                },
                            }
                        } else {
                            None
                        }
                    },
                }
            } else if wire == WIRE_FIXED32 && (field == FIELD_MODEL_AIR_DENSITY || field
                == FIELD_MODEL_EXTERNAL_TEMP) {
                if s.len() >= 4 && j <= s.len() - 4 {
                    let v: u32 = s[j] as u32 + s[j + 1] as u32 * 0x100 + s[j + 2] as u32 * 0x10000
                        + s[j + 3] as u32 * 0x1000000;
                    if field == FIELD_MODEL_AIR_DENSITY {
                        parse_model_fields(s, j + 4, EnergyModel { air_density_bits: Some(v), ..m })
                    } else {
                        parse_model_fields(
                            s,
                            j + 4,
                            EnergyModel { external_temp_bits: Some(v), ..m },
                        )
                    }
                } else {
                    None
                }
            } else {
                match skip_value(s, j, wire) {
                    None => None,
                    Some(j2) => {
                        let mut rest = m.rest;
                        let mut extra = slice_range_to_vec(s, pos, j2);
                        rest.append(&mut extra);
                        parse_model_fields(
                            s,
                            j2,
                            EnergyModel {
                                level: m.level,
                                capacity: m.capacity,
                                air_density_bits: m.air_density_bits,
                                external_temp_bits: m.external_temp_bits,
                                rest,
                            },
                        )
                    },
                }
            }
        },
    }
}

/// Parses an energy model body, as `spec_parse_model` describes.
pub fn parse_model(s: &[u8]) -> (r: Option<EnergyModel>)
    ensures
        match r {
            Some(v) => spec_parse_model(s@) == Some(v@),
            None => spec_parse_model(s@) is None,
        },
{
    parse_model_fields(s, 0, empty_model())
}

pub open spec fn spec_opt_scalar64_field(field: u64, v: Option<Scalar64MsgView>) -> Seq<u8> {
    match v {
        Some(h) => spec_len_field(field, spec_encode_scalar64(h)),
        None => Seq::<u8>::empty(),
    }
}

pub open spec fn spec_opt_fixed32_field(field: u64, v: Option<u32>) -> Seq<u8> {
    match v {
        Some(x) => spec_fixed32_field(field, x),
        None => Seq::<u8>::empty(),
    }
}

pub open spec fn spec_encode_model(m: EnergyModelView) -> Seq<u8> {
    spec_opt_scalar64_field(FIELD_MODEL_LEVEL, m.level) + spec_opt_scalar64_field(
        FIELD_MODEL_CAPACITY,
        m.capacity,
    ) + spec_opt_fixed32_field(FIELD_MODEL_AIR_DENSITY, m.air_density_bits)
        + spec_opt_fixed32_field(FIELD_MODEL_EXTERNAL_TEMP, m.external_temp_bits) + m.rest
}

#[verifier::spinoff_prover]
pub fn encode_model(m: &EnergyModel, buf: &mut Vec<u8>)
    ensures
        final(buf)@ == old(buf)@ + spec_encode_model(m@),
{
    let ghost s0 = buf@;
    match &m.level {
        Some(h) => {
            let mut body: Vec<u8> = Vec::new();
            encode_scalar64(h, &mut body);
            write_len_field(buf, FIELD_MODEL_LEVEL, body.as_slice());
        },
        None => (),
    }
    proof {
        assert(buf@ =~= s0 + spec_opt_scalar64_field(FIELD_MODEL_LEVEL, m@.level));
    }
    let ghost s1 = buf@;
    match &m.capacity {
        Some(h) => {
            let mut body: Vec<u8> = Vec::new();
            encode_scalar64(h, &mut body);
            write_len_field(buf, FIELD_MODEL_CAPACITY, body.as_slice());
        },
        None => (),
    }
    proof {
        assert(buf@ =~= s1 + spec_opt_scalar64_field(FIELD_MODEL_CAPACITY, m@.capacity));
    }
    let ghost s2 = buf@;
    match m.air_density_bits {
        Some(x) => write_fixed32_field(buf, FIELD_MODEL_AIR_DENSITY, x),
        None => (),
    }
    proof {
        assert(buf@ =~= s2 + spec_opt_fixed32_field(FIELD_MODEL_AIR_DENSITY, m@.air_density_bits));
    }
    let ghost s3 = buf@;
    match m.external_temp_bits {
        Some(x) => write_fixed32_field(buf, FIELD_MODEL_EXTERNAL_TEMP, x),
        None => (),
    }
    proof {
        assert(buf@ =~= s3 + spec_opt_fixed32_field(
            FIELD_MODEL_EXTERNAL_TEMP,
            m@.external_temp_bits,
        ));
    }
    buf.extend_from_slice(m.rest.as_slice());
    proof {
        assert(buf@ =~= s0 + spec_encode_model(m@));
    }
}

/// One entry of the batch's energy-model control list.
pub struct EnergyControl {
    pub model: Option<EnergyModel>,
    pub rest: Vec<u8>,
}

pub struct EnergyControlView {
    pub model: Option<EnergyModelView>,
    pub rest: Seq<u8>,
}

pub open spec fn opt_model_view(v: Option<EnergyModel>) -> Option<EnergyModelView> {
    match v {
        Some(x) => Some(x@),
        None => None,
    }
}

impl View for EnergyControl {
    type V = EnergyControlView;

    open spec fn view(&self) -> EnergyControlView {
        EnergyControlView { model: opt_model_view(self.model), rest: self.rest@ }
    }
}

pub open spec fn spec_empty_control() -> EnergyControlView {
    EnergyControlView { model: None, rest: Seq::empty() }
}

pub fn empty_control() -> (r: EnergyControl)
    ensures
        r@ == spec_empty_control(),
{
    let r = EnergyControl { model: None, rest: Vec::new() };
    proof {
        assert(r@.rest =~= spec_empty_control().rest);
    }
    r
}

pub open spec fn spec_parse_control_fields(s: Seq<u8>, i: int, m: EnergyControlView) -> Option<
    EnergyControlView,
>
    decreases s.len() - i,
{
    if i == s.len() {
        Some(m)
    } else if i < 0 || i > s.len() {
        None
    } else {
        match spec_read_varint(s, i) {
            None => None,
            Some((key, j)) => {
                let field = key / 8;
                let wire = key % 8;
                if field == FIELD_CONTROL_MODEL && wire == WIRE_LEN {
                    match spec_read_varint(s, j) {
                        None => None,
                        Some((n, j2)) => if j2 + n <= s.len() && i < j2 + n {
                            match spec_parse_model(s.subrange(j2, j2 + n as int)) {
                                None => None,
                                Some(model) => spec_parse_control_fields(
                                    s,
                                    j2 + n as int,
                                    EnergyControlView { model: Some(model), ..m },
                                ),
                            }
                        } else {
                            None
                        },
                    }
                } else {
                    match spec_skip_value(s, j, wire) {
                        None => None,
                        Some(j2) => if i < j2 <= s.len() {
                            spec_parse_control_fields(
                                s,
                                j2,
                                EnergyControlView { rest: m.rest + s.subrange(i, j2), ..m },
                            )
                        } else {
                            None
                        },
                    }
                }
            },
        }
    }
}

pub open spec fn spec_parse_control(s: Seq<u8>) -> Option<EnergyControlView> {
    spec_parse_control_fields(s, 0, spec_empty_control())
}

fn parse_control_fields(s: &[u8], pos: usize, m: EnergyControl) -> (r: Option<EnergyControl>)
    requires
        pos <= s@.len(),
    ensures
        match r {
            Some(v) => spec_parse_control_fields(s@, pos as int, m@) == Some(v@),
            None => spec_parse_control_fields(s@, pos as int, m@) is None,
        },
    decreases s@.len() - pos,
{
    if pos == s.len() {
        return Some(m);
    }
    match read_varint(s, pos) {
        None => None,
        Some((key, j)) => {
            proof {
                crate::proto::lemma_read_varint_advances(s@, pos as int);
            }
            let field = key / 8;
            let wire = key % 8;
            if field == FIELD_CONTROL_MODEL && wire == WIRE_LEN {
                match read_varint(s, j) {
                    None => None,
                    Some((n, j2)) => {
                        proof {
                            crate::proto::lemma_read_varint_advances(s@, j as int);
                        }
                        if n <= (s.len() - j2) as u64 {
                            let end = j2 + n as usize;
                            let body = slice_range_to_vec(s, j2, end);
                            match parse_model(body.as_slice()) {
                                None => None,
                                Some(model) => parse_control_fields(
                                    s,
                                    end,
                                    EnergyControl { model: Some(model), rest: m.rest },
                                ),
                            }
                        } else {
                            None
                        }
                    },
                }
            } else {
                match skip_value(s, j, wire) {
                    None => None,
                    Some(j2) => {
                        let mut rest = m.rest;
                        let mut extra = slice_range_to_vec(s, pos, j2);
                        rest.append(&mut extra);
                        parse_control_fields(s, j2, EnergyControl { model: m.model, rest })
                    },
                }
            }
        },
    }
}

/// Parses a control entry body, as `spec_parse_control` describes.
pub fn parse_control(s: &[u8]) -> (r: Option<EnergyControl>)
    ensures
        match r {
            Some(v) => spec_parse_control(s@) == Some(v@),
            None => spec_parse_control(s@) is None,
        },
{
    parse_control_fields(s, 0, empty_control())
}

pub open spec fn spec_encode_control(m: EnergyControlView) -> Seq<u8> {
    (match m.model {
        Some(model) => spec_len_field(FIELD_CONTROL_MODEL, spec_encode_model(model)),
        None => Seq::<u8>::empty(),
    }) + m.rest
}

pub fn encode_control(m: &EnergyControl, buf: &mut Vec<u8>)
    ensures
        final(buf)@ == old(buf)@ + spec_encode_control(m@),
{
    match &m.model {
        Some(model) => {
            let mut body: Vec<u8> = Vec::new();
            encode_model(model, &mut body);
            write_len_field(buf, FIELD_CONTROL_MODEL, body.as_slice());
        },
        None => (),
    }
    buf.extend_from_slice(m.rest.as_slice());
    proof {
        assert(final(buf)@ =~= old(buf)@ + spec_encode_control(m@));
    }
}

/// A sensor batch seen through its energy-model control entries; everything
/// else, the driving-status entries included, rides along in `rest`.
pub struct EvBatch {
    pub control: Vec<EnergyControl>,
    pub rest: Vec<u8>,
}

pub struct EvBatchView {
    pub control: Seq<EnergyControlView>,
    pub rest: Seq<u8>,
}

pub open spec fn controls_view(v: Seq<EnergyControl>) -> Seq<EnergyControlView> {
    v.map_values(|x: EnergyControl| x@)
}

impl View for EvBatch {
    type V = EvBatchView;

    open spec fn view(&self) -> EvBatchView {
        EvBatchView { control: controls_view(self.control@), rest: self.rest@ }
    }
}

pub open spec fn spec_empty_batch() -> EvBatchView {
    EvBatchView { control: Seq::empty(), rest: Seq::empty() }
}

pub fn empty_batch() -> (r: EvBatch)
    ensures
        r@ == spec_empty_batch(),
{
    let r = EvBatch { control: Vec::new(), rest: Vec::new() };
    proof {
        assert(r@.control =~= spec_empty_batch().control);
        assert(r@.rest =~= spec_empty_batch().rest);
    }
    r
}

pub open spec fn spec_parse_batch_fields(s: Seq<u8>, i: int, m: EvBatchView) -> Option<EvBatchView>
    decreases s.len() - i,
{
    if i == s.len() {
        Some(m)
    } else if i < 0 || i > s.len() {
        None
    } else {
        match spec_read_varint(s, i) {
            None => None,
            Some((key, j)) => {
                let field = key / 8;
                let wire = key % 8;
                if field == FIELD_BATCH_ENERGY_CONTROL && wire == WIRE_LEN {
                    match spec_read_varint(s, j) {
                        None => None,
                        Some((n, j2)) => if j2 + n <= s.len() && i < j2 + n {
                            match spec_parse_control(s.subrange(j2, j2 + n as int)) {
                                None => None,
                                Some(c) => spec_parse_batch_fields(
                                    s,
                                    j2 + n as int,
                                    EvBatchView { control: m.control.push(c), ..m },
                                ),
                            }
                        } else {
                            None
                        },
                    }
                } else {
                    match spec_skip_value(s, j, wire) {
                        None => None,
                        Some(j2) => if i < j2 <= s.len() {
                            spec_parse_batch_fields(
                                s,
                                j2,
                                EvBatchView { rest: m.rest + s.subrange(i, j2), ..m },
                            )
                        } else {
                            None
                        },
                    }
                }
            },
        }
    }
}

pub open spec fn spec_parse_batch(s: Seq<u8>) -> Option<EvBatchView> {
    spec_parse_batch_fields(s, 0, spec_empty_batch())
}

fn parse_batch_fields(s: &[u8], pos: usize, m: EvBatch) -> (r: Option<EvBatch>)
    requires
        pos <= s@.len(),
    ensures
        match r {
            Some(v) => spec_parse_batch_fields(s@, pos as int, m@) == Some(v@),
            None => spec_parse_batch_fields(s@, pos as int, m@) is None,
        },
    decreases s@.len() - pos,
{
    if pos == s.len() {
        return Some(m);
    }
    match read_varint(s, pos) {
        None => None,
        Some((key, j)) => {
            proof {
                crate::proto::lemma_read_varint_advances(s@, pos as int);
            }
            let field = key / 8;
            let wire = key % 8;
            if field == FIELD_BATCH_ENERGY_CONTROL && wire == WIRE_LEN {
                match read_varint(s, j) {
                    None => None,
                    Some((n, j2)) => {
                        proof {
                            crate::proto::lemma_read_varint_advances(s@, j as int);
                        }
                        if n <= (s.len() - j2) as u64 {
                            let end = j2 + n as usize;
                            let body = slice_range_to_vec(s, j2, end);
                            match parse_control(body.as_slice()) {
                                None => None,
                                Some(c) => {
                                    let mut control = m.control;
                                    control.push(c);
                                    let m2 = EvBatch { control, rest: m.rest };
                                    proof {
                                        assert(m2@.control =~= m@.control.push(
                                            spec_parse_control(s@.subrange(j2 as int, j2 + n as int))->Some_0,
                                        ));
                                    }
                                    parse_batch_fields(s, end, m2)
                                },
                            }
                        } else {
                            None
                        }
                    },
                }
            } else {
                match skip_value(s, j, wire) {
                    None => None,
                    Some(j2) => {
                        let mut rest = m.rest;
                        let mut extra = slice_range_to_vec(s, pos, j2);
                        rest.append(&mut extra);
                        parse_batch_fields(s, j2, EvBatch { control: m.control, rest })
                    },
                }
            }
        },
    }
}

/// Parses an energy batch body, as `spec_parse_batch` describes.
pub fn parse_batch(s: &[u8]) -> (r: Option<EvBatch>)
    ensures
        match r {
            Some(v) => spec_parse_batch(s@) == Some(v@),
            None => spec_parse_batch(s@) is None,
        },
{
    parse_batch_fields(s, 0, empty_batch())
}

pub open spec fn spec_encode_control_list(cs: Seq<EnergyControlView>) -> Seq<u8>
    decreases cs.len(),
{
    if cs.len() == 0 {
        Seq::empty()
    } else {
        spec_len_field(FIELD_BATCH_ENERGY_CONTROL, spec_encode_control(cs[0]))
            + spec_encode_control_list(cs.skip(1))
    }
}

fn encode_control_list(items: &Vec<EnergyControl>, buf: &mut Vec<u8>)
    ensures
        final(buf)@ == old(buf)@ + spec_encode_control_list(controls_view(items@)),
{
    let ghost vs = controls_view(items@);
    let ghost start = buf@;
    proof {
        assert(vs.skip(0) =~= vs);
    }
    let mut k: usize = 0;
    while k < items.len()
        invariant
            k <= items@.len(),
            vs == controls_view(items@),
            buf@ + spec_encode_control_list(vs.skip(k as int)) == start + spec_encode_control_list(
                vs,
            ),
        decreases items@.len() - k,
    {
        proof {
            assert(vs.skip(k as int)[0] == vs[k as int]);
            assert(vs.skip(k as int).skip(1) =~= vs.skip(k as int + 1));
        }
        let mut body: Vec<u8> = Vec::new();
        encode_control(&items[k], &mut body);
        write_len_field(buf, FIELD_BATCH_ENERGY_CONTROL, body.as_slice());
        k = k + 1;
    }
    proof {
        assert(vs.skip(k as int) =~= Seq::<EnergyControlView>::empty());
    }
}

pub open spec fn spec_encode_batch(m: EvBatchView) -> Seq<u8> {
    spec_encode_control_list(m.control) + m.rest
}

/// Encodes an energy batch body.
pub fn encode_batch(m: &EvBatch) -> (r: Vec<u8>)
    ensures
        r@ == spec_encode_batch(m@),
{
    let mut buf: Vec<u8> = Vec::new();
    encode_control_list(&m.control, &mut buf);
    buf.extend_from_slice(m.rest.as_slice());
    proof {
        assert(buf@ =~= spec_encode_batch(m@));
    }
    buf
}

/// Live battery readings to inject: integer percentages and watt-hours, and
/// the raw bit patterns of the two floating-point readings.
#[derive(Clone, Copy, PartialEq, Eq, Structural, Debug)]
pub struct BatteryData {
    pub battery_level_percentage: Option<u32>,
    pub battery_level_wh: Option<u64>,
    pub battery_capacity_wh: Option<u64>,
    pub reference_air_density_bits: Option<u32>,
    pub external_temp_celsius_bits: Option<u32>,
}

/// A percentage of `max`, rounded to the nearest watt-hour.
pub open spec fn spec_scale_percent(percent: u32, max: u64) -> u64 {
    ((percent * max + 50) / 100) as u64
}

/// Computes a percentage of `max`, as `spec_scale_percent` describes.
pub fn scale_percent_to_value(percent: u32, max: u64) -> (r: u64)
    requires
        percent <= 100,
    ensures
        r == spec_scale_percent(percent, max),
{
    proof {
        assert(percent * max + 50 <= 100 * max + 50) by (nonlinear_arith)
            requires
                percent <= 100,
        ;
        assert((percent as int * max as int + 50) / 100 <= max as int + 1) by (nonlinear_arith)
            requires
                percent <= 100,
        ;
    }
    ((percent as u128 * max as u128 + 50) / 100) as u64
}

/// The capacity value readable from a model: the capacity holder's value, or
/// zero where the path is missing.
pub open spec fn spec_capacity_of(model: EnergyModelView) -> u64 {
    match model.capacity {
        Some(h) => match h.value {
            Some(v) => v,
            None => 0,
        },
        None => 0,
    }
}

/// The model after the readings are applied: the capacity first, then the
/// level in watt-hours, then the level as a percentage of the (possibly just
/// written) capacity, then the two bit patterns.  A reading whose holder is
/// missing from the template is left out rather than invented.
pub open spec fn spec_apply_to_model(model: EnergyModelView, b: BatteryData) -> EnergyModelView {
    let m1 = match (b.battery_capacity_wh, model.capacity) {
        (Some(cap), Some(h)) => EnergyModelView {
            capacity: Some(Scalar64MsgView { value: Some(cap), ..h }),
            ..model
        },
        _ => model,
    };
    let m2 = match (b.battery_level_wh, m1.level) {
        (Some(l), Some(h)) => EnergyModelView {
            level: Some(Scalar64MsgView { value: Some(l), ..h }),
            ..m1
        },
        _ => m1,
    };
    let m3 = match (b.battery_level_percentage, m2.level) {
        (Some(p), Some(h)) => EnergyModelView {
            level: Some(
                Scalar64MsgView {
                    value: Some(spec_scale_percent(p, spec_capacity_of(m2))),
                    ..h
                },
            ),
            ..m2
        },
        _ => m2,
    };
    let m4 = match b.reference_air_density_bits {
        Some(bits) => EnergyModelView { air_density_bits: Some(bits), ..m3 },
        None => m3,
    };
    match b.external_temp_celsius_bits {
        Some(bits) => EnergyModelView { external_temp_bits: Some(bits), ..m4 },
        None => m4,
    }
}

/// The batch after the readings are applied to the model of its first
/// control entry; a batch without one is unchanged.
pub open spec fn spec_apply_battery(batch: EvBatchView, b: BatteryData) -> EvBatchView {
    if batch.control.len() > 0 && batch.control[0].model is Some {
        EvBatchView {
            control: batch.control.update(
                0,
                EnergyControlView {
                    model: Some(spec_apply_to_model(batch.control[0].model->Some_0, b)),
                    ..batch.control[0]
                },
            ),
            ..batch
        }
    } else {
        batch
    }
}

/// Applies the readings to the batch in place, as `spec_apply_battery`
/// describes.
#[verifier::spinoff_prover]
pub fn apply_battery(batch: &mut EvBatch, b: &BatteryData)
    requires
        match b.battery_level_percentage {
            Some(p) => p <= 100,
            None => true,
        },
    ensures
        final(batch)@ == spec_apply_battery(old(batch)@, *b),
{
    if batch.control.len() == 0 {
        return;
    }
    let has_model = batch.control[0].model.is_some();
    if !has_model {
        return;
    }
    let ghost pre = controls_view(batch.control@);
    let mut c0 = batch.control.remove(0);
    match &mut c0.model {
        Some(model) => {
            let ghost model0 = model@;
            match b.battery_capacity_wh {
                Some(cap) => {
                    match &mut model.capacity {
                        Some(h) => {
                            h.value = Some(cap);
                        },
                        None => (),
                    }
                },
                None => (),
            }
            proof {
                assert(model@ == {
                    let mv = model0;
                    match (b.battery_capacity_wh, mv.capacity) {
                        (Some(cap), Some(h)) => EnergyModelView {
                            capacity: Some(Scalar64MsgView { value: Some(cap), ..h }),
                            ..mv
                        },
                        _ => mv,
                    }
                });
            }
            let ghost model1 = model@;
            match b.battery_level_wh {
                Some(l) => {
                    match &mut model.level {
                        Some(h) => {
                            h.value = Some(l);
                        },
                        None => (),
                    }
                },
                None => (),
            }
            proof {
                assert(model@ == {
                    let mv = model1;
                    match (b.battery_level_wh, mv.level) {
                        (Some(l), Some(h)) => EnergyModelView {
                            level: Some(Scalar64MsgView { value: Some(l), ..h }),
                            ..mv
                        },
                        _ => mv,
                    }
                });
            }
            let ghost model2 = model@;
            match b.battery_level_percentage {
                Some(p) => {
                    let max = match &model.capacity {
                        Some(h) => match h.value {
                            Some(v) => v,
                            None => 0,
                        },
                        None => 0,
                    };
                    match &mut model.level {
                        Some(h) => {
                            h.value = Some(scale_percent_to_value(p, max));
                        },
                        None => (),
                    }
                },
                None => (),
            }
            proof {
                assert(model@ == {
                    let mv = model2;
                    match (b.battery_level_percentage, mv.level) {
                        (Some(p), Some(h)) => EnergyModelView {
                            level: Some(
                                Scalar64MsgView {
                                    value: Some(spec_scale_percent(p, spec_capacity_of(mv))),
                                    ..h
                                },
                            ),
                            ..mv
                        },
                        _ => mv,
                    }
                });
            }
            match b.reference_air_density_bits {
                Some(bits) => {
                    model.air_density_bits = Some(bits);
                },
                None => (),
            }
            match b.external_temp_celsius_bits {
                Some(bits) => {
                    model.external_temp_bits = Some(bits);
                },
                None => (),
            }
            proof {
                assert(model@ == spec_apply_to_model(model0, *b));
            }
        },
        None => {
            proof {
                assert(false);
            }
        },
    }
    batch.control.insert(0, c0);
    proof {
        assert(controls_view(batch.control@) =~= pre.update(
            0,
            EnergyControlView {
                model: Some(spec_apply_to_model(pre[0].model->Some_0, *b)),
                ..pre[0]
            },
        ));
    }
}

/// Builds the sensor-batch packet that injects the readings: the energy
/// model template, patched, framed under the batch message id on the sensor
/// channel.  `None` when the template does not parse or the patched body
/// would not fit a frame.
pub fn build_battery_packet(model_bytes: &[u8], sensor_channel: u8, b: &BatteryData) -> (r: Option<
    Packet,
>)
    requires
        match b.battery_level_percentage {
            Some(p) => p <= 100,
            None => true,
        },
    ensures
        match r {
            Some(pkt) => {
                &&& spec_parse_batch(model_bytes@) is Some
                &&& pkt@ == (PacketView {
                    channel: sensor_channel,
                    flags: SYNTH_FLAGS,
                    final_length: None,
                    payload: crate::mitm::spec_payload_with_id(
                        SENSOR_MESSAGE_BATCH,
                        spec_encode_batch(
                            spec_apply_battery(spec_parse_batch(model_bytes@)->Some_0, *b),
                        ),
                    ),
                })
                &&& pkt@.payload.len() <= crate::frame::MAX_PAYLOAD
            },
            None => spec_parse_batch(model_bytes@) is None || 2 + spec_encode_batch(
                spec_apply_battery(spec_parse_batch(model_bytes@)->Some_0, *b),
            ).len() > crate::frame::MAX_PAYLOAD,
        },
{
    match parse_batch(model_bytes) {
        None => None,
        Some(batch) => {
            let mut batch = batch;
            apply_battery(&mut batch, b);
            let body = encode_batch(&batch);
            if body.len() <= crate::frame::MAX_PAYLOAD - 2 {
                let payload = crate::frame::payload_with_id(SENSOR_MESSAGE_BATCH, body.as_slice());
                proof {
                    assert(payload@ =~= crate::mitm::spec_payload_with_id(
                        SENSOR_MESSAGE_BATCH,
                        body@,
                    ));
                }
                Some(
                    Packet {
                        channel: sensor_channel,
                        flags: SYNTH_FLAGS,
                        final_length: None,
                        payload,
                    },
                )
            } else {
                None
            }
        },
    }
}

} // verus!
