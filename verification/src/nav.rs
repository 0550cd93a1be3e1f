//! The navigation-state message carried on the navigation channel, as far as
//! the proxy reads it: a list of steps, each with a maneuver whose type code
//! the left-hand-traffic workaround may flip.  Unmodelled fields ride along
//! in `rest` at every level.

use vstd::prelude::*;

use crate::proto::{
    read_varint, skip_value, slice_range_to_vec, spec_len_field, spec_read_varint, spec_skip_value,
    write_len_field, WIRE_LEN,
};
use crate::sensors::{
    encode_scalar, parse_scalar, spec_encode_scalar, spec_parse_scalar, ScalarMsg, ScalarMsgView,
};

verus! {

pub const FIELD_NAV_STEPS: u64 = 1;

pub const FIELD_STEP_MANEUVER: u64 = 1;

/// One step of a navigation state; the maneuver is a scalar message whose
/// value is the maneuver type code.
pub struct NavStep {
    pub maneuver: Option<ScalarMsg>,
    pub rest: Vec<u8>,
}

pub struct NavStepView {
    pub maneuver: Option<ScalarMsgView>,
    pub rest: Seq<u8>,
}

pub open spec fn opt_scalar_view(v: Option<ScalarMsg>) -> Option<ScalarMsgView> {
    match v {
        Some(x) => Some(x@),
        None => None,
    }
}

impl View for NavStep {
    type V = NavStepView;

    open spec fn view(&self) -> NavStepView {
        NavStepView { maneuver: opt_scalar_view(self.maneuver), rest: self.rest@ }
    }
}

pub open spec fn spec_empty_step() -> NavStepView {
    NavStepView { maneuver: None, rest: Seq::empty() }
}

pub fn empty_step() -> (r: NavStep)
    ensures
        r@ == spec_empty_step(),
{
    let r = NavStep { maneuver: None, rest: Vec::new() };
    proof {
        assert(r@.rest =~= spec_empty_step().rest);
    }
    r
}

/// Parses the fields of a step body from `i` on.
pub open spec fn spec_parse_step_fields(s: Seq<u8>, i: int, m: NavStepView) -> Option<NavStepView>
    decreases s.len() - i,
{
    if i == s.len() {
        Some(m)
    } else if i < 0 || i > s.len() {
        None
    } else {
        match spec_read_varint(s, i) {
            None => None,
            Some((key, j)) => {
                let field = key / 8;
                let wire = key % 8;
                if field == FIELD_STEP_MANEUVER && wire == WIRE_LEN {
                    match spec_read_varint(s, j) {
                        None => None,
                        Some((n, j2)) => if j2 + n <= s.len() && i < j2 + n {
                            match spec_parse_scalar(s.subrange(j2, j2 + n as int)) {
                                None => None,
                                Some(mv) => spec_parse_step_fields(
                                    s,
                                    j2 + n as int,
                                    NavStepView { maneuver: Some(mv), ..m },
                                ),
                            }
                        } else {
                            None
                        },
                    }
                } else {
                    match spec_skip_value(s, j, wire) {
                        None => None,
                        Some(j2) => if i < j2 <= s.len() {
                            spec_parse_step_fields(
                                s,
                                j2,
                                NavStepView { rest: m.rest + s.subrange(i, j2), ..m },
                            )
                        } else {
                            None
                        },
                    }
                }
            },
        }
    }
}

pub open spec fn spec_parse_step(s: Seq<u8>) -> Option<NavStepView> {
    spec_parse_step_fields(s, 0, spec_empty_step())
}

fn parse_step_fields(s: &[u8], pos: usize, m: NavStep) -> (r: Option<NavStep>)
    requires
        pos <= s@.len(),
    ensures
        match r {
            Some(v) => spec_parse_step_fields(s@, pos as int, m@) == Some(v@),
            None => spec_parse_step_fields(s@, pos as int, m@) is None,
        },
    decreases s@.len() - pos,
{
    if pos == s.len() {
        return Some(m);
    }
    match read_varint(s, pos) {
        None => None,
        Some((key, j)) => {
            proof {
                crate::proto::lemma_read_varint_advances(s@, pos as int);
            }
            let field = key / 8;
            let wire = key % 8;
            if field == FIELD_STEP_MANEUVER && wire == WIRE_LEN {
                match read_varint(s, j) {
                    None => None,
                    Some((n, j2)) => {
                        proof {
                            crate::proto::lemma_read_varint_advances(s@, j as int);
                        }
                        if n <= (s.len() - j2) as u64 {
                            let end = j2 + n as usize;
                            let body = slice_range_to_vec(s, j2, end);
                            match parse_scalar(body.as_slice()) {
                                None => None,
                                Some(mv) => parse_step_fields(
                                    s,
                                    end,
                                    NavStep { maneuver: Some(mv), rest: m.rest },
                                ),
                            }
                        } else {
                            None
                        }
                    },
                }
            } else {
                match skip_value(s, j, wire) {
                    None => None,
                    Some(j2) => {
                        let mut rest = m.rest;
                        let mut extra = slice_range_to_vec(s, pos, j2);
                        rest.append(&mut extra);
                        parse_step_fields(s, j2, NavStep { maneuver: m.maneuver, rest })
                    },
                }
            }
        },
    }
}

/// Parses a step body, as `spec_parse_step` describes.
pub fn parse_step(s: &[u8]) -> (r: Option<NavStep>)
    ensures
        match r {
            Some(v) => spec_parse_step(s@) == Some(v@),
            None => spec_parse_step(s@) is None,
        },
{
    parse_step_fields(s, 0, empty_step())
}

pub open spec fn spec_encode_step(m: NavStepView) -> Seq<u8> {
    (match m.maneuver {
        Some(mv) => spec_len_field(FIELD_STEP_MANEUVER, spec_encode_scalar(mv)),
        None => Seq::<u8>::empty(),
    }) + m.rest
}

pub fn encode_step(m: &NavStep, buf: &mut Vec<u8>)
    ensures
        final(buf)@ == old(buf)@ + spec_encode_step(m@),
{
    match &m.maneuver {
        Some(mv) => {
            let mut body: Vec<u8> = Vec::new();
            encode_scalar(mv, &mut body);
            write_len_field(buf, FIELD_STEP_MANEUVER, body.as_slice());
        },
        None => (),
    }
    buf.extend_from_slice(m.rest.as_slice());
    proof {
        assert(final(buf)@ =~= old(buf)@ + spec_encode_step(m@));
    }
}

/// The navigation state: its steps, and everything else in `rest`.
pub struct NavState {
    pub steps: Vec<NavStep>,
    pub rest: Vec<u8>,
}

pub struct NavStateView {
    pub steps: Seq<NavStepView>,
    pub rest: Seq<u8>,
}

pub open spec fn steps_view(v: Seq<NavStep>) -> Seq<NavStepView> {
    v.map_values(|x: NavStep| x@)
}

impl View for NavState {
    type V = NavStateView;

    open spec fn view(&self) -> NavStateView {
        NavStateView { steps: steps_view(self.steps@), rest: self.rest@ }
    }
}

pub open spec fn spec_empty_nav() -> NavStateView {
    NavStateView { steps: Seq::empty(), rest: Seq::empty() }
}

pub fn empty_nav() -> (r: NavState)
    ensures
        r@ == spec_empty_nav(),
{
    let r = NavState { steps: Vec::new(), rest: Vec::new() };
    proof {
        assert(r@.steps =~= spec_empty_nav().steps);
        assert(r@.rest =~= spec_empty_nav().rest);
    }
    r
}

/// Parses the fields of a navigation-state body from `i` on.
pub open spec fn spec_parse_nav_fields(s: Seq<u8>, i: int, m: NavStateView) -> Option<NavStateView>
    decreases s.len() - i,
{
    if i == s.len() {
        Some(m)
    } else if i < 0 || i > s.len() {
        None
    } else {
        match spec_read_varint(s, i) {
            None => None,
            Some((key, j)) => {
                let field = key / 8;
                let wire = key % 8;
                if field == FIELD_NAV_STEPS && wire == WIRE_LEN {
                    match spec_read_varint(s, j) {
                        None => None,
                        Some((n, j2)) => if j2 + n <= s.len() && i < j2 + n {
                            match spec_parse_step(s.subrange(j2, j2 + n as int)) {
                                None => None,
                                Some(step) => spec_parse_nav_fields(
                                    s,
                                    j2 + n as int,
                                    NavStateView { steps: m.steps.push(step), ..m },
                                ),
                            }
                        } else {
                            None
                        },
                    }
                } else {
                    match spec_skip_value(s, j, wire) {
                        None => None,
                        Some(j2) => if i < j2 <= s.len() {
                            spec_parse_nav_fields(
                                s,
                                j2,
                                NavStateView { rest: m.rest + s.subrange(i, j2), ..m },
                            )
                        } else {
                            None
                        },
                    }
                }
            },
        }
    }
}

pub open spec fn spec_parse_nav(s: Seq<u8>) -> Option<NavStateView> {
    spec_parse_nav_fields(s, 0, spec_empty_nav())
}

fn parse_nav_fields(s: &[u8], pos: usize, m: NavState) -> (r: Option<NavState>)
    requires
        pos <= s@.len(),
    ensures
        match r {
            Some(v) => spec_parse_nav_fields(s@, pos as int, m@) == Some(v@),
            None => spec_parse_nav_fields(s@, pos as int, m@) is None,
        },
    decreases s@.len() - pos,
{
    if pos == s.len() {
        return Some(m);
    }
    match read_varint(s, pos) {
        None => None,
        Some((key, j)) => {
            proof {
                crate::proto::lemma_read_varint_advances(s@, pos as int);
            }
            let field = key / 8;
            let wire = key % 8;
            if field == FIELD_NAV_STEPS && wire == WIRE_LEN {
                match read_varint(s, j) {
                    None => None,
                    Some((n, j2)) => {
                        proof {
                            crate::proto::lemma_read_varint_advances(s@, j as int);
                        }
                        if n <= (s.len() - j2) as u64 {
                            let end = j2 + n as usize;
                            let body = slice_range_to_vec(s, j2, end);
                            match parse_step(body.as_slice()) {
                                None => None,
                                Some(step) => {
                                    let mut steps = m.steps;
                                    steps.push(step);
                                    let m2 = NavState { steps, rest: m.rest };
                                    proof {
                                        assert(m2@.steps =~= m@.steps.push(
                                            spec_parse_step(s@.subrange(j2 as int, j2 + n as int))->Some_0,
                                        ));
                                    }
                                    parse_nav_fields(s, end, m2)
                                },
                            }
                        } else {
                            None
                        }
                    },
                }
            } else {
                match skip_value(s, j, wire) {
                    None => None,
                    Some(j2) => {
                        let mut rest = m.rest;
                        let mut extra = slice_range_to_vec(s, pos, j2);
                        rest.append(&mut extra);
                        parse_nav_fields(s, j2, NavState { steps: m.steps, rest })
                    },
                }
            }
        },
    }
}

/// Parses a navigation-state body, as `spec_parse_nav` describes.
pub fn parse_nav(s: &[u8]) -> (r: Option<NavState>)
    ensures
        match r {
            Some(v) => spec_parse_nav(s@) == Some(v@),
            None => spec_parse_nav(s@) is None,
        },
{
    parse_nav_fields(s, 0, empty_nav())
}

pub open spec fn spec_encode_step_list(ss: Seq<NavStepView>) -> Seq<u8>
    decreases ss.len(),
{
    if ss.len() == 0 {
        Seq::empty()
    } else {
        spec_len_field(FIELD_NAV_STEPS, spec_encode_step(ss[0])) + spec_encode_step_list(
            ss.skip(1),
        )
    }
}

fn encode_step_list(items: &Vec<NavStep>, buf: &mut Vec<u8>)
    ensures
        final(buf)@ == old(buf)@ + spec_encode_step_list(steps_view(items@)),
{
    let ghost vs = steps_view(items@);
    let ghost start = buf@;
    proof {
        assert(vs.skip(0) =~= vs);
    }
    let mut k: usize = 0;
    while k < items.len()
        invariant
            k <= items@.len(),
            vs == steps_view(items@),
            buf@ + spec_encode_step_list(vs.skip(k as int)) == start + spec_encode_step_list(vs),
        decreases items@.len() - k,
    {
        proof {
            assert(vs.skip(k as int)[0] == vs[k as int]);
            assert(vs.skip(k as int).skip(1) =~= vs.skip(k as int + 1));
        }
        let mut body: Vec<u8> = Vec::new();
        encode_step(&items[k], &mut body);
        write_len_field(buf, FIELD_NAV_STEPS, body.as_slice());
        k = k + 1;
    }
    proof {
        assert(vs.skip(k as int) =~= Seq::<NavStepView>::empty());
    }
}

pub open spec fn spec_encode_nav(m: NavStateView) -> Seq<u8> {
    spec_encode_step_list(m.steps) + m.rest
}

/// Encodes a navigation-state body.
pub fn encode_nav(m: &NavState) -> (r: Vec<u8>)
    ensures
        r@ == spec_encode_nav(m@),
{
    let mut buf: Vec<u8> = Vec::new();
    encode_step_list(&m.steps, &mut buf);
    buf.extend_from_slice(m.rest.as_slice());
    proof {
        assert(buf@ =~= spec_encode_nav(m@));
    }
    buf
}

} // verus!
