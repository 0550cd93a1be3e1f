//! Packet-level processing between the two endpoints: TLS-handshake
//! encapsulation on the control channel, and the modify hook that inspects
//! every decrypted packet — synthesizing sensor responses, forcing the
//! driving status, flipping the navigation maneuver, and rewriting the
//! service discovery response.

use vstd::prelude::*;

use crate::config::AppConfig;
use crate::frame::{
    Packet, PacketView, spec_message_id, FRAME_ENCRYPTED, FRAME_TYPE_FIRST, FRAME_TYPE_LAST,
    MAX_PAYLOAD,
};
use crate::ids::{
    BYEBYE_REASON_USER_SELECTION, MANEUVER_U_TURN_LEFT, MANEUVER_U_TURN_RIGHT,
    MESSAGE_BYEBYE_REQUEST, MESSAGE_ENCAPSULATED_SSL, MESSAGE_SERVICE_DISCOVERY_RESPONSE,
    SENSOR_MESSAGE_BATCH, SENSOR_MESSAGE_REQUEST, SENSOR_MESSAGE_RESPONSE,
    SENSOR_VEHICLE_ENERGY_MODEL_DATA, STATUS_SUCCESS,
};
use crate::nav::{encode_nav, parse_nav, spec_encode_nav, spec_parse_nav, NavStepView};
use crate::proto::slice_range_to_vec;
use crate::rewriter::{rewrite_sdr, spec_rewrite_sdr};
use crate::sdr::{encode_sdr, parse_sdr, spec_encode_sdr, spec_parse_sdr};
use crate::sensors::{
    encode_list, encode_scalar_msg, parse_list, parse_scalar, spec_encode_list,
    spec_encode_scalar, spec_parse_list, spec_parse_scalar, ScalarMsg, ScalarMsgView,
};

verus! {

/// Which endpoint a processor serves.
#[derive(Clone, Copy, PartialEq, Eq, Structural, Debug)]
pub enum ProxyType {
    HeadUnit,
    MobileDevice,
}

/// The channels the rewriter has learned from service discovery.
#[derive(Clone, Copy, PartialEq, Eq, Structural, Debug)]
pub struct ModifyContext {
    pub sensor_channel: Option<u8>,
    pub nav_channel: Option<u8>,
}

impl ModifyContext {
    /// A fresh context: no channel learned yet.
    pub fn new() -> (r: ModifyContext)
        ensures
            r == (ModifyContext { sensor_channel: None, nav_channel: None }),
    {
        ModifyContext { sensor_channel: None, nav_channel: None }
    }
}

/// What a modify-hook call asks of its caller, beyond the packet itself.
#[derive(Clone, Copy, PartialEq, Eq, Structural, Debug)]
pub struct HookOutcome {
    /// The packet was consumed and replaced by a reply to send back on the
    /// side it came from.
    pub handled: bool,
    /// The EV battery logger should be started now.
    pub start_ev_logger: bool,
    /// Auto-reconnect should stop until the user asks again.
    pub request_stop: bool,
}

/// Everything a modify-hook call produces.
pub struct HookSpec {
    pub pkt: PacketView,
    pub ctx: ModifyContext,
    pub handled: bool,
    pub start_ev_logger: bool,
    pub request_stop: bool,
}

/// A call that passes the packet through untouched.
pub open spec fn spec_hook_pass(pkt: PacketView, ctx: ModifyContext) -> HookSpec {
    HookSpec { pkt, ctx, handled: false, start_ev_logger: false, request_stop: false }
}

/// The flags of a packet the proxy synthesizes during an encrypted session.
pub const SYNTH_FLAGS: u8 = FRAME_ENCRYPTED | FRAME_TYPE_FIRST | FRAME_TYPE_LAST;

/// The payload of the sensor response the proxy synthesizes: the response
/// message id, then a body whose status field reports success.
pub open spec fn spec_sensor_reply_payload() -> Seq<u8> {
    seq![
        (SENSOR_MESSAGE_RESPONSE / 0x100) as u8,
        (SENSOR_MESSAGE_RESPONSE % 0x100) as u8,
    ] + spec_encode_scalar(ScalarMsgView { value: Some(STATUS_SUCCESS), rest: Seq::empty() })
}

/// The packet the proxy sends back when the head unit asks for the energy
/// model sensor.
pub open spec fn spec_sensor_reply(channel: u8) -> PacketView {
    PacketView {
        channel,
        flags: SYNTH_FLAGS,
        final_length: None,
        payload: spec_sensor_reply_payload(),
    }
}

/// A payload carrying `id` and then `body`.
pub open spec fn spec_payload_with_id(id: u16, body: Seq<u8>) -> Seq<u8> {
    seq![(id / 0x100) as u8, (id % 0x100) as u8] + body
}

/// What the modify hook does with one decrypted packet, exactly: the packet
/// afterwards, the context afterwards, and the outcome flags.  Mirrors the
/// dispatch the proxy performs: the sensor channel first, then the
/// navigation channel, then the control channel.
pub open spec fn spec_modify_hook(
    pt: ProxyType,
    pkt: PacketView,
    ctx: ModifyContext,
    cfg: AppConfig,
) -> HookSpec {
    if pkt.payload.len() < 2 {
        spec_hook_pass(pkt, ctx)
    } else {
        let id = spec_message_id(pkt.payload)->Some_0;
        let data = pkt.payload.skip(2);
        if ctx.sensor_channel == Some(pkt.channel) {
            if id == SENSOR_MESSAGE_REQUEST {
                match spec_parse_scalar(data) {
                    Some(req) => if req.value == Some(SENSOR_VEHICLE_ENERGY_MODEL_DATA) {
                        HookSpec {
                            pkt: spec_sensor_reply(pkt.channel),
                            ctx,
                            handled: true,
                            start_ev_logger: cfg.ev_battery_logger is Some,
                            request_stop: false,
                        }
                    } else {
                        spec_hook_pass(pkt, ctx)
                    },
                    None => spec_hook_pass(pkt, ctx),
                }
            } else if id == SENSOR_MESSAGE_BATCH && cfg.video_in_motion {
                match spec_parse_list(data) {
                    Some(batch) => if batch.items.len() > 0 {
                        let fixed = crate::sensors::ListMsgView {
                            items: batch.items.update(
                                0,
                                ScalarMsgView { value: Some(0), ..batch.items[0] },
                            ),
                            ..batch
                        };
                        let body = spec_encode_list(fixed);
                        if 2 + body.len() <= MAX_PAYLOAD {
                            spec_hook_pass(
                                PacketView { payload: spec_payload_with_id(id, body), ..pkt },
                                ctx,
                            )
                        } else {
                            spec_hook_pass(pkt, ctx)
                        }
                    } else {
                        spec_hook_pass(pkt, ctx)
                    },
                    None => spec_hook_pass(pkt, ctx),
                }
            } else {
                spec_hook_pass(pkt, ctx)
            }
        } else if ctx.nav_channel == Some(pkt.channel) && pt == ProxyType::HeadUnit
            && pkt.payload.len() > 2 && pkt.payload[0] == 0x80 && pkt.payload[1] == 0x06
            && pkt.payload[2] == 0x0A {
            match spec_parse_nav(data) {
                Some(nav) => if nav.steps.len() > 0 && match nav.steps[0].maneuver {
                    Some(mv) => mv.value == Some(MANEUVER_U_TURN_LEFT),
                    None => false,
                } {
                    let step0 = nav.steps[0];
                    let fixed = crate::nav::NavStateView {
                        steps: nav.steps.update(
                            0,
                            NavStepView {
                                maneuver: Some(
                                    ScalarMsgView {
                                        value: Some(MANEUVER_U_TURN_RIGHT),
                                        ..step0.maneuver->Some_0
                                    },
                                ),
                                ..step0
                            },
                        ),
                        ..nav
                    };
                    let body = spec_encode_nav(fixed);
                    if 2 + body.len() <= MAX_PAYLOAD {
                        spec_hook_pass(
                            PacketView { payload: spec_payload_with_id(id, body), ..pkt },
                            ctx,
                        )
                    } else {
                        spec_hook_pass(pkt, ctx)
                    }
                } else {
                    spec_hook_pass(pkt, ctx)
                },
                None => spec_hook_pass(pkt, ctx),
            }
        } else if pkt.channel == 0 {
            if id == MESSAGE_BYEBYE_REQUEST && cfg.stop_on_disconnect && pt
                == ProxyType::MobileDevice {
                match spec_parse_scalar(data) {
                    Some(bye) => if bye.value == Some(BYEBYE_REASON_USER_SELECTION) {
                        HookSpec {
                            pkt,
                            ctx,
                            handled: false,
                            start_ev_logger: false,
                            request_stop: true,
                        }
                    } else {
                        spec_hook_pass(pkt, ctx)
                    },
                    None => spec_hook_pass(pkt, ctx),
                }
            } else if id == MESSAGE_SERVICE_DISCOVERY_RESPONSE && pt == ProxyType::HeadUnit {
                match spec_parse_sdr(data) {
                    None => spec_hook_pass(pkt, ctx),
                    Some(m) => {
                        let (m2, sc, nc) = spec_rewrite_sdr(m, cfg);
                        let ctx2 = ModifyContext {
                            sensor_channel: if sc is Some {
                                sc
                            } else {
                                ctx.sensor_channel
                            },
                            nav_channel: if nc is Some {
                                nc
                            } else {
                                ctx.nav_channel
                            },
                        };
                        let body = spec_encode_sdr(m2);
                        if 2 + body.len() <= MAX_PAYLOAD {
                            spec_hook_pass(
                                PacketView { payload: spec_payload_with_id(id, body), ..pkt },
                                ctx2,
                            )
                        } else {
                            spec_hook_pass(pkt, ctx2)
                        }
                    },
                }
            } else {
                spec_hook_pass(pkt, ctx)
            }
        } else {
            spec_hook_pass(pkt, ctx)
        }
    }
}

/// Inspects one decrypted packet and applies the configured rewrites, as
/// `spec_modify_hook` describes.  When the outcome says `handled`, the packet
/// now holds a reply to send back on the side the original came from; when a
/// rewritten message would not fit a frame, the packet is left unchanged.
pub fn pkt_modify_hook(
    proxy_type: ProxyType,
    pkt: &mut Packet,
    ctx: &mut ModifyContext,
    cfg: &AppConfig,
) -> (r: HookOutcome)
    ensures
        ({
            let hs = spec_modify_hook(proxy_type, old(pkt)@, *old(ctx), *cfg);
            &&& final(pkt)@ == hs.pkt
            &&& *final(ctx) == hs.ctx
            &&& r.handled == hs.handled
            &&& r.start_ev_logger == hs.start_ev_logger
            &&& r.request_stop == hs.request_stop
        }),
{
    let pass = HookOutcome { handled: false, start_ev_logger: false, request_stop: false };
    if pkt.payload.len() < 2 {
        return pass;
    }
    let id: u16 = pkt.payload[0] as u16 * 0x100 + pkt.payload[1] as u16;
    proof {
        assert(Some(id) == spec_message_id(pkt.payload@));
    }
    let data = slice_range_to_vec(pkt.payload.as_slice(), 2, pkt.payload.len());
    proof {
        assert(data@ =~= pkt.payload@.skip(2));
    }
    let on_sensor_channel = match ctx.sensor_channel {
        Some(ch) => ch == pkt.channel,
        None => false,
    };
    if on_sensor_channel {
        if id == SENSOR_MESSAGE_REQUEST {
            match parse_scalar(data.as_slice()) {
                Some(req) => {
                    let is_ev = match req.value {
                        Some(v) => v == SENSOR_VEHICLE_ENERGY_MODEL_DATA,
                        None => false,
                    };
                    if is_ev {
                        let reply_body = encode_scalar_msg(
                            &ScalarMsg { value: Some(STATUS_SUCCESS), rest: Vec::new() },
                        );
                        let payload = crate::frame::payload_with_id(
                            SENSOR_MESSAGE_RESPONSE,
                            reply_body.as_slice(),
                        );
                        pkt.flags = SYNTH_FLAGS;
                        pkt.final_length = None;
                        pkt.payload = payload;
                        proof {
                            assert(pkt@.payload =~= spec_sensor_reply_payload());
                        }
                        return HookOutcome {
                            handled: true,
                            start_ev_logger: cfg.ev_battery_logger.is_some(),
                            request_stop: false,
                        };
                    }
                    return pass;
                },
                None => {
                    return pass;
                },
            }
        } else if id == SENSOR_MESSAGE_BATCH && cfg.video_in_motion {
            match parse_list(data.as_slice()) {
                Some(batch) => {
                    if batch.items.len() > 0 {
                        let ghost batchv = batch@;
                        let mut batch = batch;
                        let mut item0 = batch.items.remove(0);
                        item0.value = Some(0);
                        batch.items.insert(0, item0);
                        proof {
                            assert(crate::sensors::scalars_view(batch.items@) =~= batchv.items
                                .update(0, ScalarMsgView { value: Some(0), ..batchv.items[0] }));
                        }
                        let body = encode_list(&batch);
                        if body.len() <= MAX_PAYLOAD - 2 {
                            let payload = crate::frame::payload_with_id(id, body.as_slice());
                            pkt.payload = payload;
                            proof {
                                assert(pkt@.payload =~= spec_payload_with_id(
                                    id,
                                    spec_encode_list(batch@),
                                ));
                            }
                        }
                        return pass;
                    }
                    return pass;
                },
                None => {
                    return pass;
                },
            }
        }
        return pass;
    }
    let on_nav_channel = match ctx.nav_channel {
        Some(ch) => ch == pkt.channel,
        None => false,
    };
    if on_nav_channel && proxy_type == ProxyType::HeadUnit && pkt.payload.len() > 2
        && pkt.payload[0] == 0x80 && pkt.payload[1] == 0x06 && pkt.payload[2] == 0x0A {
        match parse_nav(data.as_slice()) {
            Some(nav) => {
                let is_uturn_left = nav.steps.len() > 0 && match &nav.steps[0].maneuver {
                    Some(mv) => match mv.value {
                        Some(v) => v == MANEUVER_U_TURN_LEFT,
                        None => false,
                    },
                    None => false,
                };
                if is_uturn_left {
                    let ghost navv = nav@;
                    let mut nav = nav;
                    let mut step0 = nav.steps.remove(0);
                    match &mut step0.maneuver {
                        Some(mv) => {
                            mv.value = Some(MANEUVER_U_TURN_RIGHT);
                        },
                        None => {
                            proof {
                                assert(false);
                            }
                        },
                    }
                    nav.steps.insert(0, step0);
                    proof {
                        assert(crate::nav::steps_view(nav.steps@) =~= navv.steps.update(
                            0,
                            NavStepView {
                                maneuver: Some(
                                    ScalarMsgView {
                                        value: Some(MANEUVER_U_TURN_RIGHT),
                                        ..navv.steps[0].maneuver->Some_0
                                    },
                                ),
                                ..navv.steps[0]
                            },
                        ));
                    }
                    let body = encode_nav(&nav);
                    if body.len() <= MAX_PAYLOAD - 2 {
                        let payload = crate::frame::payload_with_id(id, body.as_slice());
                        pkt.payload = payload;
                        proof {
                            assert(pkt@.payload =~= spec_payload_with_id(
                                id,
                                spec_encode_nav(nav@),
                            ));
                        }
                    }
                    return pass;
                }
                return pass;
            },
            None => {
                return pass;
            },
        }
    }
    if pkt.channel != 0 {
        return pass;
    }
    if id == MESSAGE_BYEBYE_REQUEST && cfg.stop_on_disconnect && proxy_type
        == ProxyType::MobileDevice {
        match parse_scalar(data.as_slice()) {
            Some(bye) => {
                let user_selected = match bye.value {
                    Some(v) => v == BYEBYE_REASON_USER_SELECTION,
                    None => false,
                };
                if user_selected {
                    return HookOutcome {
                        handled: false,
                        start_ev_logger: false,
                        request_stop: true,
                    };
                }
                return pass;
            },
            None => {
                return pass;
            },
        }
    }
    if id == MESSAGE_SERVICE_DISCOVERY_RESPONSE && proxy_type == ProxyType::HeadUnit {
        match parse_sdr(data.as_slice()) {
            None => {
                return pass;
            },
            Some(m) => {
                let mut m = m;
                let (sc, nc) = rewrite_sdr(&mut m, cfg);
                match sc {
                    Some(ch) => {
                        ctx.sensor_channel = Some(ch);
                    },
                    None => (),
                }
                match nc {
                    Some(ch) => {
                        ctx.nav_channel = Some(ch);
                    },
                    None => (),
                }
                let body = encode_sdr(&m);
                if body.len() <= MAX_PAYLOAD - 2 {
                    let payload = crate::frame::payload_with_id(id, body.as_slice());
                    pkt.payload = payload;
                    proof {
                        assert(pkt@.payload =~= spec_payload_with_id(id, spec_encode_sdr(m@)));
                    }
                }
                return pass;
            },
        }
    }
    pass
}

/// Wraps TLS handshake bytes in a control-channel packet carrying the
/// encapsulated-SSL message id.
pub open spec fn spec_encapsulate(b: Seq<u8>) -> PacketView {
    PacketView {
        channel: 0,
        flags: (FRAME_TYPE_FIRST | FRAME_TYPE_LAST) as u8,
        final_length: None,
        payload: spec_payload_with_id(MESSAGE_ENCAPSULATED_SSL, b),
    }
}

/// Builds the encapsulated-SSL packet for handshake bytes the TLS engine
/// produced.
pub fn ssl_encapsulate(b: &[u8]) -> (r: Packet)
    ensures
        r@ == spec_encapsulate(b@),
{
    let payload = crate::frame::payload_with_id(MESSAGE_ENCAPSULATED_SSL, b);
    let r = Packet {
        channel: 0,
        flags: FRAME_TYPE_FIRST | FRAME_TYPE_LAST,
        final_length: None,
        payload,
    };
    proof {
        assert(r@.payload =~= spec_encapsulate(b@).payload);
    }
    r
}

/// The handshake bytes inside an encapsulated-SSL packet, when the packet is
/// one.
pub open spec fn spec_decapsulate(p: PacketView) -> Option<Seq<u8>> {
    if p.payload.len() >= 2 && spec_message_id(p.payload) == Some(MESSAGE_ENCAPSULATED_SSL) {
        Some(p.payload.skip(2))
    } else {
        None
    }
}

/// Extracts the handshake bytes from an encapsulated-SSL packet; `None` when
/// the packet carries another message.
pub fn ssl_decapsulate(p: &Packet) -> (r: Option<Vec<u8>>)
    ensures
        match r {
            Some(b) => spec_decapsulate(p@) == Some(b@),
            None => spec_decapsulate(p@) is None,
        },
{
    if p.payload.len() < 2 {
        return None;
    }
    let id: u16 = p.payload[0] as u16 * 0x100 + p.payload[1] as u16;
    proof {
        assert(Some(id) == spec_message_id(p.payload@));
    }
    if id == MESSAGE_ENCAPSULATED_SSL {
        let b = slice_range_to_vec(p.payload.as_slice(), 2, p.payload.len());
        proof {
            assert(b@ =~= p.payload@.skip(2));
        }
        Some(b)
    } else {
        None
    }
}

/// Encapsulation symmetry: the bytes one side wraps are exactly the bytes
/// the other side unwraps.
pub proof fn lemma_encapsulation_round_trip(b: Seq<u8>)
    ensures
        spec_decapsulate(spec_encapsulate(b)) == Some(b),
{
    let p = spec_encapsulate(b);
    assert(p.payload[0] == (MESSAGE_ENCAPSULATED_SSL / 0x100) as u8);
    assert(p.payload[1] == (MESSAGE_ENCAPSULATED_SSL % 0x100) as u8);
    assert(spec_message_id(p.payload) == Some(MESSAGE_ENCAPSULATED_SSL));
    assert(p.payload.skip(2) =~= b);
}

} // verus!
