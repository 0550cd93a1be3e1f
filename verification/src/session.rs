//! Per-session decisions: which transports a session uses, the order of the
//! version exchange and TLS handshake between the two processors, what each
//! processor does with a packet in the steady state, and the supervisor's
//! handling of requested actions.  Sockets, the USB device and the TLS
//! engine live outside the crate and carry these decisions out.

use vstd::prelude::*;

use crate::config::{Action, AppConfig, TCP_DHU_PORT, TCP_SERVER_PORT};
use crate::frame::{Packet, HEADER_LENGTH};
use crate::mitm::{pkt_modify_hook, spec_modify_hook, HookOutcome, ModifyContext, ProxyType};

verus! {

/// How the mobile device is reached.
#[derive(Clone, Copy, PartialEq, Eq, Structural, Debug)]
pub enum MdTransport {
    /// TCP on the access point, after the Bluetooth bootstrap.
    Tcp,
    /// The phone is plugged in over USB and switched into accessory mode.
    UsbAccessory,
}

/// How the head unit is reached.
#[derive(Clone, Copy, PartialEq, Eq, Structural, Debug)]
pub enum HuTransport {
    /// The local USB accessory character device.
    UsbAccessory,
    /// A local TCP port toward the desktop head unit emulator.
    Tcp,
}

/// The shape of one session, decided from the configuration.
#[derive(Clone, Copy, PartialEq, Eq, Structural, Debug)]
pub struct SessionPlan {
    pub md_transport: MdTransport,
    pub hu_transport: HuTransport,
    /// The Bluetooth bootstrap runs before the session.
    pub needs_bluetooth: bool,
    /// The USB gadget is prepared (not in emulator mode).
    pub needs_usb_gadget: bool,
    /// The accessory gadget goes up before the bootstrap rather than after.
    pub usb_before_bluetooth: bool,
    pub md_port: u16,
    pub hu_port: u16,
    /// Packets pass through untouched; no TLS is terminated.
    pub passthrough: bool,
}

/// Decides the shape of a session: a wired phone replaces the TCP side and
/// the bootstrap; the emulator replaces the USB accessory device; MITM off
/// means passthrough.
pub fn plan_session(cfg: &AppConfig) -> (r: SessionPlan)
    ensures
        r.md_transport == if cfg.wired is Some {
            MdTransport::UsbAccessory
        } else {
            MdTransport::Tcp
        },
        r.hu_transport == if cfg.dhu {
            HuTransport::Tcp
        } else {
            HuTransport::UsbAccessory
        },
        r.needs_bluetooth == (cfg.wired is None),
        r.needs_usb_gadget == !cfg.dhu,
        r.usb_before_bluetooth == cfg.change_usb_order,
        r.md_port == TCP_SERVER_PORT,
        r.hu_port == TCP_DHU_PORT,
        r.passthrough == !cfg.mitm,
{
    SessionPlan {
        md_transport: if cfg.wired.is_some() {
            MdTransport::UsbAccessory
        } else {
            MdTransport::Tcp
        },
        hu_transport: if cfg.dhu {
            HuTransport::Tcp
        } else {
            HuTransport::UsbAccessory
        },
        needs_bluetooth: cfg.wired.is_none(),
        needs_usb_gadget: !cfg.dhu,
        usb_before_bluetooth: cfg.change_usb_order,
        md_port: TCP_SERVER_PORT,
        hu_port: TCP_DHU_PORT,
        passthrough: !cfg.mitm,
    }
}

/// What the supervisor does with a requested action at a session boundary.
#[derive(Clone, Copy, PartialEq, Eq, Structural, Debug)]
pub enum SupervisorStep {
    /// Nothing requested: start the next session.
    Proceed,
    /// Reboot the device; the request is cleared first.
    Reboot,
    /// Keep accepting inbound bootstrap connections but stop connecting out.
    HoldOutbound,
}

/// The supervisor's reading of the action slot: a reboot is honoured and
/// cleared, a stop suppresses outbound Bluetooth connects, anything else
/// starts the next session.
pub fn supervisor_step(action: Option<Action>) -> (r: SupervisorStep)
    ensures
        r == match action {
            Some(Action::Reboot) => SupervisorStep::Reboot,
            Some(Action::Stop) => SupervisorStep::HoldOutbound,
            _ => SupervisorStep::Proceed,
        },
{
    match action {
        Some(Action::Reboot) => SupervisorStep::Reboot,
        Some(Action::Stop) => SupervisorStep::HoldOutbound,
        _ => SupervisorStep::Proceed,
    }
}

/// Whether a successful bootstrap clears the action slot: only when a stop
/// was being honoured, since the user has reconnected by hand.
pub fn clears_stop_after_bootstrap(stopped: bool) -> (r: bool)
    ensures
        r == stopped,
{
    stopped
}

/// One instruction to the I/O layer from the handshake choreography.
#[derive(Clone, Copy, PartialEq, Eq, Structural, Debug)]
pub enum ProcAction {
    /// Hand the packet to the peer processor.
    ForwardToPeer,
    /// Write the packet to this side's device.
    TransmitToDevice,
    /// Decapsulate the packet's TLS records into the engine's inbound
    /// buffer.
    FeedTls,
    /// Drive the TLS server (toward the head unit) one step.
    DriveTlsAccept,
    /// Drive the TLS client (toward the mobile device) one step.
    DriveTlsHandshake,
    /// Encapsulate what the engine produced and write it to the device.
    TransmitTlsOutput,
}

/// Where a processor stands in the initial choreography.
#[derive(Clone, Copy, PartialEq, Eq, Structural, Debug)]
pub enum ProcPhase {
    /// Head-unit side: the first plaintext version frame is awaited from the
    /// device.
    HuAwaitVersion,
    /// Head-unit side: the version reply is awaited from the peer.
    HuAwaitVersionReply,
    /// Head-unit side: TLS server exchange, two reader round trips.
    HuTls { step: u8 },
    /// Mobile-device side: the version frame is awaited from the peer.
    MdAwaitVersion,
    /// Mobile-device side: the version reply is awaited from the device.
    MdAwaitVersionReply,
    /// Mobile-device side: TLS client exchange, three handshake steps.
    MdTls { step: u8 },
    /// Handshake done: packets flow through decrypt, rewrite, encrypt.
    Steady,
}

/// A processor: one per side, owning the write half of its device.
pub struct Processor {
    pub proxy_type: ProxyType,
    pub phase: ProcPhase,
}

impl Processor {
    /// A processor at the start of the choreography for its side.
    pub fn new(proxy_type: ProxyType) -> (r: Processor)
        ensures
            r.proxy_type == proxy_type,
            r.phase == match proxy_type {
                ProxyType::HeadUnit => ProcPhase::HuAwaitVersion,
                ProxyType::MobileDevice => ProcPhase::MdAwaitVersion,
            },
    {
        Processor {
            proxy_type,
            phase: match proxy_type {
                ProxyType::HeadUnit => ProcPhase::HuAwaitVersion,
                ProxyType::MobileDevice => ProcPhase::MdAwaitVersion,
            },
        }
    }

    /// The actions for a packet arriving from this side's reader during the
    /// choreography.  The head unit opens with a plaintext version frame that
    /// crosses to the peer; its TLS records are then fed to the server
    /// engine, which answers encapsulated, twice.  The mobile device's
    /// version reply crosses back, after which the client engine drives
    /// three handshake steps against the records the phone returns.
    pub fn on_reader_packet(&mut self) -> (r: Vec<ProcAction>)
        ensures
            final(self).proxy_type == old(self).proxy_type,
            match old(self).phase {
                ProcPhase::HuAwaitVersion => {
                    &&& r@ == seq![ProcAction::ForwardToPeer]
                    &&& final(self).phase == ProcPhase::HuAwaitVersionReply
                },
                ProcPhase::HuTls { step } => {
                    &&& r@ == seq![
                        ProcAction::FeedTls,
                        ProcAction::DriveTlsAccept,
                        ProcAction::TransmitTlsOutput,
                    ]
                    &&& final(self).phase == if step < 2 {
                        ProcPhase::HuTls { step: (step + 1) as u8 }
                    } else {
                        ProcPhase::Steady
                    }
                },
                ProcPhase::MdAwaitVersionReply => {
                    &&& r@ == seq![
                        ProcAction::ForwardToPeer,
                        ProcAction::DriveTlsHandshake,
                        ProcAction::TransmitTlsOutput,
                    ]
                    &&& final(self).phase == ProcPhase::MdTls { step: 2u8 }
                },
                ProcPhase::MdTls { step } => {
                    &&& (step < 3 ==> {
                        &&& r@ == seq![
                            ProcAction::FeedTls,
                            ProcAction::DriveTlsHandshake,
                            ProcAction::TransmitTlsOutput,
                        ]
                        &&& final(self).phase == ProcPhase::MdTls { step: (step + 1) as u8 }
                    })
                    &&& (step >= 3 ==> {
                        &&& r@ == seq![ProcAction::FeedTls, ProcAction::DriveTlsHandshake]
                        &&& final(self).phase == ProcPhase::Steady
                    })
                },
                _ => {
                    &&& r@ == Seq::<ProcAction>::empty()
                    &&& final(self).phase == old(self).phase
                },
            },
    {
        let mut r: Vec<ProcAction> = Vec::new();
        match self.phase {
            ProcPhase::HuAwaitVersion => {
                self.phase = ProcPhase::HuAwaitVersionReply;
                r.push(ProcAction::ForwardToPeer);
                proof {
                    assert(r@ =~= seq![ProcAction::ForwardToPeer]);
                }
            },
            ProcPhase::HuTls { step } => {
                self.phase = if step < 2 {
                    ProcPhase::HuTls { step: step + 1 }
                } else {
                    ProcPhase::Steady
                };
                r.push(ProcAction::FeedTls);
                r.push(ProcAction::DriveTlsAccept);
                r.push(ProcAction::TransmitTlsOutput);
                proof {
                    assert(r@ =~= seq![
                        ProcAction::FeedTls,
                        ProcAction::DriveTlsAccept,
                        ProcAction::TransmitTlsOutput,
                    ]);
                }
            },
            ProcPhase::MdAwaitVersionReply => {
                self.phase = ProcPhase::MdTls { step: 2 };
                r.push(ProcAction::ForwardToPeer);
                r.push(ProcAction::DriveTlsHandshake);
                r.push(ProcAction::TransmitTlsOutput);
                proof {
                    assert(r@ =~= seq![
                        ProcAction::ForwardToPeer,
                        ProcAction::DriveTlsHandshake,
                        ProcAction::TransmitTlsOutput,
                    ]);
                }
            },
            ProcPhase::MdTls { step } => {
                if step < 3 {
                    self.phase = ProcPhase::MdTls { step: step + 1 };
                    r.push(ProcAction::FeedTls);
                    r.push(ProcAction::DriveTlsHandshake);
                    r.push(ProcAction::TransmitTlsOutput);
                    proof {
                        assert(r@ =~= seq![
                            ProcAction::FeedTls,
                            ProcAction::DriveTlsHandshake,
                            ProcAction::TransmitTlsOutput,
                        ]);
                    }
                } else {
                    self.phase = ProcPhase::Steady;
                    r.push(ProcAction::FeedTls);
                    r.push(ProcAction::DriveTlsHandshake);
                    proof {
                        assert(r@ =~= seq![ProcAction::FeedTls, ProcAction::DriveTlsHandshake]);
                    }
                }
            },
            _ => (),
        }
        r
    }

    /// The actions for a packet arriving from the peer processor during the
    /// choreography: the version frame and its reply are written straight to
    /// the device.
    pub fn on_peer_packet(&mut self) -> (r: Vec<ProcAction>)
        ensures
            final(self).proxy_type == old(self).proxy_type,
            match old(self).phase {
                ProcPhase::HuAwaitVersionReply => {
                    &&& r@ == seq![ProcAction::TransmitToDevice]
                    &&& final(self).phase == ProcPhase::HuTls { step: 1u8 }
                },
                ProcPhase::MdAwaitVersion => {
                    &&& r@ == seq![ProcAction::TransmitToDevice]
                    &&& final(self).phase == ProcPhase::MdAwaitVersionReply
                },
                _ => {
                    &&& r@ == Seq::<ProcAction>::empty()
                    &&& final(self).phase == old(self).phase
                },
            },
    {
        let mut r: Vec<ProcAction> = Vec::new();
        match self.phase {
            ProcPhase::HuAwaitVersionReply => {
                self.phase = ProcPhase::HuTls { step: 1 };
                r.push(ProcAction::TransmitToDevice);
                proof {
                    assert(r@ =~= seq![ProcAction::TransmitToDevice]);
                }
            },
            ProcPhase::MdAwaitVersion => {
                self.phase = ProcPhase::MdAwaitVersionReply;
                r.push(ProcAction::TransmitToDevice);
                proof {
                    assert(r@ =~= seq![ProcAction::TransmitToDevice]);
                }
            },
            _ => (),
        }
        r
    }
}

/// Whether this side's TLS endpoint accepts (a server toward the head unit)
/// rather than connects (a client toward the mobile device).
pub fn tls_is_server(proxy_type: ProxyType) -> (r: bool)
    ensures
        r == (proxy_type == ProxyType::HeadUnit),
{
    proxy_type == ProxyType::HeadUnit
}

/// The certificate and key pair a side presents: toward the head unit the
/// proxy speaks as the mobile device, and the other way round.
pub fn tls_cert_prefix(proxy_type: ProxyType) -> (r: &'static str)
    ensures
        proxy_type == ProxyType::HeadUnit ==> r@ == "md"@,
        proxy_type == ProxyType::MobileDevice ==> r@ == "hu"@,
{
    match proxy_type {
        ProxyType::HeadUnit => "md",
        ProxyType::MobileDevice => "hu",
    }
}

/// How many bytes a transmitted packet counts for in the statistics: the
/// 4-byte header plus the payload.
pub fn transmit_size(pkt: &Packet) -> (r: u64)
    ensures
        r == crate::monitor::spec_sat_add(HEADER_LENGTH as u64, pkt@.payload.len() as u64),
        pkt@.payload.len() <= u64::MAX - HEADER_LENGTH ==> r == HEADER_LENGTH
            + pkt@.payload.len(),
{
    let len = pkt.payload.len() as u64;
    if len <= u64::MAX - HEADER_LENGTH as u64 {
        HEADER_LENGTH as u64 + len
    } else {
        u64::MAX
    }
}

/// What the steady state does with a packet from the peer processor.
pub struct OutboundStep {
    /// The packet is a synthesized reply: send it back to the peer instead
    /// of the device.
    pub send_back: bool,
    /// Encrypt before transmitting (the rewriter replies pre-framed).
    pub encrypt_and_transmit: bool,
    pub start_ev_logger: bool,
    pub request_stop: bool,
}

/// Runs the rewriter over a packet crossing from the peer toward this
/// side's device, and says where it goes next: a handled packet carries a
/// synthesized reply back to the peer; anything else is encrypted and
/// written to the device.
pub fn process_outbound(
    proxy_type: ProxyType,
    pkt: &mut Packet,
    ctx: &mut ModifyContext,
    cfg: &AppConfig,
) -> (r: OutboundStep)
    ensures
        ({
            let hs = spec_modify_hook(proxy_type, old(pkt)@, *old(ctx), *cfg);
            &&& final(pkt)@ == hs.pkt
            &&& *final(ctx) == hs.ctx
            &&& r.send_back == hs.handled
            &&& r.encrypt_and_transmit == !hs.handled
            &&& r.start_ev_logger == hs.start_ev_logger
            &&& r.request_stop == hs.request_stop
        }),
{
    let outcome: HookOutcome = pkt_modify_hook(proxy_type, pkt, ctx, cfg);
    OutboundStep {
        send_back: outcome.handled,
        encrypt_and_transmit: !outcome.handled,
        start_ev_logger: outcome.start_ev_logger,
        request_stop: outcome.request_stop,
    }
}

/// What the steady state does with a decrypted packet from this side's
/// reader: run the rewriter, then forward to the peer processor.
pub struct InboundStep {
    pub forward_to_peer: bool,
    pub start_ev_logger: bool,
    pub request_stop: bool,
}

/// Runs the rewriter over a decrypted packet read from this side's device;
/// the packet then crosses to the peer whatever the rewriter did.
pub fn process_inbound(
    proxy_type: ProxyType,
    pkt: &mut Packet,
    ctx: &mut ModifyContext,
    cfg: &AppConfig,
) -> (r: InboundStep)
    ensures
        ({
            let hs = spec_modify_hook(proxy_type, old(pkt)@, *old(ctx), *cfg);
            &&& final(pkt)@ == hs.pkt
            &&& *final(ctx) == hs.ctx
            &&& r.forward_to_peer
            &&& r.start_ev_logger == hs.start_ev_logger
            &&& r.request_stop == hs.request_stop
        }),
{
    let outcome: HookOutcome = pkt_modify_hook(proxy_type, pkt, ctx, cfg);
    InboundStep {
        forward_to_peer: true,
        start_ev_logger: outcome.start_ev_logger,
        request_stop: outcome.request_stop,
    }
}

} // verus!
