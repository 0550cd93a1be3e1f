//! The USB gadget role controller: which configfs writes to make, in which
//! order, to flip the device between the `default` and `accessory` gadgets,
//! and when to wait for the kernel's accessory-start uevent.  The sysfs and
//! netlink I/O lives outside the crate; the machine here says what to do.

use vstd::prelude::*;

verus! {

/// The two configfs gadgets the proxy drives.
#[derive(Clone, Copy, PartialEq, Eq, Structural, Debug)]
pub enum GadgetName {
    Default,
    Accessory,
}

/// One instruction to the sysfs layer.
#[derive(Clone, Copy, PartialEq, Eq, Structural, Debug)]
pub enum GadgetAction {
    /// Write the selected UDC name to the gadget's `UDC` attribute, if it is
    /// currently empty.
    Enable(GadgetName),
    /// Clear the gadget's `UDC` attribute, if it is currently bound.
    Disable(GadgetName),
    /// Pause this long so the host notices the gadget disappeared.
    SleepMs(u64),
    /// Wait this long for the accessory-start uevent.
    WaitAccessoryMs(u64),
}

/// What the wait for the accessory-start uevent came back with.
#[derive(Clone, Copy, PartialEq, Eq, Structural, Debug)]
pub enum GadgetEvent {
    AccessoryStarted,
    TimedOut,
}

/// Where the role switch stands.
#[derive(Clone, Copy, PartialEq, Eq, Structural, Debug)]
pub enum RolePhase {
    /// No switch under way.
    Idle,
    /// The default gadget is up; the accessory-start uevent is awaited.
    Waiting,
    /// The accessory gadget has been enabled.
    AccessoryEnabled,
}

/// How long one wait for the accessory-start uevent lasts.
pub const ACCESSORY_WAIT_MS: u64 = 3000;

/// How long the gadget stays disabled so the host sees it disappear.
pub const SWITCH_PAUSE_MS: u64 = 100;

/// How many times the default gadget is offered before giving up waiting.
pub const MAX_WAIT_TRIES: u8 = 2;

/// The actions that move from the default gadget to the accessory gadget.
pub open spec fn spec_switch_actions() -> Seq<GadgetAction> {
    seq![
        GadgetAction::Disable(GadgetName::Default),
        GadgetAction::SleepMs(SWITCH_PAUSE_MS),
        GadgetAction::Enable(GadgetName::Accessory),
    ]
}

/// The actions that offer the default gadget and wait for the host.
pub open spec fn spec_offer_actions() -> Seq<GadgetAction> {
    seq![
        GadgetAction::Enable(GadgetName::Default),
        GadgetAction::WaitAccessoryMs(ACCESSORY_WAIT_MS),
    ]
}

/// Owns the gadget tree: the selected UDC, the legacy flag, and the state of
/// a role switch in progress.
pub struct UsbGadgetState {
    pub udc_name: Vec<u8>,
    pub legacy: bool,
    pub phase: RolePhase,
    pub tries: u8,
}

/// The UDC the controller selects: the configured one when present, else the
/// first enumerated, else none.
pub open spec fn spec_pick_udc(configured: Option<Seq<u8>>, available: Seq<Seq<u8>>) -> Seq<u8> {
    match configured {
        Some(u) => u,
        None => if available.len() > 0 {
            available[0]
        } else {
            Seq::empty()
        },
    }
}

impl UsbGadgetState {
    /// Builds the controller, selecting the UDC as `spec_pick_udc` says:
    /// the caller passes the configured name and the entries it enumerated
    /// from the UDC directory.
    pub fn new(legacy: bool, udc: Option<Vec<u8>>, available: &Vec<Vec<u8>>) -> (r: UsbGadgetState)
        ensures
            r.udc_name@ == spec_pick_udc(
                match udc {
                    Some(u) => Some(u@),
                    None => None,
                },
                crate::proto::bytes_list_view(available@),
            ),
            r.legacy == legacy,
            r.phase == RolePhase::Idle,
            r.tries == 0,
    {
        let udc_name = match udc {
            Some(u) => u,
            None => {
                if available.len() > 0 {
                    let first = &available[0];
                    let mut copy: Vec<u8> = Vec::new();
                    copy.extend_from_slice(first.as_slice());
                    proof {
                        assert(copy@ =~= crate::proto::bytes_list_view(available@)[0]);
                    }
                    copy
                } else {
                    Vec::new()
                }
            },
        };
        UsbGadgetState { udc_name, legacy, phase: RolePhase::Idle, tries: 0 }
    }

    /// The actions that initialise the tree: detach the gadgets this mode
    /// uses, so nothing is bound.
    pub fn init(&self) -> (r: Vec<GadgetAction>)
        ensures
            self.legacy ==> r@ == seq![
                GadgetAction::Disable(GadgetName::Default),
                GadgetAction::Disable(GadgetName::Accessory),
            ],
            !self.legacy ==> r@ == seq![GadgetAction::Disable(GadgetName::Accessory)],
    {
        let mut r: Vec<GadgetAction> = Vec::new();
        if self.legacy {
            r.push(GadgetAction::Disable(GadgetName::Default));
        }
        r.push(GadgetAction::Disable(GadgetName::Accessory));
        proof {
            if self.legacy {
                assert(r@ =~= seq![
                    GadgetAction::Disable(GadgetName::Default),
                    GadgetAction::Disable(GadgetName::Accessory),
                ]);
            } else {
                assert(r@ =~= seq![GadgetAction::Disable(GadgetName::Accessory)]);
            }
        }
        r
    }

    /// Starts the switch to the accessory role.  In legacy mode the default
    /// gadget goes up first and the host's accessory-start request is
    /// awaited; otherwise the accessory gadget is enabled at once.
    pub fn begin_accessory_switch(&mut self) -> (r: Vec<GadgetAction>)
        ensures
            old(self).legacy ==> {
                &&& r@ == spec_offer_actions()
                &&& final(self).phase == RolePhase::Waiting
                &&& final(self).tries == 1
            },
            !old(self).legacy ==> {
                &&& r@ == seq![GadgetAction::Enable(GadgetName::Accessory)]
                &&& final(self).phase == RolePhase::AccessoryEnabled
            },
            final(self).legacy == old(self).legacy,
            final(self).udc_name == old(self).udc_name,
    {
        let mut r: Vec<GadgetAction> = Vec::new();
        if self.legacy {
            self.phase = RolePhase::Waiting;
            self.tries = 1;
            r.push(GadgetAction::Enable(GadgetName::Default));
            r.push(GadgetAction::WaitAccessoryMs(ACCESSORY_WAIT_MS));
            proof {
                assert(r@ =~= spec_offer_actions());
            }
        } else {
            self.phase = RolePhase::AccessoryEnabled;
            r.push(GadgetAction::Enable(GadgetName::Accessory));
            proof {
                assert(r@ =~= seq![GadgetAction::Enable(GadgetName::Accessory)]);
            }
        }
        r
    }

    /// Feeds the outcome of a wait back in.  On the accessory-start uevent —
    /// or once the host has been offered the default gadget twice in vain —
    /// the switch proceeds: clear the default gadget, pause, enable the
    /// accessory gadget.  On the first timeout the offer is repeated.
    pub fn on_event(&mut self, e: GadgetEvent) -> (r: Vec<GadgetAction>)
        ensures
            old(self).phase != RolePhase::Waiting ==> {
                &&& r@ == Seq::<GadgetAction>::empty()
                &&& *final(self) == *old(self)
            },
            old(self).phase == RolePhase::Waiting && e == GadgetEvent::AccessoryStarted ==> {
                &&& r@ == spec_switch_actions()
                &&& final(self).phase == RolePhase::AccessoryEnabled
            },
            old(self).phase == RolePhase::Waiting && e == GadgetEvent::TimedOut && old(self).tries
                < MAX_WAIT_TRIES ==> {
                &&& r@ == spec_offer_actions()
                &&& final(self).phase == RolePhase::Waiting
                &&& final(self).tries == old(self).tries + 1
            },
            old(self).phase == RolePhase::Waiting && e == GadgetEvent::TimedOut && old(self).tries
                >= MAX_WAIT_TRIES ==> {
                &&& r@ == spec_switch_actions()
                &&& final(self).phase == RolePhase::AccessoryEnabled
            },
            final(self).legacy == old(self).legacy,
            final(self).udc_name == old(self).udc_name,
    {
        let mut r: Vec<GadgetAction> = Vec::new();
        match self.phase {
            RolePhase::Waiting => {
                let proceed = match e {
                    GadgetEvent::AccessoryStarted => true,
                    GadgetEvent::TimedOut => self.tries >= MAX_WAIT_TRIES,
                };
                if proceed {
                    self.phase = RolePhase::AccessoryEnabled;
                    r.push(GadgetAction::Disable(GadgetName::Default));
                    r.push(GadgetAction::SleepMs(SWITCH_PAUSE_MS));
                    r.push(GadgetAction::Enable(GadgetName::Accessory));
                    proof {
                        assert(r@ =~= spec_switch_actions());
                    }
                } else {
                    self.tries = self.tries + 1;
                    r.push(GadgetAction::Enable(GadgetName::Default));
                    r.push(GadgetAction::WaitAccessoryMs(ACCESSORY_WAIT_MS));
                    proof {
                        assert(r@ =~= spec_offer_actions());
                    }
                }
            },
            _ => (),
        }
        r
    }
}

/// Whether a uevent signals that the host requested accessory mode: its
/// environment names the accessory device and the START action.
pub fn is_accessory_start(devname: Option<&Vec<u8>>, accessory: Option<&Vec<u8>>) -> (r: bool)
    ensures
        r == ({
            &&& match devname {
                Some(d) => d@ == spec_usb_accessory_devname(),
                None => false,
            }
            &&& match accessory {
                Some(a) => a@ == spec_start_value(),
                None => false,
            }
        }),
{
    let dev_ok = match devname {
        Some(d) => {
            let expect = usb_accessory_devname_bytes();
            crate::proto::slice_eq(d.as_slice(), expect.as_slice())
        },
        None => false,
    };
    let acc_ok = match accessory {
        Some(a) => {
            let expect = start_value_bytes();
            crate::proto::slice_eq(a.as_slice(), expect.as_slice())
        },
        None => false,
    };
    dev_ok && acc_ok
}

/// The bytes of `"usb_accessory"`.
pub open spec fn spec_usb_accessory_devname() -> Seq<u8> {
    seq![
        0x75u8, 0x73u8, 0x62u8, 0x5Fu8, 0x61u8, 0x63u8, 0x63u8, 0x65u8, 0x73u8, 0x73u8, 0x6Fu8,
        0x72u8, 0x79u8,
    ]
}

/// The bytes of `"START"`.
pub open spec fn spec_start_value() -> Seq<u8> {
    seq![0x53u8, 0x54u8, 0x41u8, 0x52u8, 0x54u8]
}

pub fn usb_accessory_devname_bytes() -> (r: Vec<u8>)
    ensures
        r@ == spec_usb_accessory_devname(),
{
    let mut r: Vec<u8> = Vec::new();
    r.push(0x75);
    r.push(0x73);
    r.push(0x62);
    r.push(0x5F);
    r.push(0x61);
    r.push(0x63);
    r.push(0x63);
    r.push(0x65);
    r.push(0x73);
    r.push(0x73);
    r.push(0x6F);
    r.push(0x72);
    r.push(0x79);
    proof {
        assert(r@ =~= spec_usb_accessory_devname());
    }
    r
}

pub fn start_value_bytes() -> (r: Vec<u8>)
    ensures
        r@ == spec_start_value(),
{
    let mut r: Vec<u8> = Vec::new();
    r.push(0x53);
    r.push(0x54);
    r.push(0x41);
    r.push(0x52);
    r.push(0x54);
    proof {
        assert(r@ =~= spec_start_value());
    }
    r
}

/// Legacy role choreography, happy path: offering the default gadget and
/// then hearing the accessory-start uevent performs exactly — write the UDC
/// name to the default gadget, wait for the uevent, clear the default
/// gadget, pause, enable the accessory gadget.
pub proof fn lemma_legacy_choreography()
    ensures
        spec_offer_actions() + spec_switch_actions() == seq![
            GadgetAction::Enable(GadgetName::Default),
            GadgetAction::WaitAccessoryMs(ACCESSORY_WAIT_MS),
            GadgetAction::Disable(GadgetName::Default),
            GadgetAction::SleepMs(SWITCH_PAUSE_MS),
            GadgetAction::Enable(GadgetName::Accessory),
        ],
        spec_offer_actions() + spec_offer_actions() + spec_switch_actions() == seq![
            GadgetAction::Enable(GadgetName::Default),
            GadgetAction::WaitAccessoryMs(ACCESSORY_WAIT_MS),
            GadgetAction::Enable(GadgetName::Default),
            GadgetAction::WaitAccessoryMs(ACCESSORY_WAIT_MS),
            GadgetAction::Disable(GadgetName::Default),
            GadgetAction::SleepMs(SWITCH_PAUSE_MS),
            GadgetAction::Enable(GadgetName::Accessory),
        ],
{
    assert(spec_offer_actions() + spec_switch_actions() =~= seq![
        GadgetAction::Enable(GadgetName::Default),
        GadgetAction::WaitAccessoryMs(ACCESSORY_WAIT_MS),
        GadgetAction::Disable(GadgetName::Default),
        GadgetAction::SleepMs(SWITCH_PAUSE_MS),
        GadgetAction::Enable(GadgetName::Accessory),
    ]);
    assert(spec_offer_actions() + spec_offer_actions() + spec_switch_actions() =~= seq![
        GadgetAction::Enable(GadgetName::Default),
        GadgetAction::WaitAccessoryMs(ACCESSORY_WAIT_MS),
        GadgetAction::Enable(GadgetName::Default),
        GadgetAction::WaitAccessoryMs(ACCESSORY_WAIT_MS),
        GadgetAction::Disable(GadgetName::Default),
        GadgetAction::SleepMs(SWITCH_PAUSE_MS),
        GadgetAction::Enable(GadgetName::Accessory),
    ]);
}

} // verus!
