//! Reading kernel uevents: the netlink packet is parsed by an outside crate,
//! trusted to be a function of the packet bytes alone; the decision — is
//! this the host asking for accessory mode? — is made here, over the parsed
//! environment.

use vstd::prelude::*;

use crate::gadget::{spec_start_value, spec_usb_accessory_devname};
use crate::proto::slice_eq;

verus! {

/// The environment of the uevent carried by a netlink packet: the key=value
/// pairs of its text, `None` when the packet is not a well-formed uevent.
pub uninterp spec fn uevent_env_of(bytes: Seq<u8>) -> Option<Map<Seq<u8>, Seq<u8>>>;

/// Relies on `kobject_uevent::UEvent::from_netlink_packet`: parses the
/// NETLINK_KOBJECT_UEVENT packet text into its key=value environment, a
/// function of the packet bytes alone.  The pairs come back in no particular
/// order; their map is `uevent_env_of` the bytes.
#[verifier::external_body]
fn parse_uevent_env(buf: &[u8]) -> (r: Option<Vec<(Vec<u8>, Vec<u8>)>>)
    ensures
        r is Some <==> uevent_env_of(buf@) is Some,
        match r {
            Some(v) => {
                let env = uevent_env_of(buf@)->Some_0;
                &&& forall|i: int|
                    0 <= i < v@.len() ==> env.contains_key(#[trigger] v@[i].0@) && env[v@[i].0@]
                        == v@[i].1@
                &&& forall|k: Seq<u8>|
                    env.contains_key(k) ==> exists|i: int| 0 <= i < v@.len() && #[trigger] v@[i].0@
                        == k
            },
            None => true,
        },
{
    match kobject_uevent::UEvent::from_netlink_packet(buf) {
        Ok(u) => Some(u.env.into_iter().map(|(k, v)| (k.into_bytes(), v.into_bytes())).collect()),
        Err(_) => None,
    }
}

/// The bytes of the `DEVNAME` key.
pub open spec fn spec_devname_key() -> Seq<u8> {
    seq![0x44u8, 0x45u8, 0x56u8, 0x4Eu8, 0x41u8, 0x4Du8, 0x45u8]
}

/// The bytes of the `ACCESSORY` key.
pub open spec fn spec_accessory_key() -> Seq<u8> {
    seq![0x41u8, 0x43u8, 0x43u8, 0x45u8, 0x53u8, 0x53u8, 0x4Fu8, 0x52u8, 0x59u8]
}

fn devname_key() -> (r: Vec<u8>)
    ensures
        r@ == spec_devname_key(),
{
    let mut r: Vec<u8> = Vec::new();
    r.push(0x44);
    r.push(0x45);
    r.push(0x56);
    r.push(0x4E);
    r.push(0x41);
    r.push(0x4D);
    r.push(0x45);
    proof {
        assert(r@ =~= spec_devname_key());
    }
    r
}

fn accessory_key() -> (r: Vec<u8>)
    ensures
        r@ == spec_accessory_key(),
{
    let mut r: Vec<u8> = Vec::new();
    r.push(0x41);
    r.push(0x43);
    r.push(0x43);
    r.push(0x45);
    r.push(0x53);
    r.push(0x53);
    r.push(0x4F);
    r.push(0x52);
    r.push(0x59);
    proof {
        assert(r@ =~= spec_accessory_key());
    }
    r
}

/// The value under `key` among the parsed pairs: the first pair that carries
/// the key.
#[verifier::loop_isolation(false)]
fn lookup(pairs: &Vec<(Vec<u8>, Vec<u8>)>, key: &Vec<u8>) -> (r: Option<usize>)
    ensures
        match r {
            Some(i) => i < pairs@.len() && pairs@[i as int].0@ == key@,
            None => forall|i: int| 0 <= i < pairs@.len() ==> #[trigger] pairs@[i].0@ != key@,
        },
{
    let mut k: usize = 0;
    while k < pairs.len()
        invariant
            k <= pairs@.len(),
            forall|i: int| 0 <= i < k ==> #[trigger] pairs@[i].0@ != key@,
        decreases pairs@.len() - k,
    {
        if slice_eq(pairs[k].0.as_slice(), key.as_slice()) {
            return Some(k);
        }
        k = k + 1;
    }
    None
}

/// Whether a netlink packet announces that the host requested accessory
/// mode: a well-formed uevent whose environment names the accessory device
/// (`DEVNAME=usb_accessory`) starting (`ACCESSORY=START`).
pub fn is_accessory_start_event(buf: &[u8]) -> (r: bool)
    ensures
        r == match uevent_env_of(buf@) {
            Some(env) => {
                &&& env.contains_key(spec_devname_key())
                &&& env[spec_devname_key()] == spec_usb_accessory_devname()
                &&& env.contains_key(spec_accessory_key())
                &&& env[spec_accessory_key()] == spec_start_value()
            },
            None => false,
        },
{
    match parse_uevent_env(buf) {
        None => false,
        Some(pairs) => {
            let ghost env = uevent_env_of(buf@)->Some_0;
            let dk = devname_key();
            let ak = accessory_key();
            let dev_ok = match lookup(&pairs, &dk) {
                Some(i) => {
                    let expect = crate::gadget::usb_accessory_devname_bytes();
                    slice_eq(pairs[i].1.as_slice(), expect.as_slice())
                },
                None => {
                    proof {
                        if env.contains_key(spec_devname_key()) {
                            let i = choose|i: int|
                                0 <= i < pairs@.len() && pairs@[i].0@ == spec_devname_key();
                            assert(false);
                        }
                    }
                    false
                },
            };
            let acc_ok = match lookup(&pairs, &ak) {
                Some(i) => {
                    let expect = crate::gadget::start_value_bytes();
                    slice_eq(pairs[i].1.as_slice(), expect.as_slice())
                },
                None => {
                    proof {
                        if env.contains_key(spec_accessory_key()) {
                            let i = choose|i: int|
                                0 <= i < pairs@.len() && pairs@[i].0@ == spec_accessory_key();
                            assert(false);
                        }
                    }
                    false
                },
            };
            dev_ok && acc_ok
        },
    }
}

} // verus!
