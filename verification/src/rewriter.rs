//! The service-discovery rewriter: applies the configured toggles to a
//! `ServiceDiscoveryResponse` — display density, sink disabling, tap
//! restriction, developer mode, Bluetooth / Wi-Fi stripping, EV features —
//! and reports the sensor and navigation channel ids it saw.  The spec
//! functions here pin down the rewritten message exactly; the laws about the
//! toggles are proved in `laws`.

use vstd::prelude::*;

use crate::config::{AppConfig, EvConnectorType, EvConnectorTypes};
use crate::ids::{
    AUDIO_STREAM_GUIDANCE, AUDIO_STREAM_MEDIA, AUDIO_STREAM_SYSTEM_AUDIO, FUEL_TYPE_ELECTRIC,
    SENSOR_SPEED, SENSOR_VEHICLE_ENERGY_MODEL_DATA,
};
use crate::sdr::{
    MediaSinkService, MediaSinkServiceView, SensorSourceService, SensorSourceServiceView, Sensor,
    SensorView, Service, ServiceDiscoveryResponse, ServiceDiscoveryResponseView, ServiceView,
    VideoConfigView, services_view,
};

verus! {

/// Index of the first element of `ss` satisfying `p`, or `-1`.
pub open spec fn first_where<A>(ss: Seq<A>, p: spec_fn(A) -> bool) -> int
    decreases ss.len(),
{
    if ss.len() == 0 {
        -1
    } else if p(ss[0]) {
        0
    } else {
        let r = first_where(ss.skip(1), p);
        if r == -1 {
            -1
        } else {
            r + 1
        }
    }
}

/// What `first_where` returns: `-1` when nothing matches, else the least
/// matching index.
pub proof fn lemma_first_where<A>(ss: Seq<A>, p: spec_fn(A) -> bool)
    ensures
        first_where(ss, p) == -1 ==> forall|j: int| 0 <= j < ss.len() ==> !p(#[trigger] ss[j]),
        first_where(ss, p) != -1 ==> {
            &&& 0 <= first_where(ss, p) < ss.len()
            &&& p(ss[first_where(ss, p)])
            &&& forall|j: int| 0 <= j < first_where(ss, p) ==> !p(#[trigger] ss[j])
        },
    decreases ss.len(),
{
    if ss.len() != 0 && !p(ss[0]) {
        lemma_first_where(ss.skip(1), p);
        assert forall|j: int| 0 <= j < ss.len() && first_where(ss, p) == -1 implies !p(
            #[trigger] ss[j],
        ) by {
            if j > 0 {
                assert(ss.skip(1)[j - 1] == ss[j]);
            }
        }
        if first_where(ss, p) != -1 {
            let r = first_where(ss.skip(1), p);
            assert(ss.skip(1)[r] == ss[r + 1]);
            assert forall|j: int| 0 <= j < first_where(ss, p) implies !p(#[trigger] ss[j]) by {
                if j > 0 {
                    assert(ss.skip(1)[j - 1] == ss[j]);
                }
            }
        }
    }
}

/// The least matching index is what `first_where` returns.
pub proof fn lemma_first_where_is<A>(ss: Seq<A>, p: spec_fn(A) -> bool, k: int)
    requires
        0 <= k < ss.len(),
        p(ss[k]),
        forall|j: int| 0 <= j < k ==> !p(#[trigger] ss[j]),
    ensures
        first_where(ss, p) == k,
    decreases ss.len(),
{
    if k > 0 {
        assert forall|j: int| 0 <= j < k - 1 implies !p(#[trigger] ss.skip(1)[j]) by {
            assert(ss.skip(1)[j] == ss[j + 1]);
        }
        assert(ss.skip(1)[k - 1] == ss[k]);
        lemma_first_where_is(ss.skip(1), p, k - 1);
    }
}

/// `first_where` of a sequence without matches.
pub proof fn lemma_first_where_none<A>(ss: Seq<A>, p: spec_fn(A) -> bool)
    requires
        forall|j: int| 0 <= j < ss.len() ==> !p(#[trigger] ss[j]),
    ensures
        first_where(ss, p) == -1,
    decreases ss.len(),
{
    if ss.len() != 0 {
        assert forall|j: int| 0 <= j < ss.skip(1).len() implies !p(#[trigger] ss.skip(1)[j]) by {
            assert(ss.skip(1)[j] == ss[j + 1]);
        }
        lemma_first_where_none(ss.skip(1), p);
    }
}

/// The elements of `ss` not satisfying `drop`, in order.
pub open spec fn drop_where<A>(ss: Seq<A>, drop: spec_fn(A) -> bool) -> Seq<A>
    decreases ss.len(),
{
    if ss.len() == 0 {
        Seq::empty()
    } else {
        (if drop(ss[0]) {
            Seq::<A>::empty()
        } else {
            seq![ss[0]]
        }) + drop_where(ss.skip(1), drop)
    }
}

/// Nothing dropped survives, and everything kept was there and not dropped.
pub proof fn lemma_drop_where<A>(ss: Seq<A>, drop: spec_fn(A) -> bool)
    ensures
        forall|j: int|
            0 <= j < drop_where(ss, drop).len() ==> !drop(#[trigger] drop_where(ss, drop)[j]),
        forall|j: int|
            0 <= j < drop_where(ss, drop).len() ==> exists|i: int|
                0 <= i < ss.len() && ss[i] == #[trigger] drop_where(ss, drop)[j],
        forall|i: int|
            0 <= i < ss.len() && !drop(#[trigger] ss[i]) ==> drop_where(ss, drop).contains(ss[i]),
    decreases ss.len(),
{
    if ss.len() != 0 {
        lemma_drop_where(ss.skip(1), drop);
        let rest = drop_where(ss.skip(1), drop);
        let whole = drop_where(ss, drop);
        assert forall|i: int| 0 <= i < ss.len() && !drop(#[trigger] ss[i]) implies whole.contains(
            ss[i],
        ) by {
            if i == 0 {
                assert(whole[0] == ss[0]);
            } else {
                assert(ss.skip(1)[i - 1] == ss[i]);
                assert(rest.contains(ss[i]));
                let k = choose|k: int| 0 <= k < rest.len() && rest[k] == ss[i];
                if drop(ss[0]) {
                    assert(whole[k] == rest[k]);
                } else {
                    assert(whole[k + 1] == rest[k]);
                }
            }
        }
        assert forall|j: int| 0 <= j < whole.len() implies !drop(#[trigger] whole[j]) && exists|
            i: int,
        | 0 <= i < ss.len() && ss[i] == whole[j] by {
            if drop(ss[0]) {
                assert(whole[j] == rest[j]);
                let i = choose|i: int| 0 <= i < ss.skip(1).len() && ss.skip(1)[i] == rest[j];
                assert(ss[i + 1] == whole[j]);
            } else {
                if j == 0 {
                    assert(whole[0] == ss[0]);
                } else {
                    assert(whole[j] == rest[j - 1]);
                    let i = choose|i: int|
                        0 <= i < ss.skip(1).len() && ss.skip(1)[i] == rest[j - 1];
                    assert(ss[i + 1] == whole[j]);
                }
            }
        }
    }
}

/// Whether the service carries a media sink with at least one video
/// configuration.
pub open spec fn svc_has_video(svc: ServiceView) -> bool {
    match svc.media_sink_service {
        Some(ms) => ms.video_configs.len() > 0,
        None => false,
    }
}

/// Whether the service is a guidance (TTS) audio sink with configurations.
pub open spec fn svc_is_tts(svc: ServiceView) -> bool {
    match svc.media_sink_service {
        Some(ms) => ms.audio_configs.len() > 0 && ms.audio_type == Some(AUDIO_STREAM_GUIDANCE),
        None => false,
    }
}

/// Whether the service is a media audio sink.
pub open spec fn svc_is_media(svc: ServiceView) -> bool {
    match svc.media_sink_service {
        Some(ms) => ms.audio_type == Some(AUDIO_STREAM_MEDIA),
        None => false,
    }
}

/// Whether the service carries a sensor source with at least one sensor.
pub open spec fn svc_has_sensors(svc: ServiceView) -> bool {
    match svc.sensor_source_service {
        Some(ss) => ss.sensors.len() > 0,
        None => false,
    }
}

/// Whether the service carries a navigation status service.
pub open spec fn svc_has_nav(svc: ServiceView) -> bool {
    svc.navigation_status_service is Some
}

/// Whether the service carries a Bluetooth service.
pub open spec fn svc_has_bluetooth(svc: ServiceView) -> bool {
    svc.bluetooth_service is Some
}

/// Whether the service carries a Wi-Fi projection service.
pub open spec fn svc_has_wifi(svc: ServiceView) -> bool {
    svc.wifi_projection_service is Some
}

/// The low byte of the service id, zero when absent — the channel number the
/// protocol derives from it.
pub open spec fn spec_id_byte(svc: ServiceView) -> u8 {
    (match svc.id {
        Some(v) => v as int % 0x100,
        None => 0,
    }) as u8
}

/// The service with the density of its first video configuration replaced.
pub open spec fn svc_with_density(svc: ServiceView, dpi: u16) -> ServiceView {
    match svc.media_sink_service {
        Some(ms) => ServiceView {
            media_sink_service: Some(
                MediaSinkServiceView {
                    video_configs: ms.video_configs.update(
                        0,
                        VideoConfigView { density: Some(dpi as u32), ..ms.video_configs[0] },
                    ),
                    ..ms
                },
            ),
            ..svc
        },
        None => svc,
    }
}

/// The service with its audio type turned from guidance to system audio.
pub open spec fn svc_tts_disabled(svc: ServiceView) -> ServiceView {
    if svc_is_tts(svc) {
        ServiceView {
            media_sink_service: Some(
                MediaSinkServiceView {
                    audio_type: Some(AUDIO_STREAM_SYSTEM_AUDIO),
                    ..svc.media_sink_service->Some_0
                },
            ),
            ..svc
        }
    } else {
        svc
    }
}

/// Whether a sensor entry is the speed sensor.
pub open spec fn sensor_is_speed(s: SensorView) -> bool {
    s.sensor_type == Some(SENSOR_SPEED)
}

/// The service with speed sensors removed from its sensor list.
pub open spec fn svc_without_speed(svc: ServiceView) -> ServiceView {
    match svc.sensor_source_service {
        Some(ss) => ServiceView {
            sensor_source_service: Some(
                SensorSourceServiceView {
                    sensors: drop_where(ss.sensors, |x: SensorView| sensor_is_speed(x)),
                    ..ss
                },
            ),
            ..svc
        },
        None => svc,
    }
}

/// The fresh sensor entry the EV step appends.
pub open spec fn spec_ev_sensor() -> SensorView {
    SensorView { sensor_type: Some(SENSOR_VEHICLE_ENERGY_MODEL_DATA), rest: Seq::empty() }
}

/// The service with the EV features applied to its sensor source: the energy
/// model sensor appended, the fuel type fixed to electric, and the connector
/// list replaced.
pub open spec fn svc_with_ev(svc: ServiceView, connectors: Seq<u32>) -> ServiceView {
    match svc.sensor_source_service {
        Some(ss) => ServiceView {
            sensor_source_service: Some(
                SensorSourceServiceView {
                    sensors: ss.sensors.push(spec_ev_sensor()),
                    supported_fuel_types: seq![FUEL_TYPE_ELECTRIC],
                    supported_ev_connector_types: connectors,
                    ..ss
                },
            ),
            ..svc
        },
        None => svc,
    }
}

/// The connector codes the EV step writes: the configured list, or the
/// Mennekes connector when none is configured.
pub open spec fn spec_connector_codes(cfg: AppConfig) -> Seq<u32> {
    match cfg.ev_connector_types {
        Some(EvConnectorTypes(Some(ts))) => ts@.map_values(|t: EvConnectorType| t.spec_code()),
        _ => seq![EvConnectorType::Mennekes.spec_code()],
    }
}

/// Density override: the first service with video configurations gets the
/// configured density; a zero `dpi` leaves everything alone.
pub open spec fn step_dpi(ss: Seq<ServiceView>, dpi: u16) -> Seq<ServiceView> {
    if dpi == 0 {
        ss
    } else {
        let i = first_where(ss, |s: ServiceView| svc_has_video(s));
        if i == -1 {
            ss
        } else {
            ss.update(i, svc_with_density(ss[i], dpi))
        }
    }
}

/// TTS sink disabling: every guidance sink with configurations becomes a
/// system-audio sink.
pub open spec fn step_tts(ss: Seq<ServiceView>, on: bool) -> Seq<ServiceView> {
    if on {
        ss.map_values(|s: ServiceView| svc_tts_disabled(s))
    } else {
        ss
    }
}

/// Media sink disabling: media audio sinks are dropped.
pub open spec fn step_media(ss: Seq<ServiceView>, on: bool) -> Seq<ServiceView> {
    if on {
        drop_where(ss, |s: ServiceView| svc_is_media(s))
    } else {
        ss
    }
}

/// The captured channel id: the id byte of the first service matching `p`.
pub open spec fn capture_channel(
    ss: Seq<ServiceView>,
    on: bool,
    p: spec_fn(ServiceView) -> bool,
) -> Option<u8> {
    if !on {
        None
    } else {
        let i = first_where(ss, p);
        if i == -1 {
            None
        } else {
            Some(spec_id_byte(ss[i]))
        }
    }
}

/// Tap-restriction removal: the first service with sensors loses its speed
/// sensors.
pub open spec fn step_tap(ss: Seq<ServiceView>, on: bool) -> Seq<ServiceView> {
    if !on {
        ss
    } else {
        let i = first_where(ss, |s: ServiceView| svc_has_sensors(s));
        if i == -1 {
            ss
        } else {
            ss.update(i, svc_without_speed(ss[i]))
        }
    }
}

/// Bluetooth service stripping.
pub open spec fn step_bluetooth(ss: Seq<ServiceView>, on: bool) -> Seq<ServiceView> {
    if on {
        drop_where(ss, |s: ServiceView| svc_has_bluetooth(s))
    } else {
        ss
    }
}

/// Wi-Fi projection service stripping.
pub open spec fn step_wifi(ss: Seq<ServiceView>, on: bool) -> Seq<ServiceView> {
    if on {
        drop_where(ss, |s: ServiceView| svc_has_wifi(s))
    } else {
        ss
    }
}

/// EV features: the first service with sensors gets the energy-model sensor,
/// the electric fuel type and the connector list.
pub open spec fn step_ev(ss: Seq<ServiceView>, on: bool, connectors: Seq<u32>) -> Seq<
    ServiceView,
> {
    if !on {
        ss
    } else {
        let i = first_where(ss, |s: ServiceView| svc_has_sensors(s));
        if i == -1 {
            ss
        } else {
            ss.update(i, svc_with_ev(ss[i], connectors))
        }
    }
}

/// The `make` bytes developer mode writes.
pub open spec fn spec_make_google() -> Seq<u8> {
    seq![0x47u8, 0x6Fu8, 0x6Fu8, 0x67u8, 0x6Cu8, 0x65u8]
}

/// The `model` bytes developer mode writes.
pub open spec fn spec_model_dhu() -> Seq<u8> {
    seq![
        0x44u8, 0x65u8, 0x73u8, 0x6Bu8, 0x74u8, 0x6Fu8, 0x70u8, 0x20u8, 0x48u8, 0x65u8, 0x61u8,
        0x64u8, 0x20u8, 0x55u8, 0x6Eu8, 0x69u8, 0x74u8,
    ]
}

/// The rewritten message and the captured sensor and navigation channels,
/// for a message and a configuration.  The steps apply in the order the
/// proxy performs them: density, TTS disable, media-sink drop, channel
/// capture on the surviving services, tap-restriction removal, developer
/// make/model, Bluetooth and Wi-Fi stripping, EV features.
pub open spec fn spec_rewrite_sdr(m: ServiceDiscoveryResponseView, cfg: AppConfig) -> (
    ServiceDiscoveryResponseView,
    Option<u8>,
    Option<u8>,
) {
    let ss1 = step_dpi(m.services, cfg.dpi);
    let ss2 = step_tts(ss1, cfg.disable_tts_sink);
    let ss3 = step_media(ss2, cfg.disable_media_sink);
    let sensor_ch = capture_channel(
        ss3,
        cfg.ev || cfg.video_in_motion,
        |s: ServiceView| svc_has_sensors(s),
    );
    let nav_ch = capture_channel(ss3, cfg.waze_lht_workaround, |s: ServiceView| svc_has_nav(s));
    let ss4 = step_tap(ss3, cfg.remove_tap_restriction);
    let ss5 = step_bluetooth(ss4, cfg.remove_bluetooth);
    let ss6 = step_wifi(ss5, cfg.remove_wifi);
    let ss7 = step_ev(ss6, cfg.ev, spec_connector_codes(cfg));
    let out = ServiceDiscoveryResponseView {
        services: ss7,
        make: if cfg.developer_mode {
            Some(spec_make_google())
        } else {
            m.make
        },
        model: if cfg.developer_mode {
            Some(spec_model_dhu())
        } else {
            m.model
        },
        rest: m.rest,
    };
    (out, sensor_ch, nav_ch)
}

fn has_video(svc: &Service) -> (r: bool)
    ensures
        r == svc_has_video(svc@),
{
    match &svc.media_sink_service {
        Some(ms) => ms.video_configs.len() > 0,
        None => false,
    }
}

fn has_sensors(svc: &Service) -> (r: bool)
    ensures
        r == svc_has_sensors(svc@),
{
    match &svc.sensor_source_service {
        Some(ss) => ss.sensors.len() > 0,
        None => false,
    }
}

fn has_nav(svc: &Service) -> (r: bool)
    ensures
        r == svc_has_nav(svc@),
{
    svc.navigation_status_service.is_some()
}

/// Which services a stripping step drops.
#[derive(Clone, Copy, PartialEq, Eq, Structural)]
enum DropKind {
    MediaSink,
    Bluetooth,
    WifiProjection,
}

spec fn spec_drop_pred(kind: DropKind) -> spec_fn(ServiceView) -> bool {
    match kind {
        DropKind::MediaSink => |s: ServiceView| svc_is_media(s),
        DropKind::Bluetooth => |s: ServiceView| svc_has_bluetooth(s),
        DropKind::WifiProjection => |s: ServiceView| svc_has_wifi(s),
    }
}

fn drop_matches(kind: DropKind, svc: &Service) -> (r: bool)
    ensures
        r == spec_drop_pred(kind)(svc@),
{
    match kind {
        DropKind::MediaSink => match &svc.media_sink_service {
            Some(ms) => match ms.audio_type {
                Some(t) => t == AUDIO_STREAM_MEDIA,
                None => false,
            },
            None => false,
        },
        DropKind::Bluetooth => svc.bluetooth_service.is_some(),
        DropKind::WifiProjection => svc.wifi_projection_service.is_some(),
    }
}

/// Removes every service the kind's predicate matches, keeping the order of
/// the rest.
#[verifier::loop_isolation(false)]
fn drop_services(services: &mut Vec<Service>, kind: DropKind)
    ensures
        services_view(final(services)@) == drop_where(
            services_view(old(services)@),
            spec_drop_pred(kind),
        ),
{
    let ghost orig = services_view(services@);
    let ghost p = spec_drop_pred(kind);
    let mut out: Vec<Service> = Vec::new();
    proof {
        assert(services_view(out@) =~= Seq::<ServiceView>::empty());
    }
    while services.len() > 0
        invariant
            services_view(out@) + drop_where(services_view(services@), p) == drop_where(orig, p),
        decreases services@.len(),
    {
        let ghost pre = services_view(services@);
        let s = services.remove(0);
        proof {
            assert(services_view(services@) =~= pre.skip(1));
            assert(pre[0] == s@);
        }
        if !drop_matches(kind, &s) {
            let ghost outpre = services_view(out@);
            out.push(s);
            proof {
                assert(services_view(out@) =~= outpre.push(s@));
                assert(outpre.push(s@) + drop_where(pre.skip(1), p) =~= outpre + (seq![s@]
                    + drop_where(pre.skip(1), p)));
            }
        } else {
            proof {
                assert(drop_where(pre, p) =~= drop_where(pre.skip(1), p));
            }
        }
    }
    proof {
        assert(services_view(services@) =~= Seq::<ServiceView>::empty());
        assert(drop_where(services_view(services@), p) =~= Seq::<ServiceView>::empty());
        assert(services_view(out@) + drop_where(services_view(services@), p) =~= services_view(
            out@,
        ));
    }
    *services = out;
}

/// Removes every speed sensor from a sensor list.
#[verifier::loop_isolation(false)]
fn drop_speed_sensors(sensors: &mut Vec<Sensor>)
    ensures
        crate::sdr::sensors_view(final(sensors)@) == drop_where(
            crate::sdr::sensors_view(old(sensors)@),
            |x: SensorView| sensor_is_speed(x),
        ),
{
    let ghost orig = crate::sdr::sensors_view(sensors@);
    let ghost p = |x: SensorView| sensor_is_speed(x);
    let mut out: Vec<Sensor> = Vec::new();
    proof {
        assert(crate::sdr::sensors_view(out@) =~= Seq::<SensorView>::empty());
    }
    while sensors.len() > 0
        invariant
            crate::sdr::sensors_view(out@) + drop_where(crate::sdr::sensors_view(sensors@), p)
                == drop_where(orig, p),
        decreases sensors@.len(),
    {
        let ghost pre = crate::sdr::sensors_view(sensors@);
        let s = sensors.remove(0);
        proof {
            assert(crate::sdr::sensors_view(sensors@) =~= pre.skip(1));
            assert(pre[0] == s@);
        }
        let is_speed = match s.sensor_type {
            Some(t) => t == SENSOR_SPEED,
            None => false,
        };
        if !is_speed {
            let ghost outpre = crate::sdr::sensors_view(out@);
            out.push(s);
            proof {
                assert(crate::sdr::sensors_view(out@) =~= outpre.push(s@));
                assert(outpre.push(s@) + drop_where(pre.skip(1), p) =~= outpre + (seq![s@]
                    + drop_where(pre.skip(1), p)));
            }
        } else {
            proof {
                assert(drop_where(pre, p) =~= drop_where(pre.skip(1), p));
            }
        }
    }
    proof {
        assert(crate::sdr::sensors_view(sensors@) =~= Seq::<SensorView>::empty());
        assert(crate::sdr::sensors_view(out@) + drop_where(
            crate::sdr::sensors_view(sensors@),
            p,
        ) =~= crate::sdr::sensors_view(out@));
    }
    *sensors = out;
}

/// Index of the first service with video configurations.
#[verifier::loop_isolation(false)]
fn find_video(services: &Vec<Service>) -> (r: Option<usize>)
    ensures
        match r {
            Some(i) => first_where(services_view(services@), |s: ServiceView| svc_has_video(s))
                == i as int && i < services@.len() && svc_has_video(
                services_view(services@)[i as int],
            ),
            None => first_where(services_view(services@), |s: ServiceView| svc_has_video(s))
                == -1,
        },
{
    let ghost vs = services_view(services@);
    let ghost p = |s: ServiceView| svc_has_video(s);
    let mut k: usize = 0;
    while k < services.len()
        invariant
            k <= vs.len(),
            vs == services_view(services@),
            forall|j: int| 0 <= j < k ==> !p(#[trigger] vs[j]),
        decreases vs.len() - k,
    {
        let hit = has_video(&services[k]);
        proof {
            assert(vs[k as int] == services@[k as int]@);
        }
        if hit {
            proof {
                lemma_first_where_is(vs, p, k as int);
            }
            return Some(k);
        }
        k = k + 1;
    }
    proof {
        lemma_first_where_none(vs, p);
    }
    None
}

/// Index of the first service with a non-empty sensor list.
#[verifier::loop_isolation(false)]
fn find_sensors(services: &Vec<Service>) -> (r: Option<usize>)
    ensures
        match r {
            Some(i) => first_where(services_view(services@), |s: ServiceView| svc_has_sensors(s))
                == i as int && i < services@.len() && svc_has_sensors(
                services_view(services@)[i as int],
            ),
            None => first_where(services_view(services@), |s: ServiceView| svc_has_sensors(s))
                == -1,
        },
{
    let ghost vs = services_view(services@);
    let ghost p = |s: ServiceView| svc_has_sensors(s);
    let mut k: usize = 0;
    while k < services.len()
        invariant
            k <= vs.len(),
            vs == services_view(services@),
            forall|j: int| 0 <= j < k ==> !p(#[trigger] vs[j]),
        decreases vs.len() - k,
    {
        let hit = has_sensors(&services[k]);
        proof {
            assert(vs[k as int] == services@[k as int]@);
        }
        if hit {
            proof {
                lemma_first_where_is(vs, p, k as int);
            }
            return Some(k);
        }
        k = k + 1;
    }
    proof {
        lemma_first_where_none(vs, p);
    }
    None
}

/// Index of the first service with a navigation status service.
#[verifier::loop_isolation(false)]
fn find_nav(services: &Vec<Service>) -> (r: Option<usize>)
    ensures
        match r {
            Some(i) => first_where(services_view(services@), |s: ServiceView| svc_has_nav(s))
                == i as int && i < services@.len() && svc_has_nav(
                services_view(services@)[i as int],
            ),
            None => first_where(services_view(services@), |s: ServiceView| svc_has_nav(s)) == -1,
        },
{
    let ghost vs = services_view(services@);
    let ghost p = |s: ServiceView| svc_has_nav(s);
    let mut k: usize = 0;
    while k < services.len()
        invariant
            k <= vs.len(),
            vs == services_view(services@),
            forall|j: int| 0 <= j < k ==> !p(#[trigger] vs[j]),
        decreases vs.len() - k,
    {
        let hit = has_nav(&services[k]);
        proof {
            assert(vs[k as int] == services@[k as int]@);
        }
        if hit {
            proof {
                lemma_first_where_is(vs, p, k as int);
            }
            return Some(k);
        }
        k = k + 1;
    }
    proof {
        lemma_first_where_none(vs, p);
    }
    None
}

/// Replaces the service at `i` and proves the view updates pointwise.
fn replace_service(services: &mut Vec<Service>, i: usize, svc: Service)
    requires
        i < old(services)@.len(),
    ensures
        services_view(final(services)@) == services_view(old(services)@).update(i as int, svc@),
{
    let ghost orig = services_view(services@);
    let _ = services.remove(i);
    services.insert(i, svc);
    proof {
        assert(services_view(services@) =~= orig.update(i as int, svc@));
    }
}

/// The low byte of the service id, zero when the id is absent.
fn id_byte(svc: &Service) -> (r: u8)
    ensures
        r == spec_id_byte(svc@),
{
    match svc.id {
        Some(v) => (v % 0x100) as u8,
        None => 0,
    }
}

fn make_google() -> (r: Vec<u8>)
    ensures
        r@ == spec_make_google(),
{
    let mut r: Vec<u8> = Vec::new();
    r.push(0x47);
    r.push(0x6F);
    r.push(0x6F);
    r.push(0x67);
    r.push(0x6C);
    r.push(0x65);
    proof {
        assert(r@ =~= spec_make_google());
    }
    r
}

fn model_dhu() -> (r: Vec<u8>)
    ensures
        r@ == spec_model_dhu(),
{
    let mut r: Vec<u8> = Vec::new();
    r.push(0x44);
    r.push(0x65);
    r.push(0x73);
    r.push(0x6B);
    r.push(0x74);
    r.push(0x6F);
    r.push(0x70);
    r.push(0x20);
    r.push(0x48);
    r.push(0x65);
    r.push(0x61);
    r.push(0x64);
    r.push(0x20);
    r.push(0x55);
    r.push(0x6E);
    r.push(0x69);
    r.push(0x74);
    proof {
        assert(r@ =~= spec_model_dhu());
    }
    r
}

/// The connector codes to advertise, as `spec_connector_codes` describes.
fn connector_codes(cfg: &AppConfig) -> (r: Vec<u32>)
    ensures
        r@ == spec_connector_codes(*cfg),
{
    match &cfg.ev_connector_types {
        Some(EvConnectorTypes(Some(ts))) => {
            let mut r: Vec<u32> = Vec::new();
            let mut k: usize = 0;
            while k < ts.len()
                invariant
                    k <= ts@.len(),
                    r@.len() == k,
                    forall|j: int| 0 <= j < k ==> r@[j] == #[trigger] ts@[j].spec_code(),
                decreases ts@.len() - k,
            {
                r.push(ts[k].code());
                k = k + 1;
            }
            proof {
                assert(r@ =~= ts@.map_values(|t: EvConnectorType| t.spec_code()));
            }
            r
        },
        _ => {
            let mut r: Vec<u32> = Vec::new();
            r.push(EvConnectorType::Mennekes.code());
            proof {
                assert(r@ =~= seq![EvConnectorType::Mennekes.spec_code()]);
            }
            r
        },
    }
}


/// Applies the density override in place, as `step_dpi` describes.
#[verifier::loop_isolation(false)]
#[verifier::spinoff_prover]
fn step_dpi_exec(services: &mut Vec<Service>, dpi: u16)
    ensures
        services_view(final(services)@) == step_dpi(services_view(old(services)@), dpi),
{
    if dpi == 0 {
        return;
    }
    match find_video(services) {
        Some(i) => {
            let ghost pre = services_view(services@);
            let mut svc = services.remove(i);
            proof {
                assert(pre[i as int] == svc@);
                assert(svc_has_video(svc@));
            }
            match &mut svc.media_sink_service {
                Some(ms) => {
                    let ghost msv = ms@;
                    proof {
                        assert(msv.video_configs.len() > 0);
                        assert(crate::sdr::videos_view(ms.video_configs@).len()
                            == ms.video_configs@.len());
                    }
                    let mut vc = ms.video_configs.remove(0);
                    vc.density = Some(dpi as u32);
                    ms.video_configs.insert(0, vc);
                    proof {
                        assert(crate::sdr::videos_view(ms.video_configs@) =~= msv.video_configs
                            .update(
                            0,
                            VideoConfigView { density: Some(dpi as u32), ..msv.video_configs[0] },
                        ));
                    }
                },
                None => {
                    proof {
                        assert(false);
                    }
                },
            }
            proof {
                assert(svc@ == svc_with_density(pre[i as int], dpi));
            }
            services.insert(i, svc);
            proof {
                assert(services_view(services@) =~= pre.update(i as int, svc@));
            }
        },
        None => (),
    }
}

/// Disables every guidance sink in place, as `step_tts` describes.
#[verifier::loop_isolation(false)]
#[verifier::spinoff_prover]
fn step_tts_exec(services: &mut Vec<Service>, on: bool)
    ensures
        services_view(final(services)@) == step_tts(services_view(old(services)@), on),
{
    if !on {
        return;
    }
    let ghost orig = services_view(services@);
    let mut k: usize = 0;
    while k < services.len()
        invariant
            k <= orig.len(),
            services@.len() == orig.len(),
            forall|j: int|
                k <= j < orig.len() ==> services_view(services@)[j] == #[trigger] orig[j],
            forall|j: int|
                0 <= j < k ==> services_view(services@)[j] == svc_tts_disabled(#[trigger] orig[j]),
        decreases orig.len() - k,
    {
        let is_tts = match &services[k].media_sink_service {
            Some(ms) => ms.audio_configs.len() > 0 && match ms.audio_type {
                Some(t) => t == AUDIO_STREAM_GUIDANCE,
                None => false,
            },
            None => false,
        };
        proof {
            assert(services_view(services@)[k as int] == services@[k as int]@);
            assert(is_tts == svc_is_tts(orig[k as int]));
        }
        if is_tts {
            let ghost pre = services_view(services@);
            let mut svc = services.remove(k);
            proof {
                assert(pre[k as int] == svc@);
            }
            match &mut svc.media_sink_service {
                Some(ms) => {
                    ms.audio_type = Some(AUDIO_STREAM_SYSTEM_AUDIO);
                },
                None => {
                    proof {
                        assert(false);
                    }
                },
            }
            services.insert(k, svc);
            proof {
                assert(services_view(services@) =~= pre.update(k as int, svc@));
                assert(svc@ == svc_tts_disabled(orig[k as int]));
            }
        }
        k = k + 1;
    }
    proof {
        assert(services_view(services@) =~= orig.map_values(
            |s: ServiceView| svc_tts_disabled(s),
        ));
    }
}

/// Removes the speed sensors of the first sensor service in place, as
/// `step_tap` describes.
#[verifier::loop_isolation(false)]
#[verifier::spinoff_prover]
fn step_tap_exec(services: &mut Vec<Service>, on: bool)
    ensures
        services_view(final(services)@) == step_tap(services_view(old(services)@), on),
{
    if !on {
        return;
    }
    match find_sensors(services) {
        Some(i) => {
            let ghost pre = services_view(services@);
            let mut svc = services.remove(i);
            proof {
                assert(pre[i as int] == svc@);
                assert(svc_has_sensors(svc@));
            }
            match &mut svc.sensor_source_service {
                Some(ss) => {
                    drop_speed_sensors(&mut ss.sensors);
                },
                None => {
                    proof {
                        assert(false);
                    }
                },
            }
            services.insert(i, svc);
            proof {
                assert(svc@ == svc_without_speed(pre[i as int]));
                assert(services_view(services@) =~= pre.update(i as int, svc@));
            }
        },
        None => (),
    }
}

/// Adds the EV features to the first sensor service in place, as `step_ev`
/// describes.
#[verifier::loop_isolation(false)]
#[verifier::spinoff_prover]
fn step_ev_exec(services: &mut Vec<Service>, on: bool, cfg: &AppConfig)
    ensures
        services_view(final(services)@) == step_ev(
            services_view(old(services)@),
            on,
            spec_connector_codes(*cfg),
        ),
{
    if !on {
        return;
    }
    match find_sensors(services) {
        Some(i) => {
            let ghost pre = services_view(services@);
            let mut svc = services.remove(i);
            proof {
                assert(pre[i as int] == svc@);
                assert(svc_has_sensors(svc@));
            }
            match &mut svc.sensor_source_service {
                Some(ss) => {
                    let ghost ssv = ss@;
                    let ev_rest: Vec<u8> = Vec::new();
                    ss.sensors.push(
                        Sensor { sensor_type: Some(SENSOR_VEHICLE_ENERGY_MODEL_DATA), rest: ev_rest },
                    );
                    let mut fuel: Vec<u32> = Vec::new();
                    fuel.push(FUEL_TYPE_ELECTRIC);
                    ss.supported_fuel_types = fuel;
                    ss.supported_ev_connector_types = connector_codes(cfg);
                    proof {
                        assert(crate::sdr::sensors_view(ss.sensors@) =~= ssv.sensors.push(
                            spec_ev_sensor(),
                        ));
                        assert(ss.supported_fuel_types@ =~= seq![FUEL_TYPE_ELECTRIC]);
                    }
                },
                None => {
                    proof {
                        assert(false);
                    }
                },
            }
            services.insert(i, svc);
            proof {
                assert(svc@ == svc_with_ev(pre[i as int], spec_connector_codes(*cfg)));
                assert(services_view(services@) =~= pre.update(i as int, svc@));
            }
        },
        None => (),
    }
}

/// The captured channel id for the first service with sensors.
fn capture_sensor_exec(services: &Vec<Service>, on: bool) -> (r: Option<u8>)
    ensures
        r == capture_channel(services_view(services@), on, |s: ServiceView| svc_has_sensors(s)),
{
    if !on {
        return None;
    }
    match find_sensors(services) {
        Some(i) => {
            proof {
                assert(services_view(services@)[i as int] == services@[i as int]@);
            }
            Some(id_byte(&services[i]))
        },
        None => None,
    }
}

/// The captured channel id for the first service with a navigation status
/// service.
fn capture_nav_exec(services: &Vec<Service>, on: bool) -> (r: Option<u8>)
    ensures
        r == capture_channel(services_view(services@), on, |s: ServiceView| svc_has_nav(s)),
{
    if !on {
        return None;
    }
    match find_nav(services) {
        Some(i) => {
            proof {
                assert(services_view(services@)[i as int] == services@[i as int]@);
            }
            Some(id_byte(&services[i]))
        },
        None => None,
    }
}

/// Applies the configured toggles to a parsed `ServiceDiscoveryResponse`, as
/// `spec_rewrite_sdr` describes, and returns the captured sensor and
/// navigation channel ids.
pub fn rewrite_sdr(msg: &mut ServiceDiscoveryResponse, cfg: &AppConfig) -> (captured: (
    Option<u8>,
    Option<u8>,
))
    ensures
        final(msg)@ == spec_rewrite_sdr(old(msg)@, *cfg).0,
        captured.0 == spec_rewrite_sdr(old(msg)@, *cfg).1,
        captured.1 == spec_rewrite_sdr(old(msg)@, *cfg).2,
{
    step_dpi_exec(&mut msg.services, cfg.dpi);
    step_tts_exec(&mut msg.services, cfg.disable_tts_sink);
    if cfg.disable_media_sink {
        drop_services(&mut msg.services, DropKind::MediaSink);
    }
    let sensor_ch = capture_sensor_exec(&msg.services, cfg.ev || cfg.video_in_motion);
    let nav_ch = capture_nav_exec(&msg.services, cfg.waze_lht_workaround);
    step_tap_exec(&mut msg.services, cfg.remove_tap_restriction);
    if cfg.remove_bluetooth {
        drop_services(&mut msg.services, DropKind::Bluetooth);
    }
    if cfg.remove_wifi {
        drop_services(&mut msg.services, DropKind::WifiProjection);
    }
    step_ev_exec(&mut msg.services, cfg.ev, cfg);
    if cfg.developer_mode {
        msg.make = Some(make_google());
        msg.model = Some(model_dhu());
    }
    (sensor_ch, nav_ch)
}

} // verus!
