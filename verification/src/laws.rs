//! Laws of the rewriter, proved against `spec_rewrite_sdr`: what a message
//! looks like after the rewrite, for each toggle of interest.

use vstd::prelude::*;

use crate::config::AppConfig;
use crate::rewriter::{
    capture_channel, drop_where, first_where, spec_id_byte, spec_make_google, spec_model_dhu,
    spec_rewrite_sdr, step_bluetooth, step_dpi, step_ev, step_media, step_tap, step_tts,
    svc_has_sensors, svc_is_media, svc_tts_disabled, svc_with_ev, svc_without_speed,
    lemma_drop_where, lemma_first_where, sensor_is_speed,
};
use crate::sdr::{SensorView, ServiceDiscoveryResponseView, ServiceView};

verus! {

/// Whether the configuration turns every rewrite off.
pub open spec fn all_rewrites_off(cfg: AppConfig) -> bool {
    &&& cfg.dpi == 0
    &&& !cfg.disable_tts_sink
    &&& !cfg.disable_media_sink
    &&& !cfg.ev
    &&& !cfg.video_in_motion
    &&& !cfg.waze_lht_workaround
    &&& !cfg.remove_tap_restriction
    &&& !cfg.developer_mode
    &&& !cfg.remove_bluetooth
    &&& !cfg.remove_wifi
}

/// With every toggle off the rewriter is the identity: the message comes out
/// exactly as it went in, and no channel is captured.
pub proof fn lemma_rewrite_identity(m: ServiceDiscoveryResponseView, cfg: AppConfig)
    requires
        all_rewrites_off(cfg),
    ensures
        spec_rewrite_sdr(m, cfg).0 == m,
        spec_rewrite_sdr(m, cfg).1 is None,
        spec_rewrite_sdr(m, cfg).2 is None,
{
    assert(spec_rewrite_sdr(m, cfg).0 =~= m);
}

/// With developer mode on, the output advertises the Google Desktop Head
/// Unit as make and model.
pub proof fn lemma_developer_mode(m: ServiceDiscoveryResponseView, cfg: AppConfig)
    requires
        cfg.developer_mode,
    ensures
        spec_rewrite_sdr(m, cfg).0.make == Some(spec_make_google()),
        spec_rewrite_sdr(m, cfg).0.model == Some(spec_model_dhu()),
{
}

/// With the media sink disabled, no media audio sink appears among the
/// output services.
pub proof fn lemma_media_sink_disabled(m: ServiceDiscoveryResponseView, cfg: AppConfig)
    requires
        cfg.disable_media_sink,
    ensures
        forall|j: int|
            0 <= j < spec_rewrite_sdr(m, cfg).0.services.len() ==> !svc_is_media(
                #[trigger] spec_rewrite_sdr(m, cfg).0.services[j],
            ),
{
    let ss1 = step_dpi(m.services, cfg.dpi);
    let ss2 = step_tts(ss1, cfg.disable_tts_sink);
    let ss3 = step_media(ss2, cfg.disable_media_sink);
    let ss4 = step_tap(ss3, cfg.remove_tap_restriction);
    let ss5 = step_bluetooth(ss4, cfg.remove_bluetooth);
    let ss6 = crate::rewriter::step_wifi(ss5, cfg.remove_wifi);
    let ss7 = step_ev(ss6, cfg.ev, crate::rewriter::spec_connector_codes(cfg));
    lemma_drop_where(ss2, |s: ServiceView| svc_is_media(s));
    assert(forall|j: int| 0 <= j < ss3.len() ==> !svc_is_media(#[trigger] ss3[j]));
    assert forall|j: int| 0 <= j < ss4.len() implies !svc_is_media(#[trigger] ss4[j]) by {
        if cfg.remove_tap_restriction {
            let i = first_where(ss3, |s: ServiceView| svc_has_sensors(s));
            if i != -1 {
                lemma_first_where(ss3, |s: ServiceView| svc_has_sensors(s));
                assert(svc_is_media(svc_without_speed(ss3[i])) == svc_is_media(ss3[i]));
            }
        }
    }
    if cfg.remove_bluetooth {
        lemma_drop_where(ss4, |s: ServiceView| crate::rewriter::svc_has_bluetooth(s));
        assert forall|j: int| 0 <= j < ss5.len() implies !svc_is_media(#[trigger] ss5[j]) by {
            let i = choose|i: int| 0 <= i < ss4.len() && ss4[i] == ss5[j];
        }
    }
    if cfg.remove_wifi {
        lemma_drop_where(ss5, |s: ServiceView| crate::rewriter::svc_has_wifi(s));
        assert forall|j: int| 0 <= j < ss6.len() implies !svc_is_media(#[trigger] ss6[j]) by {
            let i = choose|i: int| 0 <= i < ss5.len() && ss5[i] == ss6[j];
        }
    }
    assert forall|j: int| 0 <= j < ss7.len() implies !svc_is_media(#[trigger] ss7[j]) by {
        if cfg.ev {
            let i = first_where(ss6, |s: ServiceView| svc_has_sensors(s));
            if i != -1 {
                lemma_first_where(ss6, |s: ServiceView| svc_has_sensors(s));
                assert(svc_is_media(
                    svc_with_ev(ss6[i], crate::rewriter::spec_connector_codes(cfg)),
                ) == svc_is_media(ss6[i]));
            }
        }
    }
}

/// The density and TTS steps touch only the media sink: length, ids, sensor
/// sources and navigation services all stay as they were.
pub proof fn lemma_dpi_tts_preserve(ss: Seq<ServiceView>, dpi: u16, tts: bool)
    ensures
        step_tts(step_dpi(ss, dpi), tts).len() == ss.len(),
        forall|j: int|
            0 <= j < ss.len() ==> {
                let t = #[trigger] step_tts(step_dpi(ss, dpi), tts)[j];
                &&& t.id == ss[j].id
                &&& t.sensor_source_service == ss[j].sensor_source_service
                &&& t.navigation_status_service == ss[j].navigation_status_service
            },
{
    let ss1 = step_dpi(ss, dpi);
    if dpi > 0 {
        let i = first_where(ss, |s: ServiceView| crate::rewriter::svc_has_video(s));
        if i != -1 {
            lemma_first_where(ss, |s: ServiceView| crate::rewriter::svc_has_video(s));
        }
    }
    assert(ss1.len() == ss.len());
    assert forall|j: int| 0 <= j < ss.len() implies {
        let t = #[trigger] step_tts(ss1, tts)[j];
        &&& t.id == ss[j].id
        &&& t.sensor_source_service == ss[j].sensor_source_service
        &&& t.navigation_status_service == ss[j].navigation_status_service
    } by {
        assert(ss1[j].id == ss[j].id && ss1[j].sensor_source_service == ss[
            j
        ].sensor_source_service && ss1[j].navigation_status_service == ss[
            j
        ].navigation_status_service);
        if tts {
            assert(step_tts(ss1, tts)[j] == svc_tts_disabled(ss1[j]));
        }
    }
}

/// The captured sensor channel is the id of the first service with a
/// non-empty sensor list in the input, provided sensor capture is on and no
/// media sink is being dropped (a dropped media service could otherwise have
/// been that first service).
pub proof fn lemma_sensor_channel_capture(m: ServiceDiscoveryResponseView, cfg: AppConfig)
    requires
        cfg.ev || cfg.video_in_motion,
        !cfg.disable_media_sink,
    ensures
        spec_rewrite_sdr(m, cfg).1 == capture_channel(
            m.services,
            true,
            |s: ServiceView| svc_has_sensors(s),
        ),
{
    let p = |s: ServiceView| svc_has_sensors(s);
    let ss2 = step_tts(step_dpi(m.services, cfg.dpi), cfg.disable_tts_sink);
    let ss3 = step_media(ss2, cfg.disable_media_sink);
    assert(ss3 == ss2);
    lemma_dpi_tts_preserve(m.services, cfg.dpi, cfg.disable_tts_sink);
    assert forall|j: int| 0 <= j < m.services.len() implies p(#[trigger] ss3[j]) == p(
        m.services[j],
    ) && spec_id_byte(ss3[j]) == spec_id_byte(m.services[j]) by {
        assert(ss3[j].sensor_source_service == m.services[j].sensor_source_service);
        assert(ss3[j].id == m.services[j].id);
    }
    let k0 = first_where(m.services, p);
    lemma_first_where(m.services, p);
    if k0 == -1 {
        crate::rewriter::lemma_first_where_none(ss3, p);
    } else {
        crate::rewriter::lemma_first_where_is(ss3, p, k0);
    }
}

/// The captured navigation channel is likewise the id of the first service
/// carrying a navigation status service in the input.
pub proof fn lemma_nav_channel_capture(m: ServiceDiscoveryResponseView, cfg: AppConfig)
    requires
        cfg.waze_lht_workaround,
        !cfg.disable_media_sink,
    ensures
        spec_rewrite_sdr(m, cfg).2 == capture_channel(
            m.services,
            true,
            |s: ServiceView| crate::rewriter::svc_has_nav(s),
        ),
{
    let p = |s: ServiceView| crate::rewriter::svc_has_nav(s);
    let ss2 = step_tts(step_dpi(m.services, cfg.dpi), cfg.disable_tts_sink);
    let ss3 = step_media(ss2, cfg.disable_media_sink);
    assert(ss3 == ss2);
    lemma_dpi_tts_preserve(m.services, cfg.dpi, cfg.disable_tts_sink);
    assert forall|j: int| 0 <= j < m.services.len() implies p(#[trigger] ss3[j]) == p(
        m.services[j],
    ) && spec_id_byte(ss3[j]) == spec_id_byte(m.services[j]) by {
        assert(ss3[j].navigation_status_service == m.services[j].navigation_status_service);
        assert(ss3[j].id == m.services[j].id);
    }
    let k0 = first_where(m.services, p);
    lemma_first_where(m.services, p);
    if k0 == -1 {
        crate::rewriter::lemma_first_where_none(ss3, p);
    } else {
        crate::rewriter::lemma_first_where_is(ss3, p, k0);
    }
}

/// The sensors of a service: empty when it has no sensor source.
pub open spec fn svc_sensors(svc: ServiceView) -> Seq<SensorView> {
    match svc.sensor_source_service {
        Some(ss) => ss.sensors,
        None => Seq::empty(),
    }
}

/// Whether a service carries no speed sensor.
pub open spec fn svc_no_speed(svc: ServiceView) -> bool {
    forall|k: int| 0 <= k < svc_sensors(svc).len() ==> !sensor_is_speed(#[trigger] svc_sensors(svc)[k])
}

/// With the tap restriction removed, no speed sensor remains in the output,
/// provided at most one input service carries sensors (the proxy only cleans
/// the first such service) and no service-dropping toggle reorders which one
/// that is.
pub proof fn lemma_tap_restriction(m: ServiceDiscoveryResponseView, cfg: AppConfig)
    requires
        cfg.remove_tap_restriction,
        !cfg.disable_media_sink,
        forall|i: int, j: int|
            0 <= i < m.services.len() && 0 <= j < m.services.len() && svc_has_sensors(
                #[trigger] m.services[i],
            ) && svc_has_sensors(#[trigger] m.services[j]) ==> i == j,
    ensures
        forall|j: int|
            0 <= j < spec_rewrite_sdr(m, cfg).0.services.len() ==> svc_no_speed(
                #[trigger] spec_rewrite_sdr(m, cfg).0.services[j],
            ),
{
    let p = |s: ServiceView| svc_has_sensors(s);
    let ss2 = step_tts(step_dpi(m.services, cfg.dpi), cfg.disable_tts_sink);
    let ss3 = step_media(ss2, cfg.disable_media_sink);
    assert(ss3 == ss2);
    lemma_dpi_tts_preserve(m.services, cfg.dpi, cfg.disable_tts_sink);
    // The density and TTS steps leave every sensor list alone.
    assert forall|j: int| 0 <= j < m.services.len() implies svc_sensors(#[trigger] ss3[j])
        == svc_sensors(m.services[j]) && p(ss3[j]) == p(m.services[j]) by {
        assert(ss3[j].sensor_source_service == m.services[j].sensor_source_service);
    }
    let ss4 = step_tap(ss3, cfg.remove_tap_restriction);
    let i0 = first_where(ss3, p);
    lemma_first_where(ss3, p);
    // After the tap step, every service is speed-free: the first service
    // with sensors has them filtered, and by uniqueness no other has any.
    assert forall|j: int| 0 <= j < ss4.len() implies svc_no_speed(#[trigger] ss4[j]) by {
        if i0 == -1 {
            assert(!p(ss3[j]));
            assert(svc_sensors(ss4[j]).len() == 0);
        } else if j == i0 {
            assert(ss4[j] == svc_without_speed(ss3[i0]));
            crate::rewriter::lemma_drop_where(
                svc_sensors(ss3[i0]),
                |x: SensorView| sensor_is_speed(x),
            );
            assert(svc_sensors(ss4[j]) == drop_where(
                svc_sensors(ss3[i0]),
                |x: SensorView| sensor_is_speed(x),
            ));
        } else {
            // Any other service with sensors would contradict uniqueness.
            assert(ss4[j] == ss3[j]);
            if p(ss3[j]) {
                assert(p(ss3[j]) == p(m.services[j]));
                assert(p(ss3[i0]) == p(m.services[i0]));
                assert(false);
            }
            assert(svc_sensors(ss4[j]).len() == 0);
        }
    }
    let ss5 = step_bluetooth(ss4, cfg.remove_bluetooth);
    if cfg.remove_bluetooth {
        lemma_drop_where(ss4, |s: ServiceView| crate::rewriter::svc_has_bluetooth(s));
    }
    assert forall|j: int| 0 <= j < ss5.len() implies svc_no_speed(#[trigger] ss5[j]) by {
        if cfg.remove_bluetooth {
            let i = choose|i: int| 0 <= i < ss4.len() && ss4[i] == ss5[j];
        }
    }
    let ss6 = crate::rewriter::step_wifi(ss5, cfg.remove_wifi);
    if cfg.remove_wifi {
        lemma_drop_where(ss5, |s: ServiceView| crate::rewriter::svc_has_wifi(s));
    }
    assert forall|j: int| 0 <= j < ss6.len() implies svc_no_speed(#[trigger] ss6[j]) by {
        if cfg.remove_wifi {
            let i = choose|i: int| 0 <= i < ss5.len() && ss5[i] == ss6[j];
        }
    }
    let conn = crate::rewriter::spec_connector_codes(cfg);
    let ss7 = step_ev(ss6, cfg.ev, conn);
    assert forall|j: int| 0 <= j < ss7.len() implies svc_no_speed(#[trigger] ss7[j]) by {
        if cfg.ev {
            let i = first_where(ss6, p);
            if i != -1 {
                lemma_first_where(ss6, p);
                if j == i {
                    assert(ss7[j] == svc_with_ev(ss6[i], conn));
                    assert(svc_sensors(ss7[j]) == svc_sensors(ss6[i]).push(
                        crate::rewriter::spec_ev_sensor(),
                    ));
                    assert forall|k: int| 0 <= k < svc_sensors(ss7[j]).len() implies !sensor_is_speed(
                        #[trigger] svc_sensors(ss7[j])[k],
                    ) by {
                        if k < svc_sensors(ss6[i]).len() {
                            assert(svc_sensors(ss7[j])[k] == svc_sensors(ss6[i])[k]);
                        } else {
                            assert(svc_sensors(ss7[j])[k] == crate::rewriter::spec_ev_sensor());
                        }
                    }
                }
            }
        }
    }
    assert(spec_rewrite_sdr(m, cfg).0.services == ss7);
}

} // verus!
