//! The `ServiceDiscoveryResponse` subset the proxy inspects and rewrites: the
//! service list with media-sink, sensor-source, navigation-status, Bluetooth
//! and Wi-Fi-projection entries, and the head-unit `make` / `model` strings.
//! Each type keeps the raw bytes of fields it does not model in `rest`, so a
//! re-encoded message carries them through.

use vstd::prelude::*;

use crate::proto::{
    read_varint, skip_value, slice_range_to_vec, spec_len_field, spec_read_varint, spec_skip_value,
    spec_varint_field, write_len_field, write_varint_field, WIRE_LEN, WIRE_VARINT,
};

verus! {

pub const FIELD_SDR_SERVICES: u64 = 1;
pub const FIELD_SDR_MAKE: u64 = 2;
pub const FIELD_SDR_MODEL: u64 = 3;

pub const FIELD_SVC_ID: u64 = 1;
pub const FIELD_SVC_MEDIA_SINK: u64 = 2;
pub const FIELD_SVC_SENSOR_SOURCE: u64 = 3;
pub const FIELD_SVC_NAV_STATUS: u64 = 4;
pub const FIELD_SVC_BLUETOOTH: u64 = 5;
pub const FIELD_SVC_WIFI_PROJECTION: u64 = 6;

pub const FIELD_SINK_AUDIO_TYPE: u64 = 1;
pub const FIELD_SINK_AUDIO_CONFIGS: u64 = 2;
pub const FIELD_SINK_VIDEO_CONFIGS: u64 = 3;

pub const FIELD_VIDEO_DENSITY: u64 = 1;

pub const FIELD_SRC_SENSORS: u64 = 1;
pub const FIELD_SRC_FUEL_TYPES: u64 = 2;
pub const FIELD_SRC_EV_CONNECTORS: u64 = 3;

pub const FIELD_SENSOR_TYPE: u64 = 1;

/// One entry of `media_sink_service.video_configs`.
pub struct VideoConfig {
    pub density: Option<u32>,
    pub rest: Vec<u8>,
}

pub struct VideoConfigView {
    pub density: Option<u32>,
    pub rest: Seq<u8>,
}

impl View for VideoConfig {
    type V = VideoConfigView;

    open spec fn view(&self) -> VideoConfigView {
        VideoConfigView { density: self.density, rest: self.rest@ }
    }
}

impl Clone for VideoConfig {
    fn clone(&self) -> (r: Self)
        ensures
            r@ == self@,
    {
        VideoConfig { density: self.density, rest: self.rest.clone() }
    }
}

pub open spec fn spec_empty_video() -> VideoConfigView {
    VideoConfigView { density: None, rest: Seq::empty() }
}

pub fn empty_video() -> (r: VideoConfig)
    ensures
        r@ == spec_empty_video(),
{
    let r = VideoConfig { density: None, rest: Vec::new() };
    proof {
        assert(r@.rest =~= spec_empty_video().rest);
    }
    r
}

/// Parses the fields of a `VideoConfig` body from `i` on, accumulating into
/// `m`; unknown fields go to `m.rest` verbatim.
pub open spec fn spec_parse_video_fields(s: Seq<u8>, i: int, m: VideoConfigView) -> Option<
    VideoConfigView,
>
    decreases s.len() - i,
{
    if i == s.len() {
        Some(m)
    } else if i < 0 || i > s.len() {
        None
    } else {
        match spec_read_varint(s, i) {
            None => None,
            Some((key, j)) => {
                let field = key / 8;
                let wire = key % 8;
                if field == FIELD_VIDEO_DENSITY && wire == WIRE_VARINT {
                    match spec_read_varint(s, j) {
                        None => None,
                        Some((v, j2)) => if v <= u32::MAX as u64 && i < j2 <= s.len() {
                            spec_parse_video_fields(
                                s,
                                j2,
                                VideoConfigView { density: Some(v as u32), ..m },
                            )
                        } else {
                            None
                        },
                    }
                } else {
                    match spec_skip_value(s, j, wire) {
                        None => None,
                        Some(j2) => if i < j2 <= s.len() {
                            spec_parse_video_fields(
                                s,
                                j2,
                                VideoConfigView { rest: m.rest + s.subrange(i, j2), ..m },
                            )
                        } else {
                            None
                        },
                    }
                }
            },
        }
    }
}

pub open spec fn spec_parse_video(s: Seq<u8>) -> Option<VideoConfigView> {
    spec_parse_video_fields(s, 0, spec_empty_video())
}

fn parse_video_fields(s: &[u8], pos: usize, m: VideoConfig) -> (r: Option<VideoConfig>)
    requires
        pos <= s@.len(),
    ensures
        match r {
            Some(v) => spec_parse_video_fields(s@, pos as int, m@) == Some(v@),
            None => spec_parse_video_fields(s@, pos as int, m@) is None,
        },
    decreases s@.len() - pos,
{
    if pos == s.len() {
        return Some(m);
    }
    match read_varint(s, pos) {
        None => None,
        Some((key, j)) => {
            proof {
                crate::proto::lemma_read_varint_advances(s@, pos as int);
            }
            let field = key / 8;
            let wire = key % 8;
            if field == FIELD_VIDEO_DENSITY && wire == WIRE_VARINT {
                match read_varint(s, j) {
                    None => None,
                    Some((v, j2)) => {
                        proof {
                            crate::proto::lemma_read_varint_advances(s@, j as int);
                        }
                        if v <= u32::MAX as u64 {
                            let m2 = VideoConfig { density: Some(v as u32), rest: m.rest };
                            parse_video_fields(s, j2, m2)
                        } else {
                            None
                        }
                    },
                }
            } else {
                match skip_value(s, j, wire) {
                    None => None,
                    Some(j2) => {
                        let mut rest = m.rest;
                        let mut extra = slice_range_to_vec(s, pos, j2);
                        rest.append(&mut extra);
                        let m2 = VideoConfig { density: m.density, rest };
                        parse_video_fields(s, j2, m2)
                    },
                }
            }
        },
    }
}

/// Parses a `VideoConfig` submessage body, as `spec_parse_video` describes.
pub fn parse_video(s: &[u8]) -> (r: Option<VideoConfig>)
    ensures
        match r {
            Some(v) => spec_parse_video(s@) == Some(v@),
            None => spec_parse_video(s@) is None,
        },
{
    parse_video_fields(s, 0, empty_video())
}

/// The encoding of a `VideoConfig`: its known fields in field order, then the
/// unmodelled bytes.
pub open spec fn spec_encode_video(m: VideoConfigView) -> Seq<u8> {
    (match m.density {
        Some(d) => spec_varint_field(FIELD_VIDEO_DENSITY, d as u64),
        None => Seq::<u8>::empty(),
    }) + m.rest
}

pub fn encode_video(m: &VideoConfig, buf: &mut Vec<u8>)
    ensures
        final(buf)@ == old(buf)@ + spec_encode_video(m@),
{
    match m.density {
        Some(d) => write_varint_field(buf, FIELD_VIDEO_DENSITY, d as u64),
        None => (),
    }
    buf.extend_from_slice(m.rest.as_slice());
    proof {
        assert(final(buf)@ =~= old(buf)@ + spec_encode_video(m@));
    }
}

/// One entry of `sensor_source_service.sensors`.
pub struct Sensor {
    pub sensor_type: Option<u32>,
    pub rest: Vec<u8>,
}

pub struct SensorView {
    pub sensor_type: Option<u32>,
    pub rest: Seq<u8>,
}

impl View for Sensor {
    type V = SensorView;

    open spec fn view(&self) -> SensorView {
        SensorView { sensor_type: self.sensor_type, rest: self.rest@ }
    }
}

impl Clone for Sensor {
    fn clone(&self) -> (r: Self)
        ensures
            r@ == self@,
    {
        Sensor { sensor_type: self.sensor_type, rest: self.rest.clone() }
    }
}

pub open spec fn spec_empty_sensor() -> SensorView {
    SensorView { sensor_type: None, rest: Seq::empty() }
}

pub fn empty_sensor() -> (r: Sensor)
    ensures
        r@ == spec_empty_sensor(),
{
    let r = Sensor { sensor_type: None, rest: Vec::new() };
    proof {
        assert(r@.rest =~= spec_empty_sensor().rest);
    }
    r
}

/// Parses the fields of a `Sensor` body from `i` on.
pub open spec fn spec_parse_sensor_fields(s: Seq<u8>, i: int, m: SensorView) -> Option<SensorView>
    decreases s.len() - i,
{
    if i == s.len() {
        Some(m)
    } else if i < 0 || i > s.len() {
        None
    } else {
        match spec_read_varint(s, i) {
            None => None,
            Some((key, j)) => {
                let field = key / 8;
                let wire = key % 8;
                if field == FIELD_SENSOR_TYPE && wire == WIRE_VARINT {
                    match spec_read_varint(s, j) {
                        None => None,
                        Some((v, j2)) => if v <= u32::MAX as u64 && i < j2 <= s.len() {
                            spec_parse_sensor_fields(
                                s,
                                j2,
                                SensorView { sensor_type: Some(v as u32), ..m },
                            )
                        } else {
                            None
                        },
                    }
                } else {
                    match spec_skip_value(s, j, wire) {
                        None => None,
                        Some(j2) => if i < j2 <= s.len() {
                            spec_parse_sensor_fields(
                                s,
                                j2,
                                SensorView { rest: m.rest + s.subrange(i, j2), ..m },
                            )
                        } else {
                            None
                        },
                    }
                }
            },
        }
    }
}

pub open spec fn spec_parse_sensor(s: Seq<u8>) -> Option<SensorView> {
    spec_parse_sensor_fields(s, 0, spec_empty_sensor())
}

fn parse_sensor_fields(s: &[u8], pos: usize, m: Sensor) -> (r: Option<Sensor>)
    requires
        pos <= s@.len(),
    ensures
        match r {
            Some(v) => spec_parse_sensor_fields(s@, pos as int, m@) == Some(v@),
            None => spec_parse_sensor_fields(s@, pos as int, m@) is None,
        },
    decreases s@.len() - pos,
{
    if pos == s.len() {
        return Some(m);
    }
    match read_varint(s, pos) {
        None => None,
        Some((key, j)) => {
            proof {
                crate::proto::lemma_read_varint_advances(s@, pos as int);
            }
            let field = key / 8;
            let wire = key % 8;
            if field == FIELD_SENSOR_TYPE && wire == WIRE_VARINT {
                match read_varint(s, j) {
                    None => None,
                    Some((v, j2)) => {
                        proof {
                            crate::proto::lemma_read_varint_advances(s@, j as int);
                        }
                        if v <= u32::MAX as u64 {
                            parse_sensor_fields(
                                s,
                                j2,
                                Sensor { sensor_type: Some(v as u32), rest: m.rest },
                            )
                        } else {
                            None
                        }
                    },
                }
            } else {
                match skip_value(s, j, wire) {
                    None => None,
                    Some(j2) => {
                        let mut rest = m.rest;
                        let mut extra = slice_range_to_vec(s, pos, j2);
                        rest.append(&mut extra);
                        parse_sensor_fields(s, j2, Sensor { sensor_type: m.sensor_type, rest })
                    },
                }
            }
        },
    }
}

/// Parses a `Sensor` submessage body, as `spec_parse_sensor` describes.
pub fn parse_sensor(s: &[u8]) -> (r: Option<Sensor>)
    ensures
        match r {
            Some(v) => spec_parse_sensor(s@) == Some(v@),
            None => spec_parse_sensor(s@) is None,
        },
{
    parse_sensor_fields(s, 0, empty_sensor())
}

pub open spec fn spec_encode_sensor(m: SensorView) -> Seq<u8> {
    (match m.sensor_type {
        Some(t) => spec_varint_field(FIELD_SENSOR_TYPE, t as u64),
        None => Seq::<u8>::empty(),
    }) + m.rest
}

pub fn encode_sensor(m: &Sensor, buf: &mut Vec<u8>)
    ensures
        final(buf)@ == old(buf)@ + spec_encode_sensor(m@),
{
    match m.sensor_type {
        Some(t) => write_varint_field(buf, FIELD_SENSOR_TYPE, t as u64),
        None => (),
    }
    buf.extend_from_slice(m.rest.as_slice());
    proof {
        assert(final(buf)@ =~= old(buf)@ + spec_encode_sensor(m@));
    }
}

pub open spec fn sensors_view(v: Seq<Sensor>) -> Seq<SensorView> {
    v.map_values(|x: Sensor| x@)
}

pub open spec fn spec_encode_sensor_list(ss: Seq<SensorView>) -> Seq<u8>
    decreases ss.len(),
{
    if ss.len() == 0 {
        Seq::empty()
    } else {
        spec_len_field(FIELD_SRC_SENSORS, spec_encode_sensor(ss[0])) + spec_encode_sensor_list(
            ss.skip(1),
        )
    }
}

fn encode_sensor_list(items: &Vec<Sensor>, buf: &mut Vec<u8>)
    ensures
        final(buf)@ == old(buf)@ + spec_encode_sensor_list(sensors_view(items@)),
{
    let ghost vs = sensors_view(items@);
    let ghost start = buf@;
    proof {
        assert(vs.skip(0) =~= vs);
    }
    let mut k: usize = 0;
    while k < items.len()
        invariant
            k <= items@.len(),
            vs == sensors_view(items@),
            buf@ + spec_encode_sensor_list(vs.skip(k as int)) == start + spec_encode_sensor_list(
                vs,
            ),
        decreases items@.len() - k,
    {
        proof {
            assert(vs.skip(k as int)[0] == vs[k as int]);
            assert(vs.skip(k as int).skip(1) =~= vs.skip(k as int + 1));
        }
        let mut body: Vec<u8> = Vec::new();
        encode_sensor(&items[k], &mut body);
        write_len_field(buf, FIELD_SRC_SENSORS, body.as_slice());
        k = k + 1;
    }
    proof {
        assert(vs.skip(k as int) =~= Seq::<SensorView>::empty());
    }
}

/// The `sensor_source_service` submessage.
pub struct SensorSourceService {
    pub sensors: Vec<Sensor>,
    pub supported_fuel_types: Vec<u32>,
    pub supported_ev_connector_types: Vec<u32>,
    pub rest: Vec<u8>,
}

pub struct SensorSourceServiceView {
    pub sensors: Seq<SensorView>,
    pub supported_fuel_types: Seq<u32>,
    pub supported_ev_connector_types: Seq<u32>,
    pub rest: Seq<u8>,
}

impl View for SensorSourceService {
    type V = SensorSourceServiceView;

    open spec fn view(&self) -> SensorSourceServiceView {
        SensorSourceServiceView {
            sensors: sensors_view(self.sensors@),
            supported_fuel_types: self.supported_fuel_types@,
            supported_ev_connector_types: self.supported_ev_connector_types@,
            rest: self.rest@,
        }
    }
}

pub open spec fn spec_empty_sensor_source() -> SensorSourceServiceView {
    SensorSourceServiceView {
        sensors: Seq::empty(),
        supported_fuel_types: Seq::empty(),
        supported_ev_connector_types: Seq::empty(),
        rest: Seq::empty(),
    }
}

pub fn empty_sensor_source() -> (r: SensorSourceService)
    ensures
        r@ == spec_empty_sensor_source(),
{
    let r = SensorSourceService {
        sensors: Vec::new(),
        supported_fuel_types: Vec::new(),
        supported_ev_connector_types: Vec::new(),
        rest: Vec::new(),
    };
    proof {
        assert(r@.sensors =~= spec_empty_sensor_source().sensors);
        assert(r@.supported_fuel_types =~= spec_empty_sensor_source().supported_fuel_types);
        assert(r@.supported_ev_connector_types =~= spec_empty_sensor_source().supported_ev_connector_types);
        assert(r@.rest =~= spec_empty_sensor_source().rest);
    }
    r
}

/// Parses the fields of a `sensor_source_service` body from `i` on.
pub open spec fn spec_parse_sensor_source_fields(
    s: Seq<u8>,
    i: int,
    m: SensorSourceServiceView,
) -> Option<SensorSourceServiceView>
    decreases s.len() - i,
{
    if i == s.len() {
        Some(m)
    } else if i < 0 || i > s.len() {
        None
    } else {
        match spec_read_varint(s, i) {
            None => None,
            Some((key, j)) => {
                let field = key / 8;
                let wire = key % 8;
                if field == FIELD_SRC_SENSORS && wire == WIRE_LEN {
                    match spec_read_varint(s, j) {
                        None => None,
                        Some((n, j2)) => if j2 + n <= s.len() && i < j2 + n {
                            match spec_parse_sensor(s.subrange(j2, j2 + n as int)) {
                                None => None,
                                Some(sensor) => spec_parse_sensor_source_fields(
                                    s,
                                    j2 + n as int,
                                    SensorSourceServiceView {
                                        sensors: m.sensors.push(sensor),
                                        ..m
                                    },
                                ),
                            }
                        } else {
                            None
                        },
                    }
                } else if field == FIELD_SRC_FUEL_TYPES && wire == WIRE_VARINT {
                    match spec_read_varint(s, j) {
                        None => None,
                        Some((v, j2)) => if v <= u32::MAX as u64 && i < j2 <= s.len() {
                            spec_parse_sensor_source_fields(
                                s,
                                j2,
                                SensorSourceServiceView {
                                    supported_fuel_types: m.supported_fuel_types.push(v as u32),
                                    ..m
                                },
                            )
                        } else {
                            None
                        },
                    }
                } else if field == FIELD_SRC_EV_CONNECTORS && wire == WIRE_VARINT {
                    match spec_read_varint(s, j) {
                        None => None,
                        Some((v, j2)) => if v <= u32::MAX as u64 && i < j2 <= s.len() {
                            spec_parse_sensor_source_fields(
                                s,
                                j2,
                                SensorSourceServiceView {
                                    supported_ev_connector_types: m.supported_ev_connector_types
                                        .push(v as u32),
                                    ..m
                                },
                            )
                        } else {
                            None
                        },
                    }
                } else {
                    match spec_skip_value(s, j, wire) {
                        None => None,
                        Some(j2) => if i < j2 <= s.len() {
                            spec_parse_sensor_source_fields(
                                s,
                                j2,
                                SensorSourceServiceView { rest: m.rest + s.subrange(i, j2), ..m },
                            )
                        } else {
                            None
                        },
                    }
                }
            },
        }
    }
}

pub open spec fn spec_parse_sensor_source(s: Seq<u8>) -> Option<SensorSourceServiceView> {
    spec_parse_sensor_source_fields(s, 0, spec_empty_sensor_source())
}

fn parse_sensor_source_fields(s: &[u8], pos: usize, m: SensorSourceService) -> (r: Option<
    SensorSourceService,
>)
    requires
        pos <= s@.len(),
    ensures
        match r {
            Some(v) => spec_parse_sensor_source_fields(s@, pos as int, m@) == Some(v@),
            None => spec_parse_sensor_source_fields(s@, pos as int, m@) is None,
        },
    decreases s@.len() - pos,
{
    if pos == s.len() {
        return Some(m);
    }
    match read_varint(s, pos) {
        None => None,
        Some((key, j)) => {
            proof {
                crate::proto::lemma_read_varint_advances(s@, pos as int);
            }
            let field = key / 8;
            let wire = key % 8;
            if field == FIELD_SRC_SENSORS && wire == WIRE_LEN {
                match read_varint(s, j) {
                    None => None,
                    Some((n, j2)) => {
                        proof {
                            crate::proto::lemma_read_varint_advances(s@, j as int);
                        }
                        if n <= (s.len() - j2) as u64 {
                            let end = j2 + n as usize;
                            let body = slice_range_to_vec(s, j2, end);
                            match parse_sensor(body.as_slice()) {
                                None => None,
                                Some(sensor) => {
                                    let mut sensors = m.sensors;
                                    sensors.push(sensor);
                                    let m2 = SensorSourceService {
                                        sensors,
                                        supported_fuel_types: m.supported_fuel_types,
                                        supported_ev_connector_types: m
                                            .supported_ev_connector_types,
                                        rest: m.rest,
                                    };
                                    proof {
                                        assert(m2@.sensors =~= m@.sensors.push(
                                            spec_parse_sensor(s@.subrange(j2 as int, j2 + n as int))->Some_0,
                                        ));
                                    }
                                    parse_sensor_source_fields(s, end, m2)
                                },
                            }
                        } else {
                            None
                        }
                    },
                }
            } else if field == FIELD_SRC_FUEL_TYPES && wire == WIRE_VARINT {
                match read_varint(s, j) {
                    None => None,
                    Some((v, j2)) => {
                        proof {
                            crate::proto::lemma_read_varint_advances(s@, j as int);
                        }
                        if v <= u32::MAX as u64 {
                            let mut fuel = m.supported_fuel_types;
                            fuel.push(v as u32);
                            parse_sensor_source_fields(
                                s,
                                j2,
                                SensorSourceService {
                                    sensors: m.sensors,
                                    supported_fuel_types: fuel,
                                    supported_ev_connector_types: m.supported_ev_connector_types,
                                    rest: m.rest,
                                },
                            )
                        } else {
                            None
                        }
                    },
                }
            } else if field == FIELD_SRC_EV_CONNECTORS && wire == WIRE_VARINT {
                match read_varint(s, j) {
                    None => None,
                    Some((v, j2)) => {
                        proof {
                            crate::proto::lemma_read_varint_advances(s@, j as int);
                        }
                        if v <= u32::MAX as u64 {
                            let mut conn = m.supported_ev_connector_types;
                            conn.push(v as u32);
                            parse_sensor_source_fields(
                                s,
                                j2,
                                SensorSourceService {
                                    sensors: m.sensors,
                                    supported_fuel_types: m.supported_fuel_types,
                                    supported_ev_connector_types: conn,
                                    rest: m.rest,
                                },
                            )
                        } else {
                            None
                        }
                    },
                }
            } else {
                match skip_value(s, j, wire) {
                    None => None,
                    Some(j2) => {
                        let mut rest = m.rest;
                        let mut extra = slice_range_to_vec(s, pos, j2);
                        rest.append(&mut extra);
                        parse_sensor_source_fields(
                            s,
                            j2,
                            SensorSourceService {
                                sensors: m.sensors,
                                supported_fuel_types: m.supported_fuel_types,
                                supported_ev_connector_types: m.supported_ev_connector_types,
                                rest,
                            },
                        )
                    },
                }
            }
        },
    }
}

/// Parses a `sensor_source_service` body, as `spec_parse_sensor_source`
/// describes.
pub fn parse_sensor_source(s: &[u8]) -> (r: Option<SensorSourceService>)
    ensures
        match r {
            Some(v) => spec_parse_sensor_source(s@) == Some(v@),
            None => spec_parse_sensor_source(s@) is None,
        },
{
    parse_sensor_source_fields(s, 0, empty_sensor_source())
}

pub open spec fn spec_encode_sensor_source(m: SensorSourceServiceView) -> Seq<u8> {
    spec_encode_sensor_list(m.sensors) + crate::proto::spec_encode_u32_list(
        FIELD_SRC_FUEL_TYPES,
        m.supported_fuel_types,
    ) + crate::proto::spec_encode_u32_list(
        FIELD_SRC_EV_CONNECTORS,
        m.supported_ev_connector_types,
    ) + m.rest
}

pub fn encode_sensor_source(m: &SensorSourceService, buf: &mut Vec<u8>)
    ensures
        final(buf)@ == old(buf)@ + spec_encode_sensor_source(m@),
{
    encode_sensor_list(&m.sensors, buf);
    crate::proto::write_u32_list(buf, FIELD_SRC_FUEL_TYPES, &m.supported_fuel_types);
    crate::proto::write_u32_list(buf, FIELD_SRC_EV_CONNECTORS, &m.supported_ev_connector_types);
    buf.extend_from_slice(m.rest.as_slice());
    proof {
        assert(final(buf)@ =~= old(buf)@ + spec_encode_sensor_source(m@));
    }
}

/// The `media_sink_service` submessage; the audio configurations are kept as
/// raw submessage bytes since the proxy only asks whether any are present.
pub struct MediaSinkService {
    pub audio_type: Option<u32>,
    pub audio_configs: Vec<Vec<u8>>,
    pub video_configs: Vec<VideoConfig>,
    pub rest: Vec<u8>,
}

pub struct MediaSinkServiceView {
    pub audio_type: Option<u32>,
    pub audio_configs: Seq<Seq<u8>>,
    pub video_configs: Seq<VideoConfigView>,
    pub rest: Seq<u8>,
}

pub open spec fn videos_view(v: Seq<VideoConfig>) -> Seq<VideoConfigView> {
    v.map_values(|x: VideoConfig| x@)
}

impl View for MediaSinkService {
    type V = MediaSinkServiceView;

    open spec fn view(&self) -> MediaSinkServiceView {
        MediaSinkServiceView {
            audio_type: self.audio_type,
            audio_configs: crate::proto::bytes_list_view(self.audio_configs@),
            video_configs: videos_view(self.video_configs@),
            rest: self.rest@,
        }
    }
}

pub open spec fn spec_empty_media_sink() -> MediaSinkServiceView {
    MediaSinkServiceView {
        audio_type: None,
        audio_configs: Seq::empty(),
        video_configs: Seq::empty(),
        rest: Seq::empty(),
    }
}

pub fn empty_media_sink() -> (r: MediaSinkService)
    ensures
        r@ == spec_empty_media_sink(),
{
    let r = MediaSinkService {
        audio_type: None,
        audio_configs: Vec::new(),
        video_configs: Vec::new(),
        rest: Vec::new(),
    };
    proof {
        assert(r@.audio_configs =~= spec_empty_media_sink().audio_configs);
        assert(r@.video_configs =~= spec_empty_media_sink().video_configs);
        assert(r@.rest =~= spec_empty_media_sink().rest);
    }
    r
}

/// Parses the fields of a `media_sink_service` body from `i` on.
pub open spec fn spec_parse_media_sink_fields(
    s: Seq<u8>,
    i: int,
    m: MediaSinkServiceView,
) -> Option<MediaSinkServiceView>
    decreases s.len() - i,
{
    if i == s.len() {
        Some(m)
    } else if i < 0 || i > s.len() {
        None
    } else {
        match spec_read_varint(s, i) {
            None => None,
            Some((key, j)) => {
                let field = key / 8;
                let wire = key % 8;
                if field == FIELD_SINK_AUDIO_TYPE && wire == WIRE_VARINT {
                    match spec_read_varint(s, j) {
                        None => None,
                        Some((v, j2)) => if v <= u32::MAX as u64 && i < j2 <= s.len() {
                            spec_parse_media_sink_fields(
                                s,
                                j2,
                                MediaSinkServiceView { audio_type: Some(v as u32), ..m },
                            )
                        } else {
                            None
                        },
                    }
                } else if field == FIELD_SINK_AUDIO_CONFIGS && wire == WIRE_LEN {
                    match spec_read_varint(s, j) {
                        None => None,
                        Some((n, j2)) => if j2 + n <= s.len() && i < j2 + n {
                            spec_parse_media_sink_fields(
                                s,
                                j2 + n as int,
                                MediaSinkServiceView {
                                    audio_configs: m.audio_configs.push(
                                        s.subrange(j2, j2 + n as int),
                                    ),
                                    ..m
                                },
                            )
                        } else {
                            None
                        },
                    }
                } else if field == FIELD_SINK_VIDEO_CONFIGS && wire == WIRE_LEN {
                    match spec_read_varint(s, j) {
                        None => None,
                        Some((n, j2)) => if j2 + n <= s.len() && i < j2 + n {
                            match spec_parse_video(s.subrange(j2, j2 + n as int)) {
                                None => None,
                                Some(vc) => spec_parse_media_sink_fields(
                                    s,
                                    j2 + n as int,
                                    MediaSinkServiceView {
                                        video_configs: m.video_configs.push(vc),
                                        ..m
                                    },
                                ),
                            }
                        } else {
                            None
                        },
                    }
                } else {
                    match spec_skip_value(s, j, wire) {
                        None => None,
                        Some(j2) => if i < j2 <= s.len() {
                            spec_parse_media_sink_fields(
                                s,
                                j2,
                                MediaSinkServiceView { rest: m.rest + s.subrange(i, j2), ..m },
                            )
                        } else {
                            None
                        },
                    }
                }
            },
        }
    }
}

pub open spec fn spec_parse_media_sink(s: Seq<u8>) -> Option<MediaSinkServiceView> {
    spec_parse_media_sink_fields(s, 0, spec_empty_media_sink())
}

fn parse_media_sink_fields(s: &[u8], pos: usize, m: MediaSinkService) -> (r: Option<
    MediaSinkService,
>)
    requires
        pos <= s@.len(),
    ensures
        match r {
            Some(v) => spec_parse_media_sink_fields(s@, pos as int, m@) == Some(v@),
            None => spec_parse_media_sink_fields(s@, pos as int, m@) is None,
        },
    decreases s@.len() - pos,
{
    if pos == s.len() {
        return Some(m);
    }
    match read_varint(s, pos) {
        None => None,
        Some((key, j)) => {
            proof {
                crate::proto::lemma_read_varint_advances(s@, pos as int);
            }
            let field = key / 8;
            let wire = key % 8;
            if field == FIELD_SINK_AUDIO_TYPE && wire == WIRE_VARINT {
                match read_varint(s, j) {
                    None => None,
                    Some((v, j2)) => {
                        proof {
                            crate::proto::lemma_read_varint_advances(s@, j as int);
                        }
                        if v <= u32::MAX as u64 {
                            parse_media_sink_fields(
                                s,
                                j2,
                                MediaSinkService {
                                    audio_type: Some(v as u32),
                                    audio_configs: m.audio_configs,
                                    video_configs: m.video_configs,
                                    rest: m.rest,
                                },
                            )
                        } else {
                            None
                        }
                    },
                }
            } else if field == FIELD_SINK_AUDIO_CONFIGS && wire == WIRE_LEN {
                match read_varint(s, j) {
                    None => None,
                    Some((n, j2)) => {
                        proof {
                            crate::proto::lemma_read_varint_advances(s@, j as int);
                        }
                        if n <= (s.len() - j2) as u64 {
                            let end = j2 + n as usize;
                            let body = slice_range_to_vec(s, j2, end);
                            let mut configs = m.audio_configs;
                            configs.push(body);
                            let m2 = MediaSinkService {
                                audio_type: m.audio_type,
                                audio_configs: configs,
                                video_configs: m.video_configs,
                                rest: m.rest,
                            };
                            proof {
                                assert(m2@.audio_configs =~= m@.audio_configs.push(
                                    s@.subrange(j2 as int, j2 + n as int),
                                ));
                            }
                            parse_media_sink_fields(s, end, m2)
                        } else {
                            None
                        }
                    },
                }
            } else if field == FIELD_SINK_VIDEO_CONFIGS && wire == WIRE_LEN {
                match read_varint(s, j) {
                    None => None,
                    Some((n, j2)) => {
                        proof {
                            crate::proto::lemma_read_varint_advances(s@, j as int);
                        }
                        if n <= (s.len() - j2) as u64 {
                            let end = j2 + n as usize;
                            let body = slice_range_to_vec(s, j2, end);
                            match parse_video(body.as_slice()) {
                                None => None,
                                Some(vc) => {
                                    let mut videos = m.video_configs;
                                    videos.push(vc);
                                    let m2 = MediaSinkService {
                                        audio_type: m.audio_type,
                                        audio_configs: m.audio_configs,
                                        video_configs: videos,
                                        rest: m.rest,
                                    };
                                    proof {
                                        assert(m2@.video_configs =~= m@.video_configs.push(
                                            spec_parse_video(s@.subrange(j2 as int, j2 + n as int))->Some_0,
                                        ));
                                    }
                                    parse_media_sink_fields(s, end, m2)
                                },
                            }
                        } else {
                            None
                        }
                    },
                }
            } else {
                match skip_value(s, j, wire) {
                    None => None,
                    Some(j2) => {
                        let mut rest = m.rest;
                        let mut extra = slice_range_to_vec(s, pos, j2);
                        rest.append(&mut extra);
                        parse_media_sink_fields(
                            s,
                            j2,
                            MediaSinkService {
                                audio_type: m.audio_type,
                                audio_configs: m.audio_configs,
                                video_configs: m.video_configs,
                                rest,
                            },
                        )
                    },
                }
            }
        },
    }
}

/// Parses a `media_sink_service` body, as `spec_parse_media_sink` describes.
pub fn parse_media_sink(s: &[u8]) -> (r: Option<MediaSinkService>)
    ensures
        match r {
            Some(v) => spec_parse_media_sink(s@) == Some(v@),
            None => spec_parse_media_sink(s@) is None,
        },
{
    parse_media_sink_fields(s, 0, empty_media_sink())
}

pub open spec fn spec_encode_video_list(vs: Seq<VideoConfigView>) -> Seq<u8>
    decreases vs.len(),
{
    if vs.len() == 0 {
        Seq::empty()
    } else {
        spec_len_field(FIELD_SINK_VIDEO_CONFIGS, spec_encode_video(vs[0]))
            + spec_encode_video_list(vs.skip(1))
    }
}

fn encode_video_list(items: &Vec<VideoConfig>, buf: &mut Vec<u8>)
    ensures
        final(buf)@ == old(buf)@ + spec_encode_video_list(videos_view(items@)),
{
    let ghost vs = videos_view(items@);
    let ghost start = buf@;
    proof {
        assert(vs.skip(0) =~= vs);
    }
    let mut k: usize = 0;
    while k < items.len()
        invariant
            k <= items@.len(),
            vs == videos_view(items@),
            buf@ + spec_encode_video_list(vs.skip(k as int)) == start + spec_encode_video_list(vs),
        decreases items@.len() - k,
    {
        proof {
            assert(vs.skip(k as int)[0] == vs[k as int]);
            assert(vs.skip(k as int).skip(1) =~= vs.skip(k as int + 1));
        }
        let mut body: Vec<u8> = Vec::new();
        encode_video(&items[k], &mut body);
        write_len_field(buf, FIELD_SINK_VIDEO_CONFIGS, body.as_slice());
        k = k + 1;
    }
    proof {
        assert(vs.skip(k as int) =~= Seq::<VideoConfigView>::empty());
    }
}

pub open spec fn spec_encode_media_sink(m: MediaSinkServiceView) -> Seq<u8> {
    (match m.audio_type {
        Some(t) => spec_varint_field(FIELD_SINK_AUDIO_TYPE, t as u64),
        None => Seq::<u8>::empty(),
    }) + crate::proto::spec_encode_raw_list(FIELD_SINK_AUDIO_CONFIGS, m.audio_configs)
        + spec_encode_video_list(m.video_configs) + m.rest
}

pub fn encode_media_sink(m: &MediaSinkService, buf: &mut Vec<u8>)
    ensures
        final(buf)@ == old(buf)@ + spec_encode_media_sink(m@),
{
    match m.audio_type {
        Some(t) => write_varint_field(buf, FIELD_SINK_AUDIO_TYPE, t as u64),
        None => (),
    }
    crate::proto::write_raw_list(buf, FIELD_SINK_AUDIO_CONFIGS, &m.audio_configs);
    encode_video_list(&m.video_configs, buf);
    buf.extend_from_slice(m.rest.as_slice());
    proof {
        assert(final(buf)@ =~= old(buf)@ + spec_encode_media_sink(m@));
    }
}

/// One advertised service.  The navigation-status, Bluetooth and
/// Wi-Fi-projection services are kept as raw submessage bytes: the proxy only
/// asks whether they are present, or drops them whole.
pub struct Service {
    pub id: Option<u32>,
    pub media_sink_service: Option<MediaSinkService>,
    pub sensor_source_service: Option<SensorSourceService>,
    pub navigation_status_service: Option<Vec<u8>>,
    pub bluetooth_service: Option<Vec<u8>>,
    pub wifi_projection_service: Option<Vec<u8>>,
    pub rest: Vec<u8>,
}

pub struct ServiceView {
    pub id: Option<u32>,
    pub media_sink_service: Option<MediaSinkServiceView>,
    pub sensor_source_service: Option<SensorSourceServiceView>,
    pub navigation_status_service: Option<Seq<u8>>,
    pub bluetooth_service: Option<Seq<u8>>,
    pub wifi_projection_service: Option<Seq<u8>>,
    pub rest: Seq<u8>,
}

pub open spec fn opt_sink_view(v: Option<MediaSinkService>) -> Option<MediaSinkServiceView> {
    match v {
        Some(x) => Some(x@),
        None => None,
    }
}

pub open spec fn opt_source_view(v: Option<SensorSourceService>) -> Option<
    SensorSourceServiceView,
> {
    match v {
        Some(x) => Some(x@),
        None => None,
    }
}

pub open spec fn opt_bytes_view(v: Option<Vec<u8>>) -> Option<Seq<u8>> {
    match v {
        Some(x) => Some(x@),
        None => None,
    }
}

impl View for Service {
    type V = ServiceView;

    open spec fn view(&self) -> ServiceView {
        ServiceView {
            id: self.id,
            media_sink_service: opt_sink_view(self.media_sink_service),
            sensor_source_service: opt_source_view(self.sensor_source_service),
            navigation_status_service: opt_bytes_view(self.navigation_status_service),
            bluetooth_service: opt_bytes_view(self.bluetooth_service),
            wifi_projection_service: opt_bytes_view(self.wifi_projection_service),
            rest: self.rest@,
        }
    }
}

pub open spec fn spec_empty_service() -> ServiceView {
    ServiceView {
        id: None,
        media_sink_service: None,
        sensor_source_service: None,
        navigation_status_service: None,
        bluetooth_service: None,
        wifi_projection_service: None,
        rest: Seq::empty(),
    }
}

pub fn empty_service() -> (r: Service)
    ensures
        r@ == spec_empty_service(),
{
    let r = Service {
        id: None,
        media_sink_service: None,
        sensor_source_service: None,
        navigation_status_service: None,
        bluetooth_service: None,
        wifi_projection_service: None,
        rest: Vec::new(),
    };
    proof {
        assert(r@.rest =~= spec_empty_service().rest);
    }
    r
}

/// Parses the fields of a `Service` body from `i` on.
pub open spec fn spec_parse_service_fields(s: Seq<u8>, i: int, m: ServiceView) -> Option<
    ServiceView,
>
    decreases s.len() - i,
{
    if i == s.len() {
        Some(m)
    } else if i < 0 || i > s.len() {
        None
    } else {
        match spec_read_varint(s, i) {
            None => None,
            Some((key, j)) => {
                let field = key / 8;
                let wire = key % 8;
                if field == FIELD_SVC_ID && wire == WIRE_VARINT {
                    match spec_read_varint(s, j) {
                        None => None,
                        Some((v, j2)) => if v <= u32::MAX as u64 && i < j2 <= s.len() {
                            spec_parse_service_fields(
                                s,
                                j2,
                                ServiceView { id: Some(v as u32), ..m },
                            )
                        } else {
                            None
                        },
                    }
                } else if wire == WIRE_LEN && (field == FIELD_SVC_MEDIA_SINK || field
                    == FIELD_SVC_SENSOR_SOURCE || field == FIELD_SVC_NAV_STATUS || field
                    == FIELD_SVC_BLUETOOTH || field == FIELD_SVC_WIFI_PROJECTION) {
                    match spec_read_varint(s, j) {
                        None => None,
                        Some((n, j2)) => if j2 + n <= s.len() && i < j2 + n {
                            let body = s.subrange(j2, j2 + n as int);
                            if field == FIELD_SVC_MEDIA_SINK {
                                match spec_parse_media_sink(body) {
                                    None => None,
                                    Some(ms) => spec_parse_service_fields(
                                        s,
                                        j2 + n as int,
                                        ServiceView { media_sink_service: Some(ms), ..m },
                                    ),
                                }
                            } else if field == FIELD_SVC_SENSOR_SOURCE {
                                match spec_parse_sensor_source(body) {
                                    None => None,
                                    Some(ss) => spec_parse_service_fields(
                                        s,
                                        j2 + n as int,
                                        ServiceView { sensor_source_service: Some(ss), ..m },
                                    ),
                                }
                            } else if field == FIELD_SVC_NAV_STATUS {
                                spec_parse_service_fields(
                                    s,
                                    j2 + n as int,
                                    ServiceView { navigation_status_service: Some(body), ..m },
                                )
                            } else if field == FIELD_SVC_BLUETOOTH {
                                spec_parse_service_fields(
                                    s,
                                    j2 + n as int,
                                    ServiceView { bluetooth_service: Some(body), ..m },
                                )
                            } else {
                                spec_parse_service_fields(
                                    s,
                                    j2 + n as int,
                                    ServiceView { wifi_projection_service: Some(body), ..m },
                                )
                            }
                        } else {
                            None
                        },
                    }
                } else {
                    match spec_skip_value(s, j, wire) {
                        None => None,
                        Some(j2) => if i < j2 <= s.len() {
                            spec_parse_service_fields(
                                s,
                                j2,
                                ServiceView { rest: m.rest + s.subrange(i, j2), ..m },
                            )
                        } else {
                            None
                        },
                    }
                }
            },
        }
    }
}

pub open spec fn spec_parse_service(s: Seq<u8>) -> Option<ServiceView> {
    spec_parse_service_fields(s, 0, spec_empty_service())
}

fn parse_service_fields(s: &[u8], pos: usize, m: Service) -> (r: Option<Service>)
    requires
        pos <= s@.len(),
    ensures
        match r {
            Some(v) => spec_parse_service_fields(s@, pos as int, m@) == Some(v@),
            None => spec_parse_service_fields(s@, pos as int, m@) is None,
        },
    decreases s@.len() - pos,
{
    if pos == s.len() {
        return Some(m);
    }
    match read_varint(s, pos) {
        None => None,
        Some((key, j)) => {
            proof {
                crate::proto::lemma_read_varint_advances(s@, pos as int);
            }
            let field = key / 8;
            let wire = key % 8;
            if field == FIELD_SVC_ID && wire == WIRE_VARINT {
                match read_varint(s, j) {
                    None => None,
                    Some((v, j2)) => {
                        proof {
                            crate::proto::lemma_read_varint_advances(s@, j as int);
                        }
                        if v <= u32::MAX as u64 {
                            parse_service_fields(s, j2, Service { id: Some(v as u32), ..m })
                        } else {
                            None
                        }
                    },
                }
            } else if wire == WIRE_LEN && (field == FIELD_SVC_MEDIA_SINK || field
                == FIELD_SVC_SENSOR_SOURCE || field == FIELD_SVC_NAV_STATUS || field
                == FIELD_SVC_BLUETOOTH || field == FIELD_SVC_WIFI_PROJECTION) {
                match read_varint(s, j) {
                    None => None,
                    Some((n, j2)) => {
                        proof {
                            crate::proto::lemma_read_varint_advances(s@, j as int);
                        }
                        if n <= (s.len() - j2) as u64 {
                            let end = j2 + n as usize;
                            let body = slice_range_to_vec(s, j2, end);
                            if field == FIELD_SVC_MEDIA_SINK {
                                match parse_media_sink(body.as_slice()) {
                                    None => None,
                                    Some(ms) => parse_service_fields(
                                        s,
                                        end,
                                        Service { media_sink_service: Some(ms), ..m },
                                    ),
                                }
                            } else if field == FIELD_SVC_SENSOR_SOURCE {
                                match parse_sensor_source(body.as_slice()) {
                                    None => None,
                                    Some(ss) => parse_service_fields(
                                        s,
                                        end,
                                        Service { sensor_source_service: Some(ss), ..m },
                                    ),
                                }
                            } else if field == FIELD_SVC_NAV_STATUS {
                                parse_service_fields(
                                    s,
                                    end,
                                    Service { navigation_status_service: Some(body), ..m },
                                )
                            } else if field == FIELD_SVC_BLUETOOTH {
                                parse_service_fields(
                                    s,
                                    end,
                                    Service { bluetooth_service: Some(body), ..m },
                                )
                            } else {
                                parse_service_fields(
                                    s,
                                    end,
                                    Service { wifi_projection_service: Some(body), ..m },
                                )
                            }
                        } else {
                            None
                        }
                    },
                }
            } else {
                match skip_value(s, j, wire) {
                    None => None,
                    Some(j2) => {
                        let mut rest = m.rest;
                        let mut extra = slice_range_to_vec(s, pos, j2);
                        rest.append(&mut extra);
                        parse_service_fields(
                            s,
                            j2,
                            Service {
                                id: m.id,
                                media_sink_service: m.media_sink_service,
                                sensor_source_service: m.sensor_source_service,
                                navigation_status_service: m.navigation_status_service,
                                bluetooth_service: m.bluetooth_service,
                                wifi_projection_service: m.wifi_projection_service,
                                rest,
                            },
                        )
                    },
                }
            }
        },
    }
}

/// Parses a `Service` submessage body, as `spec_parse_service` describes.
pub fn parse_service(s: &[u8]) -> (r: Option<Service>)
    ensures
        match r {
            Some(v) => spec_parse_service(s@) == Some(v@),
            None => spec_parse_service(s@) is None,
        },
{
    parse_service_fields(s, 0, empty_service())
}

pub open spec fn spec_opt_len_field(field: u64, body: Option<Seq<u8>>) -> Seq<u8> {
    match body {
        Some(b) => spec_len_field(field, b),
        None => Seq::<u8>::empty(),
    }
}

pub open spec fn spec_encode_service(m: ServiceView) -> Seq<u8> {
    (match m.id {
        Some(id) => spec_varint_field(FIELD_SVC_ID, id as u64),
        None => Seq::<u8>::empty(),
    }) + (match m.media_sink_service {
        Some(ms) => spec_len_field(FIELD_SVC_MEDIA_SINK, spec_encode_media_sink(ms)),
        None => Seq::<u8>::empty(),
    }) + (match m.sensor_source_service {
        Some(ss) => spec_len_field(FIELD_SVC_SENSOR_SOURCE, spec_encode_sensor_source(ss)),
        None => Seq::<u8>::empty(),
    }) + spec_opt_len_field(FIELD_SVC_NAV_STATUS, m.navigation_status_service)
        + spec_opt_len_field(FIELD_SVC_BLUETOOTH, m.bluetooth_service) + spec_opt_len_field(
        FIELD_SVC_WIFI_PROJECTION,
        m.wifi_projection_service,
    ) + m.rest
}

#[verifier::spinoff_prover]
#[verifier::rlimit(100)]
pub fn encode_service(m: &Service, buf: &mut Vec<u8>)
    ensures
        final(buf)@ == old(buf)@ + spec_encode_service(m@),
{
    let ghost s0 = buf@;
    let ghost pid = match m@.id {
        Some(id) => spec_varint_field(FIELD_SVC_ID, id as u64),
        None => Seq::<u8>::empty(),
    };
    let ghost psink = match m@.media_sink_service {
        Some(ms) => spec_len_field(FIELD_SVC_MEDIA_SINK, spec_encode_media_sink(ms)),
        None => Seq::<u8>::empty(),
    };
    let ghost psrc = match m@.sensor_source_service {
        Some(ss) => spec_len_field(FIELD_SVC_SENSOR_SOURCE, spec_encode_sensor_source(ss)),
        None => Seq::<u8>::empty(),
    };
    let ghost pnav = spec_opt_len_field(FIELD_SVC_NAV_STATUS, m@.navigation_status_service);
    let ghost pbt = spec_opt_len_field(FIELD_SVC_BLUETOOTH, m@.bluetooth_service);
    let ghost pwifi = spec_opt_len_field(FIELD_SVC_WIFI_PROJECTION, m@.wifi_projection_service);
    match m.id {
        Some(id) => write_varint_field(buf, FIELD_SVC_ID, id as u64),
        None => (),
    }
    proof {
        assert(buf@ =~= s0 + pid);
    }
    match &m.media_sink_service {
        Some(ms) => {
            let mut body: Vec<u8> = Vec::new();
            encode_media_sink(ms, &mut body);
            write_len_field(buf, FIELD_SVC_MEDIA_SINK, body.as_slice());
        },
        None => (),
    }
    proof {
        assert(buf@ =~= s0 + pid + psink);
    }
    match &m.sensor_source_service {
        Some(ss) => {
            let mut body: Vec<u8> = Vec::new();
            encode_sensor_source(ss, &mut body);
            write_len_field(buf, FIELD_SVC_SENSOR_SOURCE, body.as_slice());
        },
        None => (),
    }
    proof {
        assert(buf@ =~= s0 + pid + psink + psrc);
    }
    match &m.navigation_status_service {
        Some(b) => write_len_field(buf, FIELD_SVC_NAV_STATUS, b.as_slice()),
        None => (),
    }
    proof {
        assert(buf@ =~= s0 + pid + psink + psrc + pnav);
    }
    match &m.bluetooth_service {
        Some(b) => write_len_field(buf, FIELD_SVC_BLUETOOTH, b.as_slice()),
        None => (),
    }
    proof {
        assert(buf@ =~= s0 + pid + psink + psrc + pnav + pbt);
    }
    match &m.wifi_projection_service {
        Some(b) => write_len_field(buf, FIELD_SVC_WIFI_PROJECTION, b.as_slice()),
        None => (),
    }
    proof {
        assert(buf@ =~= s0 + pid + psink + psrc + pnav + pbt + pwifi);
    }
    buf.extend_from_slice(m.rest.as_slice());
    proof {
        assert(buf@ =~= s0 + pid + psink + psrc + pnav + pbt + pwifi + m@.rest);
        assert(spec_encode_service(m@) == pid + psink + psrc + pnav + pbt + pwifi + m@.rest);
        assert(buf@ =~= s0 + spec_encode_service(m@));
    }
}

/// The `ServiceDiscoveryResponse` subset the proxy models.
pub struct ServiceDiscoveryResponse {
    pub services: Vec<Service>,
    pub make: Option<Vec<u8>>,
    pub model: Option<Vec<u8>>,
    pub rest: Vec<u8>,
}

pub struct ServiceDiscoveryResponseView {
    pub services: Seq<ServiceView>,
    pub make: Option<Seq<u8>>,
    pub model: Option<Seq<u8>>,
    pub rest: Seq<u8>,
}

pub open spec fn services_view(v: Seq<Service>) -> Seq<ServiceView> {
    v.map_values(|x: Service| x@)
}

impl View for ServiceDiscoveryResponse {
    type V = ServiceDiscoveryResponseView;

    open spec fn view(&self) -> ServiceDiscoveryResponseView {
        ServiceDiscoveryResponseView {
            services: services_view(self.services@),
            make: opt_bytes_view(self.make),
            model: opt_bytes_view(self.model),
            rest: self.rest@,
        }
    }
}

pub open spec fn spec_empty_sdr() -> ServiceDiscoveryResponseView {
    ServiceDiscoveryResponseView {
        services: Seq::empty(),
        make: None,
        model: None,
        rest: Seq::empty(),
    }
}

pub fn empty_sdr() -> (r: ServiceDiscoveryResponse)
    ensures
        r@ == spec_empty_sdr(),
{
    let r = ServiceDiscoveryResponse {
        services: Vec::new(),
        make: None,
        model: None,
        rest: Vec::new(),
    };
    proof {
        assert(r@.services =~= spec_empty_sdr().services);
        assert(r@.rest =~= spec_empty_sdr().rest);
    }
    r
}

/// Parses the fields of a `ServiceDiscoveryResponse` body from `i` on.
pub open spec fn spec_parse_sdr_fields(
    s: Seq<u8>,
    i: int,
    m: ServiceDiscoveryResponseView,
) -> Option<ServiceDiscoveryResponseView>
    decreases s.len() - i,
{
    if i == s.len() {
        Some(m)
    } else if i < 0 || i > s.len() {
        None
    } else {
        match spec_read_varint(s, i) {
            None => None,
            Some((key, j)) => {
                let field = key / 8;
                let wire = key % 8;
                if wire == WIRE_LEN && (field == FIELD_SDR_SERVICES || field == FIELD_SDR_MAKE
                    || field == FIELD_SDR_MODEL) {
                    match spec_read_varint(s, j) {
                        None => None,
                        Some((n, j2)) => if j2 + n <= s.len() && i < j2 + n {
                            let body = s.subrange(j2, j2 + n as int);
                            if field == FIELD_SDR_SERVICES {
                                match spec_parse_service(body) {
                                    None => None,
                                    Some(svc) => spec_parse_sdr_fields(
                                        s,
                                        j2 + n as int,
                                        ServiceDiscoveryResponseView {
                                            services: m.services.push(svc),
                                            ..m
                                        },
                                    ),
                                }
                            } else if field == FIELD_SDR_MAKE {
                                spec_parse_sdr_fields(
                                    s,
                                    j2 + n as int,
                                    ServiceDiscoveryResponseView { make: Some(body), ..m },
                                )
                            } else {
                                spec_parse_sdr_fields(
                                    s,
                                    j2 + n as int,
                                    ServiceDiscoveryResponseView { model: Some(body), ..m },
                                )
                            }
                        } else {
                            None
                        },
                    }
                } else {
                    match spec_skip_value(s, j, wire) {
                        None => None,
                        Some(j2) => if i < j2 <= s.len() {
                            spec_parse_sdr_fields(
                                s,
                                j2,
                                ServiceDiscoveryResponseView {
                                    rest: m.rest + s.subrange(i, j2),
                                    ..m
                                },
                            )
                        } else {
                            None
                        },
                    }
                }
            },
        }
    }
}

pub open spec fn spec_parse_sdr(s: Seq<u8>) -> Option<ServiceDiscoveryResponseView> {
    spec_parse_sdr_fields(s, 0, spec_empty_sdr())
}

fn parse_sdr_fields(s: &[u8], pos: usize, m: ServiceDiscoveryResponse) -> (r: Option<
    ServiceDiscoveryResponse,
>)
    requires
        pos <= s@.len(),
    ensures
        match r {
            Some(v) => spec_parse_sdr_fields(s@, pos as int, m@) == Some(v@),
            None => spec_parse_sdr_fields(s@, pos as int, m@) is None,
        },
    decreases s@.len() - pos,
{
    if pos == s.len() {
        return Some(m);
    }
    match read_varint(s, pos) {
        None => None,
        Some((key, j)) => {
            proof {
                crate::proto::lemma_read_varint_advances(s@, pos as int);
            }
            let field = key / 8;
            let wire = key % 8;
            if wire == WIRE_LEN && (field == FIELD_SDR_SERVICES || field == FIELD_SDR_MAKE || field
                == FIELD_SDR_MODEL) {
                match read_varint(s, j) {
                    None => None,
                    Some((n, j2)) => {
                        proof {
                            crate::proto::lemma_read_varint_advances(s@, j as int);
                        }
                        if n <= (s.len() - j2) as u64 {
                            let end = j2 + n as usize;
                            let body = slice_range_to_vec(s, j2, end);
                            if field == FIELD_SDR_SERVICES {
                                match parse_service(body.as_slice()) {
                                    None => None,
                                    Some(svc) => {
                                        let mut services = m.services;
                                        services.push(svc);
                                        let m2 = ServiceDiscoveryResponse {
                                            services,
                                            make: m.make,
                                            model: m.model,
                                            rest: m.rest,
                                        };
                                        proof {
                                            assert(m2@.services =~= m@.services.push(
                                                spec_parse_service(
                                                    s@.subrange(j2 as int, j2 + n as int),
                                                )->Some_0,
                                            ));
                                        }
                                        parse_sdr_fields(s, end, m2)
                                    },
                                }
                            } else if field == FIELD_SDR_MAKE {
                                parse_sdr_fields(
                                    s,
                                    end,
                                    ServiceDiscoveryResponse { make: Some(body), ..m },
                                )
                            } else {
                                parse_sdr_fields(
                                    s,
                                    end,
                                    ServiceDiscoveryResponse { model: Some(body), ..m },
                                )
                            }
                        } else {
                            None
                        }
                    },
                }
            } else {
                match skip_value(s, j, wire) {
                    None => None,
                    Some(j2) => {
                        let mut rest = m.rest;
                        let mut extra = slice_range_to_vec(s, pos, j2);
                        rest.append(&mut extra);
                        parse_sdr_fields(
                            s,
                            j2,
                            ServiceDiscoveryResponse {
                                services: m.services,
                                make: m.make,
                                model: m.model,
                                rest,
                            },
                        )
                    },
                }
            }
        },
    }
}

/// Parses a `ServiceDiscoveryResponse` body, as `spec_parse_sdr` describes.
pub fn parse_sdr(s: &[u8]) -> (r: Option<ServiceDiscoveryResponse>)
    ensures
        match r {
            Some(v) => spec_parse_sdr(s@) == Some(v@),
            None => spec_parse_sdr(s@) is None,
        },
{
    parse_sdr_fields(s, 0, empty_sdr())
}

pub open spec fn spec_encode_service_list(ss: Seq<ServiceView>) -> Seq<u8>
    decreases ss.len(),
{
    if ss.len() == 0 {
        Seq::empty()
    } else {
        spec_len_field(FIELD_SDR_SERVICES, spec_encode_service(ss[0])) + spec_encode_service_list(
            ss.skip(1),
        )
    }
}

fn encode_service_list(items: &Vec<Service>, buf: &mut Vec<u8>)
    ensures
        final(buf)@ == old(buf)@ + spec_encode_service_list(services_view(items@)),
{
    let ghost vs = services_view(items@);
    let ghost start = buf@;
    proof {
        assert(vs.skip(0) =~= vs);
    }
    let mut k: usize = 0;
    while k < items.len()
        invariant
            k <= items@.len(),
            vs == services_view(items@),
            buf@ + spec_encode_service_list(vs.skip(k as int)) == start + spec_encode_service_list(
                vs,
            ),
        decreases items@.len() - k,
    {
        proof {
            assert(vs.skip(k as int)[0] == vs[k as int]);
            assert(vs.skip(k as int).skip(1) =~= vs.skip(k as int + 1));
        }
        let mut body: Vec<u8> = Vec::new();
        encode_service(&items[k], &mut body);
        write_len_field(buf, FIELD_SDR_SERVICES, body.as_slice());
        k = k + 1;
    }
    proof {
        assert(vs.skip(k as int) =~= Seq::<ServiceView>::empty());
    }
}

/// The encoding of a `ServiceDiscoveryResponse`: the service list, the
/// `make` / `model` strings where present, then the unmodelled bytes.
pub open spec fn spec_encode_sdr(m: ServiceDiscoveryResponseView) -> Seq<u8> {
    spec_encode_service_list(m.services) + spec_opt_len_field(FIELD_SDR_MAKE, m.make)
        + spec_opt_len_field(FIELD_SDR_MODEL, m.model) + m.rest
}

/// Encodes a `ServiceDiscoveryResponse` body.
pub fn encode_sdr(m: &ServiceDiscoveryResponse) -> (r: Vec<u8>)
    ensures
        r@ == spec_encode_sdr(m@),
{
    let mut buf: Vec<u8> = Vec::new();
    encode_service_list(&m.services, &mut buf);
    match &m.make {
        Some(b) => write_len_field(&mut buf, FIELD_SDR_MAKE, b.as_slice()),
        None => (),
    }
    match &m.model {
        Some(b) => write_len_field(&mut buf, FIELD_SDR_MODEL, b.as_slice()),
        None => (),
    }
    buf.extend_from_slice(m.rest.as_slice());
    proof {
        assert(buf@ =~= spec_encode_sdr(m@));
    }
    buf
}

} // verus!
