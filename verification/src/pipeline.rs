//! Layout of the media pipelines that repackage camera streams: which
//! elements a pipeline is made of, how they are set up and how they are
//! linked. A layout is plain data; building it is left to the caller.
use vstd::prelude::*;
use vstd::string::StringExecFns;
use crate::config::{AudFormat, StreamConfig, VidFormat};
use crate::text::str_eq;

verus! {

/// Smallest buffer, in bytes, that a stream queue is ever given.
pub const MIN_BUFFER_BYTES: u32 = 4194304;

/// Largest bitrate for which fifteen eighths of it still fit in 32 bits.
pub const MAX_BITRATE: u32 = 286331153;

/// Longest time, in nanoseconds, that a queue holds back data.
pub const QUEUE_MAX_TIME_NS: u64 = 5000000000;

/// Time, in nanoseconds, after which silence replaces missing audio.
pub const FALLBACK_TIMEOUT_NS: u64 = 3000000000;

/// Buffers that the placeholder video sends before it ends.
pub const SPLASH_BUFFERS: i32 = 500;

/// Bytes of buffering for a stream of the given bitrate: fifteen eighths of
/// the bitrate, and never less than four mebibytes.
pub open spec fn spec_buffer_size(bitrate: u32) -> int {
    let scaled = (bitrate * 15) / 8;
    if scaled >= MIN_BUFFER_BYTES { scaled } else { MIN_BUFFER_BYTES as int }
}

/// Computes the buffer size for a stream of the given bitrate.
pub fn buffer_size(bitrate: u32) -> (size: u32)
    requires
        bitrate <= MAX_BITRATE,
    ensures
        size == spec_buffer_size(bitrate),
        size >= MIN_BUFFER_BYTES,
{
    let scaled: u32 = bitrate * 15u32 / 8u32;
    if scaled >= MIN_BUFFER_BYTES { scaled } else { MIN_BUFFER_BYTES }
}

/// The buffer size of a bitrate when it can be computed in 32 bits.
pub fn checked_buffer_size(bitrate: u32) -> (size: Option<u32>)
    ensures
        size == if bitrate <= MAX_BITRATE { Some(spec_buffer_size(bitrate) as u32) } else { None },
{
    if bitrate <= MAX_BITRATE { Some(buffer_size(bitrate)) } else { None }
}

/// A 32-bit unsigned number read as a signed one of the same bits.
pub open spec fn spec_as_signed(value: u32) -> int {
    if value <= i32::MAX { value as int } else { value - 0x1_0000_0000 }
}

/// Reads a 32-bit unsigned number as a signed one of the same bits.
pub fn as_signed(value: u32) -> (signed: i32)
    ensures
        signed == spec_as_signed(value),
{
    let wide: i64 = value as i64;
    if wide > 2147483647 { (wide - 4294967296) as i32 } else { wide as i32 }
}

/// The value of an element property.
#[derive(Debug)]
pub enum PropValue {
    U32(u32),
    U64(u64),
    I32(i32),
    Bool(bool),
    /// A string.
    Text(String),
    /// The name of one of the values that the property can take.
    Choice(String),
}

/// [`PropValue`] as plain values.
pub enum PropValueView {
    U32(u32),
    U64(u64),
    I32(i32),
    Bool(bool),
    Text(Seq<char>),
    Choice(Seq<char>),
}

impl View for PropValue {
    type V = PropValueView;

    open spec fn view(&self) -> PropValueView {
        match self {
            PropValue::U32(v) => PropValueView::U32(*v),
            PropValue::U64(v) => PropValueView::U64(*v),
            PropValue::I32(v) => PropValueView::I32(*v),
            PropValue::Bool(v) => PropValueView::Bool(*v),
            PropValue::Text(v) => PropValueView::Text(v@),
            PropValue::Choice(v) => PropValueView::Choice(v@),
        }
    }
}

/// One property to set on an element.
#[derive(Debug)]
pub struct Property {
    pub name: String,
    pub value: PropValue,
}

/// [`Property`] as plain values.
pub struct PropertyView {
    pub name: Seq<char>,
    pub value: PropValueView,
}

impl View for Property {
    type V = PropertyView;

    open spec fn view(&self) -> PropertyView {
        PropertyView { name: self.name@, value: self.value@ }
    }
}

/// The views of a sequence of properties.
pub open spec fn property_views(properties: Seq<Property>) -> Seq<PropertyView> {
    Seq::new(properties.len(), |i: int| properties[i]@)
}

/// One element of a pipeline: what it is made from, its name, and the
/// properties to set on it, in this order.
#[derive(Debug)]
pub struct ElementSpec {
    pub kind: String,
    pub name: String,
    pub properties: Vec<Property>,
}

/// [`ElementSpec`] as plain values.
pub struct ElementView {
    pub kind: Seq<char>,
    pub name: Seq<char>,
    pub properties: Seq<PropertyView>,
}

impl View for ElementSpec {
    type V = ElementView;

    open spec fn view(&self) -> ElementView {
        ElementView {
            kind: self.kind@,
            name: self.name@,
            properties: property_views(self.properties@),
        }
    }
}

/// The views of a sequence of elements.
pub open spec fn element_views(elements: Seq<ElementSpec>) -> Seq<ElementView> {
    Seq::new(elements.len(), |i: int| elements[i]@)
}

/// The value of a field of a media type description.
#[derive(Debug)]
pub enum CapsValue {
    Text(String),
    Int(i32),
    Fraction(i32, i32),
}

/// [`CapsValue`] as plain values.
pub enum CapsValueView {
    Text(Seq<char>),
    Int(i32),
    Fraction(i32, i32),
}

impl View for CapsValue {
    type V = CapsValueView;

    open spec fn view(&self) -> CapsValueView {
        match self {
            CapsValue::Text(v) => CapsValueView::Text(v@),
            CapsValue::Int(v) => CapsValueView::Int(*v),
            CapsValue::Fraction(n, d) => CapsValueView::Fraction(*n, *d),
        }
    }
}

/// One field of a media type description.
#[derive(Debug)]
pub struct CapsField {
    pub name: String,
    pub value: CapsValue,
}

/// [`CapsField`] as plain values.
pub struct CapsFieldView {
    pub name: Seq<char>,
    pub value: CapsValueView,
}

impl View for CapsField {
    type V = CapsFieldView;

    open spec fn view(&self) -> CapsFieldView {
        CapsFieldView { name: self.name@, value: self.value@ }
    }
}

/// The views of a sequence of fields.
pub open spec fn field_views(fields: Seq<CapsField>) -> Seq<CapsFieldView> {
    Seq::new(fields.len(), |i: int| fields[i]@)
}

/// A media type description.
#[derive(Debug)]
pub struct Caps {
    pub media_type: String,
    pub fields: Vec<CapsField>,
}

/// [`Caps`] as plain values.
pub struct CapsView {
    pub media_type: Seq<char>,
    pub fields: Seq<CapsFieldView>,
}

impl View for Caps {
    type V = CapsView;

    open spec fn view(&self) -> CapsView {
        CapsView { media_type: self.media_type@, fields: field_views(self.fields@) }
    }
}

/// The view of an optional media type description.
pub open spec fn caps_view(caps: Option<Caps>) -> Option<CapsView> {
    match caps {
        Some(caps) => Some(caps@),
        None => None,
    }
}

/// A link from the source pad of one element to the sink pad of another,
/// both named by their position in the layout.
#[derive(Debug)]
pub struct Link {
    pub from: usize,
    pub to: usize,
    /// The media type that the link is restricted to.
    pub filter: Option<Caps>,
}

/// [`Link`] as plain values.
pub struct LinkView {
    pub from: usize,
    pub to: usize,
    pub filter: Option<CapsView>,
}

impl View for Link {
    type V = LinkView;

    open spec fn view(&self) -> LinkView {
        LinkView { from: self.from, to: self.to, filter: caps_view(self.filter) }
    }
}

/// The views of a sequence of links.
pub open spec fn link_views(links: Seq<Link>) -> Seq<LinkView> {
    Seq::new(links.len(), |i: int| links[i]@)
}

/// How the application source of a pipeline is set up. The source is the
/// first element of the layout.
#[derive(Debug)]
pub struct AppSource {
    pub is_live: bool,
    pub block: bool,
    pub min_latency: i64,
    pub emit_signals: bool,
    /// Most bytes that the source queues.
    pub max_bytes: u64,
    pub do_timestamp: bool,
    pub seekable: bool,
    /// The media type that the source announces.
    pub caps: Option<Caps>,
}

/// [`AppSource`] as plain values.
pub struct AppSourceView {
    pub is_live: bool,
    pub block: bool,
    pub min_latency: i64,
    pub emit_signals: bool,
    pub max_bytes: u64,
    pub do_timestamp: bool,
    pub seekable: bool,
    pub caps: Option<CapsView>,
}

impl View for AppSource {
    type V = AppSourceView;

    open spec fn view(&self) -> AppSourceView {
        AppSourceView {
            is_live: self.is_live,
            block: self.block,
            min_latency: self.min_latency,
            emit_signals: self.emit_signals,
            max_bytes: self.max_bytes,
            do_timestamp: self.do_timestamp,
            seekable: self.seekable,
            caps: caps_view(self.caps),
        }
    }
}

/// The view of an optional application source.
pub open spec fn source_view(source: Option<AppSource>) -> Option<AppSourceView> {
    match source {
        Some(source) => Some(source@),
        None => None,
    }
}

/// The layout of one pipeline.
#[derive(Debug)]
pub struct PipelinePlan {
    /// The elements of the bin, in the order in which they are added.
    pub elements: Vec<ElementSpec>,
    /// Elements that have to be available but stay out of the bin.
    pub spare: Vec<ElementSpec>,
    /// The links to make, in this order.
    pub links: Vec<Link>,
    /// The application source through which frames enter, if the pipeline
    /// is fed by the camera.
    pub source: Option<AppSource>,
    /// A link that can only be made once the first element of the pair
    /// has grown its source pad.
    pub late_link: Option<(usize, usize)>,
}

/// [`PipelinePlan`] as plain values.
pub struct PlanView {
    pub elements: Seq<ElementView>,
    pub spare: Seq<ElementView>,
    pub links: Seq<LinkView>,
    pub source: Option<AppSourceView>,
    pub late_link: Option<(usize, usize)>,
}

impl View for PipelinePlan {
    type V = PlanView;

    open spec fn view(&self) -> PlanView {
        PlanView {
            elements: element_views(self.elements@),
            spare: element_views(self.spare@),
            links: link_views(self.links@),
            source: source_view(self.source),
            late_link: self.late_link,
        }
    }
}

/// The view of an optional layout.
pub open spec fn plan_view(plan: Option<PipelinePlan>) -> Option<PlanView> {
    match plan {
        Some(plan) => Some(plan@),
        None => None,
    }
}

impl PlanView {
    /// Every link joins two different elements of the bin, and a pipeline
    /// with an application source starts with an `appsrc`.
    pub open spec fn wf(self) -> bool {
        &&& forall|i: int|
            0 <= i < self.links.len() ==> (#[trigger] self.links[i]).from < self.elements.len()
                && self.links[i].to < self.elements.len() && self.links[i].from != self.links[i].to
        &&& self.late_link matches Some(pair) ==> pair.0 < self.elements.len() && pair.1
            < self.elements.len() && pair.0 != pair.1
        &&& self.source.is_some() ==> self.elements.len() > 0 && self.elements[0].kind == "appsrc"@
    }
}

/// A property as plain values.
pub open spec fn spec_property(name: Seq<char>, value: PropValueView) -> PropertyView {
    PropertyView { name, value }
}

/// An element without properties.
pub open spec fn spec_element(kind: Seq<char>, name: Seq<char>) -> ElementView {
    ElementView { kind, name, properties: Seq::empty() }
}

/// An unrestricted link.
pub open spec fn spec_link(from: usize, to: usize) -> LinkView {
    LinkView { from, to, filter: None }
}

/// A queue that holds up to `buffer_size` bytes, any number of buffers,
/// and at most five seconds of data. The properties are listed as they are
/// set; the time limit is set twice and the second value stands.
pub open spec fn spec_queue(name: Seq<char>, buffer_size: u32) -> ElementView {
    ElementView {
        kind: "queue"@,
        name: "queue1_"@ + name,
        properties: seq![
            spec_property("max-size-bytes"@, PropValueView::U32(buffer_size)),
            spec_property("max-size-buffers"@, PropValueView::U32(0)),
            spec_property("max-size-time"@, PropValueView::U64(0)),
            spec_property("max-size-time"@, PropValueView::U64(QUEUE_MAX_TIME_NS)),
        ],
    }
}

/// The application source of a stream with the given buffer size: live,
/// never blocking, time-stamping, seekable, and queueing at most three
/// buffers' worth of bytes.
pub open spec fn spec_app_source(buffer_size: u32, caps: Option<CapsView>) -> AppSourceView {
    AppSourceView {
        is_live: true,
        block: false,
        min_latency: 0,
        emit_signals: false,
        max_bytes: (buffer_size * 3) as u64,
        do_timestamp: true,
        seekable: true,
        caps,
    }
}

/// The media type of the placeholder video.
pub open spec fn spec_splash_caps() -> CapsView {
    CapsView {
        media_type: "video/x-raw"@,
        fields: seq![
            CapsFieldView { name: "format"@, value: CapsValueView::Text("YUY2"@) },
            CapsFieldView { name: "width"@, value: CapsValueView::Int(896) },
            CapsFieldView { name: "height"@, value: CapsValueView::Int(512) },
            CapsFieldView { name: "framerate"@, value: CapsValueView::Fraction(25, 1) },
        ],
    }
}

/// The media type of ADPCM audio with the given block size.
pub open spec fn spec_adpcm_caps(block_size: u32) -> CapsView {
    CapsView {
        media_type: "audio/x-adpcm"@,
        fields: seq![
            CapsFieldView { name: "layout"@, value: CapsValueView::Text("div"@) },
            CapsFieldView {
                name: "block_align"@,
                value: CapsValueView::Int(spec_as_signed(block_size) as i32),
            },
            CapsFieldView { name: "channels"@, value: CapsValueView::Int(1) },
            CapsFieldView { name: "rate"@, value: CapsValueView::Int(8000) },
        ],
    }
}

/// The placeholder pipeline that is shown while a stream is not ready: a
/// test picture in the given pattern with a notice on it, as JPEG.
pub open spec fn spec_build_unknown(pattern: Seq<char>) -> PlanView {
    PlanView {
        elements: seq![
            ElementView {
                kind: "videotestsrc"@,
                name: "testvidsrc"@,
                properties: seq![
                    spec_property("pattern"@, PropValueView::Choice(pattern)),
                    spec_property("num-buffers"@, PropValueView::I32(SPLASH_BUFFERS)),
                ],
            },
            spec_queue("queue0"@, MIN_BUFFER_BYTES),
            ElementView {
                kind: "textoverlay"@,
                name: "overlay"@,
                properties: seq![
                    spec_property("text"@, PropValueView::Text("Stream not Ready"@)),
                    spec_property("valignment"@, PropValueView::Choice("top"@)),
                    spec_property("halignment"@, PropValueView::Choice("left"@)),
                    spec_property("font-desc"@, PropValueView::Text("Sans, 16"@)),
                ],
            },
            spec_element("jpegenc"@, "encoder"@),
            spec_element("rtpjpegpay"@, "pay0"@),
        ],
        spare: Seq::empty(),
        links: seq![
            LinkView { from: 0, to: 1, filter: Some(spec_splash_caps()) },
            spec_link(1, 2),
            spec_link(2, 3),
            spec_link(3, 4),
        ],
        source: None,
        late_link: None,
    }
}

/// The pipeline of a video stream: source, queue, parser, time stamper and
/// payloader, linked in this order.
pub open spec fn spec_build_video(
    bitrate: u32,
    parser: Seq<char>,
    stamper: Seq<char>,
    payloader: Seq<char>,
) -> PlanView {
    let size = spec_buffer_size(bitrate) as u32;
    PlanView {
        elements: seq![
            spec_element("appsrc"@, "vidsrc"@),
            spec_queue("source_queue"@, size),
            spec_element(parser, "parser"@),
            spec_element(stamper, "stamper"@),
            spec_element(payloader, "pay0"@),
        ],
        spare: Seq::empty(),
        links: seq![spec_link(0, 1), spec_link(1, 2), spec_link(2, 3), spec_link(3, 4)],
        source: Some(spec_app_source(size, None)),
        late_link: None,
    }
}

/// The pipeline of an H.264 stream.
pub open spec fn spec_build_h264(config: StreamConfig) -> PlanView {
    spec_build_video(config.bitrate, "h264parse"@, "h264timestamper"@, "rtph264pay"@)
}

/// The pipeline of an H.265 stream.
pub open spec fn spec_build_h265(config: StreamConfig) -> PlanView {
    spec_build_video(config.bitrate, "h265parse"@, "h265timestamper"@, "rtph265pay"@)
}

/// Which of the optional audio elements can be had.
#[derive(Clone, Copy, Debug, PartialEq, Eq, Structural)]
pub struct AacSupport {
    /// Whether the `faad` decoder is there; `avdec_aac` is taken otherwise.
    pub faad: bool,
    /// Whether the switch that falls back to silence is there.
    pub fallback_switch: bool,
}

/// The silence that stands in for missing audio.
pub open spec fn spec_silence() -> ElementView {
    ElementView {
        kind: "audiotestsrc"@,
        name: "audsilence"@,
        properties: seq![spec_property("wave"@, PropValueView::Choice("silence"@))],
    }
}

/// The decoder of AAC audio.
pub open spec fn spec_aac_decoder(faad: bool) -> ElementView {
    if faad {
        spec_element("faad"@, "auddecoder_faad"@)
    } else {
        spec_element("avdec_aac"@, "auddecoder_avdec_aac"@)
    }
}

/// The pipeline of AAC audio: source, queue, parser, decoder, converter
/// and payloader. Where the fallback switch can be had, it stands between
/// decoder and converter and is fed with silence as well; where it cannot,
/// the silence is made and left aside.
pub open spec fn spec_build_aac(config: StreamConfig, support: AacSupport) -> PlanView {
    let size = spec_buffer_size(config.bitrate) as u32;
    let chain = seq![
        spec_element("appsrc"@, "audsrc"@),
        spec_queue("audqueue"@, size),
        spec_element("aacparse"@, "audparser"@),
        spec_aac_decoder(support.faad),
        spec_element("audioconvert"@, "audencoder"@),
        spec_element("rtpL16pay"@, "pay1"@),
    ];
    if support.fallback_switch {
        PlanView {
            elements: chain.push(spec_silence()).push(
                ElementView {
                    kind: "fallbackswitch"@,
                    name: "audfallbackswitch"@,
                    properties: seq![
                        spec_property("timeout"@, PropValueView::U64(FALLBACK_TIMEOUT_NS)),
                        spec_property("immediate-fallback"@, PropValueView::Bool(true)),
                    ],
                },
            ),
            spare: Seq::empty(),
            links: seq![
                spec_link(0, 1),
                spec_link(1, 2),
                spec_link(2, 3),
                spec_link(3, 7),
                spec_link(7, 4),
                spec_link(4, 5),
                spec_link(6, 7),
            ],
            source: Some(spec_app_source(size, None)),
            late_link: None,
        }
    } else {
        PlanView {
            elements: chain,
            spare: seq![spec_silence()],
            links: seq![
                spec_link(0, 1),
                spec_link(1, 2),
                spec_link(2, 3),
                spec_link(3, 4),
                spec_link(4, 5),
            ],
            source: Some(spec_app_source(size, None)),
            late_link: None,
        }
    }
}

/// The pipeline of ADPCM audio: source, queue and decoder on one side,
/// converter and payloader on the other; the two sides are joined once the
/// decoder has found out what it decodes.
pub open spec fn spec_build_adpcm(block_size: u32, config: StreamConfig) -> PlanView {
    let size = spec_buffer_size(config.bitrate) as u32;
    PlanView {
        elements: seq![
            spec_element("appsrc"@, "audsrc"@),
            spec_queue("audqueue"@, size),
            spec_element("decodebin"@, "auddecoder"@),
            spec_element("audioconvert"@, "audencoder"@),
            spec_element("rtpL16pay"@, "pay1"@),
        ],
        spare: Seq::empty(),
        links: seq![spec_link(0, 1), spec_link(1, 2), spec_link(3, 4)],
        source: Some(spec_app_source(size, Some(spec_adpcm_caps(block_size)))),
        late_link: Some((2usize, 3usize)),
    }
}

/// What a media factory builds for one client: the video pipeline and,
/// where the stream has audio, the audio pipeline.
#[derive(Debug)]
pub struct FactoryPlan {
    pub video: PipelinePlan,
    pub audio: Option<PipelinePlan>,
}

/// [`FactoryPlan`] as plain values.
pub struct FactoryPlanView {
    pub video: PlanView,
    pub audio: Option<PlanView>,
}

impl View for FactoryPlan {
    type V = FactoryPlanView;

    open spec fn view(&self) -> FactoryPlanView {
        FactoryPlanView { video: self.video@, audio: plan_view(self.audio) }
    }
}

/// Whether the pipelines of a stream can be laid out: its buffer size has
/// to be computable, unless the video format is unknown and no buffer is
/// needed.
pub open spec fn plannable(config: StreamConfig) -> bool {
    config.vid_format != VidFormat::Unknown ==> config.bitrate <= MAX_BITRATE
}

/// What a media factory builds for a stream. A stream whose video format
/// is not known gets the black placeholder and no audio; any other stream
/// gets the pipeline of its video format and, if it has audio, that of its
/// audio format.
pub open spec fn spec_make_factory(config: StreamConfig, support: AacSupport) -> FactoryPlanView {
    match config.vid_format {
        VidFormat::Unknown => FactoryPlanView { video: spec_build_unknown("black"@), audio: None },
        VidFormat::H264 => FactoryPlanView {
            video: spec_build_h264(config),
            audio: spec_factory_audio(config, support),
        },
        VidFormat::H265 => FactoryPlanView {
            video: spec_build_h265(config),
            audio: spec_factory_audio(config, support),
        },
    }
}

/// The audio pipeline of a stream whose video format is known.
pub open spec fn spec_factory_audio(config: StreamConfig, support: AacSupport) -> Option<PlanView> {
    match config.aud_format {
        AudFormat::Absent => None,
        AudFormat::Aac => Some(spec_build_aac(config, support)),
        AudFormat::Adpcm(block_size) => Some(spec_build_adpcm(block_size, config)),
    }
}

/// What a factory builds while the camera has nothing to show: the
/// placeholder in the given pattern if a splash is wanted, nothing
/// otherwise.
pub open spec fn spec_make_dummy_factory(use_splash: bool, pattern: Seq<char>) -> Option<PlanView> {
    if use_splash { Some(spec_build_unknown(pattern)) } else { None }
}

/// Two queues in a bin of their own: the first as [`spec_queue`] sets it
/// up but without a time limit, the second a `queue2` of two thirds the
/// size that holds at most five seconds and does not buffer.
pub struct DoubleQueueView {
    pub name: Seq<char>,
    pub first: ElementView,
    pub second: ElementView,
}

/// The layout of two queues in a bin of their own. The bin shows the sink
/// pad of the first queue and the source pad of the second as its own.
#[derive(Debug)]
pub struct DoubleQueue {
    /// Name of the bin.
    pub name: String,
    pub first: ElementSpec,
    pub second: ElementSpec,
}

impl View for DoubleQueue {
    type V = DoubleQueueView;

    open spec fn view(&self) -> DoubleQueueView {
        DoubleQueueView { name: self.name@, first: self.first@, second: self.second@ }
    }
}

/// The double queue of the given name and size. The properties are listed
/// as they are set.
pub open spec fn spec_make_dbl_queue(name: Seq<char>, buffer_size: u32) -> DoubleQueueView {
    DoubleQueueView {
        name,
        first: ElementView {
            kind: "queue"@,
            name: "queue1_"@ + name,
            properties: seq![
                spec_property("max-size-bytes"@, PropValueView::U32(buffer_size)),
                spec_property("max-size-buffers"@, PropValueView::U32(0)),
                spec_property("max-size-time"@, PropValueView::U64(0)),
                spec_property("max-size-buffers"@, PropValueView::U32(0)),
                spec_property("max-size-time"@, PropValueView::U64(0)),
            ],
        },
        second: ElementView {
            kind: "queue2"@,
            name: "queue2_"@ + name,
            properties: seq![
                spec_property("max-size-bytes"@, PropValueView::U32((buffer_size * 2 / 3) as u32)),
                spec_property("max-size-time"@, PropValueView::U64(QUEUE_MAX_TIME_NS)),
                spec_property("use-buffering"@, PropValueView::Bool(false)),
            ],
        },
    }
}

/// The plugin that provides an element kind, as a hint for whoever has to
/// install it.
pub open spec fn spec_plugin_for(kind: Seq<char>) -> Seq<char> {
    if kind == "appsrc"@ {
        "app (gst-plugins-base)"@
    } else if kind == "audioconvert"@ {
        "audioconvert (gst-plugins-base)"@
    } else if kind == "adpcmdec"@ {
        "Required for audio"@
    } else if kind == "h264parse"@ || kind == "h265parse"@ {
        "videoparsersbad (gst-plugins-bad)"@
    } else if kind == "rtph264pay"@ || kind == "rtph265pay"@ || kind == "rtpjitterbuffer"@ || kind
        == "rtpL16pay"@ {
        "rtp (gst-plugins-good)"@
    } else if kind == "aacparse"@ {
        "audioparsers (gst-plugins-good)"@
    } else if kind == "x264enc"@ {
        "x264 (gst-plugins-ugly)"@
    } else if kind == "x265enc"@ {
        "x265 (gst-plugins-bad)"@
    } else if kind == "avdec_h264"@ || kind == "avdec_h265"@ {
        "libav (gst-libav)"@
    } else if kind == "videotestsrc"@ {
        "videotestsrc (gst-plugins-base)"@
    } else if kind == "imagefreeze"@ {
        "imagefreeze (gst-plugins-good)"@
    } else if kind == "audiotestsrc"@ {
        "audiotestsrc (gst-plugins-base)"@
    } else if kind == "decodebin"@ {
        "playback (gst-plugins-good)"@
    } else {
        "Unknown"@
    }
}

/// What to tell the user when an element of the given kind cannot be made.
pub open spec fn spec_missing_plugin_message(kind: Seq<char>) -> Seq<char> {
    "Missing required gstreamer plugin `"@ + spec_plugin_for(kind) + "` for `"@ + kind
        + "` element"@
}


/// Every layout that this module describes is well formed.
pub proof fn lemma_layouts_are_wf(
    config: StreamConfig,
    support: AacSupport,
    block_size: u32,
    pattern: Seq<char>,
)
    ensures
        spec_build_unknown(pattern).wf(),
        spec_build_h264(config).wf(),
        spec_build_h265(config).wf(),
        spec_build_aac(config, support).wf(),
        spec_build_adpcm(block_size, config).wf(),
        spec_make_factory(config, support).video.wf(),
        spec_make_factory(config, support).audio matches Some(audio) ==> audio.wf(),
{
}

/// A factory hands its client an application source for the video exactly
/// when the video format is known, and one for the audio exactly when the
/// video format is known and the stream has audio.
pub proof fn lemma_factory_sources(config: StreamConfig, support: AacSupport)
    ensures
        spec_make_factory(config, support).video.source.is_some() <==> config.vid_format
            != VidFormat::Unknown,
        spec_make_factory(config, support).audio.is_some() <==> config.vid_format
            != VidFormat::Unknown && config.aud_format != AudFormat::Absent,
        spec_make_factory(config, support).audio matches Some(audio) ==> audio.source.is_some(),
{
}

/// Stands in for the stream where a layout does not depend on it.
spec fn any_stream() -> StreamConfig {
    StreamConfig { vid_format: VidFormat::Unknown, aud_format: AudFormat::Absent, bitrate: 0 }
}

/// Stands in for the optional elements where a layout does not depend on
/// them.
spec fn no_support() -> AacSupport {
    AacSupport { faad: false, fallback_switch: false }
}

fn text(s: &str) -> (out: String)
    ensures
        out@ == s@,
{
    String::from_str(s)
}

fn no_properties() -> (v: Vec<Property>)
    ensures
        property_views(v@) == Seq::<PropertyView>::empty(),
{
    let v: Vec<Property> = Vec::new();
    assert(property_views(v@) =~= Seq::<PropertyView>::empty());
    v
}

fn push_property(v: &mut Vec<Property>, name: &str, value: PropValue)
    ensures
        property_views(final(v)@) == property_views(old(v)@).push(spec_property(name@, value@)),
{
    v.push(Property { name: text(name), value });
    assert(property_views(v@) =~= property_views(old(v)@).push(spec_property(name@, value@)));
}

fn no_elements() -> (v: Vec<ElementSpec>)
    ensures
        element_views(v@) == Seq::<ElementView>::empty(),
{
    let v: Vec<ElementSpec> = Vec::new();
    assert(element_views(v@) =~= Seq::<ElementView>::empty());
    v
}

fn push_element(v: &mut Vec<ElementSpec>, element: ElementSpec)
    ensures
        element_views(final(v)@) == element_views(old(v)@).push(element@),
{
    let ghost view = element@;
    v.push(element);
    assert(element_views(v@) =~= element_views(old(v)@).push(view));
}

fn no_links() -> (v: Vec<Link>)
    ensures
        link_views(v@) == Seq::<LinkView>::empty(),
{
    let v: Vec<Link> = Vec::new();
    assert(link_views(v@) =~= Seq::<LinkView>::empty());
    v
}

fn push_link(v: &mut Vec<Link>, from: usize, to: usize)
    ensures
        link_views(final(v)@) == link_views(old(v)@).push(spec_link(from, to)),
{
    v.push(Link { from, to, filter: None });
    assert(link_views(v@) =~= link_views(old(v)@).push(spec_link(from, to)));
}

fn push_filtered_link(v: &mut Vec<Link>, from: usize, to: usize, filter: Caps)
    ensures
        link_views(final(v)@) == link_views(old(v)@).push(
            LinkView { from, to, filter: Some(filter@) },
        ),
{
    let ghost view = filter@;
    v.push(Link { from, to, filter: Some(filter) });
    assert(link_views(v@) =~= link_views(old(v)@).push(LinkView { from, to, filter: Some(view) }));
}

fn no_fields() -> (v: Vec<CapsField>)
    ensures
        field_views(v@) == Seq::<CapsFieldView>::empty(),
{
    let v: Vec<CapsField> = Vec::new();
    assert(field_views(v@) =~= Seq::<CapsFieldView>::empty());
    v
}

fn push_field(v: &mut Vec<CapsField>, name: &str, value: CapsValue)
    ensures
        field_views(final(v)@) == field_views(old(v)@).push(
            CapsFieldView { name: name@, value: value@ },
        ),
{
    let ghost view = value@;
    v.push(CapsField { name: text(name), value });
    assert(field_views(v@) =~= field_views(old(v)@).push(
        CapsFieldView { name: name@, value: view },
    ));
}

/// Describes an element of the given kind and name, with no property set.
pub fn make_element(kind: &str, name: &str) -> (element: ElementSpec)
    ensures
        element@ == spec_element(kind@, name@),
{
    ElementSpec { kind: text(kind), name: text(name), properties: no_properties() }
}

/// Names the plugin that provides an element kind.
pub fn plugin_for(kind: &str) -> (plugin: &'static str)
    ensures
        plugin@ == spec_plugin_for(kind@),
{
    if str_eq(kind, "appsrc") {
        "app (gst-plugins-base)"
    } else if str_eq(kind, "audioconvert") {
        "audioconvert (gst-plugins-base)"
    } else if str_eq(kind, "adpcmdec") {
        "Required for audio"
    } else if str_eq(kind, "h264parse") || str_eq(kind, "h265parse") {
        "videoparsersbad (gst-plugins-bad)"
    } else if str_eq(kind, "rtph264pay") || str_eq(kind, "rtph265pay") || str_eq(
        kind,
        "rtpjitterbuffer",
    ) || str_eq(kind, "rtpL16pay") {
        "rtp (gst-plugins-good)"
    } else if str_eq(kind, "aacparse") {
        "audioparsers (gst-plugins-good)"
    } else if str_eq(kind, "x264enc") {
        "x264 (gst-plugins-ugly)"
    } else if str_eq(kind, "x265enc") {
        "x265 (gst-plugins-bad)"
    } else if str_eq(kind, "avdec_h264") || str_eq(kind, "avdec_h265") {
        "libav (gst-libav)"
    } else if str_eq(kind, "videotestsrc") {
        "videotestsrc (gst-plugins-base)"
    } else if str_eq(kind, "imagefreeze") {
        "imagefreeze (gst-plugins-good)"
    } else if str_eq(kind, "audiotestsrc") {
        "audiotestsrc (gst-plugins-base)"
    } else if str_eq(kind, "decodebin") {
        "playback (gst-plugins-good)"
    } else {
        "Unknown"
    }
}

/// Says which plugin is missing when an element of the given kind cannot
/// be made.
pub fn missing_plugin_message(kind: &str) -> (message: String)
    ensures
        message@ == spec_missing_plugin_message(kind@),
{
    let mut message = text("Missing required gstreamer plugin `");
    message.append(plugin_for(kind));
    message.append("` for `");
    message.append(kind);
    message.append("` element");
    message
}

/// Describes the queue of the given name and size.
pub fn make_queue(name: &str, buffer_size: u32) -> (queue: ElementSpec)
    ensures
        queue@ == spec_queue(name@, buffer_size),
{
    let mut properties = no_properties();
    push_property(&mut properties, "max-size-bytes", PropValue::U32(buffer_size));
    push_property(&mut properties, "max-size-buffers", PropValue::U32(0));
    push_property(&mut properties, "max-size-time", PropValue::U64(0));
    push_property(&mut properties, "max-size-time", PropValue::U64(QUEUE_MAX_TIME_NS));
    assert(property_views(properties@) =~= spec_queue(name@, buffer_size).properties);
    ElementSpec { kind: text("queue"), name: text("queue1_").concat(name), properties }
}

/// Describes the double queue of the given name and size.
pub fn make_dbl_queue(name: &str, buffer_size: u32) -> (queues: DoubleQueue)
    requires
        buffer_size * 2 <= u32::MAX,
    ensures
        queues@ == spec_make_dbl_queue(name@, buffer_size),
{
    let mut first = no_properties();
    push_property(&mut first, "max-size-bytes", PropValue::U32(buffer_size));
    push_property(&mut first, "max-size-buffers", PropValue::U32(0));
    push_property(&mut first, "max-size-time", PropValue::U64(0));
    push_property(&mut first, "max-size-buffers", PropValue::U32(0));
    push_property(&mut first, "max-size-time", PropValue::U64(0));
    let mut second = no_properties();
    push_property(&mut second, "max-size-bytes", PropValue::U32(buffer_size * 2u32 / 3u32));
    push_property(&mut second, "max-size-time", PropValue::U64(QUEUE_MAX_TIME_NS));
    push_property(&mut second, "use-buffering", PropValue::Bool(false));
    assert(property_views(first@) =~= spec_make_dbl_queue(name@, buffer_size).first.properties);
    assert(property_views(second@) =~= spec_make_dbl_queue(name@, buffer_size).second.properties);
    DoubleQueue {
        name: text(name),
        first: ElementSpec {
            kind: text("queue"),
            name: text("queue1_").concat(name),
            properties: first,
        },
        second: ElementSpec {
            kind: text("queue2"),
            name: text("queue2_").concat(name),
            properties: second,
        },
    }
}

fn app_source(buffer_size: u32, caps: Option<Caps>) -> (source: AppSource)
    ensures
        source@ == spec_app_source(buffer_size, caps_view(caps)),
{
    let wide: u64 = buffer_size as u64;
    AppSource {
        is_live: true,
        block: false,
        min_latency: 0,
        emit_signals: false,
        max_bytes: wide * 3,
        do_timestamp: true,
        seekable: true,
        caps,
    }
}

fn splash_caps() -> (caps: Caps)
    ensures
        caps@ == spec_splash_caps(),
{
    let mut fields = no_fields();
    push_field(&mut fields, "format", CapsValue::Text(text("YUY2")));
    push_field(&mut fields, "width", CapsValue::Int(896));
    push_field(&mut fields, "height", CapsValue::Int(512));
    push_field(&mut fields, "framerate", CapsValue::Fraction(25, 1));
    assert(field_views(fields@) =~= spec_splash_caps().fields);
    Caps { media_type: text("video/x-raw"), fields }
}

fn adpcm_caps(block_size: u32) -> (caps: Caps)
    ensures
        caps@ == spec_adpcm_caps(block_size),
{
    let mut fields = no_fields();
    push_field(&mut fields, "layout", CapsValue::Text(text("div")));
    push_field(&mut fields, "block_align", CapsValue::Int(as_signed(block_size)));
    push_field(&mut fields, "channels", CapsValue::Int(1));
    push_field(&mut fields, "rate", CapsValue::Int(8000));
    assert(field_views(fields@) =~= spec_adpcm_caps(block_size).fields);
    Caps { media_type: text("audio/x-adpcm"), fields }
}

fn silence() -> (element: ElementSpec)
    ensures
        element@ == spec_silence(),
{
    let mut properties = no_properties();
    push_property(&mut properties, "wave", PropValue::Choice(text("silence")));
    ElementSpec { kind: text("audiotestsrc"), name: text("audsilence"), properties }
}

/// Lays out the placeholder pipeline in the given test pattern.
pub fn build_unknown(pattern: &str) -> (plan: PipelinePlan)
    ensures
        plan@ == spec_build_unknown(pattern@),
        plan@.wf(),
{
    let mut source = no_properties();
    push_property(&mut source, "pattern", PropValue::Choice(text(pattern)));
    push_property(&mut source, "num-buffers", PropValue::I32(SPLASH_BUFFERS));
    assert(property_views(source@) =~= spec_build_unknown(pattern@).elements[0].properties);
    let mut overlay = no_properties();
    push_property(&mut overlay, "text", PropValue::Text(text("Stream not Ready")));
    push_property(&mut overlay, "valignment", PropValue::Choice(text("top")));
    push_property(&mut overlay, "halignment", PropValue::Choice(text("left")));
    push_property(&mut overlay, "font-desc", PropValue::Text(text("Sans, 16")));
    assert(property_views(overlay@) =~= spec_build_unknown(pattern@).elements[2].properties);
    let mut elements = no_elements();
    push_element(
        &mut elements,
        ElementSpec { kind: text("videotestsrc"), name: text("testvidsrc"), properties: source },
    );
    push_element(&mut elements, make_queue("queue0", MIN_BUFFER_BYTES));
    push_element(
        &mut elements,
        ElementSpec { kind: text("textoverlay"), name: text("overlay"), properties: overlay },
    );
    push_element(&mut elements, make_element("jpegenc", "encoder"));
    push_element(&mut elements, make_element("rtpjpegpay", "pay0"));
    let mut links = no_links();
    push_filtered_link(&mut links, 0, 1, splash_caps());
    push_link(&mut links, 1, 2);
    push_link(&mut links, 2, 3);
    push_link(&mut links, 3, 4);
    assert(element_views(elements@) =~= spec_build_unknown(pattern@).elements);
    assert(link_views(links@) =~= spec_build_unknown(pattern@).links);
    proof {
        lemma_layouts_are_wf(any_stream(), no_support(), 0, pattern@);
    }
    PipelinePlan { elements, spare: no_elements(), links, source: None, late_link: None }
}

fn build_video(bitrate: u32, parser: &str, stamper: &str, payloader: &str) -> (plan: PipelinePlan)
    requires
        bitrate <= MAX_BITRATE,
    ensures
        plan@ == spec_build_video(bitrate, parser@, stamper@, payloader@),
{
    let size = buffer_size(bitrate);
    let mut elements = no_elements();
    push_element(&mut elements, make_element("appsrc", "vidsrc"));
    push_element(&mut elements, make_queue("source_queue", size));
    push_element(&mut elements, make_element(parser, "parser"));
    push_element(&mut elements, make_element(stamper, "stamper"));
    push_element(&mut elements, make_element(payloader, "pay0"));
    let mut links = no_links();
    push_link(&mut links, 0, 1);
    push_link(&mut links, 1, 2);
    push_link(&mut links, 2, 3);
    push_link(&mut links, 3, 4);
    let ghost expected = spec_build_video(bitrate, parser@, stamper@, payloader@);
    assert(element_views(elements@) =~= expected.elements);
    assert(link_views(links@) =~= expected.links);
    PipelinePlan {
        elements,
        spare: no_elements(),
        links,
        source: Some(app_source(size, None)),
        late_link: None,
    }
}

/// Lays out the pipeline of an H.264 stream.
pub fn build_h264(config: &StreamConfig) -> (plan: PipelinePlan)
    requires
        config.bitrate <= MAX_BITRATE,
    ensures
        plan@ == spec_build_h264(*config),
        plan@.wf(),
{
    proof {
        lemma_layouts_are_wf(*config, no_support(), 0, Seq::empty());
    }
    build_video(config.bitrate, "h264parse", "h264timestamper", "rtph264pay")
}

/// Lays out the pipeline of an H.265 stream.
pub fn build_h265(config: &StreamConfig) -> (plan: PipelinePlan)
    requires
        config.bitrate <= MAX_BITRATE,
    ensures
        plan@ == spec_build_h265(*config),
        plan@.wf(),
{
    proof {
        lemma_layouts_are_wf(*config, no_support(), 0, Seq::empty());
    }
    build_video(config.bitrate, "h265parse", "h265timestamper", "rtph265pay")
}

/// Lays out the pipeline of AAC audio with the optional elements that can
/// be had.
pub fn build_aac(config: &StreamConfig, support: AacSupport) -> (plan: PipelinePlan)
    requires
        config.bitrate <= MAX_BITRATE,
    ensures
        plan@ == spec_build_aac(*config, support),
        plan@.wf(),
{
    proof {
        lemma_layouts_are_wf(*config, support, 0, Seq::empty());
    }
    let size = buffer_size(config.bitrate);
    let decoder = if support.faad {
        make_element("faad", "auddecoder_faad")
    } else {
        make_element("avdec_aac", "auddecoder_avdec_aac")
    };
    let mut elements = no_elements();
    push_element(&mut elements, make_element("appsrc", "audsrc"));
    push_element(&mut elements, make_queue("audqueue", size));
    push_element(&mut elements, make_element("aacparse", "audparser"));
    push_element(&mut elements, decoder);
    push_element(&mut elements, make_element("audioconvert", "audencoder"));
    push_element(&mut elements, make_element("rtpL16pay", "pay1"));
    let mut spare = no_elements();
    let mut links = no_links();
    push_link(&mut links, 0, 1);
    push_link(&mut links, 1, 2);
    push_link(&mut links, 2, 3);
    if support.fallback_switch {
        let mut switch = no_properties();
        push_property(&mut switch, "timeout", PropValue::U64(FALLBACK_TIMEOUT_NS));
        push_property(&mut switch, "immediate-fallback", PropValue::Bool(true));
        push_element(&mut elements, silence());
        push_element(
            &mut elements,
            ElementSpec {
                kind: text("fallbackswitch"),
                name: text("audfallbackswitch"),
                properties: switch,
            },
        );
        push_link(&mut links, 3, 7);
        push_link(&mut links, 7, 4);
        push_link(&mut links, 4, 5);
        push_link(&mut links, 6, 7);
        assert(property_views(switch@) =~= spec_build_aac(*config, support).elements[7].properties);
    } else {
        push_element(&mut spare, silence());
        push_link(&mut links, 3, 4);
        push_link(&mut links, 4, 5);
    }
    assert(element_views(elements@) =~= spec_build_aac(*config, support).elements);
    assert(element_views(spare@) =~= spec_build_aac(*config, support).spare);
    assert(link_views(links@) =~= spec_build_aac(*config, support).links);
    PipelinePlan { elements, spare, links, source: Some(app_source(size, None)), late_link: None }
}

/// Lays out the pipeline of ADPCM audio with the given block size.
pub fn build_adpcm(block_size: u32, config: &StreamConfig) -> (plan: PipelinePlan)
    requires
        config.bitrate <= MAX_BITRATE,
    ensures
        plan@ == spec_build_adpcm(block_size, *config),
        plan@.wf(),
{
    proof {
        lemma_layouts_are_wf(*config, no_support(), block_size, Seq::empty());
    }
    let size = buffer_size(config.bitrate);
    let mut elements = no_elements();
    push_element(&mut elements, make_element("appsrc", "audsrc"));
    push_element(&mut elements, make_queue("audqueue", size));
    push_element(&mut elements, make_element("decodebin", "auddecoder"));
    push_element(&mut elements, make_element("audioconvert", "audencoder"));
    push_element(&mut elements, make_element("rtpL16pay", "pay1"));
    let mut links = no_links();
    push_link(&mut links, 0, 1);
    push_link(&mut links, 1, 2);
    push_link(&mut links, 3, 4);
    assert(element_views(elements@) =~= spec_build_adpcm(block_size, *config).elements);
    assert(link_views(links@) =~= spec_build_adpcm(block_size, *config).links);
    PipelinePlan {
        elements,
        spare: no_elements(),
        links,
        source: Some(app_source(size, Some(adpcm_caps(block_size)))),
        late_link: Some((2, 3)),
    }
}

/// Tells whether the pipelines of a stream can be laid out.
pub fn can_plan(config: &StreamConfig) -> (yes: bool)
    ensures
        yes == plannable(*config),
{
    match config.vid_format {
        VidFormat::Unknown => true,
        _ => config.bitrate <= MAX_BITRATE,
    }
}

/// Lays out what a media factory builds for a stream.
pub fn make_factory(config: &StreamConfig, support: AacSupport) -> (plan: FactoryPlan)
    requires
        plannable(*config),
    ensures
        plan@ == spec_make_factory(*config, support),
        plan@.video.wf(),
        plan@.audio matches Some(audio) ==> audio.wf(),
{
    let video = match config.vid_format {
        VidFormat::Unknown => {
            return FactoryPlan { video: build_unknown("black"), audio: None };
        },
        VidFormat::H264 => build_h264(config),
        VidFormat::H265 => build_h265(config),
    };
    let audio = match config.aud_format {
        AudFormat::Absent => None,
        AudFormat::Aac => Some(build_aac(config, support)),
        AudFormat::Adpcm(block_size) => Some(build_adpcm(block_size, config)),
    };
    FactoryPlan { video, audio }
}

/// Lays out what a factory builds while the camera has nothing to show.
pub fn make_dummy_factory(use_splash: bool, pattern: &str) -> (plan: Option<PipelinePlan>)
    ensures
        plan_view(plan) == spec_make_dummy_factory(use_splash, pattern@),
        plan matches Some(plan) ==> plan@.wf(),
{
    if use_splash { Some(build_unknown(pattern)) } else { None }
}

} // verus!
