use neocam::config::{AudFormat, StreamConfig, VidFormat};
use neocam::pipeline::{
    as_signed, buffer_size, build_aac, can_plan, build_adpcm, build_h264, build_h265, build_unknown,
    checked_buffer_size, make_dbl_queue, make_dummy_factory, make_element, make_factory, make_queue,
    missing_plugin_message, plugin_for, AacSupport, CapsValue, ElementSpec, PipelinePlan, PropValue,
    MAX_BITRATE, MIN_BUFFER_BYTES,
};

fn stream(vid_format: VidFormat, aud_format: AudFormat, bitrate: u32) -> StreamConfig {
    StreamConfig { vid_format, aud_format, bitrate }
}

fn kinds(plan: &PipelinePlan) -> Vec<&str> {
    plan.elements.iter().map(|e| e.kind.as_str()).collect()
}

fn names(plan: &PipelinePlan) -> Vec<&str> {
    plan.elements.iter().map(|e| e.name.as_str()).collect()
}

fn links(plan: &PipelinePlan) -> Vec<(usize, usize)> {
    plan.links.iter().map(|l| (l.from, l.to)).collect()
}

fn properties(element: &ElementSpec) -> Vec<String> {
    element
        .properties
        .iter()
        .map(|p| match &p.value {
            PropValue::U32(v) => format!("{}={}u32", p.name, v),
            PropValue::U64(v) => format!("{}={}u64", p.name, v),
            PropValue::I32(v) => format!("{}={}i32", p.name, v),
            PropValue::Bool(v) => format!("{}={}", p.name, v),
            PropValue::Text(v) => format!("{}=\"{}\"", p.name, v),
            PropValue::Choice(v) => format!("{}:{}", p.name, v),
        })
        .collect()
}

const BOTH: AacSupport = AacSupport { faad: true, fallback_switch: true };
const NEITHER: AacSupport = AacSupport { faad: false, fallback_switch: false };

#[test]
fn buffer_is_fifteen_eighths_of_the_bitrate_and_at_least_four_mebibytes() {
    assert_eq!(MIN_BUFFER_BYTES, 4 * 1024 * 1024);
    assert_eq!(buffer_size(0), 4_194_304);
    assert_eq!(buffer_size(2_000_000), 4_194_304);
    assert_eq!(buffer_size(2_236_962), 4_194_304);
    assert_eq!(buffer_size(2_236_963), 4_194_305);
    assert_eq!(buffer_size(8_000_000), 15_000_000);
    assert_eq!(buffer_size(8_000_001), 15_000_001);
    assert_eq!(buffer_size(MAX_BITRATE), 536_870_911);
}

#[test]
fn buffer_of_an_oversized_bitrate_is_not_computed() {
    assert_eq!(checked_buffer_size(8_000_000), Some(15_000_000));
    assert_eq!(checked_buffer_size(MAX_BITRATE), Some(536_870_911));
    assert_eq!(checked_buffer_size(MAX_BITRATE + 1), None);
    assert_eq!(checked_buffer_size(u32::MAX), None);
}

#[test]
fn unsigned_is_read_as_signed_of_the_same_bits() {
    assert_eq!(as_signed(0), 0);
    assert_eq!(as_signed(256), 256);
    assert_eq!(as_signed(2_147_483_647), i32::MAX);
    assert_eq!(as_signed(2_147_483_648), i32::MIN);
    assert_eq!(as_signed(u32::MAX), -1);
}

#[test]
fn plugins_are_named_for_known_kinds() {
    assert_eq!(plugin_for("appsrc"), "app (gst-plugins-base)");
    assert_eq!(plugin_for("audioconvert"), "audioconvert (gst-plugins-base)");
    assert_eq!(plugin_for("adpcmdec"), "Required for audio");
    assert_eq!(plugin_for("h264parse"), "videoparsersbad (gst-plugins-bad)");
    assert_eq!(plugin_for("h265parse"), "videoparsersbad (gst-plugins-bad)");
    assert_eq!(plugin_for("rtph264pay"), "rtp (gst-plugins-good)");
    assert_eq!(plugin_for("rtph265pay"), "rtp (gst-plugins-good)");
    assert_eq!(plugin_for("rtpjitterbuffer"), "rtp (gst-plugins-good)");
    assert_eq!(plugin_for("aacparse"), "audioparsers (gst-plugins-good)");
    assert_eq!(plugin_for("rtpL16pay"), "rtp (gst-plugins-good)");
    assert_eq!(plugin_for("x264enc"), "x264 (gst-plugins-ugly)");
    assert_eq!(plugin_for("x265enc"), "x265 (gst-plugins-bad)");
    assert_eq!(plugin_for("avdec_h264"), "libav (gst-libav)");
    assert_eq!(plugin_for("avdec_h265"), "libav (gst-libav)");
    assert_eq!(plugin_for("videotestsrc"), "videotestsrc (gst-plugins-base)");
    assert_eq!(plugin_for("imagefreeze"), "imagefreeze (gst-plugins-good)");
    assert_eq!(plugin_for("audiotestsrc"), "audiotestsrc (gst-plugins-base)");
    assert_eq!(plugin_for("decodebin"), "playback (gst-plugins-good)");
    assert_eq!(plugin_for("queue"), "Unknown");
    assert_eq!(plugin_for("APPSRC"), "Unknown");
    assert_eq!(plugin_for(""), "Unknown");
}

#[test]
fn missing_plugin_is_reported_with_kind_and_plugin() {
    assert_eq!(
        missing_plugin_message("h264parse"),
        "Missing required gstreamer plugin `videoparsersbad (gst-plugins-bad)` for `h264parse` element"
    );
    assert_eq!(
        missing_plugin_message("fallbackswitch"),
        "Missing required gstreamer plugin `Unknown` for `fallbackswitch` element"
    );
}

#[test]
fn elements_are_described_by_kind_and_name() {
    let element = make_element("jpegenc", "encoder");
    assert_eq!(element.kind, "jpegenc");
    assert_eq!(element.name, "encoder");
    assert!(element.properties.is_empty());
}

#[test]
fn queue_is_sized_and_holds_five_seconds() {
    let queue = make_queue("audqueue", 12345);
    assert_eq!(queue.kind, "queue");
    assert_eq!(queue.name, "queue1_audqueue");
    assert_eq!(
        properties(&queue),
        vec![
            "max-size-bytes=12345u32",
            "max-size-buffers=0u32",
            "max-size-time=0u64",
            "max-size-time=5000000000u64",
        ]
    );
}

#[test]
fn double_queue_splits_the_buffer() {
    let queues = make_dbl_queue("vid", 3000);
    assert_eq!(queues.name, "vid");
    assert_eq!(queues.first.kind, "queue");
    assert_eq!(queues.first.name, "queue1_vid");
    assert_eq!(
        properties(&queues.first),
        vec![
            "max-size-bytes=3000u32",
            "max-size-buffers=0u32",
            "max-size-time=0u64",
            "max-size-buffers=0u32",
            "max-size-time=0u64",
        ]
    );
    assert_eq!(queues.second.kind, "queue2");
    assert_eq!(queues.second.name, "queue2_vid");
    assert_eq!(
        properties(&queues.second),
        vec!["max-size-bytes=2000u32", "max-size-time=5000000000u64", "use-buffering=false"]
    );
    assert_eq!(properties(&make_dbl_queue("x", 4).second)[0], "max-size-bytes=2u32");
}

#[test]
fn placeholder_shows_a_notice_over_a_test_picture() {
    let plan = build_unknown("snow");
    assert_eq!(kinds(&plan), vec!["videotestsrc", "queue", "textoverlay", "jpegenc", "rtpjpegpay"]);
    assert_eq!(names(&plan), vec!["testvidsrc", "queue1_queue0", "overlay", "encoder", "pay0"]);
    assert_eq!(properties(&plan.elements[0]), vec!["pattern:snow", "num-buffers=500i32"]);
    assert_eq!(properties(&plan.elements[1])[0], "max-size-bytes=4194304u32");
    assert_eq!(
        properties(&plan.elements[2]),
        vec![
            "text=\"Stream not Ready\"",
            "valignment:top",
            "halignment:left",
            "font-desc=\"Sans, 16\"",
        ]
    );
    assert_eq!(links(&plan), vec![(0, 1), (1, 2), (2, 3), (3, 4)]);
    let caps = plan.links[0].filter.as_ref().unwrap();
    assert_eq!(caps.media_type, "video/x-raw");
    let fields: Vec<&str> = caps.fields.iter().map(|f| f.name.as_str()).collect();
    assert_eq!(fields, vec!["format", "width", "height", "framerate"]);
    assert!(matches!(&caps.fields[0].value, CapsValue::Text(t) if t == "YUY2"));
    assert!(matches!(caps.fields[1].value, CapsValue::Int(896)));
    assert!(matches!(caps.fields[2].value, CapsValue::Int(512)));
    assert!(matches!(caps.fields[3].value, CapsValue::Fraction(25, 1)));
    assert!(plan.links[1..].iter().all(|l| l.filter.is_none()));
    assert!(plan.source.is_none());
    assert!(plan.spare.is_empty());
    assert_eq!(plan.late_link, None);
}

#[test]
fn h264_pipeline_is_a_single_chain() {
    let plan = build_h264(&stream(VidFormat::H264, AudFormat::Absent, 8_000_000));
    assert_eq!(kinds(&plan), vec!["appsrc", "queue", "h264parse", "h264timestamper", "rtph264pay"]);
    assert_eq!(names(&plan), vec!["vidsrc", "queue1_source_queue", "parser", "stamper", "pay0"]);
    assert_eq!(properties(&plan.elements[1])[0], "max-size-bytes=15000000u32");
    assert_eq!(links(&plan), vec![(0, 1), (1, 2), (2, 3), (3, 4)]);
    let source = plan.source.as_ref().unwrap();
    assert!(source.is_live);
    assert!(!source.block);
    assert_eq!(source.min_latency, 0);
    assert!(!source.emit_signals);
    assert_eq!(source.max_bytes, 45_000_000);
    assert!(source.do_timestamp);
    assert!(source.seekable);
    assert!(source.caps.is_none());
    assert_eq!(plan.late_link, None);
}

#[test]
fn h265_pipeline_differs_only_in_its_codec_elements() {
    let plan = build_h265(&stream(VidFormat::H265, AudFormat::Absent, MAX_BITRATE));
    assert_eq!(kinds(&plan), vec!["appsrc", "queue", "h265parse", "h265timestamper", "rtph265pay"]);
    assert_eq!(names(&plan), vec!["vidsrc", "queue1_source_queue", "parser", "stamper", "pay0"]);
    assert_eq!(links(&plan), vec![(0, 1), (1, 2), (2, 3), (3, 4)]);
    assert_eq!(plan.source.as_ref().unwrap().max_bytes, 1_610_612_733);
}

#[test]
fn aac_pipeline_falls_back_to_silence_where_it_can() {
    let plan = build_aac(&stream(VidFormat::H264, AudFormat::Aac, 0), BOTH);
    assert_eq!(
        kinds(&plan),
        vec![
            "appsrc",
            "queue",
            "aacparse",
            "faad",
            "audioconvert",
            "rtpL16pay",
            "audiotestsrc",
            "fallbackswitch",
        ]
    );
    assert_eq!(
        names(&plan),
        vec![
            "audsrc",
            "queue1_audqueue",
            "audparser",
            "auddecoder_faad",
            "audencoder",
            "pay1",
            "audsilence",
            "audfallbackswitch",
        ]
    );
    assert_eq!(properties(&plan.elements[6]), vec!["wave:silence"]);
    assert_eq!(
        properties(&plan.elements[7]),
        vec!["timeout=3000000000u64", "immediate-fallback=true"]
    );
    assert_eq!(links(&plan), vec![(0, 1), (1, 2), (2, 3), (3, 7), (7, 4), (4, 5), (6, 7)]);
    assert!(plan.spare.is_empty());
    assert_eq!(plan.source.as_ref().unwrap().max_bytes, 12_582_912);
}

#[test]
fn aac_pipeline_without_the_optional_elements() {
    let plan = build_aac(&stream(VidFormat::H264, AudFormat::Aac, 0), NEITHER);
    assert_eq!(
        kinds(&plan),
        vec!["appsrc", "queue", "aacparse", "avdec_aac", "audioconvert", "rtpL16pay"]
    );
    assert_eq!(plan.elements[3].name, "auddecoder_avdec_aac");
    assert_eq!(links(&plan), vec![(0, 1), (1, 2), (2, 3), (3, 4), (4, 5)]);
    assert_eq!(plan.spare.len(), 1);
    assert_eq!(plan.spare[0].kind, "audiotestsrc");
    assert_eq!(plan.spare[0].name, "audsilence");
    assert_eq!(properties(&plan.spare[0]), vec!["wave:silence"]);
}

#[test]
fn adpcm_pipeline_is_joined_when_the_decoder_is_ready() {
    let plan = build_adpcm(256, &stream(VidFormat::H264, AudFormat::Adpcm(256), 0));
    assert_eq!(kinds(&plan), vec!["appsrc", "queue", "decodebin", "audioconvert", "rtpL16pay"]);
    assert_eq!(
        names(&plan),
        vec!["audsrc", "queue1_audqueue", "auddecoder", "audencoder", "pay1"]
    );
    assert_eq!(links(&plan), vec![(0, 1), (1, 2), (3, 4)]);
    assert_eq!(plan.late_link, Some((2, 3)));
    let source = plan.source.as_ref().unwrap();
    let caps = source.caps.as_ref().unwrap();
    assert_eq!(caps.media_type, "audio/x-adpcm");
    let fields: Vec<&str> = caps.fields.iter().map(|f| f.name.as_str()).collect();
    assert_eq!(fields, vec!["layout", "block_align", "channels", "rate"]);
    assert!(matches!(&caps.fields[0].value, CapsValue::Text(t) if t == "div"));
    assert!(matches!(caps.fields[1].value, CapsValue::Int(256)));
    assert!(matches!(caps.fields[2].value, CapsValue::Int(1)));
    assert!(matches!(caps.fields[3].value, CapsValue::Int(8000)));
    let wrapped = build_adpcm(u32::MAX, &stream(VidFormat::H264, AudFormat::Adpcm(u32::MAX), 0));
    let caps = wrapped.source.as_ref().unwrap().caps.as_ref().unwrap();
    assert!(matches!(caps.fields[1].value, CapsValue::Int(-1)));
}

#[test]
fn factory_follows_the_formats_of_the_stream() {
    let plan = make_factory(&stream(VidFormat::H264, AudFormat::Aac, 1000), BOTH);
    assert_eq!(plan.video.elements[2].kind, "h264parse");
    assert_eq!(plan.audio.as_ref().unwrap().elements[2].kind, "aacparse");
    assert!(plan.video.source.is_some());
    assert!(plan.audio.as_ref().unwrap().source.is_some());

    let plan = make_factory(&stream(VidFormat::H265, AudFormat::Adpcm(512), 1000), NEITHER);
    assert_eq!(plan.video.elements[2].kind, "h265parse");
    assert_eq!(plan.audio.as_ref().unwrap().elements[2].kind, "decodebin");

    let plan = make_factory(&stream(VidFormat::H265, AudFormat::Absent, 1000), BOTH);
    assert_eq!(plan.video.elements[2].kind, "h265parse");
    assert!(plan.audio.is_none());
}

#[test]
fn factory_of_an_unknown_stream_shows_black_and_has_no_audio() {
    let plan = make_factory(&stream(VidFormat::Unknown, AudFormat::Aac, u32::MAX), BOTH);
    assert_eq!(kinds(&plan.video)[0], "videotestsrc");
    assert_eq!(properties(&plan.video.elements[0])[0], "pattern:black");
    assert!(plan.video.source.is_none());
    assert!(plan.audio.is_none());
}

#[test]
fn dummy_factory_builds_the_splash_only_when_asked() {
    assert!(make_dummy_factory(false, "snow").is_none());
    let plan = make_dummy_factory(true, "ball").unwrap();
    assert_eq!(kinds(&plan), vec!["videotestsrc", "queue", "textoverlay", "jpegenc", "rtpjpegpay"]);
    assert_eq!(properties(&plan.elements[0])[0], "pattern:ball");
}

#[test]
fn a_stream_can_be_laid_out_if_its_buffer_can_be_computed() {
    assert!(can_plan(&stream(VidFormat::H264, AudFormat::Aac, MAX_BITRATE)));
    assert!(!can_plan(&stream(VidFormat::H264, AudFormat::Aac, MAX_BITRATE + 1)));
    assert!(!can_plan(&stream(VidFormat::H265, AudFormat::Absent, u32::MAX)));
    assert!(can_plan(&stream(VidFormat::Unknown, AudFormat::Aac, u32::MAX)));
}
