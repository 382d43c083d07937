use camera_recorder::errors::BuildError;
use camera_recorder::graph::{StageGraph, StageHandle};
use camera_recorder::media::{MediaFormat, PortCap, check_caps_compatible, check_formats_compatible};
use camera_recorder::stage::{PropDecl, PropType, PropValue, StageKind, StageRegistry, StageSpec};

fn kind(name: &str, has_input: bool, has_output: bool, input_cap: PortCap, output_cap: PortCap) -> StageKind {
    StageKind { kind_name: name.to_string(), has_input, has_output, input_cap, output_cap, props: Vec::new() }
}

fn test_registry() -> StageRegistry {
    let mut reg = StageRegistry::new();
    let mut src = kind("source", false, true, PortCap::AnyFormat, PortCap::Fixed(MediaFormat::of_media("video/x-raw")));
    src.props.push(PropDecl { name: "device".to_string(), ty: PropType::TextType });
    reg.register(src);
    reg.register(kind("pass", true, true, PortCap::AnyFormat, PortCap::AnyFormat));
    reg.register(kind(
        "audio_sink",
        true,
        false,
        PortCap::Fixed(MediaFormat::of_media("audio/x-raw")),
        PortCap::AnyFormat,
    ));
    reg.register(kind("video_sink", true, false, PortCap::AnyFormat, PortCap::AnyFormat));
    reg
}

#[test]
fn add_unknown_kind_fails_closed() {
    let mut g = StageGraph::new(test_registry());
    let r = g.add(&StageSpec::new("no_such_kind", "a"));
    assert_eq!(r, Err(BuildError::UnknownStageKind));
    assert_eq!(g.stage_count(), 0);
}

#[test]
fn add_twice_same_instance_name_fails() {
    let mut g = StageGraph::new(test_registry());
    assert!(g.add(&StageSpec::new("pass", "p0")).is_ok());
    let r = g.add(&StageSpec::new("pass", "p0"));
    assert_eq!(r, Err(BuildError::DuplicateName));
    assert_eq!(g.stage_count(), 1);
    assert!(g.contains_instance(&"p0".to_string()));
}

#[test]
fn add_with_undeclared_property_fails() {
    let mut g = StageGraph::new(test_registry());
    let sp = StageSpec::new("pass", "p0").with_prop("device", PropValue::Text("x".to_string()));
    assert_eq!(g.add(&sp), Err(BuildError::InvalidProperty));
}

#[test]
fn add_with_wrong_property_type_fails() {
    let mut g = StageGraph::new(test_registry());
    let sp = StageSpec::new("source", "s0").with_prop("device", PropValue::Uint(5));
    assert_eq!(g.add(&sp), Err(BuildError::InvalidProperty));
}

#[test]
fn configure_declared_property_succeeds() {
    let mut g = StageGraph::new(test_registry());
    let h = g.add(&StageSpec::new("source", "s0")).unwrap();
    let ok = g.configure(h, &"device".to_string(), PropValue::Text("/dev/video0".to_string()));
    assert_eq!(ok, Ok(()));
    let bad = g.configure(h, &"rate".to_string(), PropValue::Uint(30));
    assert_eq!(bad, Err(BuildError::InvalidProperty));
}

#[test]
fn link_format_mismatch_adds_no_edge() {
    let mut g = StageGraph::new(test_registry());
    let s = g.add(&StageSpec::new("source", "s0")).unwrap();
    let bad_sink = g.add(&StageSpec::new("audio_sink", "a0")).unwrap();
    let good_sink = g.add(&StageSpec::new("video_sink", "v0")).unwrap();
    // video source output cannot negotiate with the audio-only input
    assert_eq!(g.link(s, bad_sink), Err(BuildError::IncompatibleFormats));
    // no edge was added: the same ports still link to a compatible peer
    assert_eq!(g.link(s, good_sink), Ok(()));
}

#[test]
fn link_occupied_port_fails() {
    let mut g = StageGraph::new(test_registry());
    let s = g.add(&StageSpec::new("source", "s0")).unwrap();
    let p0 = g.add(&StageSpec::new("pass", "p0")).unwrap();
    let p1 = g.add(&StageSpec::new("pass", "p1")).unwrap();
    assert_eq!(g.link(s, p0), Ok(()));
    // fan-out from the source and a second edge into p0 are both refused
    assert_eq!(g.link(s, p1), Err(BuildError::AlreadyLinked));
    assert_eq!(g.link(p1, p0), Err(BuildError::AlreadyLinked));
}

#[test]
fn link_into_missing_port_fails() {
    let mut g = StageGraph::new(test_registry());
    let s0 = g.add(&StageSpec::new("source", "s0")).unwrap();
    let s1 = g.add(&StageSpec::new("source", "s1")).unwrap();
    // a capture source has no input port to link into
    assert_eq!(g.link(s0, s1), Err(BuildError::IncompatibleFormats));
}

#[test]
fn link_chain_builds_single_path() {
    let mut g = StageGraph::new(test_registry());
    let s = g.add(&StageSpec::new("source", "s0")).unwrap();
    let p = g.add(&StageSpec::new("pass", "p0")).unwrap();
    let k = g.add(&StageSpec::new("video_sink", "v0")).unwrap();
    assert!(!g.linkage_complete());
    let handles: Vec<StageHandle> = vec![s, p, k];
    assert_eq!(g.link_chain(&handles), Ok(()));
    assert!(g.linkage_complete());
}

#[test]
fn link_chain_stops_at_first_failure() {
    let mut g = StageGraph::new(test_registry());
    let s = g.add(&StageSpec::new("source", "s0")).unwrap();
    let a = g.add(&StageSpec::new("audio_sink", "a0")).unwrap();
    let p = g.add(&StageSpec::new("pass", "p0")).unwrap();
    let handles: Vec<StageHandle> = vec![s, a, p];
    assert_eq!(g.link_chain(&handles), Err(BuildError::IncompatibleFormats));
    assert!(!g.linkage_complete());
}

#[test]
fn partial_chain_is_not_complete() {
    let mut g = StageGraph::new(test_registry());
    let s = g.add(&StageSpec::new("source", "s0")).unwrap();
    let p0 = g.add(&StageSpec::new("pass", "p0")).unwrap();
    let p1 = g.add(&StageSpec::new("pass", "p1")).unwrap();
    let k = g.add(&StageSpec::new("video_sink", "v0")).unwrap();
    assert_eq!(g.link(s, p0), Ok(()));
    assert_eq!(g.link(p1, k), Ok(()));
    // two disconnected segments: not a single chain
    assert!(!g.linkage_complete());
    assert_eq!(g.link(p0, p1), Ok(()));
    assert!(g.linkage_complete());
}

#[test]
fn cycle_is_not_complete() {
    let mut g = StageGraph::new(test_registry());
    let p0 = g.add(&StageSpec::new("pass", "p0")).unwrap();
    let p1 = g.add(&StageSpec::new("pass", "p1")).unwrap();
    assert_eq!(g.link(p0, p1), Ok(()));
    assert_eq!(g.link(p1, p0), Ok(()));
    // every stage has in- and out-links, but the loop has no source or sink
    assert!(!g.linkage_complete());
}

#[test]
fn format_compatibility_rules() {
    let jpeg_sized = MediaFormat::with_size("image/jpeg", 2592, 1944);
    let jpeg_any = MediaFormat::of_media("image/jpeg");
    let raw = MediaFormat::of_media("video/x-raw");
    let h264_high = MediaFormat::with_profile("video/x-h264", "high");
    let h264_any = MediaFormat::of_media("video/x-h264");
    assert!(check_formats_compatible(&jpeg_sized, &jpeg_any));
    assert!(!check_formats_compatible(&jpeg_sized, &raw));
    assert!(check_formats_compatible(&h264_high, &h264_any));
    let other_size = MediaFormat::with_size("image/jpeg", 640, 480);
    assert!(!check_formats_compatible(&jpeg_sized, &other_size));
    assert!(check_caps_compatible(&PortCap::AnyFormat, &PortCap::Fixed(raw)));
}

#[test]
fn build_error_messages() {
    assert_eq!(BuildError::UnknownStageKind.describe(), "unknown stage kind");
    assert_eq!(BuildError::DuplicateName.describe(), "instance name already in use");
    assert_eq!(BuildError::InvalidProperty.describe(), "invalid property");
    assert_eq!(BuildError::IncompatibleFormats.describe(), "incompatible formats");
    assert_eq!(BuildError::AlreadyLinked.describe(), "port already linked");
}

#[test]
fn configure_caps_property_reconfigures_ports() {
    let mut reg = StageRegistry::new();
    let mut filter = kind("filter", true, true, PortCap::AnyFormat, PortCap::AnyFormat);
    filter.props.push(PropDecl { name: "caps".to_string(), ty: PropType::CapsType });
    reg.register(filter);
    reg.register(kind(
        "audio_sink",
        true,
        false,
        PortCap::Fixed(MediaFormat::of_media("audio/x-raw")),
        PortCap::AnyFormat,
    ));
    let mut g = StageGraph::new(reg);
    let f = g.add(&StageSpec::new("filter", "f0")).unwrap();
    let s = g.add(&StageSpec::new("audio_sink", "a0")).unwrap();
    // unconstrained, the filter negotiates with the audio sink
    // but fixed to video it no longer does
    let video = PropValue::Caps(MediaFormat::of_media("video/x-raw"));
    assert_eq!(g.configure(f, &"caps".to_string(), video), Ok(()));
    assert_eq!(g.link(f, s), Err(BuildError::IncompatibleFormats));
    let audio = PropValue::Caps(MediaFormat::of_media("audio/x-raw"));
    assert_eq!(g.configure(f, &"caps".to_string(), audio), Ok(()));
    assert_eq!(g.link(f, s), Ok(()));
}
