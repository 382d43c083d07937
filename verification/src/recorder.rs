use vstd::prelude::*;
use crate::errors::BuildError;
use crate::graph::{
    StageGraph, StageHandle, cap_after, first_kind_match, graph_wf, name_taken,
};
use crate::chain::{is_complete_chain, lemma_link_chain_completes, linkable_chain};
use crate::media::{MediaFormat, MediaFormatModel, PortCap, PortCapModel};
use crate::stage::{
    PropDecl, PropDeclModel, PropType, PropValue, PropValueModel, StageKind, StageKindModel,
    StagePropModel, StageRegistry, StageSpec, kind_declares, props_accepted,
};

verus! {

/// Folding property assignments that carry no capability value over a port
/// capability leaves it unchanged.
proof fn lemma_cap_after_no_caps(base: PortCapModel, present: bool, ps: Seq<StagePropModel>)
    requires
        forall|i: int| 0 <= i < ps.len() ==> !((#[trigger] ps[i]).value is Caps),
    ensures
        cap_after(base, present, ps) == base,
    decreases ps.len(),
{
    if ps.len() > 0 {
        lemma_cap_after_no_caps(base, present, ps.drop_last());
    }
}

/// The capture source kind: output only, configured with a device.
pub open spec fn kind_src() -> StageKindModel {
    StageKindModel {
        kind_name: "v4l2src"@,
        has_input: false,
        has_output: true,
        input_cap: PortCapModel::AnyFormat,
        output_cap: PortCapModel::AnyFormat,
        props: seq![PropDeclModel { name: "device"@, ty: PropType::TextType }],
    }
}

/// The format filter kind: passes data through the capability it is
/// configured with.
pub open spec fn kind_capsfilter() -> StageKindModel {
    StageKindModel {
        kind_name: "capsfilter"@,
        has_input: true,
        has_output: true,
        input_cap: PortCapModel::AnyFormat,
        output_cap: PortCapModel::AnyFormat,
        props: seq![PropDeclModel { name: "caps"@, ty: PropType::CapsType }],
    }
}

/// The still-image decoder kind.
pub open spec fn kind_jpegdec() -> StageKindModel {
    StageKindModel {
        kind_name: "jpegdec"@,
        has_input: true,
        has_output: true,
        input_cap: PortCapModel::Fixed(
            MediaFormatModel { media: "image/jpeg"@, width: None, height: None, profile: None },
        ),
        output_cap: PortCapModel::Fixed(
            MediaFormatModel { media: "video/x-raw"@, width: None, height: None, profile: None },
        ),
        props: Seq::<PropDeclModel>::empty(),
    }
}

/// The buffering queue kind.
pub open spec fn kind_queue() -> StageKindModel {
    StageKindModel {
        kind_name: "queue"@,
        has_input: true,
        has_output: true,
        input_cap: PortCapModel::AnyFormat,
        output_cap: PortCapModel::AnyFormat,
        props: Seq::<PropDeclModel>::empty(),
    }
}

/// The video encoder kind, configured with a maximum keyframe interval.
pub open spec fn kind_x264enc() -> StageKindModel {
    StageKindModel {
        kind_name: "x264enc"@,
        has_input: true,
        has_output: true,
        input_cap: PortCapModel::Fixed(
            MediaFormatModel { media: "video/x-raw"@, width: None, height: None, profile: None },
        ),
        output_cap: PortCapModel::Fixed(
            MediaFormatModel { media: "video/x-h264"@, width: None, height: None, profile: None },
        ),
        props: seq![PropDeclModel { name: "key-int-max"@, ty: PropType::UintType }],
    }
}

/// The bitstream parser kind.
pub open spec fn kind_h264parse() -> StageKindModel {
    StageKindModel {
        kind_name: "h264parse"@,
        has_input: true,
        has_output: true,
        input_cap: PortCapModel::Fixed(
            MediaFormatModel { media: "video/x-h264"@, width: None, height: None, profile: None },
        ),
        output_cap: PortCapModel::Fixed(
            MediaFormatModel { media: "video/x-h264"@, width: None, height: None, profile: None },
        ),
        props: Seq::<PropDeclModel>::empty(),
    }
}

/// The segmenting sink kind: input only, configured with the location
/// template, a maximum segment duration, and keyframe alignment.
pub open spec fn kind_splitmuxsink() -> StageKindModel {
    StageKindModel {
        kind_name: "splitmuxsink"@,
        has_input: true,
        has_output: false,
        input_cap: PortCapModel::AnyFormat,
        output_cap: PortCapModel::AnyFormat,
        props: seq![
            PropDeclModel { name: "location"@, ty: PropType::TextType },
            PropDeclModel { name: "max-size-time"@, ty: PropType::UintType },
            PropDeclModel { name: "send-keyframe-requests"@, ty: PropType::FlagType },
        ],
    }
}

/// The kinds the reference recorder's registry holds, in registration order.
pub open spec fn recorder_kinds() -> Seq<StageKindModel> {
    seq![
        kind_src(),
        kind_capsfilter(),
        kind_jpegdec(),
        kind_queue(),
        kind_x264enc(),
        kind_h264parse(),
        kind_splitmuxsink(),
    ]
}

/// The factory registry of the reference recorder: the seven externally
/// implemented stage kinds the pipeline is composed from, registered fail
/// closed.
pub fn recorder_registry() -> (r: StageRegistry)
    ensures
        r@.kinds == recorder_kinds(),
{
    let mut reg = StageRegistry::new();
    let mut src_props: Vec<PropDecl> = Vec::new();
    src_props.push(PropDecl { name: "device".to_owned(), ty: PropType::TextType });
    let src = StageKind {
        kind_name: "v4l2src".to_owned(),
        has_input: false,
        has_output: true,
        input_cap: PortCap::AnyFormat,
        output_cap: PortCap::AnyFormat,
        props: src_props,
    };
    proof {
        assert(src@.props =~= kind_src().props);
        assert(src@ == kind_src());
    }
    reg.register(src);
    let mut filt_props: Vec<PropDecl> = Vec::new();
    filt_props.push(PropDecl { name: "caps".to_owned(), ty: PropType::CapsType });
    let filt = StageKind {
        kind_name: "capsfilter".to_owned(),
        has_input: true,
        has_output: true,
        input_cap: PortCap::AnyFormat,
        output_cap: PortCap::AnyFormat,
        props: filt_props,
    };
    proof {
        assert(filt@.props =~= kind_capsfilter().props);
        assert(filt@ == kind_capsfilter());
    }
    reg.register(filt);
    let dec = StageKind {
        kind_name: "jpegdec".to_owned(),
        has_input: true,
        has_output: true,
        input_cap: PortCap::Fixed(MediaFormat::of_media("image/jpeg")),
        output_cap: PortCap::Fixed(MediaFormat::of_media("video/x-raw")),
        props: Vec::new(),
    };
    proof {
        assert(dec@.props =~= kind_jpegdec().props);
        assert(dec@ == kind_jpegdec());
    }
    reg.register(dec);
    let que = StageKind {
        kind_name: "queue".to_owned(),
        has_input: true,
        has_output: true,
        input_cap: PortCap::AnyFormat,
        output_cap: PortCap::AnyFormat,
        props: Vec::new(),
    };
    proof {
        assert(que@.props =~= kind_queue().props);
        assert(que@ == kind_queue());
    }
    reg.register(que);
    let mut enc_props: Vec<PropDecl> = Vec::new();
    enc_props.push(PropDecl { name: "key-int-max".to_owned(), ty: PropType::UintType });
    let enc = StageKind {
        kind_name: "x264enc".to_owned(),
        has_input: true,
        has_output: true,
        input_cap: PortCap::Fixed(MediaFormat::of_media("video/x-raw")),
        output_cap: PortCap::Fixed(MediaFormat::of_media("video/x-h264")),
        props: enc_props,
    };
    proof {
        assert(enc@.props =~= kind_x264enc().props);
        assert(enc@ == kind_x264enc());
    }
    reg.register(enc);
    let parse = StageKind {
        kind_name: "h264parse".to_owned(),
        has_input: true,
        has_output: true,
        input_cap: PortCap::Fixed(MediaFormat::of_media("video/x-h264")),
        output_cap: PortCap::Fixed(MediaFormat::of_media("video/x-h264")),
        props: Vec::new(),
    };
    proof {
        assert(parse@.props =~= kind_h264parse().props);
        assert(parse@ == kind_h264parse());
    }
    reg.register(parse);
    let mut sink_props: Vec<PropDecl> = Vec::new();
    sink_props.push(PropDecl { name: "location".to_owned(), ty: PropType::TextType });
    sink_props.push(PropDecl { name: "max-size-time".to_owned(), ty: PropType::UintType });
    sink_props.push(
        PropDecl { name: "send-keyframe-requests".to_owned(), ty: PropType::FlagType },
    );
    let sink = StageKind {
        kind_name: "splitmuxsink".to_owned(),
        has_input: true,
        has_output: false,
        input_cap: PortCap::AnyFormat,
        output_cap: PortCap::AnyFormat,
        props: sink_props,
    };
    proof {
        assert(sink@.props =~= kind_splitmuxsink().props);
        assert(sink@ == kind_splitmuxsink());
    }
    reg.register(sink);
    proof {
        assert(reg@.kinds =~= recorder_kinds());
    }
    reg
}

/// The fixed expected input format of the capture filter: compressed still
/// images at the reference resolution.
pub open spec fn capture_format() -> MediaFormatModel {
    MediaFormatModel {
        media: "image/jpeg"@,
        width: Some(2592u32),
        height: Some(1944u32),
        profile: None,
    }
}

/// The fixed encoding profile of the output-format filter.
pub open spec fn output_format() -> MediaFormatModel {
    MediaFormatModel { media: "video/x-h264"@, width: None, height: None, profile: Some("high"@) }
}

/// Builds, configures and links the reference recorder chain: capture
/// source, capture-format filter, still-image decoder, buffering queue,
/// video encoder, output-format filter, bitstream parser, segmenting sink.
///
/// Construction always succeeds: every kind is registered, the instance
/// names are distinct, every property is declared by its kind, and each
/// adjacent pair of capabilities negotiates.  The resulting graph satisfies
/// the linear-path invariant, the capture stage carries the device
/// identifier, and the sink carries the location template, the maximum
/// segment duration and keyframe alignment.
#[verifier::rlimit(100)]
pub fn build_recorder_graph(device: &str, location: &str) -> (r: Result<
    (StageGraph, Vec<StageHandle>),
    BuildError,
>)
    ensures
        r is Ok,
        r matches Ok(p) ==> {
            &&& graph_wf(p.0@)
            &&& is_complete_chain(p.0@)
            &&& p.0@.stages.len() == 8
            &&& p.1@.len() == 8
            &&& forall|i: int| 0 <= i < 8 ==> (#[trigger] p.1@[i]).id == i
            &&& p.0@.stages[0].instance_name == "v4l2src"@
            &&& p.0@.stages[0].props == seq![
                StagePropModel { name: "device"@, value: PropValueModel::Text(device@) },
            ]
            &&& p.0@.stages[1].instance_name == "video_filter"@
            &&& p.0@.stages[1].input_cap == PortCapModel::Fixed(capture_format())
            &&& p.0@.stages[4].instance_name == "x264enc"@
            &&& p.0@.stages[4].props == seq![
                StagePropModel { name: "key-int-max"@, value: PropValueModel::Uint(10u64) },
            ]
            &&& p.0@.stages[5].output_cap == PortCapModel::Fixed(output_format())
            &&& p.0@.stages[7].instance_name == "splitmuxsink"@
            &&& p.0@.stages[7].props == seq![
                StagePropModel { name: "location"@, value: PropValueModel::Text(location@) },
                StagePropModel {
                    name: "max-size-time"@,
                    value: PropValueModel::Uint(10000000000u64),
                },
                StagePropModel {
                    name: "send-keyframe-requests"@,
                    value: PropValueModel::Flag(true),
                },
            ]
        },
{
    proof {
        reveal_strlit("v4l2src");
        reveal_strlit("capsfilter");
        reveal_strlit("jpegdec");
        reveal_strlit("queue");
        reveal_strlit("x264enc");
        reveal_strlit("h264parse");
        reveal_strlit("splitmuxsink");
        reveal_strlit("video_filter");
        reveal_strlit("encode_queue");
        reveal_strlit("h264_filter");
        assert("v4l2src"@.len() == 7);
        assert("capsfilter"@.len() == 10);
        assert("jpegdec"@.len() == 7);
        assert("queue"@.len() == 5);
        assert("x264enc"@.len() == 7);
        assert("h264parse"@.len() == 9);
        assert("splitmuxsink"@.len() == 12);
        assert("video_filter"@.len() == 12);
        assert("encode_queue"@.len() == 12);
        assert("h264_filter"@.len() == 11);
        assert("v4l2src"@ != "jpegdec"@) by {
            assert("v4l2src"@[0] == 'v');
            assert("jpegdec"@[0] == 'j');
        }
        assert("v4l2src"@ != "x264enc"@) by {
            assert("v4l2src"@[0] == 'v');
            assert("x264enc"@[0] == 'x');
        }
        assert("jpegdec"@ != "x264enc"@) by {
            assert("jpegdec"@[0] == 'j');
            assert("x264enc"@[0] == 'x');
        }
        assert("video_filter"@ != "encode_queue"@) by {
            assert("video_filter"@[0] == 'v');
            assert("encode_queue"@[0] == 'e');
        }
        assert("video_filter"@ != "splitmuxsink"@) by {
            assert("video_filter"@[0] == 'v');
            assert("splitmuxsink"@[0] == 's');
        }
        assert("encode_queue"@ != "splitmuxsink"@) by {
            assert("encode_queue"@[0] == 'e');
            assert("splitmuxsink"@[0] == 's');
        }
    }
    let mut g = StageGraph::new(recorder_registry());
    let sp0 = StageSpec::new("v4l2src", "v4l2src").with_prop(
        "device",
        PropValue::Text(device.to_owned()),
    );
    proof {
        assert(g@.kinds[0] == kind_src());
        assert(first_kind_match(g@, sp0@.kind_name, 0));
        assert(!name_taken(g@, sp0@.instance_name));
        assert(sp0@.props =~= seq![
            StagePropModel { name: "device"@, value: PropValueModel::Text(device@) },
        ]);
        assert(kind_src().props[0] == PropDeclModel { name: "device"@, ty: PropType::TextType });
        assert(kind_declares(kind_src(), "device"@, PropType::TextType));
        assert(props_accepted(kind_src(), sp0@.props));
    }
    let h0 = match g.add(&sp0) {
        Ok(h) => h,
        Err(e) => {
            proof {
                assert(false);
            }
            return Err(e);
        },
    };
    proof {
        assert(g@.stages[0].instance_name == "v4l2src"@);
        assert(g@.stages[0].props == sp0@.props);
        lemma_cap_after_no_caps(kind_src().output_cap, true, sp0@.props);
        assert(g@.stages[0].output_cap == PortCapModel::AnyFormat);
        assert(!g@.stages[0].has_input && g@.stages[0].has_output);
    }
    let jpeg_caps = MediaFormat::with_size("image/jpeg", 2592, 1944);
    let sp1 = StageSpec::new("capsfilter", "video_filter").with_prop(
        "caps",
        PropValue::Caps(jpeg_caps),
    );
    proof {
        assert(g@.kinds[1] == kind_capsfilter());
        assert(first_kind_match(g@, sp1@.kind_name, 1));
        assert(!name_taken(g@, sp1@.instance_name));
        assert(sp1@.props =~= seq![
            StagePropModel { name: "caps"@, value: PropValueModel::Caps(capture_format()) },
        ]);
        assert(kind_capsfilter().props[0] == PropDeclModel { name: "caps"@, ty: PropType::CapsType });
        assert(kind_declares(kind_capsfilter(), "caps"@, PropType::CapsType));
        assert(props_accepted(kind_capsfilter(), sp1@.props));
    }
    let h1 = match g.add(&sp1) {
        Ok(h) => h,
        Err(e) => {
            proof {
                assert(false);
            }
            return Err(e);
        },
    };
    proof {
        assert(g@.stages[1].instance_name == "video_filter"@);
        assert(sp1@.props.drop_last() =~= Seq::<StagePropModel>::empty());
        assert(cap_after(PortCapModel::AnyFormat, true, sp1@.props.drop_last())
            == PortCapModel::AnyFormat);
        assert(g@.stages[1].input_cap == PortCapModel::Fixed(capture_format()));
        assert(g@.stages[1].output_cap == PortCapModel::Fixed(capture_format()));
        assert(g@.stages[1].has_input && g@.stages[1].has_output);
    }
    let sp2 = StageSpec::new("jpegdec", "jpegdec");
    proof {
        assert(g@.kinds[2] == kind_jpegdec());
        assert(first_kind_match(g@, sp2@.kind_name, 2));
        assert(!name_taken(g@, sp2@.instance_name));
        assert(props_accepted(kind_jpegdec(), sp2@.props));
    }
    let h2 = match g.add(&sp2) {
        Ok(h) => h,
        Err(e) => {
            proof {
                assert(false);
            }
            return Err(e);
        },
    };
    proof {
        assert(g@.stages[2].instance_name == "jpegdec"@);
        assert(g@.stages[2].input_cap == kind_jpegdec().input_cap);
        assert(g@.stages[2].output_cap == kind_jpegdec().output_cap);
        assert(g@.stages[2].has_input && g@.stages[2].has_output);
    }
    let sp3 = StageSpec::new("queue", "encode_queue");
    proof {
        assert(g@.kinds[3] == kind_queue());
        assert(first_kind_match(g@, sp3@.kind_name, 3));
        assert(!name_taken(g@, sp3@.instance_name));
        assert(props_accepted(kind_queue(), sp3@.props));
    }
    let h3 = match g.add(&sp3) {
        Ok(h) => h,
        Err(e) => {
            proof {
                assert(false);
            }
            return Err(e);
        },
    };
    proof {
        assert(g@.stages[3].instance_name == "encode_queue"@);
        assert(g@.stages[3].input_cap == PortCapModel::AnyFormat);
        assert(g@.stages[3].output_cap == PortCapModel::AnyFormat);
        assert(g@.stages[3].has_input && g@.stages[3].has_output);
    }
    let sp4 = StageSpec::new("x264enc", "x264enc").with_prop("key-int-max", PropValue::Uint(10));
    proof {
        assert(g@.kinds[4] == kind_x264enc());
        assert(first_kind_match(g@, sp4@.kind_name, 4));
        assert(!name_taken(g@, sp4@.instance_name));
        assert(sp4@.props =~= seq![
            StagePropModel { name: "key-int-max"@, value: PropValueModel::Uint(10u64) },
        ]);
        assert(kind_x264enc().props[0] == PropDeclModel { name: "key-int-max"@, ty: PropType::UintType });
        assert(kind_declares(kind_x264enc(), "key-int-max"@, PropType::UintType));
        assert(props_accepted(kind_x264enc(), sp4@.props));
    }
    let h4 = match g.add(&sp4) {
        Ok(h) => h,
        Err(e) => {
            proof {
                assert(false);
            }
            return Err(e);
        },
    };
    proof {
        assert(g@.stages[4].instance_name == "x264enc"@);
        assert(g@.stages[4].props == sp4@.props);
        lemma_cap_after_no_caps(kind_x264enc().input_cap, true, sp4@.props);
        lemma_cap_after_no_caps(kind_x264enc().output_cap, true, sp4@.props);
        assert(g@.stages[4].input_cap == kind_x264enc().input_cap);
        assert(g@.stages[4].output_cap == kind_x264enc().output_cap);
        assert(g@.stages[4].has_input && g@.stages[4].has_output);
    }
    let h264_caps = MediaFormat::with_profile("video/x-h264", "high");
    let sp5 = StageSpec::new("capsfilter", "h264_filter").with_prop(
        "caps",
        PropValue::Caps(h264_caps),
    );
    proof {
        assert(first_kind_match(g@, sp5@.kind_name, 1));
        assert(!name_taken(g@, sp5@.instance_name));
        assert(sp5@.props =~= seq![
            StagePropModel { name: "caps"@, value: PropValueModel::Caps(output_format()) },
        ]);
        assert(kind_capsfilter().props[0] == PropDeclModel { name: "caps"@, ty: PropType::CapsType });
        assert(props_accepted(kind_capsfilter(), sp5@.props));
    }
    let h5 = match g.add(&sp5) {
        Ok(h) => h,
        Err(e) => {
            proof {
                assert(false);
            }
            return Err(e);
        },
    };
    proof {
        assert(g@.stages[5].instance_name == "h264_filter"@);
        assert(sp5@.props.drop_last() =~= Seq::<StagePropModel>::empty());
        assert(cap_after(PortCapModel::AnyFormat, true, sp5@.props.drop_last())
            == PortCapModel::AnyFormat);
        assert(g@.stages[5].input_cap == PortCapModel::Fixed(output_format()));
        assert(g@.stages[5].output_cap == PortCapModel::Fixed(output_format()));
        assert(g@.stages[5].has_input && g@.stages[5].has_output);
    }
    let sp6 = StageSpec::new("h264parse", "h264parse");
    proof {
        assert(g@.kinds[5] == kind_h264parse());
        assert(first_kind_match(g@, sp6@.kind_name, 5));
        assert(!name_taken(g@, sp6@.instance_name));
        assert(props_accepted(kind_h264parse(), sp6@.props));
    }
    let h6 = match g.add(&sp6) {
        Ok(h) => h,
        Err(e) => {
            proof {
                assert(false);
            }
            return Err(e);
        },
    };
    proof {
        assert(g@.stages[6].instance_name == "h264parse"@);
        assert(g@.stages[6].input_cap == kind_h264parse().input_cap);
        assert(g@.stages[6].output_cap == kind_h264parse().output_cap);
        assert(g@.stages[6].has_input && g@.stages[6].has_output);
    }
    let sp7 = StageSpec::new("splitmuxsink", "splitmuxsink").with_prop(
        "location",
        PropValue::Text(location.to_owned()),
    ).with_prop("max-size-time", PropValue::Uint(10000000000)).with_prop(
        "send-keyframe-requests",
        PropValue::Flag(true),
    );
    proof {
        assert(g@.kinds[6] == kind_splitmuxsink());
        assert(first_kind_match(g@, sp7@.kind_name, 6));
        assert(!name_taken(g@, sp7@.instance_name));
        assert(sp7@.props =~= seq![
            StagePropModel { name: "location"@, value: PropValueModel::Text(location@) },
            StagePropModel { name: "max-size-time"@, value: PropValueModel::Uint(10000000000u64) },
            StagePropModel { name: "send-keyframe-requests"@, value: PropValueModel::Flag(true) },
        ]);
        assert(kind_splitmuxsink().props[0] == PropDeclModel { name: "location"@, ty: PropType::TextType });
        assert(kind_splitmuxsink().props[1] == PropDeclModel { name: "max-size-time"@, ty: PropType::UintType });
        assert(kind_splitmuxsink().props[2] == PropDeclModel {
            name: "send-keyframe-requests"@,
            ty: PropType::FlagType,
        });
        assert(kind_declares(kind_splitmuxsink(), "location"@, PropType::TextType));
        assert(kind_declares(kind_splitmuxsink(), "max-size-time"@, PropType::UintType));
        assert(kind_declares(kind_splitmuxsink(), "send-keyframe-requests"@, PropType::FlagType));
        assert(props_accepted(kind_splitmuxsink(), sp7@.props));
    }
    let h7 = match g.add(&sp7) {
        Ok(h) => h,
        Err(e) => {
            proof {
                assert(false);
            }
            return Err(e);
        },
    };
    proof {
        assert(g@.stages[7].instance_name == "splitmuxsink"@);
        assert(g@.stages[7].props == sp7@.props);
        lemma_cap_after_no_caps(kind_splitmuxsink().input_cap, true, sp7@.props);
        assert(g@.stages[7].input_cap == PortCapModel::AnyFormat);
        assert(g@.stages[7].has_input && !g@.stages[7].has_output);
    }
    let mut handles: Vec<StageHandle> = Vec::new();
    handles.push(h0);
    handles.push(h1);
    handles.push(h2);
    handles.push(h3);
    handles.push(h4);
    handles.push(h5);
    handles.push(h6);
    handles.push(h7);
    proof {
        assert(handles@.len() == 8);
        assert(linkable_chain(g@, handles@));
        lemma_link_chain_completes(g@, handles@);
    }
    let linked = g.link_chain(&handles);
    match linked {
        Ok(_) => {},
        Err(e) => {
            proof {
                assert(false);
            }
            return Err(e);
        },
    }
    Ok((g, handles))
}

} // verus!
