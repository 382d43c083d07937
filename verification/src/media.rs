use vstd::prelude::*;

verus! {

/// A concrete media format: a media-type name plus optionally constrained
/// fields.  A field left `None` is unconstrained and negotiates with any
/// value of the same field on the other side of a link.
#[derive(Clone, Debug)]
pub struct MediaFormat {
    pub media: String,
    pub width: Option<u32>,
    pub height: Option<u32>,
    pub profile: Option<String>,
}

/// Mathematical model of a `MediaFormat`.
pub struct MediaFormatModel {
    pub media: Seq<char>,
    pub width: Option<u32>,
    pub height: Option<u32>,
    pub profile: Option<Seq<char>>,
}

/// The model of an optional piece of text.
pub open spec fn opt_text_model(o: Option<String>) -> Option<Seq<char>> {
    match o {
        Some(s) => Some(s@),
        None => None,
    }
}

impl View for MediaFormat {
    type V = MediaFormatModel;

    open spec fn view(&self) -> MediaFormatModel {
        MediaFormatModel {
            media: self.media@,
            width: self.width,
            height: self.height,
            profile: opt_text_model(self.profile),
        }
    }
}

impl MediaFormat {
    /// A format constrained only by its media-type name.
    pub fn of_media(media: &str) -> (r: MediaFormat)
        ensures
            r@ == (MediaFormatModel {
                media: media@,
                width: None,
                height: None,
                profile: None,
            }),
    {
        MediaFormat { media: media.to_owned(), width: None, height: None, profile: None }
    }

    /// A format constrained by media-type name and fixed dimensions.
    pub fn with_size(media: &str, width: u32, height: u32) -> (r: MediaFormat)
        ensures
            r@ == (MediaFormatModel {
                media: media@,
                width: Some(width),
                height: Some(height),
                profile: None,
            }),
    {
        MediaFormat {
            media: media.to_owned(),
            width: Some(width),
            height: Some(height),
            profile: None,
        }
    }

    /// A format constrained by media-type name and an encoding profile.
    pub fn with_profile(media: &str, profile: &str) -> (r: MediaFormat)
        ensures
            r@ == (MediaFormatModel {
                media: media@,
                width: None,
                height: None,
                profile: Some(profile@),
            }),
    {
        MediaFormat {
            media: media.to_owned(),
            width: None,
            height: None,
            profile: Some(profile.to_owned()),
        }
    }
}

impl MediaFormat {
    /// A copy of this format, equal under the model.
    pub fn duplicate(&self) -> (r: MediaFormat)
        ensures
            r@ == self@,
    {
        MediaFormat {
            media: self.media.clone(),
            width: self.width,
            height: self.height,
            profile: match &self.profile {
                Some(p) => Some(p.clone()),
                None => None,
            },
        }
    }
}

/// The capability of a stage port: either unconstrained, or fixed to a format.
#[derive(Clone, Debug)]
pub enum PortCap {
    AnyFormat,
    Fixed(MediaFormat),
}

/// Mathematical model of a `PortCap`.
pub enum PortCapModel {
    AnyFormat,
    Fixed(MediaFormatModel),
}

impl View for PortCap {
    type V = PortCapModel;

    open spec fn view(&self) -> PortCapModel {
        match self {
            PortCap::AnyFormat => PortCapModel::AnyFormat,
            PortCap::Fixed(f) => PortCapModel::Fixed(f@),
        }
    }
}

impl PortCap {
    /// A copy of this capability, equal under the model.
    pub fn duplicate(&self) -> (r: PortCap)
        ensures
            r@ == self@,
    {
        match self {
            PortCap::AnyFormat => PortCap::AnyFormat,
            PortCap::Fixed(f) => PortCap::Fixed(f.duplicate()),
        }
    }
}

/// Two optional dimensions negotiate iff at least one is unconstrained or
/// both carry the same value.
pub open spec fn dims_agree(a: Option<u32>, b: Option<u32>) -> bool {
    a is None || b is None || a == b
}

/// Two optional text fields negotiate iff at least one is unconstrained or
/// both carry the same text.
pub open spec fn texts_agree(a: Option<Seq<char>>, b: Option<Seq<char>>) -> bool {
    a is None || b is None || a == b
}

/// Two concrete formats have a common negotiated format iff their media-type
/// names are equal and no constrained field conflicts.
pub open spec fn formats_compatible(a: MediaFormatModel, b: MediaFormatModel) -> bool {
    &&& a.media == b.media
    &&& dims_agree(a.width, b.width)
    &&& dims_agree(a.height, b.height)
    &&& texts_agree(a.profile, b.profile)
}

/// An upstream output capability and a downstream input capability negotiate
/// iff either side is unconstrained or the two fixed formats are compatible.
pub open spec fn caps_compatible(out_cap: PortCapModel, in_cap: PortCapModel) -> bool {
    match (out_cap, in_cap) {
        (PortCapModel::Fixed(a), PortCapModel::Fixed(b)) => formats_compatible(a, b),
        _ => true,
    }
}

/// Decides `dims_agree` on concrete optional dimensions.
pub fn check_dims_agree(a: &Option<u32>, b: &Option<u32>) -> (r: bool)
    ensures
        r == dims_agree(*a, *b),
{
    match (a, b) {
        (Some(x), Some(y)) => *x == *y,
        _ => true,
    }
}

/// Decides `texts_agree` on concrete optional text fields.
pub fn check_texts_agree(a: &Option<String>, b: &Option<String>) -> (r: bool)
    ensures
        r == texts_agree(opt_text_model(*a), opt_text_model(*b)),
{
    match (a, b) {
        (Some(x), Some(y)) => *x == *y,
        _ => true,
    }
}

/// Decides `formats_compatible` on concrete formats.
pub fn check_formats_compatible(a: &MediaFormat, b: &MediaFormat) -> (r: bool)
    ensures
        r == formats_compatible(a@, b@),
{
    a.media == b.media && check_dims_agree(&a.width, &b.width) && check_dims_agree(
        &a.height,
        &b.height,
    ) && check_texts_agree(&a.profile, &b.profile)
}

/// Decides `caps_compatible` on concrete port capabilities.
pub fn check_caps_compatible(out_cap: &PortCap, in_cap: &PortCap) -> (r: bool)
    ensures
        r == caps_compatible(out_cap@, in_cap@),
{
    match (out_cap, in_cap) {
        (PortCap::Fixed(a), PortCap::Fixed(b)) => check_formats_compatible(a, b),
        _ => true,
    }
}

} // verus!
