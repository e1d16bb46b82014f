use little_exif::exif_tag::ExifTag;
use little_exif::metadata::Metadata;
use little_exif::rational::uR64;
use vstd::prelude::*;

use crate::coord::{rationals_view, Rational};

verus! {

#[verifier::external_type_specification]
#[verifier::external_body]
pub struct ExMetadata(Metadata);

/// Tag numbers of the four GPS entries.
pub const GPS_LATITUDE_REF: u16 = 0x0001;

pub const GPS_LATITUDE: u16 = 0x0002;

pub const GPS_LONGITUDE_REF: u16 = 0x0003;

pub const GPS_LONGITUDE: u16 = 0x0004;

/// One of the four GPS entries with its value: the hemisphere letters are
/// text, the angles degree/minute/second triples.
#[derive(Clone, Debug)]
pub enum GpsTag {
    LatitudeRef(String),
    Latitude(Vec<Rational>),
    LongitudeRef(String),
    Longitude(Vec<Rational>),
}

pub open spec fn tag_hex(t: GpsTag) -> u16 {
    match t {
        GpsTag::LatitudeRef(_) => GPS_LATITUDE_REF,
        GpsTag::Latitude(_) => GPS_LATITUDE,
        GpsTag::LongitudeRef(_) => GPS_LONGITUDE_REF,
        GpsTag::Longitude(_) => GPS_LONGITUDE,
    }
}

pub open spec fn tag_text(t: GpsTag) -> Option<Seq<char>> {
    match t {
        GpsTag::LatitudeRef(s) => Some(s@),
        GpsTag::LongitudeRef(s) => Some(s@),
        _ => None,
    }
}

pub open spec fn tag_rationals(t: GpsTag) -> Option<Seq<(u32, u32)>> {
    match t {
        GpsTag::Latitude(v) => Some(rationals_view(v@)),
        GpsTag::Longitude(v) => Some(rationals_view(v@)),
        _ => None,
    }
}

/// For each GPS tag number, the text of the first tag with that number that
/// a lookup over the metadata's GPS directories finds, where that tag is a
/// hemisphere reference.
pub uninterp spec fn gps_text_found(m: Metadata) -> Map<u16, Seq<char>>;

/// For each GPS tag number, the triple of the first tag with that number
/// that a lookup over the metadata's GPS directories finds, where that tag
/// is a latitude or a longitude.
pub uninterp spec fn gps_rationals_found(m: Metadata) -> Map<u16, Seq<(u32, u32)>>;

/// The hemisphere references held in the GPS directory of the main image
/// (generic directory number 0), the one that `set_tag` writes to.
pub uninterp spec fn gps_dir0_text(m: Metadata) -> Map<u16, Seq<char>>;

/// The latitude and longitude triples held in the GPS directory of the main
/// image (generic directory number 0).
pub uninterp spec fn gps_dir0_rationals(m: Metadata) -> Map<u16, Seq<(u32, u32)>>;

/// What a lookup of tag number `hex` returned, against what the metadata
/// holds.
pub open spec fn lookup_agrees(
    hex: u16,
    r: Option<GpsTag>,
    text: Map<u16, Seq<char>>,
    rationals: Map<u16, Seq<(u32, u32)>>,
) -> bool {
    match r {
        None => !text.contains_key(hex) && !rationals.contains_key(hex),
        Some(t) => tag_hex(t) == hex && match tag_text(t) {
            Some(s) => text.contains_key(hex) && text[hex] == s,
            None => rationals.contains_key(hex) && Some(rationals[hex]) == tag_rationals(t),
        },
    }
}

/// Relies on `Metadata::get_tag_by_hex` over the GPS group (what `get_tag`
/// does for a GPS tag): the first tag with the given number, in directory
/// order.
#[verifier::external_body]
pub(crate) fn find_gps_tag(m: &Metadata, hex: u16) -> (r: Option<GpsTag>)
    ensures
        lookup_agrees(hex, r, gps_text_found(*m), gps_rationals_found(*m)),
{
    let group = Some(little_exif::ifd::ExifTagGroup::GPS);
    let pair = |q: &uR64| Rational { numerator: q.nominator, denominator: q.denominator };
    match m.get_tag_by_hex(hex, group).next() {
        Some(ExifTag::GPSLatitudeRef(s)) => Some(GpsTag::LatitudeRef(s.clone())),
        Some(ExifTag::GPSLatitude(v)) => Some(GpsTag::Latitude(v.iter().map(pair).collect())),
        Some(ExifTag::GPSLongitudeRef(s)) => Some(GpsTag::LongitudeRef(s.clone())),
        Some(ExifTag::GPSLongitude(v)) => Some(GpsTag::Longitude(v.iter().map(pair).collect())),
        _ => None,
    }
}

/// Relies on `Metadata::set_tag`: a GPS tag goes into the GPS directory of
/// the main image (created if missing), replacing any tag of the same number
/// there.
#[verifier::external_body]
pub(crate) fn store_gps_tag(m: &mut Metadata, tag: GpsTag)
    ensures
        gps_dir0_text(*final(m)) == match tag_text(tag) {
            Some(s) => gps_dir0_text(*old(m)).insert(tag_hex(tag), s),
            None => gps_dir0_text(*old(m)).remove(tag_hex(tag)),
        },
        gps_dir0_rationals(*final(m)) == match tag_rationals(tag) {
            Some(v) => gps_dir0_rationals(*old(m)).insert(tag_hex(tag), v),
            None => gps_dir0_rationals(*old(m)).remove(tag_hex(tag)),
        },
{
    let pair = |q: &Rational| uR64 { nominator: q.numerator, denominator: q.denominator };
    m.set_tag(match tag {
        GpsTag::LatitudeRef(s) => ExifTag::GPSLatitudeRef(s),
        GpsTag::Latitude(v) => ExifTag::GPSLatitude(v.iter().map(pair).collect()),
        GpsTag::LongitudeRef(s) => ExifTag::GPSLongitudeRef(s),
        GpsTag::Longitude(v) => ExifTag::GPSLongitude(v.iter().map(pair).collect()),
    })
}

} // verus!
