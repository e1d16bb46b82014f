use little_exif::metadata::Metadata;
use vstd::prelude::*;

use crate::coord::{decode_dms, dms_to_decimal, ref_is_negative, DecimalDegrees};
use crate::exif::{
    find_gps_tag, gps_rationals_found, gps_text_found, GpsTag, GPS_LATITUDE, GPS_LATITUDE_REF,
    GPS_LONGITUDE, GPS_LONGITUDE_REF,
};

verus! {

/// The decoded (longitude, latitude) of the four GPS entries, or nothing
/// when any of them is missing.
pub open spec fn gps_coords_of(
    text: Map<u16, Seq<char>>,
    rationals: Map<u16, Seq<(u32, u32)>>,
) -> Option<((int, int), (int, int))> {
    if text.contains_key(GPS_LONGITUDE_REF) && text.contains_key(GPS_LATITUDE_REF)
        && rationals.contains_key(GPS_LONGITUDE) && rationals.contains_key(GPS_LATITUDE) {
        Some(
            (
                decode_dms(rationals[GPS_LONGITUDE], ref_is_negative(text[GPS_LONGITUDE_REF])),
                decode_dms(rationals[GPS_LATITUDE], ref_is_negative(text[GPS_LATITUDE_REF])),
            ),
        )
    } else {
        None
    }
}

pub open spec fn degrees_view(d: DecimalDegrees) -> (int, int) {
    (d.numerator as int, d.denominator as int)
}

pub open spec fn coords_view(r: Option<(DecimalDegrees, DecimalDegrees)>) -> Option<
    ((int, int), (int, int)),
> {
    match r {
        Some(p) => Some((degrees_view(p.0), degrees_view(p.1))),
        None => None,
    }
}

/// Reads the four GPS entries of the metadata and decodes them into
/// (longitude, latitude); nothing unless all four are present.
pub fn get_gps_coords(metadata: &Metadata) -> (r: Option<(DecimalDegrees, DecimalDegrees)>)
    ensures
        coords_view(r) == gps_coords_of(gps_text_found(*metadata), gps_rationals_found(*metadata)),
{
    let lon_ref = match find_gps_tag(metadata, GPS_LONGITUDE_REF) {
        Some(GpsTag::LongitudeRef(s)) => s,
        _ => return None,
    };
    let lat_ref = match find_gps_tag(metadata, GPS_LATITUDE_REF) {
        Some(GpsTag::LatitudeRef(s)) => s,
        _ => return None,
    };
    let lon_dms = match find_gps_tag(metadata, GPS_LONGITUDE) {
        Some(GpsTag::Longitude(v)) => v,
        _ => return None,
    };
    let lat_dms = match find_gps_tag(metadata, GPS_LATITUDE) {
        Some(GpsTag::Latitude(v)) => v,
        _ => return None,
    };
    let longitude = dms_to_decimal(lon_dms.as_slice(), lon_ref.as_str());
    let latitude = dms_to_decimal(lat_dms.as_slice(), lat_ref.as_str());
    Some((longitude, latitude))
}

/// A read of metadata that lacks any one of the four GPS entries yields
/// nothing, whatever the other entries hold.
pub proof fn read_absence(text: Map<u16, Seq<char>>, rationals: Map<u16, Seq<(u32, u32)>>)
    requires
        !text.contains_key(GPS_LONGITUDE_REF) || !text.contains_key(GPS_LATITUDE_REF)
            || !rationals.contains_key(GPS_LONGITUDE) || !rationals.contains_key(GPS_LATITUDE),
    ensures
        gps_coords_of(text, rationals) is None,
{
}

} // verus!
