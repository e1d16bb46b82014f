use little_exif::metadata::Metadata;
use vstd::prelude::*;

use crate::coord::{abs_ticks, decimal_to_dms, dms_of, fits_triple, hemisphere_code, rationals_view, Rational};
use crate::exif::{
    gps_dir0_rationals, gps_dir0_text, store_gps_tag, GpsTag, GPS_LATITUDE, GPS_LATITUDE_REF,
    GPS_LONGITUDE, GPS_LONGITUDE_REF,
};

verus! {

/// The outcome of writing the GPS entries to one file.
#[derive(Clone, Debug)]
pub struct WriteResult {
    pub file_path: String,
    pub success: bool,
}

/// The four GPS entry values for one position, computed once and written to
/// every file of a batch.
#[derive(Clone, Debug)]
pub struct GpsTagSet {
    pub longitude_ref: String,
    pub latitude_ref: String,
    pub longitude: Vec<Rational>,
    pub latitude: Vec<Rational>,
}

/// What happened to one file of a batch.
#[derive(Clone, Copy, Debug, PartialEq, Eq, Structural)]
pub enum FileOutcome {
    /// Its metadata could not be loaded.
    Unreadable,
    /// The entries were staged but saving the file failed.
    WriteFailed,
    /// The entries were saved.
    Written,
}

/// The entry values that encode a position given in fixed-point ticks.
pub open spec fn encodes(tags: GpsTagSet, longitude: i64, latitude: i64) -> bool {
    &&& tags.longitude_ref@ == hemisphere_code(longitude < 0, true)
    &&& tags.latitude_ref@ == hemisphere_code(latitude < 0, false)
    &&& rationals_view(tags.longitude@) == dms_of(abs_ticks(longitude as int))
    &&& rationals_view(tags.latitude@) == dms_of(abs_ticks(latitude as int))
}

/// Encodes a (longitude, latitude) position, in ticks, into the four GPS
/// entry values.
pub fn get_gps_exif(longitude: i64, latitude: i64) -> (r: GpsTagSet)
    requires
        fits_triple(longitude),
        fits_triple(latitude),
    ensures
        encodes(r, longitude, latitude),
{
    let (longitude_ref, lon_dms) = decimal_to_dms(longitude, true);
    let (latitude_ref, lat_dms) = decimal_to_dms(latitude, false);
    GpsTagSet { longitude_ref, latitude_ref, longitude: lon_dms, latitude: lat_dms }
}

/// Stages the four GPS entries in the metadata, replacing earlier values;
/// the other entries are kept.
pub fn stage_gps_tags(metadata: &mut Metadata, tags: GpsTagSet)
    ensures
        gps_dir0_text(*final(metadata)) == gps_dir0_text(*old(metadata)).remove(GPS_LONGITUDE).remove(
            GPS_LATITUDE,
        ).insert(GPS_LONGITUDE_REF, tags.longitude_ref@).insert(GPS_LATITUDE_REF, tags.latitude_ref@),
        gps_dir0_rationals(*final(metadata)) == gps_dir0_rationals(*old(metadata)).remove(
            GPS_LONGITUDE_REF,
        ).remove(GPS_LATITUDE_REF).insert(GPS_LONGITUDE, rationals_view(tags.longitude@)).insert(
            GPS_LATITUDE,
            rationals_view(tags.latitude@),
        ),
{
    let ghost text0 = gps_dir0_text(*metadata);
    let ghost rat0 = gps_dir0_rationals(*metadata);
    let GpsTagSet { longitude_ref, latitude_ref, longitude, latitude } = tags;
    store_gps_tag(metadata, GpsTag::LongitudeRef(longitude_ref));
    store_gps_tag(metadata, GpsTag::Longitude(longitude));
    store_gps_tag(metadata, GpsTag::LatitudeRef(latitude_ref));
    store_gps_tag(metadata, GpsTag::Latitude(latitude));
    assert(gps_dir0_text(*metadata) =~= text0.remove(GPS_LONGITUDE).remove(GPS_LATITUDE).insert(
        GPS_LONGITUDE_REF,
        tags.longitude_ref@,
    ).insert(GPS_LATITUDE_REF, tags.latitude_ref@));
    assert(gps_dir0_rationals(*metadata) =~= rat0.remove(GPS_LONGITUDE_REF).remove(GPS_LATITUDE_REF).insert(
        GPS_LONGITUDE,
        rationals_view(tags.longitude@),
    ).insert(GPS_LATITUDE, rationals_view(tags.latitude@)));
}

/// The record of one file: it succeeded only when its entries were saved.
pub fn write_result(file_path: String, outcome: FileOutcome) -> (r: WriteResult)
    ensures
        r.file_path@ == file_path@,
        r.success == (outcome == FileOutcome::Written),
{
    WriteResult { file_path, success: outcome == FileOutcome::Written }
}

/// The records of a batch: one per file, in the order of the files, each
/// depending on that file's outcome alone.
pub open spec fn batch_records(files: Seq<String>, outcomes: Seq<FileOutcome>) -> Seq<(Seq<char>, bool)> {
    Seq::new(files.len(), |i: int| (files[i]@, outcomes[i] == FileOutcome::Written))
}

pub open spec fn records_view(r: Seq<WriteResult>) -> Seq<(Seq<char>, bool)> {
    r.map_values(|w: WriteResult| (w.file_path@, w.success))
}

/// Gathers the records of a batch from the outcome of each file.
pub fn write_results(files: &Vec<String>, outcomes: &Vec<FileOutcome>) -> (r: Vec<WriteResult>)
    requires
        files.len() == outcomes.len(),
    ensures
        records_view(r@) == batch_records(files@, outcomes@),
{
    let mut results: Vec<WriteResult> = Vec::new();
    let mut i: usize = 0;
    while i < files.len()
        invariant
            i <= files.len() == outcomes.len(),
            results.len() == i,
            forall|j: int|
                0 <= j < i ==> (#[trigger] results@[j]).file_path@ == files@[j]@ && results@[j].success
                    == (outcomes@[j] == FileOutcome::Written),
        decreases files.len() - i,
    {
        let record = write_result(files[i].clone(), outcomes[i]);
        results.push(record);
        i += 1;
    }
    assert(records_view(results@) =~= batch_records(files@, outcomes@));
    results
}

/// Every file of a batch gets exactly one record, at its own position, and a
/// file's record is the same whatever happened to the other files.
pub proof fn batch_independence(
    files: Seq<String>,
    outcomes: Seq<FileOutcome>,
    other_outcomes: Seq<FileOutcome>,
    i: int,
)
    requires
        files.len() == outcomes.len() == other_outcomes.len(),
        0 <= i < files.len(),
        outcomes[i] == other_outcomes[i],
    ensures
        batch_records(files, outcomes).len() == files.len(),
        batch_records(files, outcomes)[i] == batch_records(files, other_outcomes)[i],
        batch_records(files, outcomes)[i].0 == files[i]@,
        batch_records(files, outcomes)[i].1 == (outcomes[i] == FileOutcome::Written),
{
}

} // verus!
