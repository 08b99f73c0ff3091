use crate::conversion::{convert_heic_to_jpeg, heic_to_jpeg, is_jpeg_start, ConversionError};
use crate::domain::photo::{Exif, ExifView, Photo};
use crate::exif::{exif_in_container, exif_of_fields, exif_readable, get_raw_exif, try_parse_exif};
use vstd::prelude::*;

verus! {

/// A photo ready to be written: its database row and its JPEG bytes.
#[derive(Debug)]
pub struct NewPhoto {
    pub photo: Photo,
    pub jpeg: Vec<u8>,
}

/// Why an upload cannot be saved.
#[derive(Debug, Clone, Copy, PartialEq, Eq, Structural)]
pub enum UploadError {
    /// The image's EXIF data holds an ASCII tag without any string.
    UnreadableExif,
    /// The image could not be converted to JPEG.
    Conversion(ConversionError),
}

/// The metadata an upload is saved with: what its EXIF data holds, or no
/// tag at all where the bytes hold no EXIF data the reader accepts; `None`
/// where a tag cannot be read.
pub open spec fn upload_exif(bytes: Seq<u8>) -> Option<ExifView> {
    match exif_in_container(bytes) {
        None => Some(ExifView::empty()),
        Some(fields) => if exif_readable(fields) {
            Some(exif_of_fields(fields))
        } else {
            None
        },
    }
}

/// The metadata of an upload is what its EXIF data holds: where the reader
/// finds fields whose tags can be read, their tags; where it finds none, no
/// tag at all; where a tag cannot be read, nothing is saved.
pub proof fn upload_metadata_is_the_read_tags(bytes: Seq<u8>)
    ensures
        exif_in_container(bytes) matches Some(fields) ==> (exif_readable(fields) ==> upload_exif(
            bytes,
        ) == Some(exif_of_fields(fields))),
        exif_in_container(bytes) matches Some(fields) ==> (!exif_readable(fields) ==> upload_exif(
            bytes,
        ) is None),
        exif_in_container(bytes) is None ==> (upload_exif(bytes) matches Some(e)
            && e.date_time_original is None && e.make is None && e.model is None && e.lens_make
            is None && e.lens_model is None),
{
}

/// The metadata an upload is saved with (see `upload_exif`): none where the
/// bytes hold no EXIF data the reader accepts, an error where a tag cannot
/// be read.
pub fn exif_from_upload(photo_bytes: &[u8]) -> (res: Result<Exif, UploadError>)
    ensures
        match upload_exif(photo_bytes@) {
            None => res == Err::<Exif, UploadError>(UploadError::UnreadableExif),
            Some(exif) => res matches Ok(e) && e@ == exif,
        },
        exif_in_container(photo_bytes@) matches Some(fields) ==> (exif_readable(fields) ==> (
        res matches Ok(e) && e@ == exif_of_fields(fields))),
        exif_in_container(photo_bytes@) matches Some(fields) ==> (!exif_readable(fields) ==> res
            == Err::<Exif, UploadError>(UploadError::UnreadableExif)),
        exif_in_container(photo_bytes@) is None ==> (res matches Ok(e) && e.date_time_original is None
            && e.make is None && e.model is None && e.lens_make is None && e.lens_model is None),
{
    match get_raw_exif(photo_bytes) {
        Ok(raw) => match try_parse_exif(&raw) {
            Some(exif) => Ok(exif),
            None => Err(UploadError::UnreadableExif),
        },
        Err(_) => Ok(Exif::default()),
    }
}

/// Prepares a new photo from the raw bytes of an upload and its metadata:
/// its EXIF metadata (none where the bytes hold no EXIF data), and the
/// image converted from HEIC to JPEG for storage.
pub fn prepare_photo_from_bytes(
    id: u128,
    photo_bytes: &[u8],
    band: String,
    tour: String,
    venue: String,
) -> (res: Result<NewPhoto, UploadError>)
    ensures
        match upload_exif(photo_bytes@) {
            None => res == Err::<NewPhoto, UploadError>(UploadError::UnreadableExif),
            Some(exif) => match heic_to_jpeg(photo_bytes@) {
                Err(e) => res == Err::<NewPhoto, UploadError>(UploadError::Conversion(e)),
                Ok(jpeg) => res matches Ok(p) && {
                    &&& p.photo.id == id
                    &&& p.photo.band == band
                    &&& p.photo.tour == tour
                    &&& p.photo.venue == venue
                    &&& p.photo.exif_data@ == exif
                    &&& p.jpeg@ == jpeg
                    &&& is_jpeg_start(p.jpeg@)
                },
            },
        },
        res matches Ok(p) ==> exif_in_container(photo_bytes@) matches Some(fields) ==> p.photo.exif_data@
            == exif_of_fields(fields),
        res matches Ok(p) ==> exif_in_container(photo_bytes@) is None ==> (
        p.photo.exif_data.date_time_original is None && p.photo.exif_data.make is None
            && p.photo.exif_data.model is None && p.photo.exif_data.lens_make is None
            && p.photo.exif_data.lens_model is None),
{
    let exif_data = exif_from_upload(photo_bytes)?;
    match convert_heic_to_jpeg(photo_bytes) {
        Ok(jpeg) => Ok(NewPhoto { photo: Photo { id, band, tour, venue, exif_data }, jpeg }),
        Err(e) => Err(UploadError::Conversion(e)),
    }
}

} // verus!
