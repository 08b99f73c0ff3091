use vstd::prelude::*;

verus! {

/// A stored concert photo and its metadata.
#[derive(Debug)]
pub struct Photo {
    pub id: u128,
    pub band: String,
    pub tour: String,
    pub venue: String,
    pub exif_data: Exif,
}

/// The camera metadata kept with a photo. Every field is optional: images
/// omit tags often.
#[derive(Debug)]
pub struct Exif {
    pub date_time_original: Option<String>,
    pub make: Option<String>,
    pub model: Option<String>,
    pub lens_make: Option<String>,
    pub lens_model: Option<String>,
}

/// The mathematical value of an `Exif`.
pub struct ExifView {
    pub date_time_original: Option<Seq<char>>,
    pub make: Option<Seq<char>>,
    pub model: Option<Seq<char>>,
    pub lens_make: Option<Seq<char>>,
    pub lens_model: Option<Seq<char>>,
}

pub open spec fn opt_string_view(s: Option<String>) -> Option<Seq<char>> {
    match s {
        Some(t) => Some(t@),
        None => None,
    }
}

impl View for Exif {
    type V = ExifView;

    open spec fn view(&self) -> ExifView {
        ExifView {
            date_time_original: opt_string_view(self.date_time_original),
            make: opt_string_view(self.make),
            model: opt_string_view(self.model),
            lens_make: opt_string_view(self.lens_make),
            lens_model: opt_string_view(self.lens_model),
        }
    }
}

impl ExifView {
    /// No tag present.
    pub open spec fn empty() -> ExifView {
        ExifView {
            date_time_original: None,
            make: None,
            model: None,
            lens_make: None,
            lens_model: None,
        }
    }
}

impl Default for Exif {
    fn default() -> (e: Exif)
        ensures
            e@ == ExifView::empty(),
    {
        Exif { date_time_original: None, make: None, model: None, lens_make: None, lens_model: None }
    }
}

/// New band, tour and venue for an existing photo.
#[derive(Debug)]
pub struct UpdatePhoto {
    pub band: String,
    pub tour: String,
    pub venue: String,
}

/// A row of the `photos` table, as the database hands it back.
#[derive(Debug)]
pub struct PhotoRow {
    pub id: u128,
    pub band: String,
    pub tour: String,
    pub venue: String,
    pub date_time_original: Option<String>,
    pub make: Option<String>,
    pub model: Option<String>,
    pub lens_make: Option<String>,
    pub lens_model: Option<String>,
}

impl From<PhotoRow> for Photo {
    fn from(row: PhotoRow) -> (photo: Photo)
        ensures
            photo.id == row.id,
            photo.band == row.band,
            photo.tour == row.tour,
            photo.venue == row.venue,
            photo.exif_data.date_time_original == row.date_time_original,
            photo.exif_data.make == row.make,
            photo.exif_data.model == row.model,
            photo.exif_data.lens_make == row.lens_make,
            photo.exif_data.lens_model == row.lens_model,
    {
        Photo {
            id: row.id,
            band: row.band,
            tour: row.tour,
            venue: row.venue,
            exif_data: Exif {
                date_time_original: row.date_time_original,
                make: row.make,
                model: row.model,
                lens_make: row.lens_make,
                lens_model: row.lens_model,
            },
        }
    }
}

impl vstd::std_specs::convert::FromSpecImpl<PhotoRow> for Photo {
    open spec fn obeys_from_spec() -> bool {
        true
    }

    open spec fn from_spec(row: PhotoRow) -> Photo {
        Photo {
            id: row.id,
            band: row.band,
            tour: row.tour,
            venue: row.venue,
            exif_data: Exif {
                date_time_original: row.date_time_original,
                make: row.make,
                model: row.model,
                lens_make: row.lens_make,
                lens_model: row.lens_model,
            },
        }
    }
}

/// A photo read back from the database keeps every column in its own
/// field: the id, band, tour and venue, and each EXIF column in the field
/// of the same name.
pub proof fn photo_from_row_keeps_every_column(row: PhotoRow)
    ensures
        ({
            let photo = <Photo as vstd::std_specs::convert::FromSpec<PhotoRow>>::from_spec(row);
            &&& photo.id == row.id
            &&& photo.band == row.band
            &&& photo.tour == row.tour
            &&& photo.venue == row.venue
            &&& photo.exif_data.date_time_original == row.date_time_original
            &&& photo.exif_data.make == row.make
            &&& photo.exif_data.model == row.model
            &&& photo.exif_data.lens_make == row.lens_make
            &&& photo.exif_data.lens_model == row.lens_model
        }),
{
}

} // verus!
