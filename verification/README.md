# metallian_photos

A concert-photo archive. Photos are uploaded as HEIC, converted to JPEG,
described by band, tour and venue plus the camera metadata read from their
EXIF data, and shown in one public gallery per band.

- `src/` is the library, verified with Verus: gallery slugs and the
  grouping of photos into galleries, EXIF extraction, the HEIC to JPEG
  pipeline, photo ids, the in-memory photo store and its laws, the session
  key, and the error types with their HTTP status codes.
- `app/` is the web server around it (actix-web, SQLite through sqlx,
  S3-compatible storage through OpenDAL, Tera templates, Datastar events).
- `tests/` runs the library on concrete inputs.
