//! Image metadata handling. The input is decoded as a raster image, the
//! structured EXIF tags are read for the report, and the pixel buffer is
//! re-encoded from scratch in the format implied by the input's extension:
//! a fresh encode carries no source tag blocks, so all non-pixel metadata is
//! discarded by construction.
use vstd::prelude::*;

use crate::classify::{eq_lower, eq_lower_exec, extension_of, has_extension, path_extension,
    spec_classify};
use crate::report::ProcessingError;
use crate::text::{
    append_chars, append_report, chars_to_string, digit_char, digit_char_exec, item_opt_labeled,
    opt_str_view, push_digits, push_labeled, spec_digits, str_chars,
};

verus! {

use vstd::string::StringExecFns;

broadcast use vstd::string::group_string_axioms;

/// The encoding format implied by an image path's extension. Only the five
/// formats below are accepted; the extension is compared without regard to
/// ASCII case, as the classifier compares it.
#[derive(Debug, Clone, Copy, PartialEq, Eq, Structural)]
pub enum ImageKind {
    Jpeg,
    Png,
    Gif,
    Bmp,
    Tiff,
}

/// One EXIF rational: a numerator/denominator pair.
#[derive(Debug, Clone, Copy, PartialEq, Eq, Structural)]
pub struct ExifRational {
    pub num: u32,
    pub denom: u32,
}

/// One parsed GPS coordinate: a degrees/minutes/seconds triplet of rationals
/// plus the hemisphere reference letter.
#[derive(Debug, Clone)]
pub struct GpsCoordinate {
    pub degrees: ExifRational,
    pub minutes: ExifRational,
    pub seconds: ExifRational,
    pub reference: String,
}

impl GpsCoordinate {
    /// A coordinate is well formed when none of its denominators is zero, so
    /// that each component has a finite decimal rendering.
    pub open spec fn wf(self) -> bool {
        self.degrees.denom > 0 && self.minutes.denom > 0 && self.seconds.denom > 0
    }
}

/// The plain values that the report reads out of an image's EXIF block.
/// Fields that the block does not hold are `None`; `gps_present` records
/// whether a latitude or longitude field exists at all, even one that could
/// not be parsed into a coordinate.
#[derive(Debug, Clone)]
pub struct ExifFields {
    pub make: Option<String>,
    pub model: Option<String>,
    pub software: Option<String>,
    pub date_time: Option<String>,
    pub date_time_original: Option<String>,
    pub gps_present: bool,
    pub gps_latitude: Option<GpsCoordinate>,
    pub gps_longitude: Option<GpsCoordinate>,
    pub exposure_time: Option<String>,
    pub f_number: Option<String>,
    pub iso_speed: Option<String>,
}

impl ExifFields {
    pub open spec fn wf(self) -> bool {
        &&& (self.gps_latitude matches Some(c) ==> c.wf())
        &&& (self.gps_longitude matches Some(c) ==> c.wf())
    }
}

/// `num / den` scaled to six decimal places, rounded half up.
pub open spec fn spec_round6(num: nat, den: nat) -> nat
    recommends
        den > 0,
{
    ((num * 10_000_000) / den + 5) / 10
}

/// Six decimal digits for a fraction below one million, zero-padded.
pub open spec fn spec_frac6(f: nat) -> Seq<char> {
    seq![
        digit_char(f / 100_000 % 10),
        digit_char(f / 10_000 % 10),
        digit_char(f / 1_000 % 10),
        digit_char(f / 100 % 10),
        digit_char(f / 10 % 10),
        digit_char(f % 10),
    ]
}

/// The decimal rendering of the rational `num / den` with six places after
/// the point.
pub open spec fn spec_rational6(num: nat, den: nat) -> Seq<char>
    recommends
        den > 0,
{
    let r = spec_round6(num, den);
    spec_digits(r / 1_000_000) + seq!['.'] + spec_frac6(r % 1_000_000)
}

/// Division by a positive number does not increase a non-negative value.
proof fn lemma_div_le(x: int, d: int)
    by (nonlinear_arith)
    requires
        0 <= x,
        1 <= d,
    ensures
        x / d <= x,
{
}

/// Appends the decimal rendering of `r.num / r.denom` with six places after
/// the point, rounded half up.
fn push_rational6(r: &ExifRational, out: &mut Vec<char>)
    requires
        r.denom > 0,
    ensures
        final(out)@ == old(out)@ + spec_rational6(r.num as nat, r.denom as nat),
{
    let num = r.num as u128;
    let den = r.denom as u128;
    let scaled = num * 10_000_000;
    proof {
        lemma_div_le(scaled as int, den as int);
    }
    let q = scaled / den + 5;
    let rounded = q / 10;
    let int_part = rounded / 1_000_000;
    let frac = rounded % 1_000_000;
    push_digits(int_part as u64, out);
    out.push('.');
    out.push(digit_char_exec((frac / 100_000 % 10) as u64));
    out.push(digit_char_exec((frac / 10_000 % 10) as u64));
    out.push(digit_char_exec((frac / 1_000 % 10) as u64));
    out.push(digit_char_exec((frac / 100 % 10) as u64));
    out.push(digit_char_exec((frac / 10 % 10) as u64));
    out.push(digit_char_exec((frac % 10) as u64));
    proof {
        assert(out@ =~= old(out)@ + spec_rational6(r.num as nat, r.denom as nat));
    }
}

/// The rendered text of one coordinate: degrees, minutes and seconds each
/// with six decimal places, then the hemisphere reference.
pub open spec fn spec_coordinate_text(c: GpsCoordinate) -> Seq<char> {
    spec_rational6(c.degrees.num as nat, c.degrees.denom as nat) + "\u{b0} "@ + spec_rational6(
        c.minutes.num as nat,
        c.minutes.denom as nat,
    ) + "' "@ + spec_rational6(c.seconds.num as nat, c.seconds.denom as nat) + "\" "@
        + c.reference@
}

/// Renders one coordinate.
fn coordinate_text(c: &GpsCoordinate) -> (v: Vec<char>)
    requires
        c.wf(),
    ensures
        v@ == spec_coordinate_text(*c),
{
    let mut v: Vec<char> = Vec::new();
    push_rational6(&c.degrees, &mut v);
    let deg_mark = str_chars("\u{b0} ");
    append_chars(&mut v, &deg_mark);
    push_rational6(&c.minutes, &mut v);
    let min_mark = str_chars("' ");
    append_chars(&mut v, &min_mark);
    push_rational6(&c.seconds, &mut v);
    let sec_mark = str_chars("\" ");
    append_chars(&mut v, &sec_mark);
    let reference = str_chars(c.reference.as_str());
    append_chars(&mut v, &reference);
    proof {
        assert(v@ =~= spec_coordinate_text(*c));
    }
    v
}

/// The GPS report lines: the rendered location when at least one coordinate
/// parsed, a sentinel when coordinate fields exist but none parsed, nothing
/// when no GPS field is present.
pub open spec fn spec_gps_items(f: ExifFields) -> Seq<Seq<char>> {
    if f.gps_present {
        if f.gps_latitude is Some || f.gps_longitude is Some {
            seq![
                "GPS Location: "@ + (match f.gps_latitude {
                    Some(c) => spec_coordinate_text(c) + " "@,
                    None => Seq::empty(),
                }) + (match f.gps_longitude {
                    Some(c) => spec_coordinate_text(c),
                    None => Seq::empty(),
                }),
            ]
        } else {
            seq!["GPS Data: Present but could not be parsed"@]
        }
    } else {
        Seq::empty()
    }
}

/// The report lines for the structured tags, in extraction order.
pub open spec fn spec_exif_items(f: ExifFields) -> Seq<Seq<char>> {
    item_opt_labeled("Camera Make: "@, f.make) + item_opt_labeled("Camera Model: "@, f.model)
        + item_opt_labeled("Software: "@, f.software) + item_opt_labeled(
        "Date/Time: "@,
        f.date_time,
    ) + item_opt_labeled("Original Date/Time: "@, f.date_time_original) + spec_gps_items(f)
        + item_opt_labeled("Exposure Time: "@, f.exposure_time) + item_opt_labeled(
        "Aperture: "@,
        f.f_number,
    ) + item_opt_labeled("ISO: "@, f.iso_speed)
}

/// The report for one EXIF block: its tag lines, or a single sentinel line
/// when the block held no readable values — extraction success with zero
/// findings is distinguished from extraction failure.
pub open spec fn spec_exif_report(f: ExifFields) -> Seq<Seq<char>> {
    if spec_exif_items(f).len() == 0 {
        seq!["EXIF metadata was present but no readable values were found"@]
    } else {
        spec_exif_items(f)
    }
}

/// The GPS report lines as a vector of their own.
fn gps_report_items(fields: &ExifFields) -> (r: Vec<String>)
    requires
        fields.wf(),
    ensures
        r.deep_view() == spec_gps_items(*fields),
{
    let mut out: Vec<String> = Vec::new();
    proof {
        assert(out.deep_view() =~= Seq::<Seq<char>>::empty());
    }
    if fields.gps_present {
        if fields.gps_latitude.is_some() || fields.gps_longitude.is_some() {
            let ghost lat_part = match &fields.gps_latitude {
                Some(c) => spec_coordinate_text(*c) + " "@,
                None => Seq::<char>::empty(),
            };
            let ghost lon_part = match &fields.gps_longitude {
                Some(c) => spec_coordinate_text(*c),
                None => Seq::<char>::empty(),
            };
            let mut line = str_chars("GPS Location: ");
            match &fields.gps_latitude {
                Some(c) => {
                    let t = coordinate_text(c);
                    append_chars(&mut line, &t);
                    let sp = str_chars(" ");
                    append_chars(&mut line, &sp);
                },
                None => {},
            }
            proof {
                assert(line@ =~= "GPS Location: "@ + lat_part);
            }
            match &fields.gps_longitude {
                Some(c) => {
                    let t = coordinate_text(c);
                    append_chars(&mut line, &t);
                },
                None => {},
            }
            proof {
                assert(line@ =~= "GPS Location: "@ + lat_part + lon_part);
                assert(spec_gps_items(*fields) =~= seq![line@]);
            }
            out.push(chars_to_string(&line));
        } else {
            out.push("GPS Data: Present but could not be parsed".to_owned());
        }
        proof {
            assert(out.deep_view() =~= spec_gps_items(*fields));
        }
    }
    out
}

/// The tag lines of the report, without the no-readable-values sentinel.
fn exif_items(fields: &ExifFields) -> (r: Vec<String>)
    requires
        fields.wf(),
    ensures
        r.deep_view() == spec_exif_items(*fields),
{
    let mut out: Vec<String> = Vec::new();
    proof {
        assert(out.deep_view() =~= Seq::<Seq<char>>::empty());
        assert(Seq::<Seq<char>>::empty() + item_opt_labeled("Camera Make: "@, fields.make)
            =~= item_opt_labeled("Camera Make: "@, fields.make));
    }
    push_labeled(&mut out, "Camera Make: ", &fields.make);
    push_labeled(&mut out, "Camera Model: ", &fields.model);
    push_labeled(&mut out, "Software: ", &fields.software);
    push_labeled(&mut out, "Date/Time: ", &fields.date_time);
    push_labeled(&mut out, "Original Date/Time: ", &fields.date_time_original);
    let gps = gps_report_items(fields);
    append_report(&mut out, gps);
    push_labeled(&mut out, "Exposure Time: ", &fields.exposure_time);
    push_labeled(&mut out, "Aperture: ", &fields.f_number);
    push_labeled(&mut out, "ISO: ", &fields.iso_speed);
    out
}

/// Builds the human-readable report for one EXIF block from its extracted
/// plain values: one line per present tag, the GPS lines by the rules of
/// `spec_gps_items`, and the sentinel line when nothing was readable.
pub fn exif_report(fields: &ExifFields) -> (r: Vec<String>)
    requires
        fields.wf(),
    ensures
        r.deep_view() == spec_exif_report(*fields),
        r@.len() >= 1,
{
    let mut out = exif_items(fields);
    if out.len() == 0 {
        proof {
            assert(out.deep_view().len() == 0);
        }
        out.push("EXIF metadata was present but no readable values were found".to_owned());
        proof {
            assert(out.deep_view() =~= spec_exif_report(*fields));
        }
    }
    out
}


/// The extension-implied encoding format, when the path carries one of the
/// five accepted image extensions, compared case-insensitively (ASCII), as
/// the classifier compares them.
pub open spec fn spec_image_kind(p: Seq<char>) -> Option<ImageKind> {
    if has_extension(p) {
        let e = extension_of(p);
        if (e.len() == 3 && eq_lower(e[0], 'j') && eq_lower(e[1], 'p') && eq_lower(e[2], 'g'))
            || (e.len() == 4 && eq_lower(e[0], 'j') && eq_lower(e[1], 'p') && eq_lower(
            e[2],
            'e',
        ) && eq_lower(e[3], 'g')) {
            Some(ImageKind::Jpeg)
        } else if e.len() == 3 && eq_lower(e[0], 'p') && eq_lower(e[1], 'n') && eq_lower(
            e[2],
            'g',
        ) {
            Some(ImageKind::Png)
        } else if e.len() == 3 && eq_lower(e[0], 'g') && eq_lower(e[1], 'i') && eq_lower(
            e[2],
            'f',
        ) {
            Some(ImageKind::Gif)
        } else if e.len() == 3 && eq_lower(e[0], 'b') && eq_lower(e[1], 'm') && eq_lower(
            e[2],
            'p',
        ) {
            Some(ImageKind::Bmp)
        } else if e.len() == 4 && eq_lower(e[0], 't') && eq_lower(e[1], 'i') && eq_lower(
            e[2],
            'f',
        ) && eq_lower(e[3], 'f') {
            Some(ImageKind::Tiff)
        } else {
            None
        }
    } else {
        None
    }
}

/// The image handler accepts exactly the paths the classifier calls images:
/// an extension-implied format exists iff the category is `Image`.
pub proof fn lemma_image_kind_matches_classifier(p: Seq<char>)
    ensures
        spec_image_kind(p) is Some <==> spec_classify(p) is Image,
{
}

/// The encoding format implied by the path's extension, if it is accepted.
pub fn image_kind_of(path: &str) -> (r: Option<ImageKind>)
    ensures
        r == spec_image_kind(path@),
{
    match path_extension(path) {
        Some(e) => {
            if (e.len() == 3 && eq_lower_exec(e[0], 'j') && eq_lower_exec(e[1], 'p')
                && eq_lower_exec(e[2], 'g')) || (e.len() == 4 && eq_lower_exec(e[0], 'j')
                && eq_lower_exec(e[1], 'p') && eq_lower_exec(e[2], 'e') && eq_lower_exec(
                e[3],
                'g',
            )) {
                Some(ImageKind::Jpeg)
            } else if e.len() == 3 && eq_lower_exec(e[0], 'p') && eq_lower_exec(e[1], 'n')
                && eq_lower_exec(e[2], 'g') {
                Some(ImageKind::Png)
            } else if e.len() == 3 && eq_lower_exec(e[0], 'g') && eq_lower_exec(e[1], 'i')
                && eq_lower_exec(e[2], 'f') {
                Some(ImageKind::Gif)
            } else if e.len() == 3 && eq_lower_exec(e[0], 'b') && eq_lower_exec(e[1], 'm')
                && eq_lower_exec(e[2], 'p') {
                Some(ImageKind::Bmp)
            } else if e.len() == 4 && eq_lower_exec(e[0], 't') && eq_lower_exec(e[1], 'i')
                && eq_lower_exec(e[2], 'f') && eq_lower_exec(e[3], 'f') {
                Some(ImageKind::Tiff)
            } else {
                None
            }
        },
        None => None,
    }
}

#[verifier::external_type_specification]
#[verifier::external_body]
pub struct ExExif(exif::Exif);

#[verifier::external_type_specification]
#[verifier::external_body]
pub struct ExDynamicImage(::image::DynamicImage);

/// Whether `exif::Reader::read_from_container` parses an EXIF block out of
/// the given container bytes; a pure function of the bytes alone.
pub uninterp spec fn exif_parses(b: Seq<u8>) -> bool;

/// Whether `image::load_from_memory` decodes the given bytes as a raster
/// image; a pure function of the bytes alone, granted that no decoder hook
/// is registered in the crate's process-global registry — neither this
/// library nor its callers register one.
pub uninterp spec fn image_decodes(b: Seq<u8>) -> bool;

/// Whether decoding the bytes with `image::load_from_memory` and re-encoding
/// the pixel buffer in the given format with `image::DynamicImage::write_to`
/// succeeds; a pure function of the bytes and the format, under the same
/// no-registered-hooks proviso as `image_decodes`.
pub uninterp spec fn image_reencodes(b: Seq<u8>, k: ImageKind) -> bool;

/// The output bytes of that re-encode: the decoded pixel buffer freshly
/// encoded in the given format, carrying no tag blocks of the source; a pure
/// function of the bytes and the format, under the same proviso.
pub uninterp spec fn image_reencoded(b: Seq<u8>, k: ImageKind) -> Seq<u8>;

/// Relies on exif::Reader::read_from_container: parses the EXIF block of an
/// image container; whether it succeeds depends on the bytes alone.
#[verifier::external_body]
fn parse_exif(data: &Vec<u8>) -> (r: Option<exif::Exif>)
    ensures
        r is Some <==> exif_parses(data@),
{
    exif::Reader::new().read_from_container(&mut std::io::Cursor::new(data.as_slice())).ok()
}

/// Relies on image::load_from_memory: decodes a raster image from bytes,
/// sniffing the container format from the content; whether it succeeds
/// depends on the bytes alone (no decoder hooks are registered here).
#[verifier::external_body]
fn decode_image(data: &Vec<u8>) -> (r: Option<::image::DynamicImage>)
    ensures
        r is Some <==> image_decodes(data@),
{
    ::image::load_from_memory(data.as_slice()).ok()
}

/// Relies on image::load_from_memory and image::DynamicImage::write_to: the
/// decoded pixel buffer, re-encoded from scratch in the given format; both
/// success and the output bytes depend on the input bytes and the format
/// alone (no decoder hooks are registered here).
#[verifier::external_body]
fn reencode_image(data: &Vec<u8>, kind: &ImageKind) -> (r: Option<Vec<u8>>)
    ensures
        r is Some <==> image_reencodes(data@, *kind),
        r matches Some(b) ==> b@ == image_reencoded(data@, *kind),
{
    let format = match kind {
        ImageKind::Jpeg => ::image::ImageFormat::Jpeg,
        ImageKind::Png => ::image::ImageFormat::Png,
        ImageKind::Gif => ::image::ImageFormat::Gif,
        ImageKind::Bmp => ::image::ImageFormat::Bmp,
        ImageKind::Tiff => ::image::ImageFormat::Tiff,
    };
    let img = match ::image::load_from_memory(data.as_slice()) {
        Ok(i) => i,
        Err(_) => return None,
    };
    let mut buffer = std::io::Cursor::new(Vec::new());
    img.write_to(&mut buffer, format).ok().map(|_| buffer.into_inner())
}

/// The string-valued tags read from the primary image IFD for the report.
#[derive(Debug, Clone, Copy, PartialEq, Eq, Structural)]
pub enum ExifStringTag {
    Make,
    Model,
    Software,
    DateTime,
    DateTimeOriginal,
    ExposureTime,
    FNumber,
    ISOSpeed,
}

/// The displayed text of one string tag in the primary IFD of the EXIF
/// block parsed from the bytes, if the block parses and the field exists; a
/// pure function of the bytes and the tag.
pub uninterp spec fn exif_tag_text(b: Seq<u8>, t: ExifStringTag) -> Option<Seq<char>>;

/// Whether the EXIF block parsed from the bytes holds a GPS latitude or
/// longitude field in the primary IFD; a pure function of the bytes.
pub uninterp spec fn exif_gps_present(b: Seq<u8>) -> bool;

/// The rational values of the GPS latitude (or, for `longitude`, the
/// longitude) field of the parsed EXIF block, as numerator/denominator
/// pairs, when present with rational values; a pure function of the bytes
/// and the axis.
pub uninterp spec fn exif_gps_rats(b: Seq<u8>, longitude: bool) -> Option<Seq<ExifRational>>;

/// The ASCII values of the GPS latitude (or longitude) reference field of
/// the parsed EXIF block, when present with ASCII values; a pure function of
/// the bytes and the axis.
pub uninterp spec fn exif_gps_refs(b: Seq<u8>, longitude: bool) -> Option<Seq<Seq<u8>>>;

/// The view of optional rational values.
pub open spec fn opt_rats_view(o: Option<Vec<ExifRational>>) -> Option<Seq<ExifRational>> {
    match o {
        Some(v) => Some(v@),
        None => None,
    }
}

/// The view of optional reference byte vectors.
pub open spec fn opt_refs_view(o: Option<Vec<Vec<u8>>>) -> Option<Seq<Seq<u8>>> {
    match o {
        Some(v) => Some(v.deep_view()),
        None => None,
    }
}

/// Relies on exif::Reader::read_from_container, exif::Exif::get_field and
/// exif::Field::display_value, chained: parses the EXIF block out of the
/// bytes and renders the tag's field of the primary IFD.
#[verifier::external_body]
fn exif_tag_text_of(data: &Vec<u8>, tag: &ExifStringTag) -> (r: Option<String>)
    ensures
        opt_str_view(r) == exif_tag_text(data@, *tag),
{
    let t = match tag {
        ExifStringTag::Make => exif::Tag::Make,
        ExifStringTag::Model => exif::Tag::Model,
        ExifStringTag::Software => exif::Tag::Software,
        ExifStringTag::DateTime => exif::Tag::DateTime,
        ExifStringTag::DateTimeOriginal => exif::Tag::DateTimeOriginal,
        ExifStringTag::ExposureTime => exif::Tag::ExposureTime,
        ExifStringTag::FNumber => exif::Tag::FNumber,
        ExifStringTag::ISOSpeed => exif::Tag::ISOSpeed,
    };
    let block = exif::Reader::new().read_from_container(
        &mut std::io::Cursor::new(data.as_slice()),
    ).ok()?;
    block.get_field(t, exif::In::PRIMARY).map(|f| f.display_value().to_string())
}

/// Relies on exif::Reader::read_from_container and exif::Exif::get_field,
/// chained: whether the parsed block holds a GPS latitude or longitude field
/// in the primary IFD.
#[verifier::external_body]
fn exif_gps_present_of(data: &Vec<u8>) -> (r: bool)
    ensures
        r == exif_gps_present(data@),
{
    match exif::Reader::new().read_from_container(&mut std::io::Cursor::new(data.as_slice())) {
        Ok(e) => e.get_field(exif::Tag::GPSLatitude, exif::In::PRIMARY).is_some() || e.get_field(
            exif::Tag::GPSLongitude,
            exif::In::PRIMARY,
        ).is_some(),
        Err(_) => false,
    }
}

/// Relies on exif::Reader::read_from_container and exif::Exif::get_field,
/// chained: the rational values of the parsed block's GPS latitude or
/// longitude field, as numerator/denominator pairs.
#[verifier::external_body]
fn exif_gps_rats_of(data: &Vec<u8>, longitude: bool) -> (r: Option<Vec<ExifRational>>)
    ensures
        opt_rats_view(r) == exif_gps_rats(data@, longitude),
{
    let tag = if longitude {
        exif::Tag::GPSLongitude
    } else {
        exif::Tag::GPSLatitude
    };
    let block = exif::Reader::new().read_from_container(
        &mut std::io::Cursor::new(data.as_slice()),
    ).ok()?;
    match &block.get_field(tag, exif::In::PRIMARY)?.value {
        exif::Value::Rational(v) => Some(
            v.iter().map(|q| ExifRational { num: q.num, denom: q.denom }).collect(),
        ),
        _ => None,
    }
}

/// Relies on exif::Reader::read_from_container and exif::Exif::get_field,
/// chained: the ASCII values of the parsed block's GPS latitude or longitude
/// reference field.
#[verifier::external_body]
fn exif_gps_refs_of(data: &Vec<u8>, longitude: bool) -> (r: Option<Vec<Vec<u8>>>)
    ensures
        opt_refs_view(r) == exif_gps_refs(data@, longitude),
{
    let tag = if longitude {
        exif::Tag::GPSLongitudeRef
    } else {
        exif::Tag::GPSLatitudeRef
    };
    let block = exif::Reader::new().read_from_container(
        &mut std::io::Cursor::new(data.as_slice()),
    ).ok()?;
    match &block.get_field(tag, exif::In::PRIMARY)?.value {
        exif::Value::Ascii(v) => Some(v.clone()),
        _ => None,
    }
}

/// The characters of the bytes when all are ASCII; the single default
/// character otherwise.
pub open spec fn spec_ascii_or_default(b: Seq<u8>, d: char) -> Seq<char> {
    if forall|i: int| 0 <= i < b.len() ==> b[i] < 128 {
        Seq::new(b.len(), |i: int| b[i] as char)
    } else {
        seq![d]
    }
}

/// Decodes the hemisphere reference bytes, falling back to the conventional
/// default letter when they are not ASCII.
fn ascii_or_default(bytes: &Vec<u8>, default: char) -> (s: String)
    ensures
        s@ == spec_ascii_or_default(bytes@, default),
{
    let mut v: Vec<char> = Vec::new();
    let mut i: usize = 0;
    while i < bytes.len()
        invariant
            0 <= i <= bytes@.len(),
            forall|j: int| 0 <= j < i ==> bytes@[j] < 128,
            v@ == Seq::new(i as nat, |j: int| bytes@[j] as char),
        decreases bytes@.len() - i,
    {
        let b = bytes[i];
        if b >= 128 {
            let mut w: Vec<char> = Vec::new();
            w.push(default);
            proof {
                assert(w@ =~= seq![default]);
                assert(!(forall|j: int| 0 <= j < bytes@.len() ==> bytes@[j] < 128));
            }
            return chars_to_string(&w);
        }
        v.push(b as char);
        i = i + 1;
        proof {
            assert(v@ =~= Seq::new(i as nat, |j: int| bytes@[j] as char));
        }
    }
    proof {
        assert(v@ =~= Seq::new(bytes@.len(), |j: int| bytes@[j] as char));
    }
    chars_to_string(&v)
}

/// How a parsed coordinate relates to the raw field values: accepted exactly
/// when at least three rationals with non-zero denominators and a reference
/// value exist, holding the first three rationals and the first reference
/// decoded by `spec_ascii_or_default`; unparsed (`None`) otherwise.
pub open spec fn spec_gps_coord_shape(
    c: Option<GpsCoordinate>,
    rats: Option<Seq<ExifRational>>,
    refs: Option<Seq<Seq<u8>>>,
    d: char,
) -> bool {
    match (rats, refs) {
        (Some(rv), Some(fv)) => {
            if rv.len() >= 3 && fv.len() >= 1 && rv[0].denom > 0 && rv[1].denom > 0 && rv[
                2
            ].denom > 0 {
                c matches Some(g) && g.degrees == rv[0] && g.minutes == rv[1] && g.seconds == rv[
                    2
                ] && g.reference@ == spec_ascii_or_default(fv[0], d)
            } else {
                c is None
            }
        },
        _ => c is None,
    }
}

/// Every modelled field holds exactly what the EXIF block parsed from `b`
/// holds, field by field, with the GPS coordinates gated on a GPS field
/// being present at all.
pub open spec fn exif_fields_match(f: ExifFields, b: Seq<u8>) -> bool {
    &&& opt_str_view(f.make) == exif_tag_text(b, ExifStringTag::Make)
    &&& opt_str_view(f.model) == exif_tag_text(b, ExifStringTag::Model)
    &&& opt_str_view(f.software) == exif_tag_text(b, ExifStringTag::Software)
    &&& opt_str_view(f.date_time) == exif_tag_text(b, ExifStringTag::DateTime)
    &&& opt_str_view(f.date_time_original) == exif_tag_text(b, ExifStringTag::DateTimeOriginal)
    &&& f.gps_present == exif_gps_present(b)
    &&& (if exif_gps_present(b) {
        spec_gps_coord_shape(f.gps_latitude, exif_gps_rats(b, false), exif_gps_refs(b, false), 'N')
            && spec_gps_coord_shape(
            f.gps_longitude,
            exif_gps_rats(b, true),
            exif_gps_refs(b, true),
            'E',
        )
    } else {
        f.gps_latitude is None && f.gps_longitude is None
    })
    &&& opt_str_view(f.exposure_time) == exif_tag_text(b, ExifStringTag::ExposureTime)
    &&& opt_str_view(f.f_number) == exif_tag_text(b, ExifStringTag::FNumber)
    &&& opt_str_view(f.iso_speed) == exif_tag_text(b, ExifStringTag::ISOSpeed)
}

/// Reads one GPS coordinate out of the bytes' EXIF block: the field must
/// hold at least three rationals with non-zero denominators, and the
/// reference field at least one value; otherwise the coordinate counts as
/// unparsed.
fn gps_coordinate_of(data: &Vec<u8>, longitude: bool) -> (r: Option<GpsCoordinate>)
    ensures
        r matches Some(c) ==> c.wf(),
        spec_gps_coord_shape(
            r,
            exif_gps_rats(data@, longitude),
            exif_gps_refs(data@, longitude),
            if longitude {
                'E'
            } else {
                'N'
            },
        ),
{
    let rats = exif_gps_rats_of(data, longitude);
    let refs = exif_gps_refs_of(data, longitude);
    match (rats, refs) {
        (Some(rv), Some(refv)) => {
            if rv.len() >= 3 && refv.len() >= 1 {
                let d = rv[0];
                let m = rv[1];
                let s = rv[2];
                proof {
                    assert(refv.deep_view()[0] == refv@[0]@);
                }
                if d.denom > 0 && m.denom > 0 && s.denom > 0 {
                    let reference = ascii_or_default(&refv[0], if longitude { 'E' } else { 'N' });
                    Some(GpsCoordinate { degrees: d, minutes: m, seconds: s, reference })
                } else {
                    None
                }
            } else {
                None
            }
        },
        _ => None,
    }
}

/// Reads all modelled fields out of the image bytes' EXIF block.
fn gather_exif_fields(data: &Vec<u8>) -> (f: ExifFields)
    ensures
        f.wf(),
        exif_fields_match(f, data@),
{
    let gps_present = exif_gps_present_of(data);
    let gps_latitude = if gps_present {
        gps_coordinate_of(data, false)
    } else {
        None
    };
    let gps_longitude = if gps_present {
        gps_coordinate_of(data, true)
    } else {
        None
    };
    ExifFields {
        make: exif_tag_text_of(data, &ExifStringTag::Make),
        model: exif_tag_text_of(data, &ExifStringTag::Model),
        software: exif_tag_text_of(data, &ExifStringTag::Software),
        date_time: exif_tag_text_of(data, &ExifStringTag::DateTime),
        date_time_original: exif_tag_text_of(data, &ExifStringTag::DateTimeOriginal),
        gps_present,
        gps_latitude,
        gps_longitude,
        exposure_time: exif_tag_text_of(data, &ExifStringTag::ExposureTime),
        f_number: exif_tag_text_of(data, &ExifStringTag::FNumber),
        iso_speed: exif_tag_text_of(data, &ExifStringTag::ISOSpeed),
    }
}

/// Attempts structured EXIF extraction on the raw image bytes: `None` when
/// the container holds no parseable EXIF block, otherwise the tag report,
/// which always holds at least one line.
pub fn extract_exif_metadata(data: &Vec<u8>) -> (r: Option<Vec<String>>)
    ensures
        r is Some <==> exif_parses(data@),
        r matches Some(v) ==> v@.len() >= 1 && (exists|f: ExifFields|
            f.wf() && exif_fields_match(f, data@) && v.deep_view() == spec_exif_report(f)),
{
    if parse_exif(data).is_none() {
        return None;
    }
    let fields = gather_exif_fields(data);
    let report = exif_report(&fields);
    proof {
        assert(fields.wf() && exif_fields_match(fields, data@) && report.deep_view()
            == spec_exif_report(fields));
    }
    Some(report)
}

/// The generic placeholder lines used when structured extraction fails
/// outright: stripping still succeeds with degraded reporting.
pub open spec fn spec_image_fallback() -> Seq<Seq<char>> {
    seq!["EXIF metadata (if present)"@, "GPS data (if present)"@, "Camera info (if present)"@]
}

fn image_fallback_items() -> (r: Vec<String>)
    ensures
        r.deep_view() == spec_image_fallback(),
        r@.len() == 3,
{
    let mut v: Vec<String> = Vec::new();
    v.push("EXIF metadata (if present)".to_owned());
    v.push("GPS data (if present)".to_owned());
    v.push("Camera info (if present)".to_owned());
    proof {
        assert(v.deep_view() =~= spec_image_fallback());
    }
    v
}

/// Strips an image's metadata: decodes the input bytes (the container is
/// sniffed from the content), extracts the EXIF report (or the generic
/// placeholders when extraction fails), and re-encodes the pixel buffer from
/// scratch in the format implied by the input path's extension alone, so the
/// output carries no source tag blocks. Fails with `DecodeError` when the
/// bytes do not decode, `UnsupportedFormat` when the extension is not one of
/// the five accepted ones, and `IoError` when the fresh encode fails.
pub fn strip_image_metadata(path: &str, data: &Vec<u8>) -> (r: Result<
    (Vec<u8>, Vec<String>),
    ProcessingError,
>)
    ensures
        (r matches Err(e) && e is DecodeError) <==> !image_decodes(data@),
        image_decodes(data@) ==> ((r matches Err(e) && e is UnsupportedFormat)
            <==> spec_image_kind(path@) is None),
        r is Ok ==> image_decodes(data@) && spec_image_kind(path@) is Some,
        image_decodes(data@) ==> (spec_image_kind(path@) matches Some(k) ==> (r is Ok
            <==> image_reencodes(data@, k))),
        image_decodes(data@) ==> (spec_image_kind(path@) matches Some(k) ==> ((r matches Err(e)
            && e is IoError) <==> !image_reencodes(data@, k))),
        r matches Ok(p) ==> (spec_image_kind(path@) matches Some(k) && p.0@ == image_reencoded(
            data@,
            k,
        )),
        r matches Ok(p) ==> p.1@.len() >= 1,
        r matches Ok(p) ==> (if exif_parses(data@) {
            exists|f: ExifFields|
                f.wf() && exif_fields_match(f, data@) && p.1.deep_view() == spec_exif_report(f)
        } else {
            p.1.deep_view() == spec_image_fallback()
        }),
{
    if decode_image(data).is_none() {
        return Err(ProcessingError::DecodeError);
    }
    let report = match extract_exif_metadata(data) {
        Some(items) => items,
        None => image_fallback_items(),
    };
    let kind = match image_kind_of(path) {
        Some(k) => k,
        None => {
            return Err(ProcessingError::UnsupportedFormat);
        },
    };
    match reencode_image(data, &kind) {
        Some(bytes) => Ok((bytes, report)),
        None => Err(ProcessingError::IoError("failed to encode the output image".to_owned())),
    }
}

} // verus!

