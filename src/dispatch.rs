//! Format classification results and the routing table that picks the
//! extractor for a file.
use vstd::prelude::*;

verus! {

/// The coarse category of a file as the format sniffer reports it.
/// `Unlisted` stands for every category that routing does not name.
#[derive(Debug, Clone, Copy, PartialEq, Eq, Structural)]
pub enum Kind {
    Document,
    Ebook,
    Image,
    Other,
    Presentation,
    Spreadsheet,
    Unlisted,
}

/// The formats that routing tells apart; `Unlisted` stands for all others.
#[derive(Debug, Clone, Copy, PartialEq, Eq, Structural)]
pub enum Format {
    Pdf,
    WordDocument,
    OoxmlDocument,
    OoxmlPresentation,
    OoxmlSpreadsheet,
    Html,
    Jpeg,
    Png,
    Webp,
    Tiff,
    Svg,
    RadianceHdr,
    Bitmap,
    Unlisted,
}

/// What the format sniffer found out about a file.
#[derive(Debug, Clone)]
pub struct Classification {
    pub kind: Kind,
    pub format: Format,
    /// The canonical extension of the sniffed format, used as the source
    /// format tag of a conversion.
    pub extension: String,
    /// The sniffed format's full name, used in informational results.
    pub name: String,
}

/// Where the source format tag of a conversion comes from.
#[derive(Debug, Clone, Copy, PartialEq, Eq, Structural)]
pub enum Source {
    Docx,
    Odt,
    /// The sniffed format's canonical extension.
    Sniffed,
}

/// A recognised combination that has no extractor.
#[derive(Debug, Clone, Copy, PartialEq, Eq, Structural)]
pub enum Gap {
    Ebook,
    ImageFormat,
    SpreadsheetFormat,
}

/// The extractor variant chosen for a file.
#[derive(Debug, Clone, Copy, PartialEq, Eq, Structural)]
pub enum Extractor {
    Conversion(Source),
    Spreadsheet,
    Pdf,
    Image,
    TextLines,
    Unsupported(Gap),
}

/// The text after the last dot of a path, or the whole path when it has
/// no dot.
pub open spec fn extension_of(path: Seq<char>) -> Seq<char>
    decreases path.len(),
{
    if path.len() == 0 {
        path
    } else if path.last() == '.' {
        Seq::empty()
    } else {
        extension_of(path.drop_last()).push(path.last())
    }
}

pub open spec fn is_spreadsheet_extension(ext: Seq<char>) -> bool {
    ext == "xlsx"@ || ext == "ods"@ || ext == "xls"@ || ext == "xlsm"@ || ext == "xlsb"@ || ext
        == "xla"@ || ext == "xlam"@
}

pub open spec fn is_raster_or_vector(f: Format) -> bool {
    f == Format::Jpeg || f == Format::Png || f == Format::Webp || f == Format::Tiff || f
        == Format::Svg || f == Format::RadianceHdr || f == Format::Bitmap
}

/// The routing table: extension shortcuts first, then the sniffed kind and
/// format.
pub open spec fn route(ext: Seq<char>, kind: Kind, format: Format) -> Extractor {
    if ext == "docx"@ {
        Extractor::Conversion(Source::Docx)
    } else if ext == "odt"@ {
        Extractor::Conversion(Source::Odt)
    } else if is_spreadsheet_extension(ext) {
        Extractor::Spreadsheet
    } else {
        match kind {
            Kind::Document => if format == Format::Pdf {
                Extractor::Pdf
            } else if format == Format::WordDocument {
                Extractor::Conversion(Source::Docx)
            } else if format == Format::OoxmlDocument {
                Extractor::Conversion(Source::Sniffed)
            } else {
                Extractor::TextLines
            },
            Kind::Ebook => Extractor::Unsupported(Gap::Ebook),
            Kind::Image => if is_raster_or_vector(format) {
                Extractor::Image
            } else {
                Extractor::Unsupported(Gap::ImageFormat)
            },
            Kind::Other => if format == Format::Html {
                Extractor::Conversion(Source::Sniffed)
            } else {
                Extractor::TextLines
            },
            Kind::Presentation => if format == Format::OoxmlPresentation {
                Extractor::Conversion(Source::Sniffed)
            } else {
                Extractor::TextLines
            },
            Kind::Spreadsheet => if format == Format::OoxmlSpreadsheet {
                Extractor::Spreadsheet
            } else {
                Extractor::Unsupported(Gap::SpreadsheetFormat)
            },
            Kind::Unlisted => Extractor::TextLines,
        }
    }
}

/// The text after the last dot of `path`, or all of `path` when it has no dot.
pub fn extension(path: &str) -> (r: String)
    ensures
        r@ == extension_of(path@),
{
    let n = path.unicode_len();
    let mut start: usize = 0;
    let mut i: usize = 0;
    while i < n
        invariant
            n == path@.len(),
            start <= i <= n,
            extension_of(path@.subrange(0, i as int)) == path@.subrange(start as int, i as int),
        decreases n - i,
    {
        let c = path.get_char(i);
        proof {
            let pre = path@.subrange(0, i as int);
            let next = path@.subrange(0, i + 1);
            assert(next.drop_last() =~= pre);
            assert(next.last() == c);
            if c != '.' {
                assert(path@.subrange(start as int, i + 1) =~= path@.subrange(
                    start as int,
                    i as int,
                ).push(c));
            }
        }
        i = i + 1;
        if c == '.' {
            start = i;
        }
    }
    assert(path@.subrange(0, n as int) =~= path@);
    path.substring_char(start, n).to_owned()
}

fn is_text(ext: &String, lit: &str) -> (r: bool)
    ensures
        r == (ext@ == lit@),
{
    let l = lit.to_owned();
    *ext == l
}

fn is_spreadsheet_ext(ext: &String) -> (r: bool)
    ensures
        r == is_spreadsheet_extension(ext@),
{
    is_text(ext, "xlsx") || is_text(ext, "ods") || is_text(ext, "xls") || is_text(ext, "xlsm")
        || is_text(ext, "xlsb") || is_text(ext, "xla") || is_text(ext, "xlam")
}

/// Picks the extractor for a file from its path and its classification.
pub fn select_extractor(c: &Classification, path: &str) -> (r: Extractor)
    ensures
        r == route(extension_of(path@), c.kind, c.format),
{
    let ext = extension(path);
    if is_text(&ext, "docx") {
        return Extractor::Conversion(Source::Docx);
    }
    if is_text(&ext, "odt") {
        return Extractor::Conversion(Source::Odt);
    }
    if is_spreadsheet_ext(&ext) {
        return Extractor::Spreadsheet;
    }
    match c.kind {
        Kind::Document => match c.format {
            Format::Pdf => Extractor::Pdf,
            Format::WordDocument => Extractor::Conversion(Source::Docx),
            Format::OoxmlDocument => Extractor::Conversion(Source::Sniffed),
            _ => Extractor::TextLines,
        },
        Kind::Ebook => Extractor::Unsupported(Gap::Ebook),
        Kind::Image => match c.format {
            Format::Jpeg | Format::Png | Format::Webp | Format::Tiff | Format::Svg
            | Format::RadianceHdr | Format::Bitmap => Extractor::Image,
            _ => Extractor::Unsupported(Gap::ImageFormat),
        },
        Kind::Other => match c.format {
            Format::Html => Extractor::Conversion(Source::Sniffed),
            _ => Extractor::TextLines,
        },
        Kind::Presentation => match c.format {
            Format::OoxmlPresentation => Extractor::Conversion(Source::Sniffed),
            _ => Extractor::TextLines,
        },
        Kind::Spreadsheet => match c.format {
            Format::OoxmlSpreadsheet => Extractor::Spreadsheet,
            _ => Extractor::Unsupported(Gap::SpreadsheetFormat),
        },
        Kind::Unlisted => Extractor::TextLines,
    }
}

/// Routing is total and falls back safely: for a path whose extension is no
/// shortcut and a format that the table does not name, the chosen extractor
/// is the plain line reader or an explicit unsupported marker.
pub proof fn lemma_unlisted_format_falls_back(ext: Seq<char>, kind: Kind)
    requires
        ext != "docx"@,
        ext != "odt"@,
        !is_spreadsheet_extension(ext),
    ensures
        route(ext, kind, Format::Unlisted) is TextLines || route(ext, kind, Format::Unlisted) is Unsupported,
        route(ext, Kind::Unlisted, Format::Unlisted) == Extractor::TextLines,
{
}

/// A shortcut extension decides the extractor whatever the sniffer said.
pub proof fn lemma_shortcut_extension_wins(ext: Seq<char>, k1: Kind, f1: Format, k2: Kind, f2: Format)
    requires
        ext == "docx"@ || ext == "odt"@ || is_spreadsheet_extension(ext),
    ensures
        route(ext, k1, f1) == route(ext, k2, f2),
{
}

} // verus!
