use base64::Engine;
use file_extract::chunk::{ExtractError, Metadata};
use file_extract::convert::{conversion_args, conversion_outcome, source_tag};
use file_extract::dispatch::{extension, select_extractor, Classification, Extractor, Format, Gap, Kind, Source};
use file_extract::image::{fits_base64, image_chunk};
use file_extract::numtext::{i64_text, u64_text};
use file_extract::pdf::{page_item, pdf_items, pdf_text};
use file_extract::pipeline::{next_step, unsupported, Step};
use file_extract::sheet::{cell_text, row_text, sheet_items, workbook_items, workbook_text, Cell, DateTime, Sheet};
use file_extract::text::{number_lines, text_chunks};

fn class(kind: Kind, format: Format, extension: &str, name: &str) -> Classification {
    Classification { kind, format, extension: extension.to_string(), name: name.to_string() }
}

fn text(s: &str) -> Cell {
    Cell::Text(s.to_string())
}

fn sales_sheet() -> Sheet {
    Sheet {
        name: "Sales".to_string(),
        rows: Ok(vec![
            vec![text("Region"), text("Units"), text("Paid")],
            vec![text(" North "), Cell::Int(12), Cell::Bool(true)],
            vec![text("South"), Cell::Float("3.5".to_string()), Cell::Empty],
        ]),
    }
}

#[test]
fn text_lines_are_numbered_from_one() {
    let chunks = text_chunks("alpha\n\nbeta\ngamma");
    assert_eq!(chunks.len(), 4);
    let contents: Vec<&str> = chunks.iter().map(|c| c.content.as_str()).collect();
    assert_eq!(contents, vec!["alpha", "", "beta", "gamma"]);
    for (i, c) in chunks.iter().enumerate() {
        assert!(matches!(c.metadata, Metadata::Text { line_number } if line_number == i + 1));
    }
}

#[test]
fn text_trailing_newline_adds_no_line() {
    assert_eq!(text_chunks("one\ntwo\n").len(), 2);
    assert_eq!(text_chunks("").len(), 0);
    assert_eq!(text_chunks("\n").len(), 1);
}

#[test]
fn text_crlf_terminators_are_removed() {
    let chunks = text_chunks("a\r\nb\r\n");
    let contents: Vec<&str> = chunks.iter().map(|c| c.content.as_str()).collect();
    assert_eq!(contents, vec!["a", "b"]);
}

#[test]
fn text_round_trip_rebuilds_the_file() {
    let original = "first line\nsecond\n\nlast\n";
    let rebuilt: String = text_chunks(original).iter().map(|c| format!("{}\n", c.content)).collect();
    assert_eq!(rebuilt, original);
}

#[test]
fn number_lines_counts_blank_lines() {
    let chunks = number_lines(vec!["x".to_string(), "".to_string(), "y".to_string()]);
    assert!(matches!(chunks[2].metadata, Metadata::Text { line_number: 3 }));
    assert_eq!(chunks[1].content, "");
}

#[test]
fn cell_texts_follow_the_policy() {
    assert_eq!(cell_text(&Cell::Empty), "");
    assert_eq!(cell_text(&text("  padded\t")), "padded");
    assert_eq!(cell_text(&Cell::Int(-42)), "-42");
    assert_eq!(cell_text(&Cell::Int(i64::MIN)), "-9223372036854775808");
    assert_eq!(cell_text(&Cell::Float("0.25".to_string())), "0.25");
    assert_eq!(cell_text(&Cell::Bool(false)), "false");
    assert_eq!(cell_text(&Cell::Other), "");
    let d = DateTime { year: 2024, month: 3, day: 7, hour: 9, minute: 5, second: 0 };
    assert_eq!(cell_text(&Cell::DateTime(d)), "07.03.2024 09:05:00");
    let early = DateTime { year: 900, month: 12, day: 31, hour: 23, minute: 59, second: 59 };
    assert_eq!(cell_text(&Cell::DateTime(early)), "31.12.0900 23:59:59");
}

#[test]
fn row_cells_are_joined_with_commas() {
    assert_eq!(row_text(&vec![text("a"), Cell::Empty, Cell::Int(7)]), "a,,7");
    assert_eq!(row_text(&vec![]), "");
    assert_eq!(row_text(&vec![text(" only ")]), "only");
}

#[test]
fn report_sheet_whole_file_text() {
    let out = workbook_text(&vec![sales_sheet()]);
    assert_eq!(out, "Sales:\nRegion,Units,Paid\nNorth,12,true\nSouth,3.5,\n");
}

#[test]
fn report_sheet_streams_three_tagged_rows() {
    let items = sheet_items(&sales_sheet());
    assert_eq!(items.len(), 3);
    for (i, item) in items.iter().enumerate() {
        let chunk = item.as_ref().unwrap();
        match &chunk.metadata {
            Metadata::Spreadsheet { sheet_name, row_number } => {
                assert_eq!(sheet_name, "Sales");
                assert_eq!(*row_number, i + 1);
            }
            other => panic!("unexpected metadata {:?}", other),
        }
    }
    assert_eq!(items[1].as_ref().unwrap().content, "North,12,true");
}

#[test]
fn report_extension_selects_spreadsheet() {
    let c = class(Kind::Other, Format::Unlisted, "zip", "ZIP");
    assert_eq!(select_extractor(&c, "report.xlsx"), Extractor::Spreadsheet);
}

#[test]
fn workbook_sheets_in_order_with_row_numbers() {
    let second = Sheet {
        name: "Costs".to_string(),
        rows: Ok(vec![vec![Cell::Int(1)], vec![Cell::Int(2)]]),
    };
    let items = workbook_items(&vec![sales_sheet(), second]);
    assert_eq!(items.len(), 5);
    let tags: Vec<(String, usize)> = items
        .iter()
        .map(|i| match &i.as_ref().unwrap().metadata {
            Metadata::Spreadsheet { sheet_name, row_number } => (sheet_name.clone(), *row_number),
            other => panic!("unexpected metadata {:?}", other),
        })
        .collect();
    let expected = vec![("Sales", 1), ("Sales", 2), ("Sales", 3), ("Costs", 1), ("Costs", 2)];
    let expected: Vec<(String, usize)> = expected.into_iter().map(|(s, n)| (s.to_string(), n)).collect();
    assert_eq!(tags, expected);
}

#[test]
fn unreadable_sheet_is_an_in_band_error() {
    let bad = Sheet { name: "Broken".to_string(), rows: Err("bad range".to_string()) };
    let items = workbook_items(&vec![bad, sales_sheet()]);
    assert_eq!(items.len(), 4);
    match &items[0] {
        Err(ExtractError::Sheet { sheet_name, message }) => {
            assert_eq!(sheet_name, "Broken");
            assert_eq!(message, "bad range");
        }
        other => panic!("unexpected item {:?}", other),
    }
    assert!(items[1].is_ok());
    let bad = Sheet { name: "Broken".to_string(), rows: Err("bad range".to_string()) };
    assert_eq!(
        workbook_text(&vec![bad]),
        "The sheet 'Broken' could not be read: bad range\n"
    );
}

#[test]
fn pdf_pages_numbered_despite_failures() {
    let pages = vec![Ok("one".to_string()), Err("no text layer".to_string()), Ok("three".to_string())];
    let items = pdf_items(&pages);
    assert_eq!(items.len(), 3);
    assert!(matches!(&items[0], Ok(c) if matches!(c.metadata, Metadata::Pdf { page_number: 1 }) && c.content == "one"));
    assert!(matches!(&items[1], Err(ExtractError::Page { page_number: 2, .. })));
    assert!(matches!(&items[2], Ok(c) if matches!(c.metadata, Metadata::Pdf { page_number: 3 })));
    assert_eq!(
        pdf_text(&pages),
        "oneThe text of page 2 could not be extracted: no text layer\nthree"
    );
}

#[test]
fn page_item_numbers_from_one() {
    let item = page_item(0, Ok("p".to_string()));
    assert!(matches!(item, Ok(c) if matches!(c.metadata, Metadata::Pdf { page_number: 1 })));
}

#[test]
fn notes_docx_selects_conversion_whatever_sniffed() {
    for (kind, format) in [
        (Kind::Other, Format::Unlisted),
        (Kind::Document, Format::Pdf),
        (Kind::Image, Format::Png),
        (Kind::Unlisted, Format::Unlisted),
    ] {
        let c = class(kind, format, "zip", "ZIP");
        assert_eq!(select_extractor(&c, "notes.docx"), Extractor::Conversion(Source::Docx));
    }
    let c = class(Kind::Other, Format::Unlisted, "zip", "ZIP");
    assert_eq!(source_tag(Source::Docx, &c), "docx");
    assert_eq!(conversion_args("notes.docx", "docx"), vec!["notes.docx", "-f", "docx", "-t", "markdown"]);
    let out = conversion_outcome(true, Some("# Notes\n".to_string()), String::new()).unwrap();
    assert_eq!(out.content, "# Notes\n");
    assert!(matches!(out.metadata, Metadata::Document));
}

#[test]
fn failed_conversion_carries_stderr() {
    let r = conversion_outcome(false, Some(String::new()), "unknown format".to_string());
    match r {
        Err(ExtractError::Conversion { stderr }) => assert_eq!(stderr, "unknown format"),
        other => panic!("unexpected {:?}", other),
    }
    assert!(matches!(conversion_outcome(true, None, String::new()), Err(ExtractError::Io { .. })));
}

#[test]
fn sniffed_source_tag_uses_format_extension() {
    let c = class(Kind::Presentation, Format::OoxmlPresentation, "pptx", "Office Open XML Presentation");
    assert_eq!(select_extractor(&c, "deck.bin"), Extractor::Conversion(Source::Sniffed));
    assert_eq!(source_tag(Source::Sniffed, &c), "pptx");
}

#[test]
fn photo_jpg_round_trips_through_base64() {
    let bytes: Vec<u8> = vec![0xff, 0xd8, 0xff, 0xe0, 0x00, 0x10, b'J', b'F', b'I', b'F', 0x00];
    let c = class(Kind::Image, Format::Jpeg, "jpg", "JPEG");
    assert_eq!(select_extractor(&c, "photo.jpg"), Extractor::Image);
    assert!(fits_base64(bytes.len()));
    let chunk = image_chunk(&bytes);
    assert!(matches!(chunk.metadata, Metadata::Image));
    let decoded = base64::engine::general_purpose::STANDARD.decode(chunk.content.as_bytes()).unwrap();
    assert_eq!(decoded, bytes);
}

#[test]
fn base64_of_known_bytes() {
    assert_eq!(image_chunk(&b"Man".to_vec()).content, "TWFu");
    assert_eq!(image_chunk(&b"Ma".to_vec()).content, "TWE=");
    assert_eq!(image_chunk(&Vec::new()).content, "");
}

#[test]
fn missing_path_fails_before_classification() {
    match next_step("does/not/exist.txt", false, None) {
        Step::Fail(ExtractError::NotFound) => {}
        other => panic!("unexpected {:?}", other),
    }
    assert_eq!(ExtractError::NotFound.message(), "File does not exist.");
}

#[test]
fn pipeline_steps_in_order() {
    assert!(matches!(next_step("a.txt", true, None), Step::Classify));
    let failed = next_step("a.txt", true, Some(Err("corrupt header".to_string())));
    assert!(matches!(failed, Step::Fail(ExtractError::Classification { .. })));
    let c = class(Kind::Document, Format::Pdf, "pdf", "Portable Document Format");
    assert!(matches!(next_step("a.pdf", true, Some(Ok(c))), Step::Run(Extractor::Pdf)));
}

#[test]
fn dispatch_table_cases() {
    let cases = [
        (Kind::Document, Format::WordDocument, Extractor::Conversion(Source::Docx)),
        (Kind::Document, Format::OoxmlDocument, Extractor::Conversion(Source::Sniffed)),
        (Kind::Document, Format::Unlisted, Extractor::TextLines),
        (Kind::Ebook, Format::Unlisted, Extractor::Unsupported(Gap::Ebook)),
        (Kind::Image, Format::Bitmap, Extractor::Image),
        (Kind::Image, Format::Unlisted, Extractor::Unsupported(Gap::ImageFormat)),
        (Kind::Other, Format::Html, Extractor::Conversion(Source::Sniffed)),
        (Kind::Other, Format::Unlisted, Extractor::TextLines),
        (Kind::Presentation, Format::Unlisted, Extractor::TextLines),
        (Kind::Spreadsheet, Format::OoxmlSpreadsheet, Extractor::Spreadsheet),
        (Kind::Spreadsheet, Format::Unlisted, Extractor::Unsupported(Gap::SpreadsheetFormat)),
        (Kind::Unlisted, Format::Pdf, Extractor::TextLines),
    ];
    for (kind, format, expected) in cases {
        let c = class(kind, format, "x", "X");
        assert_eq!(select_extractor(&c, "file.bin"), expected);
    }
    let c = class(Kind::Other, Format::Unlisted, "x", "X");
    assert_eq!(select_extractor(&c, "sheet.ods"), Extractor::Spreadsheet);
    assert_eq!(select_extractor(&c, "letter.odt"), Extractor::Conversion(Source::Odt));
    assert_eq!(select_extractor(&c, "README"), Extractor::TextLines);
}

#[test]
fn extension_is_text_after_last_dot() {
    assert_eq!(extension("archive.tar.gz"), "gz");
    assert_eq!(extension("README"), "README");
    assert_eq!(extension("dir.d/file."), "");
}

#[test]
fn unsupported_messages_name_the_format() {
    let c = class(Kind::Image, Format::Unlisted, "gif", "Graphics Interchange Format");
    let e = unsupported(Gap::ImageFormat, &c);
    assert_eq!(e.message(), "Images of type 'Graphics Interchange Format' are not supported");
    let c = class(Kind::Ebook, Format::Unlisted, "epub", "EPUB");
    assert_eq!(unsupported(Gap::Ebook, &c).message(), "Ebooks are not supported yet: 'EPUB'");
}

#[test]
fn labels_and_numbers() {
    assert_eq!(Metadata::Text { line_number: 12 }.label(), "Line 12");
    assert_eq!(Metadata::Pdf { page_number: 3 }.label(), "Page 3");
    let m = Metadata::Spreadsheet { sheet_name: "S".to_string(), row_number: 40 };
    assert_eq!(m.label(), "Sheet 'S' Row 40");
    assert_eq!(Metadata::Document.label(), "Full document");
    assert_eq!(Metadata::Image.label(), "Image data");
    assert_eq!(u64_text(0), "0");
    assert_eq!(u64_text(u64::MAX), "18446744073709551615");
    assert_eq!(i64_text(-7), "-7");
}
