//! Chunks of extracted content, their provenance labels and the errors of
//! an extraction.
use vstd::prelude::*;

use crate::numtext::{decimal, push_decimal};

verus! {

/// Where a chunk came from within its source.
#[derive(Debug)]
pub enum Metadata {
    Text { line_number: usize },
    Pdf { page_number: usize },
    Spreadsheet { sheet_name: String, row_number: usize },
    Document,
    Image,
}

/// One unit of extracted content together with its provenance.
#[derive(Debug)]
pub struct Chunk {
    pub content: String,
    pub metadata: Metadata,
}

/// The mathematical value of a [`Metadata`].
pub enum MetaView {
    Text { line: nat },
    Pdf { page: nat },
    Spreadsheet { sheet: Seq<char>, row: nat },
    Document,
    Image,
}

pub struct ChunkView {
    pub content: Seq<char>,
    pub meta: MetaView,
}

impl View for Metadata {
    type V = MetaView;

    open spec fn view(&self) -> MetaView {
        match self {
            Metadata::Text { line_number } => MetaView::Text { line: *line_number as nat },
            Metadata::Pdf { page_number } => MetaView::Pdf { page: *page_number as nat },
            Metadata::Spreadsheet { sheet_name, row_number } => MetaView::Spreadsheet {
                sheet: sheet_name@,
                row: *row_number as nat,
            },
            Metadata::Document => MetaView::Document,
            Metadata::Image => MetaView::Image,
        }
    }
}

impl View for Chunk {
    type V = ChunkView;

    open spec fn view(&self) -> ChunkView {
        ChunkView { content: self.content@, meta: self.metadata@ }
    }
}

/// The ways in which an extraction, or one unit of it, can fail.
///
/// `Sheet` and `Page` concern a single unit and travel inside a stream of
/// results without ending it; `Unsupported` is informational; the others
/// end the extraction.
#[derive(Debug)]
pub enum ExtractError {
    NotFound,
    Classification { message: String },
    Open { message: String },
    Conversion { stderr: String },
    Sheet { sheet_name: String, message: String },
    Page { page_number: usize, message: String },
    Unsupported { message: String },
    Io { message: String },
}

pub enum ErrorView {
    NotFound,
    Classification { message: Seq<char> },
    Open { message: Seq<char> },
    Conversion { stderr: Seq<char> },
    Sheet { sheet: Seq<char>, message: Seq<char> },
    Page { page: nat, message: Seq<char> },
    Unsupported { message: Seq<char> },
    Io { message: Seq<char> },
}

impl View for ExtractError {
    type V = ErrorView;

    open spec fn view(&self) -> ErrorView {
        match self {
            ExtractError::NotFound => ErrorView::NotFound,
            ExtractError::Classification { message } => ErrorView::Classification {
                message: message@,
            },
            ExtractError::Open { message } => ErrorView::Open { message: message@ },
            ExtractError::Conversion { stderr } => ErrorView::Conversion { stderr: stderr@ },
            ExtractError::Sheet { sheet_name, message } => ErrorView::Sheet {
                sheet: sheet_name@,
                message: message@,
            },
            ExtractError::Page { page_number, message } => ErrorView::Page {
                page: *page_number as nat,
                message: message@,
            },
            ExtractError::Unsupported { message } => ErrorView::Unsupported { message: message@ },
            ExtractError::Io { message } => ErrorView::Io { message: message@ },
        }
    }
}

/// One element of a chunk stream: a chunk, or an error in its place.
pub type Item = Result<Chunk, ExtractError>;

pub open spec fn item_view(item: Item) -> Result<ChunkView, ErrorView> {
    match item {
        Ok(c) => Ok(c@),
        Err(e) => Err(e@),
    }
}

pub open spec fn items_view(items: Seq<Item>) -> Seq<Result<ChunkView, ErrorView>> {
    items.map_values(|i: Item| item_view(i))
}

/// The human-readable position label of a chunk.
pub open spec fn label_of(m: MetaView) -> Seq<char> {
    match m {
        MetaView::Text { line } => "Line "@ + decimal(line),
        MetaView::Pdf { page } => "Page "@ + decimal(page),
        MetaView::Spreadsheet { sheet, row } => "Sheet '"@ + sheet + "' Row "@ + decimal(row),
        MetaView::Document => "Full document"@,
        MetaView::Image => "Image data"@,
    }
}

/// The plain diagnostic text of an error.
pub open spec fn error_text(e: ErrorView) -> Seq<char> {
    match e {
        ErrorView::NotFound => "File does not exist."@,
        ErrorView::Classification { message } => "Cannot determine the file format: "@ + message,
        ErrorView::Open { message } => "Cannot open the file: "@ + message,
        ErrorView::Conversion { stderr } => "Document conversion failed: "@ + stderr,
        ErrorView::Sheet { sheet, message } => "The sheet '"@ + sheet + "' could not be read: "@
            + message,
        ErrorView::Page { page, message } => "The text of page "@ + decimal(page)
            + " could not be extracted: "@ + message,
        ErrorView::Unsupported { message } => message,
        ErrorView::Io { message } => message,
    }
}

impl Metadata {
    /// The label that introduces a chunk of this provenance.
    pub fn label(&self) -> (r: String)
        ensures
            r@ == label_of(self@),
    {
        let mut out = String::new();
        match self {
            Metadata::Text { line_number } => {
                out.append("Line ");
                push_decimal(&mut out, *line_number as u64);
            },
            Metadata::Pdf { page_number } => {
                out.append("Page ");
                push_decimal(&mut out, *page_number as u64);
            },
            Metadata::Spreadsheet { sheet_name, row_number } => {
                out.append("Sheet '");
                out.append(sheet_name.as_str());
                out.append("' Row ");
                push_decimal(&mut out, *row_number as u64);
            },
            Metadata::Document => {
                out.append("Full document");
            },
            Metadata::Image => {
                out.append("Image data");
            },
        }
        assert(out@ =~= label_of(self@));
        out
    }
}

impl ExtractError {
    /// The plain diagnostic text of this error.
    pub fn message(&self) -> (r: String)
        ensures
            r@ == error_text(self@),
    {
        let mut out = String::new();
        match self {
            ExtractError::NotFound => {
                out.append("File does not exist.");
            },
            ExtractError::Classification { message } => {
                out.append("Cannot determine the file format: ");
                out.append(message.as_str());
            },
            ExtractError::Open { message } => {
                out.append("Cannot open the file: ");
                out.append(message.as_str());
            },
            ExtractError::Conversion { stderr } => {
                out.append("Document conversion failed: ");
                out.append(stderr.as_str());
            },
            ExtractError::Sheet { sheet_name, message } => {
                out.append("The sheet '");
                out.append(sheet_name.as_str());
                out.append("' could not be read: ");
                out.append(message.as_str());
            },
            ExtractError::Page { page_number, message } => {
                out.append("The text of page ");
                push_decimal(&mut out, *page_number as u64);
                out.append(" could not be extracted: ");
                out.append(message.as_str());
            },
            ExtractError::Unsupported { message } => {
                out.append(message.as_str());
            },
            ExtractError::Io { message } => {
                out.append(message.as_str());
            },
        }
        assert(out@ =~= error_text(self@));
        out
    }
}

} // verus!
