//! The decisions of an extraction call: the existence check comes first,
//! then classification, then the choice of extractor.
use vstd::prelude::*;

use crate::chunk::{ErrorView, ExtractError};
use crate::dispatch::{extension_of, route, select_extractor, Classification, Extractor, Gap};

verus! {

/// What an extraction call does next.
#[derive(Debug)]
pub enum Step {
    /// Run the format sniffer on the file.
    Classify,
    /// Run this extractor.
    Run(Extractor),
    /// End the call with this error.
    Fail(ExtractError),
}

/// The next step of an extraction call for `path`, given whether the path
/// exists and, once it has run, what classification gave.
pub fn next_step(path: &str, exists: bool, classified: Option<Result<Classification, String>>) -> (r: Step)
    ensures
        !exists ==> r is Fail && r->Fail_0@ == ErrorView::NotFound,
        exists && classified is None ==> r is Classify,
        exists && classified is Some && classified->Some_0 is Err ==> r is Fail && r->Fail_0@
            == (ErrorView::Classification { message: classified->Some_0->Err_0@ }),
        exists && classified is Some && classified->Some_0 is Ok ==> r == Step::Run(
            route(
                extension_of(path@),
                classified->Some_0->Ok_0.kind,
                classified->Some_0->Ok_0.format,
            ),
        ),
{
    if !exists {
        return Step::Fail(ExtractError::NotFound);
    }
    match classified {
        None => Step::Classify,
        Some(Err(message)) => Step::Fail(ExtractError::Classification { message }),
        Some(Ok(c)) => Step::Run(select_extractor(&c, path)),
    }
}

/// The informational text for a recognised combination without extractor.
pub open spec fn gap_text(gap: Gap, name: Seq<char>) -> Seq<char> {
    match gap {
        Gap::Ebook => "Ebooks are not supported yet: '"@ + name + "'"@,
        Gap::ImageFormat => "Images of type '"@ + name + "' are not supported"@,
        Gap::SpreadsheetFormat => "Spreadsheets of type '"@ + name + "' are not implemented yet"@,
    }
}

/// The informational result of a recognised combination without extractor.
pub fn unsupported(gap: Gap, c: &Classification) -> (r: ExtractError)
    ensures
        r@ == (ErrorView::Unsupported { message: gap_text(gap, c.name@) }),
{
    let mut message = String::new();
    match gap {
        Gap::Ebook => {
            message.append("Ebooks are not supported yet: '");
            message.append(c.name.as_str());
            message.append("'");
        },
        Gap::ImageFormat => {
            message.append("Images of type '");
            message.append(c.name.as_str());
            message.append("' are not supported");
        },
        Gap::SpreadsheetFormat => {
            message.append("Spreadsheets of type '");
            message.append(c.name.as_str());
            message.append("' are not implemented yet");
        },
    }
    assert(message@ =~= gap_text(gap, c.name@));
    ExtractError::Unsupported { message }
}

} // verus!
