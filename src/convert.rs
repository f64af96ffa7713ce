//! Conversion of word-processor, presentation and web documents to
//! Markdown by an outside converter: its arguments and what its outcome
//! becomes.
use vstd::prelude::*;

use crate::chunk::{Chunk, ChunkView, ErrorView, ExtractError, MetaView, Metadata};
use crate::dispatch::{Classification, Source};

verus! {

/// The source format tag handed to the converter.
pub open spec fn source_tag_of(source: Source, sniffed_extension: Seq<char>) -> Seq<char> {
    match source {
        Source::Docx => "docx"@,
        Source::Odt => "odt"@,
        Source::Sniffed => sniffed_extension,
    }
}

/// The converter's arguments: the path, then the source and target format.
pub open spec fn conversion_args_of(path: Seq<char>, from: Seq<char>) -> Seq<Seq<char>> {
    seq![path, "-f"@, from, "-t"@, "markdown"@]
}

/// The source format tag of a conversion.
pub fn source_tag(source: Source, c: &Classification) -> (r: String)
    ensures
        r@ == source_tag_of(source, c.extension@),
{
    match source {
        Source::Docx => "docx".to_owned(),
        Source::Odt => "odt".to_owned(),
        Source::Sniffed => c.extension.clone(),
    }
}

/// The converter's command-line arguments for a file and a source format.
pub fn conversion_args(path: &str, from: &str) -> (r: Vec<String>)
    ensures
        r@.len() == 5,
        forall|i: int| 0 <= i < 5 ==> #[trigger] r@[i]@ == conversion_args_of(path@, from@)[i],
{
    let mut args: Vec<String> = Vec::new();
    args.push(path.to_owned());
    args.push("-f".to_owned());
    args.push(from.to_owned());
    args.push("-t".to_owned());
    args.push("markdown".to_owned());
    args
}

/// What a finished conversion gives: on success its whole output as one
/// document chunk; on failure the converter's diagnostics. `output` is
/// `None` when the output was not valid UTF-8.
pub fn conversion_outcome(success: bool, output: Option<String>, stderr: String) -> (r: Result<
    Chunk,
    ExtractError,
>)
    ensures
        !success ==> r is Err && r->Err_0@ == (ErrorView::Conversion { stderr: stderr@ }),
        success && output is Some ==> r is Ok && r->Ok_0@ == (ChunkView {
            content: output->Some_0@,
            meta: MetaView::Document,
        }),
        success && output is None ==> r is Err && r->Err_0@ == (ErrorView::Io {
            message: "The converter's output is not valid UTF-8"@,
        }),
{
    if !success {
        Err(ExtractError::Conversion { stderr })
    } else {
        match output {
            Some(content) => Ok(Chunk { content, metadata: Metadata::Document }),
            None => Err(
                ExtractError::Io { message: "The converter's output is not valid UTF-8".to_owned() },
            ),
        }
    }
}

} // verus!
