//! Finding one named custom section in a WebAssembly binary.
//!
//! The binary is walked piece by piece with `wasmparser`'s incremental parser.
//! The parser is trusted; the walk itself, and what it reports, is verified.

use crate::text::same_text;
use vstd::prelude::*;
use vstd::slice::slice_subrange;

verus! {

/// `wasmparser::Parser`: the incremental parser. Nothing is seen of it but
/// through `parser_taken`.
#[verifier::external_type_specification]
#[verifier::external_body]
pub struct ExParser(wasmparser::Parser);

/// `wasmparser::BinaryReaderError`: why the parser refused. It is only told
/// apart from an answer.
#[verifier::external_type_specification]
#[verifier::external_body]
pub struct ExBinaryReaderError(wasmparser::BinaryReaderError);

/// One answer of the parser, as far as the search reads it.
#[derive(Clone, Debug, PartialEq, Eq)]
pub enum Step {
    /// The parser wants more bytes than it was given.
    Starved,
    /// The next `consumed` bytes are a custom section with this name and
    /// these contents.
    Custom { consumed: usize, name: String, data: Vec<u8> },
    /// The next `consumed` bytes are the header, or a section that is not a
    /// custom one.
    Other { consumed: usize },
    /// The module ends here.
    End,
}

/// A `Step` as a mathematical value.
pub enum StepView {
    Starved,
    Custom { consumed: nat, name: Seq<char>, data: Seq<u8> },
    Other { consumed: nat },
    End,
}

impl View for Step {
    type V = StepView;

    open spec fn view(&self) -> StepView {
        match *self {
            Step::Starved => StepView::Starved,
            Step::Custom { consumed, name, data } => StepView::Custom {
                consumed: consumed as nat,
                name: name@,
                data: data@,
            },
            Step::Other { consumed } => StepView::Other { consumed: consumed as nat },
            Step::End => StepView::End,
        }
    }
}

/// The bytes that a parser has taken in since it was made.
pub uninterp spec fn parser_taken(parser: wasmparser::Parser) -> Seq<u8>;

/// What a parser that has taken in `taken` answers when it is handed `rest` as
/// all that is left of the input. `None` stands for a refusal.
pub uninterp spec fn wasm_step(taken: Seq<u8>, rest: Seq<u8>) -> Option<StepView>;

/// `wasmparser::Parser::new` at offset 0: a parser that has taken in nothing.
#[verifier::external_body]
fn new_parser() -> (parser: wasmparser::Parser)
    ensures
        parser_taken(parser) == Seq::<u8>::empty(),
{
    wasmparser::Parser::new(0)
}

/// `wasmparser::Parser::parse` with `eof` set: `data` is all that is left.
///
/// The answer is a function of what the parser has taken in so far and of
/// `data`. A parsed piece never reaches past the end of `data`, and the parser
/// has then taken in exactly the bytes of that piece. The contents of a custom
/// section are a window into `data`: they are the last bytes of the piece.
/// Which piece comes is not stated here: that is the parser's business.
#[verifier::external_body]
fn parse_step(parser: &mut wasmparser::Parser, data: &[u8]) -> (answer: Result<
    Step,
    wasmparser::BinaryReaderError,
>)
    ensures
        match answer {
            Ok(step) => wasm_step(parser_taken(*old(parser)), data@) == Some(step@),
            Err(_) => wasm_step(parser_taken(*old(parser)), data@) is None,
        },
        answer matches Ok(Step::Other { consumed }) ==> (consumed <= data@.len()
            && parser_taken(*final(parser)) == parser_taken(*old(parser)) + data@.take(
            consumed as int,
        )),
        answer matches Ok(Step::Custom { consumed, .. }) ==> (consumed <= data@.len()
            && parser_taken(*final(parser)) == parser_taken(*old(parser)) + data@.take(
            consumed as int,
        )),
        answer matches Ok(Step::Custom { consumed, data: contents, .. }) ==> (contents@.len()
            <= consumed && contents@ == data@.subrange(
            consumed - contents@.len(),
            consumed as int,
        )),
{
    Ok(match parser.parse(data, true)? {
        wasmparser::Chunk::NeedMoreData(_) => Step::Starved,
        wasmparser::Chunk::Parsed { consumed, payload } => match payload {
            wasmparser::Payload::CustomSection(section) => Step::Custom {
                consumed,
                name: section.name().to_string(),
                data: section.data().to_vec(),
            },
            wasmparser::Payload::End(_) => Step::End,
            _ => Step::Other { consumed },
        },
    })
}

/// Why no section was handed out.
#[derive(Clone, Copy, Debug, PartialEq, Eq, Structural)]
pub enum ExtractError {
    /// The parser refused the binary, asked for bytes beyond its end, or made
    /// no headway.
    InvalidBinaryFormat,
    /// The module ended and no section had the name.
    SectionNotFound,
}

/// What the walk does after one answer of the parser.
#[derive(Debug, PartialEq, Eq)]
pub enum Turn {
    /// It goes on behind the next `consumed` bytes, with `found` as the
    /// contents of the last section with the name so far.
    On { consumed: usize, found: Option<Vec<u8>> },
    /// It ends, with this result.
    Stop(Result<Vec<u8>, ExtractError>),
}

/// A `Turn` as a mathematical value.
pub enum TurnView {
    On { consumed: nat, found: Option<Seq<u8>> },
    Stop(Result<Seq<u8>, ExtractError>),
}

/// The view of what may have been found.
pub open spec fn found_view(found: Option<Vec<u8>>) -> Option<Seq<u8>> {
    match found {
        Some(data) => Some(data@),
        None => None,
    }
}

/// The view of an answer: `None` stands for a refusal.
pub open spec fn answer_view(answer: Option<Step>) -> Option<StepView> {
    match answer {
        Some(step) => Some(step@),
        None => None,
    }
}

/// The view of an extracted section.
pub open spec fn extracted(result: Result<Vec<u8>, ExtractError>) -> Result<
    Seq<u8>,
    ExtractError,
> {
    match result {
        Ok(data) => Ok(data@),
        Err(e) => Err(e),
    }
}

impl View for Turn {
    type V = TurnView;

    open spec fn view(&self) -> TurnView {
        match *self {
            Turn::On { consumed, found } => TurnView::On {
                consumed: consumed as nat,
                found: found_view(found),
            },
            Turn::Stop(result) => TurnView::Stop(extracted(result)),
        }
    }
}

/// What the walk reports once the module has ended, after `found` was kept as
/// the contents of the last section with the name.
pub open spec fn settle(found: Option<Seq<u8>>) -> Result<Seq<u8>, ExtractError> {
    match found {
        Some(data) => Ok(data),
        None => Err(ExtractError::SectionNotFound),
    }
}

/// What the walk does after the parser, handed `left` bytes, gave `answer`,
/// where `found` is the contents of the last section named `name` so far.
///
/// A custom section with the name replaces what was found before, and any
/// other piece leaves it. The end of the module settles the walk. A refusal,
/// a call for more bytes, a piece of no bytes and a piece of more bytes than
/// were handed over end it as an invalid binary.
pub open spec fn turn_of(
    answer: Option<StepView>,
    left: nat,
    name: Seq<char>,
    found: Option<Seq<u8>>,
) -> TurnView {
    match answer {
        Some(StepView::End) => TurnView::Stop(settle(found)),
        Some(StepView::Custom { consumed, name: section, data }) => {
            if 0 < consumed <= left {
                TurnView::On {
                    consumed,
                    found: if section == name {
                        Some(data)
                    } else {
                        found
                    },
                }
            } else {
                TurnView::Stop(Err(ExtractError::InvalidBinaryFormat))
            }
        },
        Some(StepView::Other { consumed }) => {
            if 0 < consumed <= left {
                TurnView::On { consumed, found }
            } else {
                TurnView::Stop(Err(ExtractError::InvalidBinaryFormat))
            }
        },
        Some(StepView::Starved) | None => TurnView::Stop(Err(ExtractError::InvalidBinaryFormat)),
    }
}

/// The walk from the point where the parser has taken in `taken` and `rest`
/// is left, with `found` the contents of the last section named `name` so far:
/// one turn after the other until one of them stops.
pub open spec fn walk(
    taken: Seq<u8>,
    rest: Seq<u8>,
    name: Seq<char>,
    found: Option<Seq<u8>>,
) -> Result<Seq<u8>, ExtractError>
    decreases rest.len(),
{
    match turn_of(wasm_step(taken, rest), rest.len(), name, found) {
        TurnView::Stop(result) => result,
        TurnView::On { consumed, found: kept } => walk(
            taken + rest.subrange(0, consumed as int),
            rest.subrange(consumed as int, rest.len() as int),
            name,
            kept,
        ),
    }
}

/// The contents of the last custom section named `name` in the module `wasm`.
pub open spec fn section_of(wasm: Seq<u8>, name: Seq<char>) -> Result<Seq<u8>, ExtractError> {
    walk(Seq::<u8>::empty(), wasm, name, None)
}

/// The bytes `part` stand somewhere in `whole`, one after the other.
pub open spec fn stands_in(part: Seq<u8>, whole: Seq<u8>) -> bool {
    exists|start: int|
        0 <= start && start + part.len() <= whole.len() && #[trigger] whole.subrange(
            start,
            start + part.len(),
        ) == part
}

/// Decides what the walk does after one answer of the parser: `answer` is
/// what it gave when it was handed `left` bytes, `None` for a refusal, and
/// `found` is the contents of the last section named `name` so far.
pub fn turn(answer: Option<Step>, left: usize, name: &str, found: Option<Vec<u8>>) -> (next: Turn)
    ensures
        next@ == turn_of(answer_view(answer), left as nat, name@, found_view(found)),
{
    match answer {
        Some(Step::End) => Turn::Stop(
            match found {
                Some(data) => Ok(data),
                None => Err(ExtractError::SectionNotFound),
            },
        ),
        Some(Step::Custom { consumed, name: section, data }) => {
            if 0 < consumed && consumed <= left {
                if same_text(section.as_str(), name) {
                    Turn::On { consumed, found: Some(data) }
                } else {
                    Turn::On { consumed, found }
                }
            } else {
                Turn::Stop(Err(ExtractError::InvalidBinaryFormat))
            }
        },
        Some(Step::Other { consumed }) => {
            if 0 < consumed && consumed <= left {
                Turn::On { consumed, found }
            } else {
                Turn::Stop(Err(ExtractError::InvalidBinaryFormat))
            }
        },
        Some(Step::Starved) | None => Turn::Stop(Err(ExtractError::InvalidBinaryFormat)),
    }
}

/// Returns the contents of the custom section named `name` of the module
/// `wasm`; where several sections have the name, those of the last one.
///
/// The whole module is at hand, so a parser that asks for more bytes has met a
/// truncated module: that is an invalid binary, as is one that the parser
/// refuses. A module that ends without such a section gives `SectionNotFound`.
/// What is returned stands in the module, byte for byte.
pub fn extract(wasm: &[u8], name: &str) -> (result: Result<Vec<u8>, ExtractError>)
    ensures
        extracted(result) == section_of(wasm@, name@),
        result matches Ok(data) ==> stands_in(data@, wasm@),
{
    let mut parser = new_parser();
    let mut found: Option<Vec<u8>> = None;
    let mut read: usize = 0;
    assert(wasm@.subrange(0, wasm@.len() as int) =~= wasm@);
    loop
        invariant
            read <= wasm@.len(),
            parser_taken(parser) == wasm@.subrange(0, read as int),
            found matches Some(data) ==> stands_in(data@, wasm@),
            section_of(wasm@, name@) == walk(
                wasm@.subrange(0, read as int),
                wasm@.subrange(read as int, wasm@.len() as int),
                name@,
                found_view(found),
            ),
        decreases wasm@.len() - read,
    {
        let rest = slice_subrange(wasm, read, wasm.len());
        let ghost taken = wasm@.subrange(0, read as int);
        let answer = match parse_step(&mut parser, rest) {
            Ok(step) => Some(step),
            Err(_) => None,
        };
        assert(answer matches Some(Step::Custom { consumed, data, .. }) ==> wasm@.subrange(
            read + consumed - data@.len(),
            read + consumed - data@.len() + data@.len(),
        ) =~= data@);
        match turn(answer, rest.len(), name, found) {
            Turn::Stop(result) => {
                return result;
            },
            Turn::On { consumed, found: kept } => {
                proof {
                    assert(taken + rest@.subrange(0, consumed as int) =~= wasm@.subrange(
                        0,
                        read + consumed,
                    ));
                    assert(rest@.subrange(consumed as int, rest@.len() as int) =~= wasm@.subrange(
                        read + consumed,
                        wasm@.len() as int,
                    ));
                }
                found = kept;
                read = read + consumed;
            },
        }
    }
}

} // verus!
