//! The result store: the imports and the instructions of one image, held as
//! two independent sequences that are read by index and never changed.

use crate::container::{outcome_view, parse, parsed, pe_parsed, ExecutableImage, ImageView, ParseError};
use crate::disasm::{
    decode, disassembly, instruction_views, law_addresses_rise_within_slice, Bitness,
    DecodedInstruction, InstructionView,
};
use crate::imports::{extract_imports, extracted, extracted_one, import_views, ImportInformation, ImportView};
use crate::section::{first_match, locate_section, located, names_match, LocateError};
use vstd::prelude::*;

verus! {

/// How the disassembly of an image came about.
#[derive(Clone, Copy, Debug, PartialEq, Eq, Structural)]
pub enum CodeStatus {
    /// The code section was found and decoded.
    Decoded,
    /// The image has no section of the wanted name: nothing to disassemble.
    SectionNotFound,
    /// The code section's raw data runs past the end of the buffer: nothing
    /// was decoded.
    OutOfBoundsSection,
}

/// The analysis of one image, as mathematical values.
pub struct AnalysisView {
    pub imports: Seq<ImportView>,
    pub instructions: Seq<InstructionView>,
    pub code_status: CodeStatus,
}

/// The analysis of one image: its imports in directory order, its
/// instructions in address order.
#[derive(Debug)]
pub struct AnalysisResult {
    imports: Vec<ImportInformation>,
    instructions: Vec<DecodedInstruction>,
    code_status: CodeStatus,
}

impl View for AnalysisResult {
    type V = AnalysisView;

    closed spec fn view(&self) -> AnalysisView {
        AnalysisView {
            imports: import_views(self.imports@),
            instructions: instruction_views(self.instructions@),
            code_status: self.code_status,
        }
    }
}

/// The name of the code section.
pub open spec fn text_section() -> Seq<u8> {
    seq![0x2eu8, 0x74u8, 0x65u8, 0x78u8, 0x74u8]
}

/// The analysis of a parsed image: the imports come from the import
/// directory alone, the instructions from the section named `wanted`.
pub open spec fn analysis_of(image: ImageView, wanted: Seq<u8>, bitness: Bitness) -> AnalysisView {
    let imports = extracted(image.imports);
    match located(image, wanted) {
        Ok(window) => AnalysisView {
            imports,
            instructions: disassembly(bitness.width(), window.bytes, window.address),
            code_status: CodeStatus::Decoded,
        },
        Err(LocateError::NotFound) => AnalysisView {
            imports,
            instructions: Seq::empty(),
            code_status: CodeStatus::SectionNotFound,
        },
        Err(LocateError::OutOfBounds) => AnalysisView {
            imports,
            instructions: Seq::empty(),
            code_status: CodeStatus::OutOfBoundsSection,
        },
    }
}

/// The outcome of loading a buffer.
pub open spec fn analyzed(bytes: Seq<u8>, wanted: Seq<u8>, bitness: Bitness) -> Result<
    AnalysisView,
    ParseError,
> {
    match parsed(bytes) {
        Ok(image) => Ok(analysis_of(image, wanted, bitness)),
        Err(e) => Err(e),
    }
}

/// The view of a load result.
pub open spec fn analysis_view(r: Result<AnalysisResult, ParseError>) -> Result<
    AnalysisView,
    ParseError,
> {
    match r {
        Ok(result) => Ok(result@),
        Err(e) => Err(e),
    }
}

/// Whether `found` is the answer to a read of the import at index `i`: the
/// import at that index, or nothing from the count on.
pub open spec fn import_answer(
    store: AnalysisView,
    i: usize,
    found: Option<&ImportInformation>,
) -> bool {
    match found {
        Some(import) => i < store.imports.len() && import@ == store.imports[i as int],
        None => i >= store.imports.len(),
    }
}

/// Whether `found` is the answer to a read of the instruction at index `i`:
/// the instruction at that index, or nothing from the count on.
pub open spec fn instruction_answer(
    store: AnalysisView,
    i: usize,
    found: Option<&DecodedInstruction>,
) -> bool {
    match found {
        Some(instruction) => i < store.instructions.len() && instruction@
            == store.instructions[i as int],
        None => i >= store.instructions.len(),
    }
}

impl AnalysisResult {
    /// Analyses a parsed image: extracts the imports, then locates and decodes
    /// the section named `wanted`. A missing or out-of-bounds section leaves
    /// the instructions empty and the imports as they are.
    pub fn of_image(image: &ExecutableImage, wanted: &[u8], bitness: Bitness) -> (result:
        AnalysisResult)
        ensures
            result@ == analysis_of(image@, wanted@, bitness),
    {
        let imports = extract_imports(image);
        match locate_section(image, wanted) {
            Ok(window) => AnalysisResult {
                imports,
                instructions: decode(window.bytes, window.address, bitness),
                code_status: CodeStatus::Decoded,
            },
            Err(LocateError::NotFound) => {
                let instructions: Vec<DecodedInstruction> = Vec::new();
                assert(instruction_views(instructions@) =~= Seq::empty());
                AnalysisResult { imports, instructions, code_status: CodeStatus::SectionNotFound }
            },
            Err(LocateError::OutOfBounds) => {
                let instructions: Vec<DecodedInstruction> = Vec::new();
                assert(instruction_views(instructions@) =~= Seq::empty());
                AnalysisResult {
                    imports,
                    instructions,
                    code_status: CodeStatus::OutOfBoundsSection,
                }
            },
        }
    }

    /// The number of imports.
    pub fn import_count(&self) -> (n: usize)
        ensures
            n == self@.imports.len(),
    {
        self.imports.len()
    }

    /// The import at index `i`, counted from zero in directory order; `None`
    /// from the count on.
    pub fn import_at(&self, i: usize) -> (found: Option<&ImportInformation>)
        ensures
            import_answer(self@, i, found),
    {
        if i < self.imports.len() {
            Some(&self.imports[i])
        } else {
            None
        }
    }

    /// The number of instructions.
    pub fn instruction_count(&self) -> (n: usize)
        ensures
            n == self@.instructions.len(),
    {
        self.instructions.len()
    }

    /// The instruction at index `i`, counted from zero in address order;
    /// `None` from the count on.
    pub fn instruction_at(&self, i: usize) -> (found: Option<&DecodedInstruction>)
        ensures
            instruction_answer(self@, i, found),
    {
        if i < self.instructions.len() {
            Some(&self.instructions[i])
        } else {
            None
        }
    }

    /// How the disassembly came about.
    pub fn code_status(&self) -> (status: CodeStatus)
        ensures
            status == self@.code_status,
    {
        self.code_status
    }
}

/// Loads a buffer: parses it, extracts its imports and disassembles the
/// section named `wanted`. Only a buffer that does not parse gives an error;
/// a missing or out-of-bounds code section is recorded in the result's status.
pub fn analyze(bytes: Vec<u8>, wanted: &[u8], bitness: Bitness) -> (r: Result<
    AnalysisResult,
    ParseError,
>)
    ensures
        analysis_view(r) == analyzed(bytes@, wanted@, bitness),
{
    let ghost buffer = bytes@;
    match parse(bytes) {
        Ok(image) => {
            assert(outcome_view(Ok(image)) == parsed(buffer));
            Ok(AnalysisResult::of_image(&image, wanted, bitness))
        },
        Err(e) => Err(e),
    }
}

/// Loads a PE image: the imports, and the 64-bit disassembly of its `.text`
/// section.
pub fn parse_pe(bytes: Vec<u8>) -> (r: Result<AnalysisResult, ParseError>)
    ensures
        analysis_view(r) == analyzed(bytes@, text_section(), Bitness::Bits64),
{
    let name: [u8; 5] = [0x2e, 0x74, 0x65, 0x78, 0x74];
    assert(name@ =~= text_section());
    analyze(bytes, name.as_slice(), Bitness::Bits64)
}

/// The store holds one record per entry of the import directory, in the
/// directory's order: for a buffer that parses, the number of imports is the
/// number of entries that the container's parser reports, and the import at
/// each index is the record of the entry at that index.
pub proof fn law_one_import_per_entry(bytes: Seq<u8>, wanted: Seq<u8>, bitness: Bitness)
    requires
        parsed(bytes) is Ok,
    ensures
        pe_parsed(bytes) is Some,
        analyzed(bytes, wanted, bitness) is Ok,
        analyzed(bytes, wanted, bitness)->Ok_0.imports.len() == pe_parsed(
            bytes,
        )->Some_0.imports.len(),
        forall|i: int|
            0 <= i < pe_parsed(bytes)->Some_0.imports.len() ==> (#[trigger] analyzed(
                bytes,
                wanted,
                bitness,
            )->Ok_0.imports[i]) == extracted_one(pe_parsed(bytes)->Some_0.imports[i]),
{
}

/// Reads are stable: two reads of one index of one store give the same
/// answer, be it an import or nothing.
pub proof fn law_import_reads_are_stable(
    store: AnalysisView,
    i: usize,
    first: Option<&ImportInformation>,
    second: Option<&ImportInformation>,
)
    requires
        import_answer(store, i, first),
        import_answer(store, i, second),
    ensures
        first is Some <==> second is Some,
        first is Some ==> first->Some_0@ == second->Some_0@,
{
}

/// The two branches are independent: the imports of an analysis are the same
/// whatever section is asked for and whatever width it is decoded as.
pub proof fn law_imports_independent_of_code(
    image: ImageView,
    wanted: Seq<u8>,
    bitness: Bitness,
    other_wanted: Seq<u8>,
    other_bitness: Bitness,
)
    ensures
        analysis_of(image, wanted, bitness).imports == analysis_of(
            image,
            other_wanted,
            other_bitness,
        ).imports,
        analysis_of(image, wanted, bitness).imports == extracted(image.imports),
{
}

/// The instructions of a store stand in address order within the code
/// section: where the section's window does not run past the end of the
/// 64-bit address space, an instruction at a lower index has the lower
/// address, and every address lies in the window.
pub proof fn law_store_addresses_rise(image: ImageView, wanted: Seq<u8>, bitness: Bitness)
    requires
        located(image, wanted) matches Ok(window) ==> window.address + window.bytes.len()
            <= 0x1_0000_0000_0000_0000,
    ensures
        forall|i: int, j: int|
            0 <= i < j < analysis_of(image, wanted, bitness).instructions.len() ==> (
            #[trigger] analysis_of(image, wanted, bitness).instructions[i]).address < (
            #[trigger] analysis_of(image, wanted, bitness).instructions[j]).address,
        forall|i: int|
            0 <= i < analysis_of(image, wanted, bitness).instructions.len() ==> {
                &&& located(image, wanted) is Ok
                &&& located(image, wanted)->Ok_0.address <= (#[trigger] analysis_of(
                    image,
                    wanted,
                    bitness,
                ).instructions[i]).address < located(image, wanted)->Ok_0.address + located(
                    image,
                    wanted,
                )->Ok_0.bytes.len()
            },
{
    match located(image, wanted) {
        Ok(window) => {
            law_addresses_rise_within_slice(bitness, window.bytes, window.address);
        },
        Err(_) => {},
    }
}

/// An image without a section of the wanted name has no instructions, and its
/// imports are those of its import directory all the same.
pub proof fn law_missing_section_leaves_imports(image: ImageView, wanted: Seq<u8>, bitness: Bitness)
    requires
        forall|i: int|
            0 <= i < image.sections.len() ==> !names_match(
                #[trigger] image.sections[i].name,
                wanted,
            ),
    ensures
        analysis_of(image, wanted, bitness).instructions.len() == 0,
        analysis_of(image, wanted, bitness).code_status == CodeStatus::SectionNotFound,
        analysis_of(image, wanted, bitness).imports == extracted(image.imports),
{
    crate::section::law_first_match(image.sections, wanted);
}

} // verus!
