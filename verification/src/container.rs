//! The container parser: recognises the format of a byte buffer by its
//! signature and reads a PE image's sections, base address and import
//! directory out of it.

use goblin::pe::PE;
use goblin::Hint;
use vstd::prelude::*;

verus! {

/// The container formats that a signature can announce.
#[derive(Clone, Copy, Debug, PartialEq, Eq, Structural)]
pub enum Format {
    Pe,
    Elf,
    Mach,
    Te,
    Coff,
    Archive,
}

/// Why a buffer yields no image.
#[derive(Clone, Copy, Debug, PartialEq, Eq, Structural)]
pub enum ParseError {
    /// The buffer is no recognisable container, or one that breaks off or
    /// contradicts itself.
    MalformedContainer,
    /// The buffer announces a format other than PE.
    UnsupportedFormat(Format),
}

/// One entry of the section table, as mathematical values.
pub struct SectionView {
    pub name: Seq<u8>,
    pub pointer_to_raw_data: u32,
    pub size_of_raw_data: u32,
    pub virtual_address: u32,
}

/// One entry of the section table.
#[derive(Clone, Copy, Debug)]
pub struct Section {
    /// The name as stored: eight bytes, padded with NUL.
    pub name: [u8; 8],
    /// File offset of the section's raw data.
    pub pointer_to_raw_data: u32,
    /// Size of the raw data in the file.
    pub size_of_raw_data: u32,
    /// Address of the section at run time, relative to the image base.
    pub virtual_address: u32,
}

impl View for Section {
    type V = SectionView;

    open spec fn view(&self) -> SectionView {
        SectionView {
            name: self.name@,
            pointer_to_raw_data: self.pointer_to_raw_data,
            size_of_raw_data: self.size_of_raw_data,
            virtual_address: self.virtual_address,
        }
    }
}

/// One entry of the import directory, as mathematical values.
pub struct ImportDescriptorView {
    pub name: Seq<u8>,
    pub ordinal: u16,
    pub offset: usize,
    pub rva: usize,
    pub size: usize,
}

/// One entry of the import directory as the container holds it.
#[derive(Clone, Debug)]
pub struct ImportDescriptor {
    /// The bytes of the symbol's name.
    pub name: Vec<u8>,
    pub ordinal: u16,
    /// Offset of the entry's slot in the import address table.
    pub offset: usize,
    /// Relative virtual address of the entry's hint and name.
    pub rva: usize,
    /// Size of the slot in bytes.
    pub size: usize,
}

impl View for ImportDescriptor {
    type V = ImportDescriptorView;

    open spec fn view(&self) -> ImportDescriptorView {
        ImportDescriptorView {
            name: self.name@,
            ordinal: self.ordinal,
            offset: self.offset,
            rva: self.rva,
            size: self.size,
        }
    }
}

/// What a PE image declares, as mathematical values.
pub struct PeView {
    pub image_base: u64,
    pub sections: Seq<SectionView>,
    pub imports: Seq<ImportDescriptorView>,
}

/// What a PE image declares: base address, section table and import
/// directory, each in the container's own order.
#[derive(Debug)]
pub struct PeRecord {
    pub image_base: u64,
    pub sections: Vec<Section>,
    pub imports: Vec<ImportDescriptor>,
}

/// The views of a section table, in order.
pub open spec fn section_views(list: Seq<Section>) -> Seq<SectionView> {
    Seq::new(list.len(), |i: int| list[i]@)
}

/// The views of an import directory, in order.
pub open spec fn descriptor_views(list: Seq<ImportDescriptor>) -> Seq<ImportDescriptorView> {
    Seq::new(list.len(), |i: int| list[i]@)
}

impl View for PeRecord {
    type V = PeView;

    open spec fn view(&self) -> PeView {
        PeView {
            image_base: self.image_base,
            sections: section_views(self.sections@),
            imports: descriptor_views(self.imports@),
        }
    }
}

/// A parsed image, as mathematical values.
pub struct ImageView {
    pub bytes: Seq<u8>,
    pub image_base: u64,
    pub sections: Seq<SectionView>,
    pub imports: Seq<ImportDescriptorView>,
}

/// The parsed view of one buffer. It owns the buffer; every later slice is
/// borrowed from it.
#[derive(Debug)]
pub struct ExecutableImage {
    bytes: Vec<u8>,
    record: PeRecord,
}

impl View for ExecutableImage {
    type V = ImageView;

    closed spec fn view(&self) -> ImageView {
        ImageView {
            bytes: self.bytes@,
            image_base: self.record.image_base,
            sections: section_views(self.record.sections@),
            imports: descriptor_views(self.record.imports@),
        }
    }
}

/// `goblin::error::Error`: why goblin gave up on a buffer. It is carried to
/// the place where the load ends and never looked into.
#[verifier::external_type_specification]
#[verifier::external_body]
pub struct ExGoblinError(goblin::error::Error);

/// What goblin's look at the signature makes of the first sixteen bytes of a
/// buffer: a failure, no known signature, or the format announced.
pub uninterp spec fn sniffed(head: Seq<u8>) -> Result<Option<Format>, ()>;

/// What goblin's PE parser reads out of a buffer, if it accepts the buffer.
pub uninterp spec fn pe_parsed(bytes: Seq<u8>) -> Option<PeView>;

/// `goblin::peek_bytes`: tells the container format from the first sixteen
/// bytes. Thin and fat Mach-O signatures both count as `Format::Mach`; a
/// signature that goblin does not know gives `None`. The contract claims only
/// that the outcome depends on the sixteen bytes alone.
#[verifier::external_body]
fn peek_format(head: &[u8; 16]) -> (r: Result<Option<Format>, goblin::error::Error>)
    ensures
        r is Ok <==> sniffed(head@) is Ok,
        r is Ok ==> sniffed(head@) == Ok::<Option<Format>, ()>(r->Ok_0),
{
    Ok(match goblin::peek_bytes(head)? {
        Hint::PE => Some(Format::Pe),
        Hint::Elf(_) => Some(Format::Elf),
        Hint::Mach(_) => Some(Format::Mach),
        Hint::MachFat(_) => Some(Format::Mach),
        Hint::TE => Some(Format::Te),
        Hint::COFF => Some(Format::Coff),
        Hint::Archive => Some(Format::Archive),
        _ => None,
    })
}

/// `goblin::pe::PE::parse`: parses the buffer as a PE image and hands out its
/// image base, its section table and its synthesised import list, entry by
/// entry and in goblin's order. The contract claims only that the outcome
/// depends on the bytes alone.
#[verifier::external_body]
fn read_pe(bytes: &[u8]) -> (r: Result<PeRecord, goblin::error::Error>)
    ensures
        r is Ok <==> pe_parsed(bytes@) is Some,
        r is Ok ==> pe_parsed(bytes@) == Some(r->Ok_0@),
{
    let pe = PE::parse(bytes)?;
    let sections = pe.sections.iter().map(|s| Section {
        name: s.name,
        pointer_to_raw_data: s.pointer_to_raw_data,
        size_of_raw_data: s.size_of_raw_data,
        virtual_address: s.virtual_address,
    });
    let imports = pe.imports.iter().map(|i| ImportDescriptor {
        name: i.name.as_bytes().to_vec(), ordinal: i.ordinal, offset: i.offset, rva: i.rva, size: i.size,
    });
    Ok(PeRecord { image_base: pe.image_base, sections: sections.collect(), imports: imports.collect() })
}

/// What the signature found means for the load: `Ok` for a PE
/// image, else the error that the load ends with.
pub open spec fn dispatched(found: Option<Format>) -> Result<(), ParseError> {
    match found {
        Some(Format::Pe) => Ok(()),
        Some(other) => Err(ParseError::UnsupportedFormat(other)),
        None => Err(ParseError::MalformedContainer),
    }
}

/// Decides from the signature found whether the buffer goes on to
/// the PE parser.
pub fn dispatch(found: Option<Format>) -> (r: Result<(), ParseError>)
    ensures
        r == dispatched(found),
{
    match found {
        Some(Format::Pe) => Ok(()),
        Some(other) => Err(ParseError::UnsupportedFormat(other)),
        None => Err(ParseError::MalformedContainer),
    }
}

/// The image that a buffer and what the PE parser read out of it make up.
pub open spec fn assembled(bytes: Seq<u8>, record: PeView) -> ImageView {
    ImageView {
        bytes,
        image_base: record.image_base,
        sections: record.sections,
        imports: record.imports,
    }
}

/// The outcome of parsing a buffer.
pub open spec fn parsed(bytes: Seq<u8>) -> Result<ImageView, ParseError> {
    if bytes.len() < 16 {
        Err(ParseError::MalformedContainer)
    } else {
        match sniffed(bytes.take(16)) {
            Err(_) => Err(ParseError::MalformedContainer),
            Ok(found) => match dispatched(found) {
                Err(e) => Err(e),
                Ok(_) => match pe_parsed(bytes) {
                    None => Err(ParseError::MalformedContainer),
                    Some(record) => Ok(assembled(bytes, record)),
                },
            },
        }
    }
}

/// The view of a parse result.
pub open spec fn outcome_view(r: Result<ExecutableImage, ParseError>) -> Result<
    ImageView,
    ParseError,
> {
    match r {
        Ok(image) => Ok(image@),
        Err(e) => Err(e),
    }
}

impl ExecutableImage {
    /// Joins a buffer with what the PE parser read out of it. The section
    /// table and the import directory are taken over as they are: not
    /// filtered, not sorted.
    pub fn assemble(bytes: Vec<u8>, record: PeRecord) -> (image: ExecutableImage)
        ensures
            image@ == assembled(bytes@, record@),
    {
        ExecutableImage { bytes, record }
    }

    /// The whole buffer.
    pub fn bytes(&self) -> (b: &[u8])
        ensures
            b@ == self@.bytes,
    {
        self.bytes.as_slice()
    }

    /// The declared base virtual address.
    pub fn image_base(&self) -> (base: u64)
        ensures
            base == self@.image_base,
    {
        self.record.image_base
    }

    /// The section table in the container's order.
    pub fn sections(&self) -> (list: &Vec<Section>)
        ensures
            section_views(list@) == self@.sections,
    {
        &self.record.sections
    }

    /// The import directory in the container's order.
    pub fn import_descriptors(&self) -> (list: &Vec<ImportDescriptor>)
        ensures
            descriptor_views(list@) == self@.imports,
    {
        &self.record.imports
    }
}

/// The first sixteen bytes of a buffer.
fn head_of(bytes: &[u8]) -> (head: [u8; 16])
    requires
        bytes@.len() >= 16,
    ensures
        head@ == bytes@.take(16),
{
    let mut head: [u8; 16] = [0u8; 16];
    let mut i: usize = 0;
    while i < 16
        invariant
            i <= 16,
            bytes@.len() >= 16,
            forall|j: int| 0 <= j < i ==> head@[j] == bytes@[j],
        decreases 16 - i,
    {
        head[i] = bytes[i];
        i = i + 1;
    }
    assert(head@ =~= bytes@.take(16));
    head
}

/// Parses a buffer of any length.
///
/// A buffer too short to hold a signature, one with no known signature and one
/// that the PE parser rejects are malformed; a buffer that announces another
/// format than PE is unsupported, and the error names the format.
pub fn parse(bytes: Vec<u8>) -> (r: Result<ExecutableImage, ParseError>)
    ensures
        outcome_view(r) == parsed(bytes@),
{
    if bytes.len() < 16 {
        return Err(ParseError::MalformedContainer);
    }
    let head: [u8; 16] = head_of(bytes.as_slice());
    let found: Option<Format> = match peek_format(&head) {
        Ok(found) => found,
        Err(_) => {
            return Err(ParseError::MalformedContainer);
        },
    };
    match dispatch(found) {
        Err(e) => Err(e),
        Ok(_) => match read_pe(bytes.as_slice()) {
            Err(_) => Err(ParseError::MalformedContainer),
            Ok(record) => Ok(ExecutableImage::assemble(bytes, record)),
        },
    }
}

} // verus!
