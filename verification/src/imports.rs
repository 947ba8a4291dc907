//! The import extractor: one record per imported symbol, in the order of the
//! container's import directory.

use crate::container::{
    descriptor_views, ExecutableImage, ImportDescriptor, ImportDescriptorView,
};
use crate::text::{decimal, push_decimal};
use vstd::prelude::*;
use vstd::utf8::{decode_utf8, valid_utf8};

verus! {

/// One imported symbol, as mathematical values.
pub struct ImportView {
    pub name: Seq<char>,
    pub ordinal: u16,
    pub offset: usize,
    pub rva: usize,
    pub size: usize,
}

/// One imported symbol.
#[derive(Clone, Debug)]
pub struct ImportInformation {
    pub name: String,
    pub ordinal: u16,
    /// Offset of the symbol's slot in the import address table.
    pub offset: usize,
    /// Relative virtual address of the symbol's hint and name; zero for a
    /// symbol imported by ordinal.
    pub rva: usize,
    /// Size of the slot in bytes.
    pub size: usize,
}

impl View for ImportInformation {
    type V = ImportView;

    open spec fn view(&self) -> ImportView {
        ImportView {
            name: self.name@,
            ordinal: self.ordinal,
            offset: self.offset,
            rva: self.rva,
            size: self.size,
        }
    }
}

/// The views of a list of imports, in order.
pub open spec fn import_views(list: Seq<ImportInformation>) -> Seq<ImportView> {
    Seq::new(list.len(), |i: int| list[i]@)
}

/// The text that lossy UTF-8 decoding makes of `bytes`: the characters they
/// encode, with U+FFFD in place of each ill-formed stretch.
pub uninterp spec fn lossy_text(bytes: Seq<u8>) -> Seq<char>;

/// `String::from_utf8_lossy` of std, made into an owned string. The contract
/// claims that the text depends on the bytes alone, and that well-formed
/// UTF-8 decodes to the characters it encodes.
#[verifier::external_body]
fn decode_lossy(bytes: &[u8]) -> (s: String)
    ensures
        s@ == lossy_text(bytes@),
        valid_utf8(bytes@) ==> s@ == decode_utf8(bytes@),
{
    String::from_utf8_lossy(bytes).into_owned()
}

/// The record that the extractor makes of one directory entry.
pub open spec fn extracted_one(entry: ImportDescriptorView) -> ImportView {
    ImportView {
        name: lossy_text(entry.name),
        ordinal: entry.ordinal,
        offset: entry.offset,
        rva: entry.rva,
        size: entry.size,
    }
}

/// The records that the extractor makes of an import directory.
pub open spec fn extracted(directory: Seq<ImportDescriptorView>) -> Seq<ImportView> {
    Seq::new(directory.len(), |i: int| extracted_one(directory[i]))
}

/// Makes the record of one directory entry. A name that is not well-formed
/// UTF-8 is decoded with replacement characters; the entry is never dropped.
pub fn extract_one(entry: &ImportDescriptor) -> (import: ImportInformation)
    ensures
        import@ == extracted_one(entry@),
        valid_utf8(entry@.name) ==> import@.name == decode_utf8(entry@.name),
{
    ImportInformation {
        name: decode_lossy(entry.name.as_slice()),
        ordinal: entry.ordinal,
        offset: entry.offset,
        rva: entry.rva,
        size: entry.size,
    }
}

/// Walks the image's import directory once, in directory order, and makes one
/// record per entry. An image without imports gives an empty list.
pub fn extract_imports(image: &ExecutableImage) -> (list: Vec<ImportInformation>)
    ensures
        import_views(list@) == extracted(image@.imports),
{
    let directory = image.import_descriptors();
    let n: usize = directory.len();
    let mut list: Vec<ImportInformation> = Vec::new();
    let mut i: usize = 0;
    while i < n
        invariant
            n == directory@.len(),
            i <= n,
            list@.len() == i,
            descriptor_views(directory@) == image@.imports,
            forall|j: int| 0 <= j < i ==> (#[trigger] list@[j])@ == extracted_one(directory@[j]@),
        decreases n - i,
    {
        list.push(extract_one(&directory[i]));
        i = i + 1;
    }
    assert(import_views(list@) =~= extracted(image@.imports));
    list
}

/// The display line of an import.
pub open spec fn import_line(import: ImportView) -> Seq<char> {
    "Name: "@ + import.name + ", Ordinal: "@ + decimal(import.ordinal as nat) + ", Offset: "@
        + decimal(import.offset as nat) + ", RVA: "@ + decimal(import.rva as nat) + ", Size: "@
        + decimal(import.size as nat)
}

impl ImportInformation {
    /// The display line of this import: name, ordinal, offset, RVA and size,
    /// the numbers in decimal.
    pub fn display_line(&self) -> (line: String)
        ensures
            line@ == import_line(self@),
    {
        let mut line = String::new();
        line.append("Name: ");
        line.append(self.name.as_str());
        line.append(", Ordinal: ");
        push_decimal(&mut line, self.ordinal as u64);
        line.append(", Offset: ");
        push_decimal(&mut line, self.offset as u64);
        line.append(", RVA: ");
        push_decimal(&mut line, self.rva as u64);
        line.append(", Size: ");
        push_decimal(&mut line, self.size as u64);
        line
    }
}

} // verus!
