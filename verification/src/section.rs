//! The section locator: finds a section by name, makes sure that its raw data
//! lies within the buffer, and gives the window of bytes together with the
//! virtual address of its first byte.

use crate::container::{section_views, ExecutableImage, ImageView, Section, SectionView};
use crate::disasm::address_at;
use vstd::prelude::*;
use vstd::slice::slice_subrange;

verus! {

/// A stored name without its padding: the bytes up to and including the last
/// one that is not NUL.
pub open spec fn trimmed(name: Seq<u8>) -> Seq<u8>
    decreases name.len(),
{
    if name.len() > 0 && name.last() == 0 {
        trimmed(name.drop_last())
    } else {
        name
    }
}

/// Whether a stored name, once trimmed, is exactly `wanted`.
pub open spec fn names_match(stored: Seq<u8>, wanted: Seq<u8>) -> bool {
    trimmed(stored) == wanted
}

proof fn lemma_trimmed_take(name: Seq<u8>, end: int)
    requires
        0 <= end <= name.len(),
        forall|j: int| end <= j < name.len() ==> name[j] == 0,
        end > 0 ==> name[end - 1] != 0,
    ensures
        trimmed(name) == name.take(end),
    decreases name.len(),
{
    if end == name.len() {
        assert(name.take(end) =~= name);
    } else {
        let shorter = name.drop_last();
        lemma_trimmed_take(shorter, end);
        assert(shorter.take(end) =~= name.take(end));
    }
}

/// The length of a stored name without its padding.
fn trimmed_len(stored: &[u8]) -> (end: usize)
    ensures
        end <= stored@.len(),
        trimmed(stored@) == stored@.take(end as int),
{
    let mut end: usize = stored.len();
    while end > 0 && stored[end - 1] == 0
        invariant
            end <= stored@.len(),
            forall|j: int| end <= j < stored@.len() ==> stored@[j] == 0,
        decreases end,
    {
        end = end - 1;
    }
    proof {
        lemma_trimmed_take(stored@, end as int);
    }
    end
}

/// Compares a stored, NUL-padded name with a wanted one: exact and
/// case-sensitive, after the padding is trimmed off the stored name.
pub fn name_matches(stored: &[u8], wanted: &[u8]) -> (same: bool)
    ensures
        same == names_match(stored@, wanted@),
{
    let end: usize = trimmed_len(stored);
    if end != wanted.len() {
        return false;
    }
    let mut i: usize = 0;
    while i < end
        invariant
            i <= end,
            end <= stored@.len(),
            end == wanted@.len(),
            trimmed(stored@) == stored@.take(end as int),
            forall|j: int| 0 <= j < i ==> stored@[j] == wanted@[j],
        decreases end - i,
    {
        if stored[i] != wanted[i] {
            assert(stored@.take(end as int)[i as int] != wanted@[i as int]);
            return false;
        }
        i = i + 1;
    }
    assert(stored@.take(end as int) =~= wanted@);
    true
}

/// Why a section yields no window.
#[derive(Clone, Copy, Debug, PartialEq, Eq, Structural)]
pub enum LocateError {
    /// No section has the wanted name.
    NotFound,
    /// The section's raw data runs past the end of the buffer.
    OutOfBounds,
}

/// The raw bytes of a section and the virtual address of the first of them,
/// as mathematical values.
pub struct WindowView {
    pub bytes: Seq<u8>,
    pub address: u64,
}

/// The raw bytes of a section, borrowed from the image, and the virtual
/// address of the first of them.
#[derive(Clone, Copy, Debug)]
pub struct SectionWindow<'a> {
    pub bytes: &'a [u8],
    pub address: u64,
}

impl<'a> View for SectionWindow<'a> {
    type V = WindowView;

    open spec fn view(&self) -> WindowView {
        WindowView { bytes: self.bytes@, address: self.address }
    }
}

/// The index of the first section from `from` on whose trimmed name is
/// `wanted`.
pub open spec fn first_match(sections: Seq<SectionView>, wanted: Seq<u8>, from: int) -> Option<
    int,
>
    decreases sections.len() - from,
{
    if from < 0 || from >= sections.len() {
        None
    } else if names_match(sections[from].name, wanted) {
        Some(from)
    } else {
        first_match(sections, wanted, from + 1)
    }
}

/// The window of one section within a buffer of `len` bytes, for an image
/// based at `base`.
pub open spec fn window_of(bytes: Seq<u8>, base: u64, section: SectionView) -> Result<
    WindowView,
    LocateError,
> {
    let first = section.pointer_to_raw_data as int;
    let end = first + section.size_of_raw_data;
    if end > bytes.len() {
        Err(LocateError::OutOfBounds)
    } else {
        Ok(
            WindowView {
                bytes: bytes.subrange(first, end),
                address: address_at(base, section.virtual_address as nat),
            },
        )
    }
}

/// The outcome of locating the section named `wanted` in an image.
pub open spec fn located(image: ImageView, wanted: Seq<u8>) -> Result<WindowView, LocateError> {
    match first_match(image.sections, wanted, 0) {
        None => Err(LocateError::NotFound),
        Some(i) => window_of(image.bytes, image.image_base, image.sections[i]),
    }
}

/// The view of a locate result.
pub open spec fn window_view(r: Result<SectionWindow<'_>, LocateError>) -> Result<
    WindowView,
    LocateError,
> {
    match r {
        Ok(window) => Ok(window@),
        Err(e) => Err(e),
    }
}

/// Cuts the window of one section out of a buffer. A section whose raw data
/// runs past the end of the buffer is refused, never cut short.
pub fn window<'a>(bytes: &'a [u8], base: u64, section: &Section) -> (r: Result<
    SectionWindow<'a>,
    LocateError,
>)
    ensures
        window_view(r) == window_of(bytes@, base, section@),
{
    let first: u64 = section.pointer_to_raw_data as u64;
    let end: u64 = first + section.size_of_raw_data as u64;
    if end > bytes.len() as u64 {
        return Err(LocateError::OutOfBounds);
    }
    let raw: &[u8] = slice_subrange(bytes, first as usize, end as usize);
    Ok(SectionWindow { bytes: raw, address: base.wrapping_add(section.virtual_address as u64) })
}

/// Finds the first section whose name, trimmed of its padding, is exactly
/// `wanted`, and cuts its window out of the image's buffer.
pub fn locate_section<'a>(image: &'a ExecutableImage, wanted: &[u8]) -> (r: Result<
    SectionWindow<'a>,
    LocateError,
>)
    ensures
        window_view(r) == located(image@, wanted@),
{
    let sections = image.sections();
    let n: usize = sections.len();
    let mut i: usize = 0;
    while i < n
        invariant
            n == sections@.len(),
            i <= n,
            section_views(sections@) == image@.sections,
            first_match(image@.sections, wanted@, 0) == first_match(
                image@.sections,
                wanted@,
                i as int,
            ),
        decreases n - i,
    {
        assert(image@.sections[i as int] == sections@[i as int]@);
        if name_matches(sections[i].name.as_slice(), wanted) {
            return window(image.bytes(), image.image_base(), &sections[i]);
        }
        i = i + 1;
    }
    Err(LocateError::NotFound)
}

/// No section is found exactly when no section of the image has the wanted
/// name; and a section that is found is the first of that name.
pub proof fn law_first_match(sections: Seq<SectionView>, wanted: Seq<u8>)
    ensures
        first_match(sections, wanted, 0) is None <==> forall|i: int|
            0 <= i < sections.len() ==> !names_match(#[trigger] sections[i].name, wanted),
        first_match(sections, wanted, 0) matches Some(k) ==> 0 <= k < sections.len()
            && names_match(sections[k].name, wanted) && forall|i: int|
            0 <= i < k ==> !names_match(#[trigger] sections[i].name, wanted),
{
    lemma_first_match_from(sections, wanted, 0);
}

proof fn lemma_first_match_from(sections: Seq<SectionView>, wanted: Seq<u8>, from: int)
    requires
        0 <= from,
    ensures
        first_match(sections, wanted, from) is None <==> forall|i: int|
            from <= i < sections.len() ==> !names_match(#[trigger] sections[i].name, wanted),
        first_match(sections, wanted, from) matches Some(k) ==> from <= k < sections.len()
            && names_match(sections[k].name, wanted) && forall|i: int|
            from <= i < k ==> !names_match(#[trigger] sections[i].name, wanted),
    decreases sections.len() - from,
{
    if from < sections.len() {
        if !names_match(sections[from].name, wanted) {
            lemma_first_match_from(sections, wanted, from + 1);
        }
    }
}

} // verus!
