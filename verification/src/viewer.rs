//! The presentation state: which analysis is on display, which tab is
//! active, and the lines that each tab shows. A windowed list asks it for the
//! lines of the index range that is visible; nothing is parsed or decoded
//! again for that.

use crate::container::ParseError;
use crate::disasm::{instruction_line, Bitness, InstructionView};
use crate::imports::{import_line, ImportView};
use crate::store::{analysis_view, analyzed, parse_pe, text_section, AnalysisResult, AnalysisView};
use vstd::prelude::*;

verus! {

/// What the active tab shows.
#[derive(Clone, Copy, Debug, PartialEq, Eq, Structural)]
pub enum Pane {
    /// The table of imports.
    Imports,
    /// The disassembly.
    Disassembly,
    /// A tab that does not exist.
    Lost,
}

/// Why a query gets no answer.
#[derive(Clone, Copy, Debug, PartialEq, Eq, Structural)]
pub enum QueryError {
    /// No image has been loaded yet.
    NotReady,
}

/// The presentation state, as mathematical values.
pub struct SunderView {
    pub loaded: Option<AnalysisView>,
    pub active_tab: usize,
}

/// The presentation state of one window.
#[derive(Debug)]
pub struct Sunder {
    loaded: Option<AnalysisResult>,
    active_tab: usize,
}

impl View for Sunder {
    type V = SunderView;

    closed spec fn view(&self) -> SunderView {
        SunderView {
            loaded: match self.loaded {
                Some(result) => Some(result@),
                None => None,
            },
            active_tab: self.active_tab,
        }
    }
}

/// The views of a list of strings, in order.
pub open spec fn line_views(lines: Seq<String>) -> Seq<Seq<char>> {
    Seq::new(lines.len(), |i: int| lines[i]@)
}

/// The display lines of all imports, in order.
pub open spec fn import_lines(imports: Seq<ImportView>) -> Seq<Seq<char>> {
    Seq::new(imports.len(), |i: int| import_line(imports[i]))
}

/// The display lines of the instructions with index from `first` up to, not
/// including, `end`, as far as such instructions exist.
pub open spec fn visible_lines(instructions: Seq<InstructionView>, first: usize, end: usize) -> Seq<
    Seq<char>,
> {
    let stop = if end as int <= instructions.len() {
        end as int
    } else {
        instructions.len() as int
    };
    if first as int >= stop {
        Seq::empty()
    } else {
        Seq::new((stop - first) as nat, |i: int| instruction_line(instructions[first + i]))
    }
}

/// The pane that a tab index selects.
pub open spec fn pane_of(tab: usize) -> Pane {
    if tab == 0 {
        Pane::Imports
    } else if tab == 1 {
        Pane::Disassembly
    } else {
        Pane::Lost
    }
}

/// The state after a load that ended in `outcome`: a result replaces what
/// was on display, an error leaves it untouched.
pub open spec fn installed(before: SunderView, outcome: Result<AnalysisView, ParseError>)
    -> SunderView {
    match outcome {
        Ok(result) => SunderView { loaded: Some(result), active_tab: before.active_tab },
        Err(_) => before,
    }
}

impl Sunder {
    /// A window with nothing loaded, on the first tab.
    pub fn new() -> (state: Sunder)
        ensures
            state@ == (SunderView { loaded: None, active_tab: 0 }),
    {
        Sunder { loaded: None, active_tab: 0 }
    }

    /// Ends a load: a result replaces the analysis on display as a whole, an
    /// error is handed back and leaves the display as it was.
    pub fn install(&mut self, outcome: Result<AnalysisResult, ParseError>) -> (r: Result<
        (),
        ParseError,
    >)
        ensures
            final(self)@ == installed(old(self)@, analysis_view(outcome)),
            r is Ok <==> outcome is Ok,
            outcome matches Err(e) ==> r == Err::<(), ParseError>(e),
    {
        match outcome {
            Ok(result) => {
                self.loaded = Some(result);
                Ok(())
            },
            Err(e) => Err(e),
        }
    }

    /// Loads a PE image from a buffer and puts its analysis on display. A
    /// buffer that does not parse leaves the display as it was.
    pub fn load(&mut self, bytes: Vec<u8>) -> (r: Result<(), ParseError>)
        ensures
            final(self)@ == installed(
                old(self)@,
                analyzed(bytes@, text_section(), Bitness::Bits64),
            ),
            r is Ok <==> analyzed(bytes@, text_section(), Bitness::Bits64) is Ok,
            analyzed(bytes@, text_section(), Bitness::Bits64) matches Err(e) ==> r == Err::<
                (),
                ParseError,
            >(e),
    {
        self.install(parse_pe(bytes))
    }

    /// The analysis on display.
    pub fn store(&self) -> (r: Result<&AnalysisResult, QueryError>)
        ensures
            match r {
                Ok(result) => self@.loaded == Some(result@),
                Err(e) => e == QueryError::NotReady && self@.loaded is None,
            },
    {
        match &self.loaded {
            Some(result) => Ok(result),
            None => Err(QueryError::NotReady),
        }
    }

    /// Makes `tab` the active tab.
    pub fn select_tab(&mut self, tab: usize)
        ensures
            final(self)@ == (SunderView { loaded: old(self)@.loaded, active_tab: tab }),
    {
        self.active_tab = tab;
    }

    /// The index of the active tab.
    pub fn active_tab(&self) -> (tab: usize)
        ensures
            tab == self@.active_tab,
    {
        self.active_tab
    }

    /// The pane that the active tab shows: the imports for tab 0, the
    /// disassembly for tab 1, and the notice of a lost user for any other.
    pub fn render(&self) -> (pane: Pane)
        ensures
            pane == pane_of(self@.active_tab),
    {
        if self.active_tab == 0 {
            Pane::Imports
        } else if self.active_tab == 1 {
            Pane::Disassembly
        } else {
            Pane::Lost
        }
    }

    /// The lines of the imports pane: one per import, in directory order.
    pub fn render_imports(&self) -> (r: Result<Vec<String>, QueryError>)
        ensures
            match r {
                Ok(lines) => self@.loaded is Some && line_views(lines@) == import_lines(
                    self@.loaded->Some_0.imports,
                ),
                Err(e) => e == QueryError::NotReady && self@.loaded is None,
            },
    {
        let result = match self.store() {
            Ok(result) => result,
            Err(e) => {
                return Err(e);
            },
        };
        let n: usize = result.import_count();
        let mut lines: Vec<String> = Vec::new();
        let mut i: usize = 0;
        while i < n
            invariant
                n == result@.imports.len(),
                i <= n,
                lines@.len() == i,
                forall|j: int|
                    0 <= j < i ==> (#[trigger] lines@[j])@ == import_line(result@.imports[j]),
            decreases n - i,
        {
            match result.import_at(i) {
                Some(import) => {
                    lines.push(import.display_line());
                },
                None => {},
            }
            i = i + 1;
        }
        assert(line_views(lines@) =~= import_lines(result@.imports));
        Ok(lines)
    }

    /// The lines of the disassembly pane for the visible index range: one per
    /// instruction with index from `first` up to, not including, `end`. An
    /// index from the instruction count on has no line.
    pub fn render_disassembly(&self, first: usize, end: usize) -> (r: Result<
        Vec<String>,
        QueryError,
    >)
        ensures
            match r {
                Ok(lines) => self@.loaded is Some && line_views(lines@) == visible_lines(
                    self@.loaded->Some_0.instructions,
                    first,
                    end,
                ),
                Err(e) => e == QueryError::NotReady && self@.loaded is None,
            },
    {
        let result = match self.store() {
            Ok(result) => result,
            Err(e) => {
                return Err(e);
            },
        };
        let n: usize = result.instruction_count();
        let stop: usize = if end <= n {
            end
        } else {
            n
        };
        let mut lines: Vec<String> = Vec::new();
        let mut i: usize = first;
        while i < stop
            invariant
                n == result@.instructions.len(),
                stop <= n,
                first <= i,
                first < stop ==> i <= stop,
                first >= stop ==> i == first,
                lines@.len() == i - first,
                forall|j: int|
                    0 <= j < i - first ==> (#[trigger] lines@[j])@ == instruction_line(
                        result@.instructions[first + j],
                    ),
            decreases stop - i,
        {
            match result.instruction_at(i) {
                Some(instruction) => {
                    lines.push(instruction.display_line());
                },
                None => {},
            }
            i = i + 1;
        }
        assert(line_views(lines@) =~= visible_lines(result@.instructions, first, end));
        Ok(lines)
    }

    /// The notice shown for a tab that does not exist.
    pub fn render_how_did_you_get_here(&self) -> (notice: String)
        ensures
            notice@ == "How did you get here!!!!!"@,
    {
        String::from_str("How did you get here!!!!!")
    }
}

} // verus!
