//! Segment-level views of an object file: segment images, the interpreter,
//! the program-header table image, the TLS template, program-header
//! validation and the file offsets of virtual addresses.
use vstd::prelude::*;
use super::ObjectFile;
use super::super::loadable_segment::LoadableSegment;
use super::super::program_header::{ProgramHeader, Type, ValidationError};
use super::super::program_header_table_image::ProgramHeaderTableImage;
use super::super::program_interpreter::{is_nul_terminated, is_nul_terminated_exec, ProgramInterpreter};
use super::super::representation::{bytes_view, range, spec_range};
use super::super::segment::Segment;
use super::super::note::NoteModel;
use super::super::note_table::{parse_note_table, spec_parse_note_table, NoteTable};
use super::super::thread_local_storage::Template;

verus! {

/// The index of the first program header of kind `kind` at or after `from`.
pub open spec fn spec_first_of_kind(headers: Seq<ProgramHeader>, kind: Type, from: int) -> Option<int>
    decreases headers.len() - from,
{
    if from < 0 || from >= headers.len() {
        None
    } else if headers[from].kind == kind {
        Some(from)
    } else {
        spec_first_of_kind(headers, kind, from + 1)
    }
}

pub proof fn lemma_first_of_kind(headers: Seq<ProgramHeader>, kind: Type, from: int)
    requires
        0 <= from,
    ensures
        spec_first_of_kind(headers, kind, from) matches Some(i) ==> from <= i < headers.len()
            && headers[i].kind == kind && forall|j: int| from <= j < i ==> headers[j].kind != kind,
        spec_first_of_kind(headers, kind, from) is None ==> forall|j: int| from <= j < headers.len() ==> headers[j].kind != kind,
    decreases headers.len() - from,
{
    if from < headers.len() && headers[from].kind != kind {
        lemma_first_of_kind(headers, kind, from + 1);
    }
}

/// `true` exactly for the powers of two.
pub open spec fn spec_is_power_of_two(value: u64) -> bool
    decreases value,
{
    if value == 0 {
        false
    } else if value == 1 {
        true
    } else {
        value % 2 == 0 && spec_is_power_of_two(value / 2)
    }
}

pub fn is_power_of_two(value: u64) -> (r: bool)
    ensures
        r == spec_is_power_of_two(value),
{
    if value == 0 {
        return false;
    }
    let mut current = value;
    while current > 1
        invariant
            current > 0,
            spec_is_power_of_two(value) == spec_is_power_of_two(current),
        decreases current,
    {
        if current % 2 != 0 {
            return false;
        }
        current = current / 2;
    }
    true
}

/// What the validation of the program-header table has seen so far.
#[derive(Debug, Clone, Copy)]
pub struct ValidationState {
    pub first_load_seen: bool,
    pub interpreter_seen: bool,
    pub program_header_table_image_seen: bool,
    pub previous_load: Option<(usize, u64)>,
}

pub open spec fn initial_validation_state() -> ValidationState {
    ValidationState {
        first_load_seen: false,
        interpreter_seen: false,
        program_header_table_image_seen: false,
        previous_load: None,
    }
}

/// One step of the validation: the check of header `index`.
pub open spec fn spec_validation_step(state: ValidationState, index: usize, header: ProgramHeader) -> Result<ValidationState, ValidationError> {
    match header.kind {
        Type::Load => if header.file_size > header.memory_size {
            Err(ValidationError::LoadFileImageLargerThanMemoryImage { index })
        } else if header.alignment > 1 && !spec_is_power_of_two(header.alignment) {
            Err(ValidationError::LoadAlignmentNotPowerOfTwo { index })
        } else if header.alignment > 1 && header.virtual_address % header.alignment != header.offset % header.alignment {
            Err(ValidationError::LoadAddressOffsetIncongruent { index })
        } else {
            match state.previous_load {
                Some((previous, address)) if header.virtual_address < address => Err(
                    ValidationError::LoadSegmentsNotOrderedByVirtualAddress { previous, current: index },
                ),
                _ => Ok(
                    ValidationState {
                        first_load_seen: true,
                        previous_load: Some((index, header.virtual_address)),
                        ..state
                    },
                ),
            }
        },
        Type::Interpreter => if state.interpreter_seen {
            Err(ValidationError::MultipleInterpreters)
        } else if state.first_load_seen {
            Err(ValidationError::InterpreterAfterLoad { index })
        } else {
            Ok(ValidationState { interpreter_seen: true, ..state })
        },
        Type::ProgramHeader => if state.program_header_table_image_seen {
            Err(ValidationError::MultipleProgramHeaderTableImages)
        } else if state.first_load_seen {
            Err(ValidationError::ProgramHeaderTableImageAfterLoad { index })
        } else {
            Ok(ValidationState { program_header_table_image_seen: true, ..state })
        },
        Type::SharedLibrary => Err(ValidationError::SharedLibrarySegment { index }),
        _ => Ok(state),
    }
}

/// The validation of the first `count` headers.
pub open spec fn spec_validation_prefix(headers: Seq<ProgramHeader>, count: nat) -> Result<ValidationState, ValidationError>
    decreases count,
{
    if count == 0 {
        Ok(initial_validation_state())
    } else {
        match spec_validation_prefix(headers, (count - 1) as nat) {
            Err(e) => Err(e),
            Ok(state) => spec_validation_step(state, (count - 1) as usize, headers[count - 1]),
        }
    }
}

/// Once a prefix fails validation, every longer prefix fails the same way.
pub proof fn lemma_validation_error_persists(headers: Seq<ProgramHeader>, failed: nat, longer: nat)
    requires
        failed <= longer,
        spec_validation_prefix(headers, failed) is Err,
    ensures
        spec_validation_prefix(headers, longer) == spec_validation_prefix(headers, failed),
    decreases longer,
{
    if longer > failed {
        lemma_validation_error_persists(headers, failed, (longer - 1) as nat);
    }
}

/// The result of validating the whole program-header table.
pub open spec fn spec_validate_program_headers(headers: Seq<ProgramHeader>) -> Result<(), ValidationError> {
    match spec_validation_prefix(headers, headers.len()) {
        Ok(_) => Ok(()),
        Err(e) => Err(e),
    }
}

/// A `PT_LOAD` header whose file image fits its memory image and whose
/// alignment, when it asks for one, is a power of two that the virtual
/// address and the file offset agree modulo.
pub open spec fn load_well_formed(header: ProgramHeader) -> bool {
    &&& header.file_size <= header.memory_size
    &&& header.alignment > 1 ==> spec_is_power_of_two(header.alignment)
    &&& header.alignment > 1 ==> header.virtual_address % header.alignment == header.offset % header.alignment
}

/// The order constraints between an earlier header `a` and a later one `b`:
/// `PT_LOAD` entries sorted by virtual address, at most one `PT_INTERP` and
/// one `PT_PHDR`, and both of those before every `PT_LOAD`.
pub open spec fn ordered_pair(a: ProgramHeader, b: ProgramHeader) -> bool {
    &&& (a.kind == Type::Load && b.kind == Type::Load ==> a.virtual_address <= b.virtual_address)
    &&& (a.kind == Type::Interpreter ==> b.kind != Type::Interpreter)
    &&& (a.kind == Type::ProgramHeader ==> b.kind != Type::ProgramHeader)
    &&& (a.kind == Type::Load ==> b.kind != Type::Interpreter && b.kind != Type::ProgramHeader)
}

/// The gABI constraints on the first `count` program headers.
pub open spec fn valid_prefix(headers: Seq<ProgramHeader>, count: int) -> bool {
    &&& forall|i: int| 0 <= i < count && (#[trigger] headers[i]).kind == Type::Load ==> load_well_formed(headers[i])
    &&& forall|i: int| 0 <= i < count ==> (#[trigger] headers[i]).kind != Type::SharedLibrary
    &&& forall|i: int, j: int| 0 <= i < j < count ==> #[trigger] ordered_pair(headers[i], headers[j])
}

/// The gABI constraints on a whole program-header table.
pub open spec fn valid_program_headers(headers: Seq<ProgramHeader>) -> bool {
    valid_prefix(headers, headers.len() as int)
}

/// Whether a header of kind `kind` occurs among the first `count`.
pub open spec fn seen(headers: Seq<ProgramHeader>, count: int, kind: Type) -> bool {
    exists|i: int| 0 <= i < count && (#[trigger] headers[i]).kind == kind
}

/// What the validation state records about the first `count` headers.
pub open spec fn state_describes(headers: Seq<ProgramHeader>, count: int, state: ValidationState) -> bool {
    &&& state.interpreter_seen == seen(headers, count, Type::Interpreter)
    &&& state.program_header_table_image_seen == seen(headers, count, Type::ProgramHeader)
    &&& state.first_load_seen == seen(headers, count, Type::Load)
    &&& match state.previous_load {
        None => !seen(headers, count, Type::Load),
        Some((previous, address)) => {
            &&& 0 <= previous < count
            &&& headers[previous as int].kind == Type::Load
            &&& address == headers[previous as int].virtual_address
            &&& forall|j: int| previous < j < count ==> (#[trigger] headers[j]).kind != Type::Load
        },
    }
}

proof fn lemma_seen_step(headers: Seq<ProgramHeader>, count: int, kind: Type)
    requires
        0 <= count < headers.len(),
    ensures
        seen(headers, count + 1, kind) == (seen(headers, count, kind) || headers[count].kind == kind),
{
    if seen(headers, count + 1, kind) {
        let i = choose|i: int| 0 <= i < count + 1 && (#[trigger] headers[i]).kind == kind;
        if i < count {
            assert(seen(headers, count, kind));
        }
    }
    if seen(headers, count, kind) {
        let i = choose|i: int| 0 <= i < count && (#[trigger] headers[i]).kind == kind;
        assert(0 <= i < count + 1 && headers[i].kind == kind);
    }
    if headers[count].kind == kind {
        assert(0 <= count < count + 1 && headers[count].kind == kind);
    }
}

/// The validation of a prefix succeeds exactly when the prefix meets the
/// constraints, and its state then records what the prefix holds.
proof fn lemma_validation_prefix(headers: Seq<ProgramHeader>, count: nat)
    requires
        count <= headers.len(),
        headers.len() <= usize::MAX,
    ensures
        (spec_validation_prefix(headers, count) is Ok) == valid_prefix(headers, count as int),
        spec_validation_prefix(headers, count) matches Ok(state) ==> state_describes(headers, count as int, state),
    decreases count,
{
    if count == 0 {
        return;
    }
    let n = (count - 1) as int;
    lemma_validation_prefix(headers, (count - 1) as nat);
    let h = headers[n];
    if valid_prefix(headers, count as int) {
        assert(valid_prefix(headers, n));
    }
    match spec_validation_prefix(headers, (count - 1) as nat) {
        Err(_) => {},
        Ok(state) => {
            lemma_seen_step(headers, n, Type::Interpreter);
            lemma_seen_step(headers, n, Type::ProgramHeader);
            lemma_seen_step(headers, n, Type::Load);
            match h.kind {
                Type::Load => {
                    if !load_well_formed(h) {
                        assert(!valid_prefix(headers, count as int));
                    } else {
                        match state.previous_load {
                            Some((previous, address)) => {
                                if h.virtual_address < address {
                                    assert(!ordered_pair(headers[previous as int], headers[n]));
                                } else {
                                    assert forall|i: int, j: int| 0 <= i < j < count as int implies #[trigger] ordered_pair(headers[i], headers[j]) by {
                                        if j == n && i != previous as int && headers[i].kind == Type::Load {
                                            assert(ordered_pair(headers[i], headers[previous as int]));
                                        }
                                    }
                                }
                            },
                            None => {
                                assert forall|i: int, j: int| 0 <= i < j < count as int implies #[trigger] ordered_pair(headers[i], headers[j]) by {
                                    if j == n && headers[i].kind == Type::Load {
                                        assert(seen(headers, n, Type::Load));
                                    }
                                }
                            },
                        }
                    }
                },
                Type::Interpreter => {
                    if state.interpreter_seen {
                        let i = choose|i: int| 0 <= i < n && (#[trigger] headers[i]).kind == Type::Interpreter;
                        assert(!ordered_pair(headers[i], headers[n]));
                    } else if state.first_load_seen {
                        let i = choose|i: int| 0 <= i < n && (#[trigger] headers[i]).kind == Type::Load;
                        assert(!ordered_pair(headers[i], headers[n]));
                    } else {
                        assert forall|i: int, j: int| 0 <= i < j < count as int implies #[trigger] ordered_pair(headers[i], headers[j]) by {
                            if j == n {
                                assert(headers[i].kind != Type::Interpreter && headers[i].kind != Type::Load) by {
                                    if headers[i].kind == Type::Interpreter {
                                        assert(seen(headers, n, Type::Interpreter));
                                    }
                                    if headers[i].kind == Type::Load {
                                        assert(seen(headers, n, Type::Load));
                                    }
                                }
                            }
                        }
                    }
                },
                Type::ProgramHeader => {
                    if state.program_header_table_image_seen {
                        let i = choose|i: int| 0 <= i < n && (#[trigger] headers[i]).kind == Type::ProgramHeader;
                        assert(!ordered_pair(headers[i], headers[n]));
                    } else if state.first_load_seen {
                        let i = choose|i: int| 0 <= i < n && (#[trigger] headers[i]).kind == Type::Load;
                        assert(!ordered_pair(headers[i], headers[n]));
                    } else {
                        assert forall|i: int, j: int| 0 <= i < j < count as int implies #[trigger] ordered_pair(headers[i], headers[j]) by {
                            if j == n {
                                assert(headers[i].kind != Type::ProgramHeader && headers[i].kind != Type::Load) by {
                                    if headers[i].kind == Type::ProgramHeader {
                                        assert(seen(headers, n, Type::ProgramHeader));
                                    }
                                    if headers[i].kind == Type::Load {
                                        assert(seen(headers, n, Type::Load));
                                    }
                                }
                            }
                        }
                    }
                },
                Type::SharedLibrary => {
                    assert(!valid_prefix(headers, count as int));
                },
                _ => {
                    assert forall|i: int, j: int| 0 <= i < j < count as int implies #[trigger] ordered_pair(headers[i], headers[j]) by {}
                },
            }
            if h.kind != Type::Load {
                match state.previous_load {
                    Some((previous, _)) => {
                        assert forall|j: int| previous < j < count as int implies (#[trigger] headers[j]).kind != Type::Load by {
                            if j < n {
                                assert(previous < j < n);
                            }
                        }
                    },
                    None => {},
                }
            }
        },
    }
}

/// The validation of the program-header table accepts exactly the tables
/// that meet the gABI constraints.
pub proof fn lemma_validation_accepts_exactly_valid_tables(headers: Seq<ProgramHeader>)
    requires
        headers.len() <= usize::MAX,
    ensures
        (spec_validate_program_headers(headers) is Ok) == valid_program_headers(headers),
{
    lemma_validation_prefix(headers, headers.len());
}

/// The file offset of a virtual address, searching `PT_LOAD` headers from
/// `from` on; an overflowing segment end or file offset ends the search.
pub open spec fn spec_file_offset_from(headers: Seq<ProgramHeader>, address: u64, from: int) -> Option<u64>
    decreases headers.len() - from,
{
    if from < 0 || from >= headers.len() {
        None
    } else {
        let header = headers[from];
        if header.kind != Type::Load {
            spec_file_offset_from(headers, address, from + 1)
        } else if header.virtual_address + header.file_size > u64::MAX {
            None
        } else if address < header.virtual_address || address >= header.virtual_address + header.file_size {
            spec_file_offset_from(headers, address, from + 1)
        } else if header.offset + (address - header.virtual_address) > u64::MAX {
            None
        } else {
            Some((header.offset + (address - header.virtual_address)) as u64)
        }
    }
}

/// Whether header `header` is a `PT_LOAD` whose file image covers `address`.
pub open spec fn load_covers(header: ProgramHeader, address: u64) -> bool {
    header.kind == Type::Load && header.virtual_address <= address < header.virtual_address + header.file_size
}

/// A virtual address that translates to a file offset lies in the file
/// image of a `PT_LOAD` segment, the first one that covers it, and the
/// offset is that segment's offset plus the address's distance into it.
pub proof fn lemma_file_offset_in_load_segment(headers: Seq<ProgramHeader>, address: u64, from: int) -> (index: int)
    requires
        0 <= from,
        spec_file_offset_from(headers, address, from) is Some,
    ensures
        from <= index < headers.len(),
        load_covers(headers[index], address),
        spec_file_offset_from(headers, address, from) == Some(
            (headers[index].offset + (address - headers[index].virtual_address)) as u64,
        ),
        headers[index].offset + (address - headers[index].virtual_address) <= u64::MAX,
        forall|j: int| from <= j < index ==> !load_covers(#[trigger] headers[j], address),
    decreases headers.len() - from,
{
    let header = headers[from];
    if header.kind == Type::Load && header.virtual_address <= address && address < header.virtual_address + header.file_size {
        from
    } else {
        lemma_file_offset_in_load_segment(headers, address, from + 1)
    }
}

impl<'file> ObjectFile<'file> {
    /// The header and file image of segment `index`.
    pub open spec fn spec_segment(&self, index: int) -> Option<(ProgramHeader, Seq<u8>)> {
        if index < 0 || index >= self.program_headers@.len() {
            None
        } else {
            let header = self.program_headers@[index];
            match spec_range(self.file_bytes(), header.offset, header.file_size) {
                None => None,
                Some(image) => Some((header, image)),
            }
        }
    }

    pub fn segment(&self, index: usize) -> (r: Option<Segment<'file>>)
        ensures
            match r {
                Some(s) => self.spec_segment(index as int) == Some((s.program_header, s.file_image@)),
                None => self.spec_segment(index as int) is None,
            },
    {
        if index >= self.program_headers.len() {
            return None;
        }
        let program_header = self.program_headers[index];
        match range(self.bytes, program_header.offset, program_header.file_size) {
            Some(file_image) => Some(Segment::new(program_header, file_image)),
            None => None,
        }
    }

    pub open spec fn spec_loadable_segment(&self, index: int) -> Option<(ProgramHeader, Seq<u8>)> {
        if index < 0 || index >= self.program_headers@.len() {
            None
        } else {
            let header = self.program_headers@[index];
            if header.kind != Type::Load || header.file_size > header.memory_size {
                None
            } else {
                self.spec_segment(index)
            }
        }
    }

    /// Segment `index` when it is a `PT_LOAD` whose file image fits its memory image.
    pub fn loadable_segment(&self, index: usize) -> (r: Option<LoadableSegment<'file>>)
        ensures
            match r {
                Some(s) => self.spec_loadable_segment(index as int) == Some((s.program_header, s.file_image@)),
                None => self.spec_loadable_segment(index as int) is None,
            },
    {
        if index >= self.program_headers.len() {
            return None;
        }
        let program_header = self.program_headers[index];
        match program_header.kind {
            Type::Load => {},
            _ => return None,
        }
        if program_header.file_size > program_header.memory_size {
            return None;
        }
        match range(self.bytes, program_header.offset, program_header.file_size) {
            Some(file_image) => Some(LoadableSegment::new(program_header, file_image)),
            None => None,
        }
    }

    /// The index of the first program header of kind `kind`.
    fn first_of_kind(&self, kind: Type) -> (r: Option<usize>)
        ensures
            match r {
                Some(i) => spec_first_of_kind(self.program_headers@, kind, 0) == Some(i as int),
                None => spec_first_of_kind(self.program_headers@, kind, 0) is None,
            },
            r matches Some(i) ==> i < self.program_headers@.len() && self.program_headers@[i as int].kind == kind,
    {
        proof {
            lemma_first_of_kind(self.program_headers@, kind, 0);
        }
        let mut index: usize = 0;
        while index < self.program_headers.len()
            invariant
                0 <= index <= self.program_headers@.len(),
                spec_first_of_kind(self.program_headers@, kind, 0) == spec_first_of_kind(self.program_headers@, kind, index as int),
            decreases self.program_headers@.len() - index,
        {
            if self.program_headers[index].kind == kind {
                return Some(index);
            }
            index += 1;
        }
        None
    }

    pub open spec fn spec_program_interpreter(&self) -> Option<(ProgramHeader, Seq<u8>)> {
        match spec_first_of_kind(self.program_headers@, Type::Interpreter, 0) {
            None => None,
            Some(index) => match self.spec_segment(index) {
                None => None,
                Some((header, image)) => if is_nul_terminated(image) {
                    Some((header, image))
                } else {
                    None
                },
            },
        }
    }

    /// The first `PT_INTERP` segment, when its image is one NUL-terminated string.
    pub fn program_interpreter(&self) -> (r: Option<ProgramInterpreter<'file>>)
        ensures
            match r {
                Some(p) => self.spec_program_interpreter() == Some((p.program_header, p.pathname@)),
                None => self.spec_program_interpreter() is None,
            },
    {
        let index = match self.first_of_kind(Type::Interpreter) {
            Some(index) => index,
            None => return None,
        };
        let segment = match self.segment(index) {
            Some(segment) => segment,
            None => return None,
        };
        if !is_nul_terminated_exec(segment.file_image) {
            return None;
        }
        Some(ProgramInterpreter::new(segment.program_header, segment.file_image))
    }

    pub open spec fn spec_program_header_table_image(&self) -> Option<(ProgramHeader, Seq<u8>)> {
        match spec_first_of_kind(self.program_headers@, Type::ProgramHeader, 0) {
            None => None,
            Some(index) => self.spec_segment(index),
        }
    }

    /// The first `PT_PHDR` segment.
    pub fn program_header_table_image(&self) -> (r: Option<ProgramHeaderTableImage<'file>>)
        ensures
            match r {
                Some(p) => self.spec_program_header_table_image() == Some((p.program_header, p.bytes@)),
                None => self.spec_program_header_table_image() is None,
            },
    {
        let index = match self.first_of_kind(Type::ProgramHeader) {
            Some(index) => index,
            None => return None,
        };
        match self.segment(index) {
            Some(segment) => Some(ProgramHeaderTableImage::new(segment.program_header, segment.file_image)),
            None => None,
        }
    }

    pub open spec fn spec_thread_local_storage_template(&self) -> Option<(ProgramHeader, Seq<u8>)> {
        match spec_first_of_kind(self.program_headers@, Type::ThreadLocalStorage, 0) {
            None => None,
            Some(index) => if self.program_headers@[index].file_size > self.program_headers@[index].memory_size {
                None
            } else {
                self.spec_segment(index)
            },
        }
    }

    /// The first `PT_TLS` segment, when its file image fits its memory image.
    pub fn thread_local_storage_template(&self) -> (r: Option<Template<'file>>)
        ensures
            match r {
                Some(t) => self.spec_thread_local_storage_template() == Some((t.program_header, t.initialization_image@)),
                None => self.spec_thread_local_storage_template() is None,
            },
    {
        let index = match self.first_of_kind(Type::ThreadLocalStorage) {
            Some(index) => index,
            None => return None,
        };
        let program_header = self.program_headers[index];
        if program_header.file_size > program_header.memory_size {
            return None;
        }
        match self.segment(index) {
            Some(segment) => Some(Template::new(segment.program_header, segment.file_image)),
            None => None,
        }
    }

    /// Checks the gABI constraints on the program-header table, reporting the
    /// first violation in table order.
    pub fn validate_program_headers(&self) -> (r: Result<(), ValidationError>)
        ensures
            r == spec_validate_program_headers(self.program_headers@),
            r is Ok <==> valid_program_headers(self.program_headers@),
    {
        let length = self.program_headers.len();
        proof {
            lemma_validation_accepts_exactly_valid_tables(self.program_headers@);
        }
        let mut state = ValidationState {
            first_load_seen: false,
            interpreter_seen: false,
            program_header_table_image_seen: false,
            previous_load: None,
        };
        let mut index: usize = 0;
        let ghost headers = self.program_headers@;
        while index < length
            invariant
                length == self.program_headers@.len(),
                0 <= index <= self.program_headers@.len(),
                headers == self.program_headers@,
                (spec_validate_program_headers(headers) is Ok) == valid_program_headers(headers),
                spec_validation_prefix(self.program_headers@, index as nat) == Ok::<ValidationState, ValidationError>(state),
            decreases self.program_headers@.len() - index,
        {
            let header = self.program_headers[index];
            proof {
                if spec_validation_prefix(headers, (index + 1) as nat) is Err {
                    lemma_validation_error_persists(headers, (index + 1) as nat, headers.len());
                }
            }
            match header.kind {
                Type::Load => {
                    if header.file_size > header.memory_size {
                        return Err(ValidationError::LoadFileImageLargerThanMemoryImage { index });
                    }
                    if header.alignment > 1 {
                        if !is_power_of_two(header.alignment) {
                            return Err(ValidationError::LoadAlignmentNotPowerOfTwo { index });
                        }
                        if header.virtual_address % header.alignment != header.offset % header.alignment {
                            return Err(ValidationError::LoadAddressOffsetIncongruent { index });
                        }
                    }
                    if let Some((previous_index, previous_virtual_address)) = state.previous_load {
                        if header.virtual_address < previous_virtual_address {
                            return Err(
                                ValidationError::LoadSegmentsNotOrderedByVirtualAddress {
                                    previous: previous_index,
                                    current: index,
                                },
                            );
                        }
                    }
                    state.first_load_seen = true;
                    state.previous_load = Some((index, header.virtual_address));
                },
                Type::Interpreter => {
                    if state.interpreter_seen {
                        return Err(ValidationError::MultipleInterpreters);
                    }
                    if state.first_load_seen {
                        return Err(ValidationError::InterpreterAfterLoad { index });
                    }
                    state.interpreter_seen = true;
                },
                Type::ProgramHeader => {
                    if state.program_header_table_image_seen {
                        return Err(ValidationError::MultipleProgramHeaderTableImages);
                    }
                    if state.first_load_seen {
                        return Err(ValidationError::ProgramHeaderTableImageAfterLoad { index });
                    }
                    state.program_header_table_image_seen = true;
                },
                Type::SharedLibrary => {
                    return Err(ValidationError::SharedLibrarySegment { index });
                },
                _ => {},
            }
            index += 1;
        }
        Ok(())
    }

    /// The file offset that holds a virtual address, found in the first
    /// `PT_LOAD` segment whose file image covers it.
    pub fn file_offset_for_virtual_address(&self, address: u64) -> (r: Option<u64>)
        ensures
            r == spec_file_offset_from(self.program_headers@, address, 0),
    {
        let mut index: usize = 0;
        while index < self.program_headers.len()
            invariant
                0 <= index <= self.program_headers@.len(),
                spec_file_offset_from(self.program_headers@, address, 0) == spec_file_offset_from(self.program_headers@, address, index as int),
            decreases self.program_headers@.len() - index,
        {
            let header = self.program_headers[index];
            index += 1;
            match header.kind {
                Type::Load => {},
                _ => continue,
            }
            let end = match header.virtual_address.checked_add(header.file_size) {
                Some(end) => end,
                None => return None,
            };
            if address < header.virtual_address || address >= end {
                continue;
            }
            let displacement = address - header.virtual_address;
            return header.offset.checked_add(displacement);
        }
        None
    }

    pub open spec fn spec_file_range_for_virtual_address(&self, address: u64, size: u64) -> Option<Seq<u8>> {
        match spec_file_offset_from(self.program_headers@, address, 0) {
            None => None,
            Some(offset) => spec_range(self.file_bytes(), offset, size),
        }
    }

    /// The `size` file bytes that back the virtual address `address`.
    pub fn file_range_for_virtual_address(&self, address: u64, size: u64) -> (r: Option<&'file [u8]>)
        ensures
            bytes_view(r) == self.spec_file_range_for_virtual_address(address, size),
    {
        match self.file_offset_for_virtual_address(address) {
            Some(offset) => range(self.bytes, offset, size),
            None => None,
        }
    }

    /// The notes in the `PT_NOTE` segment `index`.
    pub open spec fn spec_note_table_from_program_header(&self, index: int) -> Option<Seq<NoteModel>> {
        if index < 0 || index >= self.program_headers@.len() || self.program_headers@[index].kind != Type::Note {
            None
        } else {
            match self.spec_segment(index) {
                None => None,
                Some((_, image)) => spec_parse_note_table(image, self.header.identification.class),
            }
        }
    }

    pub fn note_table_from_program_header(&self, index: usize) -> (r: Option<NoteTable<'file>>)
        ensures
            match r {
                Some(t) => self.spec_note_table_from_program_header(index as int) == Some(t.model()),
                None => self.spec_note_table_from_program_header(index as int) is None,
            },
    {
        if index >= self.program_headers.len() {
            return None;
        }
        match self.program_headers[index].kind {
            Type::Note => {},
            _ => return None,
        }
        let segment = match self.segment(index) {
            Some(segment) => segment,
            None => return None,
        };
        parse_note_table(segment.file_image, self.header.identification.class)
    }
}

} // verus!
