//! The decisions taken while loading a program: where a position-independent
//! image goes, whether a program can be entered directly, and which entry
//! point and interpreter base execution starts from. Reading files, mapping
//! memory and building the initial stack are the caller's work.
use vstd::prelude::*;
use vstd::string::StringSliceAdditionalSpecFns;
use vstd::utf8::valid_utf8;
use super::error::Error;
use super::types::LoadedImage;

verus! {

/// `ET_EXEC`: an executable placed at its link-time addresses.
pub const EXECUTABLE: u16 = 2;

/// The length of the anonymous mapping that holds an image spanning
/// `image_start..image_end`.
pub fn image_length(image_start: u64, image_end: u64) -> (r: Result<usize, Error>)
    requires
        image_start <= image_end,
    ensures
        r == (if image_end - image_start > usize::MAX {
            Err(Error::AddressOverflow)
        } else {
            Ok::<usize, Error>((image_end - image_start) as usize)
        }),
{
    let length = image_end - image_start;
    if length > usize::MAX as u64 {
        Err(Error::AddressOverflow)
    } else {
        Ok(length as usize)
    }
}

/// The placement of a position-independent image whose lowest link-time
/// address is `image_start`, mapped at `mapping`: the base added to every
/// link-time address, and the relocated entry point.
pub fn relocation(mapping: u64, image_start: u64, link_entry: u64) -> (r: Result<(u64, u64), Error>)
    ensures
        r == (if mapping < image_start || link_entry + (mapping - image_start) > u64::MAX {
            Err(Error::AddressOverflow)
        } else {
            Ok::<(u64, u64), Error>(((mapping - image_start) as u64, (link_entry + (mapping - image_start)) as u64))
        }),
{
    let base = match mapping.checked_sub(image_start) {
        Some(base) => base,
        None => return Err(Error::AddressOverflow),
    };
    match link_entry.checked_add(base) {
        Some(entry) => Ok((base, entry)),
        None => Err(Error::AddressOverflow),
    }
}

/// Whether a loaded program can be entered directly: an `ET_EXEC` object
/// with no interpreter and no dynamic segment, whose entry point lies in an
/// executable segment.
pub fn is_direct_entry(object_type: u16, has_interpreter: bool, dynamic: bool, entry_executable: bool) -> (r: bool)
    ensures
        r == (object_type == EXECUTABLE && !has_interpreter && !dynamic && entry_executable),
{
    object_type == EXECUTABLE && !has_interpreter && !dynamic && entry_executable
}

/// A static load accepts `ET_EXEC` objects only.
pub fn check_static_object_type(object_type: u16) -> (r: Result<(), Error>)
    ensures
        r == (if object_type == EXECUTABLE { Ok(()) } else { Err(Error::UnsupportedType) }),
{
    if object_type != EXECUTABLE {
        Err(Error::UnsupportedType)
    } else {
        Ok(())
    }
}

/// The entry point of a static load, which must lie in an executable
/// segment.
pub fn static_entry(entry: u64, entry_executable: bool) -> (r: Result<u64, Error>)
    ensures
        r == (if entry_executable { Ok(entry) } else { Err(Error::EntryOutsideExecutableSegment) }),
{
    if !entry_executable {
        Err(Error::EntryOutsideExecutableSegment)
    } else {
        Ok(entry)
    }
}

/// Which interpreter, if any, must be loaded before a program runs: the one
/// it names, when that path is valid UTF-8; none for a program that can be
/// entered directly; a program that needs an interpreter and names none
/// cannot run.
pub fn interpreter_request(image: &LoadedImage) -> (r: Result<Option<&str>, Error>)
    ensures
        match image.interpreter {
            Some(path) => if valid_utf8(path.bytes@) {
                r matches Ok(Some(s)) && s.spec_bytes() == path.bytes@
            } else {
                r == Err::<Option<&str>, Error>(Error::InvalidInterpreter)
            },
            None => if image.direct_entry {
                r == Ok::<Option<&str>, Error>(None)
            } else {
                r == Err::<Option<&str>, Error>(Error::InterpreterUnavailable)
            },
        },
{
    match &image.interpreter {
        Some(path) => match path.as_str() {
            Some(name) => Ok(Some(name)),
            None => Err(Error::InvalidInterpreter),
        },
        None => if image.direct_entry {
            Ok(None)
        } else {
            Err(Error::InterpreterUnavailable)
        },
    }
}

/// Where execution starts and the interpreter base handed to the program:
/// the interpreter's entry and base when one was loaded, the program's own
/// entry and no base otherwise.
pub fn execution_entry(image: &LoadedImage, interpreter: Option<&LoadedImage>) -> (r: (u64, usize))
    ensures
        r == (match interpreter {
            Some(loaded) => (loaded.entry, loaded.base as usize),
            None => (image.entry, 0usize),
        }),
{
    match interpreter {
        Some(loaded) => (loaded.entry, loaded.base as usize),
        None => (image.entry, 0),
    }
}

} // verus!
