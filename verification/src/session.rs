//! Decisions of an editing session: which ROM buffer an action works on,
//! where a change is written, and how typed values are read.

use vstd::prelude::*;
use crate::text::{str_chars, trim_chars, trimmed, parse_u8, parse_u8_spec, chars_eq};

verus! {

/// Text shown in place of a path before a file is chosen.
pub const NO_FILE_SELECTED: &'static str = "No file selected";

/// Whether `s` is empty once surrounding whitespace is removed.
pub fn is_blank(s: &str) -> (b: bool)
    ensures
        b == (trimmed(s@).len() == 0),
{
    let v = str_chars(s);
    let t = trim_chars(&v);
    t.len() == 0
}

/// Whether `path` names a file: not blank, and not the placeholder shown
/// before a file is chosen.
pub fn selected_file_is_usable(path: &str) -> (b: bool)
    ensures
        b == (trimmed(path@).len() > 0 && trimmed(path@) != NO_FILE_SELECTED@),
{
    let v = str_chars(path);
    let t = trim_chars(&v);
    if t.len() == 0 {
        return false;
    }
    let placeholder = str_chars(NO_FILE_SELECTED);
    !chars_eq(&t, &placeholder)
}

/// Where the ROM bytes an action works on come from.
#[derive(Debug, Clone, Copy, PartialEq, Eq, Structural)]
pub enum RomSource {
    /// The selected BIN file, read from disk.
    SelectedFile,
    /// The ROM buffer held in memory (last read, loaded or edited).
    StagedBuffer,
}

/// Source for a settings patch: the selected file first, else the buffer.
pub open spec fn patch_source_spec(file_usable: bool, has_staged: bool) -> Option<RomSource> {
    if file_usable {
        Some(RomSource::SelectedFile)
    } else if has_staged {
        Some(RomSource::StagedBuffer)
    } else {
        None
    }
}

/// Where a settings patch or the MIL blink count is applied: the selected
/// file when there is one, else the ROM buffer in memory; `None` when there
/// is neither.
pub fn patch_source(file_usable: bool, has_staged: bool) -> (r: Option<RomSource>)
    ensures
        r == patch_source_spec(file_usable, has_staged),
        file_usable ==> r == Some(RomSource::SelectedFile),
        !file_usable && has_staged ==> r == Some(RomSource::StagedBuffer),
        r is None <==> (!file_usable && !has_staged),
{
    if file_usable {
        Some(RomSource::SelectedFile)
    } else if has_staged {
        Some(RomSource::StagedBuffer)
    } else {
        None
    }
}

/// Source for burning: unsaved edits in the buffer win over the file; with
/// no unsaved edits the file wins over the buffer.
pub open spec fn upload_source_spec(unsaved: bool, has_staged: bool, file_usable: bool) -> Option<RomSource> {
    if unsaved && has_staged {
        Some(RomSource::StagedBuffer)
    } else if file_usable {
        Some(RomSource::SelectedFile)
    } else if has_staged {
        Some(RomSource::StagedBuffer)
    } else {
        None
    }
}

/// What a burn sends to the ROM: the buffer when it holds unsaved edits,
/// else the selected file, else the buffer; `None` when there is neither.
pub fn upload_source(unsaved: bool, has_staged: bool, file_usable: bool) -> (r: Option<RomSource>)
    ensures
        r == upload_source_spec(unsaved, has_staged, file_usable),
        unsaved && has_staged ==> r == Some(RomSource::StagedBuffer),
        !(unsaved && has_staged) && file_usable ==> r == Some(RomSource::SelectedFile),
        !unsaved && !file_usable && has_staged ==> r == Some(RomSource::StagedBuffer),
        r is None <==> (!file_usable && !has_staged),
{
    if unsaved {
        if has_staged {
            Some(RomSource::StagedBuffer)
        } else if file_usable {
            Some(RomSource::SelectedFile)
        } else {
            None
        }
    } else if file_usable {
        Some(RomSource::SelectedFile)
    } else if has_staged {
        Some(RomSource::StagedBuffer)
    } else {
        None
    }
}

/// What the map views show: the buffer when there is one, else the selected
/// file; `None` when there is neither.
pub fn table_view_source(has_staged: bool, file_usable: bool) -> (r: Option<RomSource>)
    ensures
        has_staged ==> r == Some(RomSource::StagedBuffer),
        !has_staged && file_usable ==> r == Some(RomSource::SelectedFile),
        r is None <==> (!file_usable && !has_staged),
        r == (if has_staged {
            Some(RomSource::StagedBuffer)
        } else if file_usable {
            Some(RomSource::SelectedFile)
        } else {
            None
        }),
{
    if has_staged {
        Some(RomSource::StagedBuffer)
    } else if file_usable {
        Some(RomSource::SelectedFile)
    } else {
        None
    }
}

/// Law: a settings patch works on the selected file whenever it is usable,
/// on the staged buffer only when there is no usable file, and is refused
/// only when there is neither.
pub proof fn patch_source_law(file_usable: bool, has_staged: bool)
    ensures
        file_usable ==> patch_source_spec(file_usable, has_staged) == Some(RomSource::SelectedFile),
        !file_usable && has_staged ==> patch_source_spec(file_usable, has_staged) == Some(
            RomSource::StagedBuffer,
        ),
        patch_source_spec(file_usable, has_staged) is None <==> (!file_usable && !has_staged),
{
}

/// Law: a burn sends unsaved staged edits when there are some; otherwise
/// the selected file whenever it is usable, whatever the buffer holds; the
/// buffer only when there is no usable file; and it is refused only when
/// there is neither a usable file nor a buffer. What it sends exists.
pub proof fn upload_source_law(unsaved: bool, has_staged: bool, file_usable: bool)
    ensures
        unsaved && has_staged ==> upload_source_spec(unsaved, has_staged, file_usable) == Some(
            RomSource::StagedBuffer,
        ),
        !unsaved && file_usable ==> upload_source_spec(unsaved, has_staged, file_usable) == Some(
            RomSource::SelectedFile,
        ),
        !has_staged && file_usable ==> upload_source_spec(unsaved, has_staged, file_usable) == Some(
            RomSource::SelectedFile,
        ),
        !file_usable && has_staged ==> upload_source_spec(unsaved, has_staged, file_usable) == Some(
            RomSource::StagedBuffer,
        ),
        upload_source_spec(unsaved, has_staged, file_usable) is None <==> (!file_usable && !has_staged),
        upload_source_spec(unsaved, has_staged, file_usable) == Some(RomSource::StagedBuffer) ==> has_staged,
        upload_source_spec(unsaved, has_staged, file_usable) == Some(RomSource::SelectedFile) ==> file_usable,
{
}

/// Where a change reaches the ECU.
#[derive(Debug, Clone, Copy, PartialEq, Eq, Structural)]
pub enum WriteTarget {
    /// Written to flash through the Ostrich port, kept across reboots.
    OstrichPersistent,
    /// Written to the emulated ROM over USB, lost at the next reboot.
    LiveTemporary,
}

/// A settings patch goes to flash through the Ostrich port when a port is
/// set, else to the live ROM until the next reboot.
pub fn patch_write_target(rom_port: &str) -> (t: WriteTarget)
    ensures
        t == (if trimmed(rom_port@).len() == 0 {
            WriteTarget::LiveTemporary
        } else {
            WriteTarget::OstrichPersistent
        }),
{
    if is_blank(rom_port) {
        WriteTarget::LiveTemporary
    } else {
        WriteTarget::OstrichPersistent
    }
}

/// The MIL blink count typed by the user, or `current` when the text is not
/// a `u8` in decimal.
pub fn blink_value(input: &str, current: u8) -> (v: u8)
    ensures
        v == (match parse_u8_spec(input@) {
            Some(x) => x,
            None => current,
        }),
{
    let chars = str_chars(input);
    match parse_u8(&chars) {
        Some(x) => x,
        None => current,
    }
}

} // verus!
