//! Editing a plugin's configuration file: what to do before and after the
//! editor runs.
use vstd::prelude::*;

verus! {

/// What `config` does first.
#[derive(Debug, Clone, Copy, PartialEq, Eq, Structural)]
pub enum ConfigStart {
    /// Delete the configuration file and stop.
    Delete,
    /// Open the file in the editor.
    Edit,
}

/// A file that exists is deleted when deletion is asked for; otherwise the
/// editor opens it.
pub fn config_start(exists: bool, delete: bool) -> (r: ConfigStart)
    ensures
        r == (if exists && delete { ConfigStart::Delete } else { ConfigStart::Edit }),
{
    if exists && delete {
        ConfigStart::Delete
    } else {
        ConfigStart::Edit
    }
}

/// What `config` does once the editor has exited.
#[derive(Debug, Clone, Copy, PartialEq, Eq, Structural)]
pub enum ConfigFinish {
    Nothing,
    /// Remove the empty file.
    Remove,
    /// Remove the empty file and regenerate the pack file.
    RemoveAndRegenerate,
    /// Regenerate the pack file.
    Regenerate,
}

pub open spec fn finish_of(existed_before: bool, exists_after: bool, empty_after: bool, newer: bool) -> ConfigFinish {
    if !exists_after {
        ConfigFinish::Nothing
    } else if empty_after {
        if existed_before {
            ConfigFinish::RemoveAndRegenerate
        } else {
            ConfigFinish::Remove
        }
    } else if !existed_before || newer {
        ConfigFinish::Regenerate
    } else {
        ConfigFinish::Nothing
    }
}

/// Decides the follow-up of an edit: an empty file is removed, and the pack
/// file is regenerated when the configuration it combines changed: a file
/// that existed went away, or one is new or newer.
pub fn config_finish(existed_before: bool, exists_after: bool, empty_after: bool, newer: bool) -> (r: ConfigFinish)
    ensures
        r == finish_of(existed_before, exists_after, empty_after, newer),
{
    if !exists_after {
        ConfigFinish::Nothing
    } else if empty_after {
        if existed_before {
            ConfigFinish::RemoveAndRegenerate
        } else {
            ConfigFinish::Remove
        }
    } else if !existed_before || newer {
        ConfigFinish::Regenerate
    } else {
        ConfigFinish::Nothing
    }
}

/// Whether the terminal cannot host an editor: unknown, or `dumb`.
pub open spec fn is_dumb(term: Option<String>) -> bool {
    match term {
        None => true,
        Some(t) => t@ == "dumb"@,
    }
}

/// The editor to open files with: none on a dumb or unknown terminal, else
/// the first of `PACK_EDITOR`, `EDITOR` and `vi`.
pub fn choose_editor(term: Option<String>, pack_editor: Option<String>, editor: Option<String>) -> (r: Option<String>)
    ensures
        is_dumb(term) ==> r is None,
        !is_dumb(term) && pack_editor is Some ==> r == pack_editor,
        !is_dumb(term) && pack_editor is None && editor is Some ==> r == editor,
        !is_dumb(term) && pack_editor is None && editor is None ==> (r matches Some(e) && e@ == "vi"@),
{
    match term {
        None => None,
        Some(t) => {
            let dumb = String::from_str("dumb");
            if t == dumb {
                None
            } else {
                match pack_editor {
                    Some(e) => Some(e),
                    None => match editor {
                        Some(e) => Some(e),
                        None => Some(String::from_str("vi")),
                    },
                }
            }
        },
    }
}

} // verus!
