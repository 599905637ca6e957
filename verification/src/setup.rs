use vstd::prelude::*;

use vstd::string::StringExecFns;

use crate::state::WatchState;
use crate::watch::Target;
use crate::watch::Watcher;

verus! {

/// The watched save-file names, one per playable character: a fixed set
/// inside the saves directory, configured statically rather than discovered
/// at runtime.
pub open spec fn spec_savefile_names() -> Seq<Seq<char>> {
    seq!["IRONCLAD.autosave"@, "DEFECT.autosave"@, "THE_SILENT.autosave"@]
}

/// The static list of watched save-file names.
pub fn savefile_names() -> (names: Vec<String>)
    ensures
        names@.len() == spec_savefile_names().len(),
        forall|i: int| 0 <= i < names@.len() ==> names@[i]@ == spec_savefile_names()[i],
{
    let mut names: Vec<String> = Vec::new();
    names.push(String::from_str("IRONCLAD.autosave"));
    names.push(String::from_str("DEFECT.autosave"));
    names.push(String::from_str("THE_SILENT.autosave"));
    names
}

/// The saves directory inside the given installation directory.
pub fn saves_directory(installation_dir: &String) -> (p: String)
    ensures
        p@ == installation_dir@ + "/saves"@,
{
    installation_dir.clone().concat("/saves")
}

/// The full path of one save file inside the saves directory.
pub fn target_path(save_dir: &String, name: &String) -> (p: String)
    ensures
        p@ == save_dir@ + "/"@ + name@,
{
    save_dir.clone().concat("/").concat(name.as_str())
}

/// Build the standard watcher over the given saves directory: one target per
/// fixed save-file name, in the fixed order, each
/// starting in the `Absent` state (so an already-present file is reported as
/// `Created` by the first sweep).
pub fn initialize_watcher(save_dir: &String) -> (w: Watcher)
    ensures
        w@.len() == spec_savefile_names().len(),
        forall|i: int| 0 <= i < w@.len() ==> w@[i].state_spec() == WatchState::Absent,
        forall|i: int|
            0 <= i < w@.len() ==> w@[i].path_spec() == save_dir@ + "/"@ + spec_savefile_names()[i],
{
    let names = savefile_names();
    let mut w = Watcher::new();
    let mut i: usize = 0;
    while i < names.len()
        invariant
            i <= names@.len(),
            names@.len() == spec_savefile_names().len(),
            forall|j: int| 0 <= j < names@.len() ==> names@[j]@ == spec_savefile_names()[j],
            w@.len() == i,
            forall|j: int| 0 <= j < i ==> w@[j].state_spec() == WatchState::Absent,
            forall|j: int|
                0 <= j < i ==> w@[j].path_spec() == save_dir@ + "/"@ + spec_savefile_names()[j],
        decreases names@.len() - i,
    {
        let path = target_path(save_dir, &names[i]);
        w.add_target(Target::new(path));
        i = i + 1;
    }
    w
}

} // verus!
