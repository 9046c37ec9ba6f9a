use vstd::prelude::*;

verus! {

/// Container format the editor writes lumps into.
#[derive(Clone, Copy, Debug, PartialEq, Eq, Structural, Hash)]
pub enum FileType {
    Wad,
    Zip,
}

impl Default for FileType {
    fn default() -> (r: FileType)
        ensures
            r == FileType::Wad,
    {
        FileType::Wad
    }
}

/// Persistent settings of the editor.
#[derive(Clone, Copy, Debug, PartialEq, Eq, Structural, Hash)]
pub struct Config {
    pub file_type: FileType,
}

impl Default for Config {
    fn default() -> (r: Config)
        ensures
            r.file_type == FileType::Wad,
    {
        Config { file_type: FileType::default() }
    }
}

} // verus!
