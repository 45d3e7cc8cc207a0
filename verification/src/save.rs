//! What a request to save names: which part of the project, which object of
//! that part, and which kind of file.

use vstd::prelude::*;
use vstd::string::StringExecFns;
use crate::parse::types::{wrap, wrapped};
use crate::text::{decimal, str_eq, usize_to_string};

verus! {

/// The kind of file a project, or a part of one, is kept in.
#[derive(Debug, Clone, Copy, PartialEq, Eq, Structural)]
pub enum RytmProjectFileType {
    /// The device's own message format.
    Sysex,
    /// The whole project as text.
    Rytm,
}

impl RytmProjectFileType {
    /// The kind of file an extension stands for, written with or without the
    /// dot.
    pub open spec fn of_extension(s: Seq<char>) -> Option<Self> {
        if s == ".sysex"@ || s == "sysex"@ {
            Some(Self::Sysex)
        } else if s == ".rytm"@ || s == "rytm"@ {
            Some(Self::Rytm)
        } else {
            None
        }
    }

    /// Reads the kind of file from an extension.
    pub fn from_str(s: &str) -> (r: Result<Self, ()>)
        ensures
            match r {
                Ok(t) => Self::of_extension(s@) == Some(t),
                Err(_) => Self::of_extension(s@) is None,
            },
    {
        if str_eq(s, ".sysex") || str_eq(s, "sysex") {
            Ok(Self::Sysex)
        } else if str_eq(s, ".rytm") || str_eq(s, "rytm") {
            Ok(Self::Rytm)
        } else {
            Err(())
        }
    }
}

/// The sentence for a file of a kind that is not ours.
pub open spec fn invalid_file_type_text() -> Seq<char> {
    "File Error: Invalid file type. Only .rytm or .sysex files are allowed."@
}

/// The kind of file an extension stands for. A missing extension and an
/// extension of another kind are refused alike.
pub fn expect_our_file_types(ext: Option<&str>) -> (r: Result<RytmProjectFileType, String>)
    ensures
        match r {
            Ok(t) => ext matches Some(s) && RytmProjectFileType::of_extension(s@) == Some(t),
            Err(text) => text@ == invalid_file_type_text() && !(ext matches Some(s)
                && RytmProjectFileType::of_extension(s@) is Some),
        },
{
    let found = match ext {
        Some(s) => match RytmProjectFileType::from_str(s) {
            Ok(t) => Some(t),
            Err(_) => None,
        },
        None => None,
    };
    match found {
        Some(t) => Ok(t),
        None => Err("File Error: Invalid file type. Only .rytm or .sysex files are allowed.".to_owned()),
    }
}

/// The part of a project that is to be saved.
#[derive(Debug, Clone, Copy, PartialEq, Eq, Structural)]
pub enum SaveTarget {
    /// No part was named: the whole project.
    NotProvided,
    Pattern,
    Kit,
    Sound,
    Global,
    Settings,
}

impl SaveTarget {
    /// The word for the part, as it is said in a sentence.
    pub open spec fn name(self) -> Seq<char> {
        match self {
            Self::Pattern => "pattern"@,
            Self::Kit => "kit"@,
            Self::Sound => "sound"@,
            Self::Global => "global"@,
            Self::Settings => "settings"@,
            Self::NotProvided => "not provided"@,
        }
    }

    /// The word for the part, as it is said in a sentence.
    pub fn as_str(self) -> (r: &'static str)
        ensures
            r@ == self.name(),
    {
        match self {
            Self::Pattern => "pattern",
            Self::Kit => "kit",
            Self::Sound => "sound",
            Self::Global => "global",
            Self::Settings => "settings",
            Self::NotProvided => "not provided",
        }
    }

    /// The part a word names. The empty word names no part, which stands for
    /// the whole project.
    pub open spec fn named(s: Seq<char>) -> Option<Self> {
        if s == "pattern"@ {
            Some(Self::Pattern)
        } else if s == "kit"@ {
            Some(Self::Kit)
        } else if s == "sound"@ {
            Some(Self::Sound)
        } else if s == "global"@ {
            Some(Self::Global)
        } else if s == "settings"@ {
            Some(Self::Settings)
        } else if s == ""@ {
            Some(Self::NotProvided)
        } else {
            None
        }
    }

    /// The sentence for a word that names no part.
    pub open spec fn invalid_target_text(s: Seq<char>) -> Seq<char> {
        "Save Error: Invalid save target provided as the first argument "@ + s
            + ". Please try one of the following: pattern, kit, sound, global, settings. Or leave it empty."@
    }

    /// Reads the part from its word.
    pub fn from_str(s: &str) -> (r: Result<Self, String>)
        ensures
            match r {
                Ok(t) => Self::named(s@) == Some(t),
                Err(text) => Self::named(s@) is None && text@ == Self::invalid_target_text(s@),
            },
    {
        if str_eq(s, "pattern") {
            Ok(Self::Pattern)
        } else if str_eq(s, "kit") {
            Ok(Self::Kit)
        } else if str_eq(s, "sound") {
            Ok(Self::Sound)
        } else if str_eq(s, "global") {
            Ok(Self::Global)
        } else if str_eq(s, "settings") {
            Ok(Self::Settings)
        } else if str_eq(s, "") {
            Ok(Self::NotProvided)
        } else {
            let mut text = String::from_str("Save Error: Invalid save target provided as the first argument ");
            text.append(s);
            text.append(
                ". Please try one of the following: pattern, kit, sound, global, settings. Or leave it empty.",
            );
            Err(text)
        }
    }
}

/// Which object of a part is to be saved.
#[derive(Debug, Clone, Copy, PartialEq, Eq, Structural)]
pub enum SaveTargetIndex {
    /// The object with this index.
    Index(usize),
    /// The part has only one object.
    NotNecessary,
    /// No part was named, so no index is looked at.
    Ignore,
}

/// The sentence for an index outside the objects of a part.
pub open spec fn save_index_text(target: SaveTarget, index: usize, min: usize, max: usize) -> Seq<char> {
    "Save Error: Index out of bounds. "@ + decimal(index as int) + " not in range "@ + decimal(min as int) + ".."@
        + decimal(max as int) + " for "@ + target.name() + "."@
}

/// Checks the index of the object to save against the objects of the part:
/// the index, read as unsigned, must be at least `min` and below `max`.
pub fn validate_and_get_save_target_index(target: SaveTarget, index: isize, min: usize, max: usize) -> (r: Result<
    usize,
    String,
>)
    ensures
        match r {
            Ok(i) => i == wrapped(index as int) && min <= i < max,
            Err(text) => !(min <= wrapped(index as int) < max) && text@ == save_index_text(
                target,
                wrapped(index as int) as usize,
                min,
                max,
            ),
        },
{
    let index = wrap(index);
    if index < min || index >= max {
        let mut text = String::from_str("Save Error: Index out of bounds. ");
        let number = usize_to_string(index);
        text.append(number.as_str());
        text.append(" not in range ");
        let low = usize_to_string(min);
        text.append(low.as_str());
        text.append("..");
        let high = usize_to_string(max);
        text.append(high.as_str());
        text.append(" for ");
        text.append(target.as_str());
        text.append(".");
        return Err(text);
    }
    Ok(index)
}

} // verus!
