//! The object types: the words that open a command.

use vstd::prelude::*;
use crate::text::{has_no_colon, is_plain, lemma_plain_text, str_eq};

verus! {

/// The kinds of object a command can address.
#[derive(Debug, Clone, Copy, PartialEq, Eq, Structural)]
pub enum ObjectType {
    Pattern,
    PatternWorkBuffer,
    Kit,
    KitWorkBuffer,
    Sound,
    SoundWorkBuffer,
    Global,
    GlobalWorkBuffer,
    Settings,
}

impl ObjectType {
    /// The word by which a command names this object type.
    pub open spec fn name(self) -> Seq<char> {
        match self {
            Self::Pattern => "pattern"@,
            Self::PatternWorkBuffer => "pattern_wb"@,
            Self::Kit => "kit"@,
            Self::KitWorkBuffer => "kit_wb"@,
            Self::Sound => "sound"@,
            Self::SoundWorkBuffer => "sound_wb"@,
            Self::Global => "global"@,
            Self::GlobalWorkBuffer => "global_wb"@,
            Self::Settings => "settings"@,
        }
    }

    /// Whether a word names one of these.
    pub open spec fn known(s: Seq<char>) -> bool {
        exists|f: Self| f.name() == s
    }

    /// The word by which a command names this object type.
    pub fn as_str(self) -> (r: &'static str)
        ensures
            r@ == self.name(),
    {
        match self {
            Self::Pattern => "pattern",
            Self::PatternWorkBuffer => "pattern_wb",
            Self::Kit => "kit",
            Self::KitWorkBuffer => "kit_wb",
            Self::Sound => "sound",
            Self::SoundWorkBuffer => "sound_wb",
            Self::Global => "global",
            Self::GlobalWorkBuffer => "global_wb",
            Self::Settings => "settings",
        }
    }

    /// The object type a word names, if it names one.
    pub open spec fn named(s: Seq<char>) -> Option<Self> {
        if Self::known(s) {
            Some(choose|f: Self| f.name() == s)
        } else {
            None
        }
    }

    /// Looks a word up: the object type that carries it, if there is one.
    pub fn from_name(s: &str) -> (r: Option<Self>)
        ensures
            r == Self::named(s@),
    {
        let r = if str_eq(s, "pattern") {
            Some(Self::Pattern)
        } else if str_eq(s, "pattern_wb") {
            Some(Self::PatternWorkBuffer)
        } else if str_eq(s, "kit") {
            Some(Self::Kit)
        } else if str_eq(s, "kit_wb") {
            Some(Self::KitWorkBuffer)
        } else if str_eq(s, "sound") {
            Some(Self::Sound)
        } else if str_eq(s, "sound_wb") {
            Some(Self::SoundWorkBuffer)
        } else if str_eq(s, "global") {
            Some(Self::Global)
        } else if str_eq(s, "global_wb") {
            Some(Self::GlobalWorkBuffer)
        } else if str_eq(s, "settings") {
            Some(Self::Settings)
        } else {
            None
        };
        proof {
            if let Some(f) = r {
                assert(f.name() == s@);
                Self::names_are_distinct(choose|g: Self| g.name() == s@, f);
            } else {
                assert forall|f: Self| f.name() != s@ by {}
            }
        }
        r
    }

    /// A object type's own word names it and nothing else.
    pub proof fn named_by_its_name(self)
        ensures
            Self::named(self.name()) == Some(self),
    {
        assert(Self::known(self.name()));
        Self::names_are_distinct(choose|g: Self| g.name() == self.name(), self);
    }

    /// No two of these share a word, so a word names at most one object type.
    pub proof fn names_are_distinct(a: Self, b: Self)
        requires
            a.name() == b.name(),
        ensures
            a == b,
    {
        reveal_strlit("pattern");
        reveal_strlit("pattern_wb");
        reveal_strlit("kit");
        reveal_strlit("kit_wb");
        reveal_strlit("sound");
        reveal_strlit("sound_wb");
        reveal_strlit("global");
        reveal_strlit("global_wb");
        reveal_strlit("settings");
        assert("pattern"@.len() == 7);
        assert("pattern_wb"@.len() == 10);
        assert("kit"@.len() == 3);
        assert("kit_wb"@.len() == 6 && "kit_wb"@[0] == 'k');
        assert("sound"@.len() == 5);
        assert("sound_wb"@.len() == 8 && "sound_wb"@[1] == 'o');
        assert("global"@.len() == 6 && "global"@[0] == 'g');
        assert("global_wb"@.len() == 9);
        assert("settings"@.len() == 8 && "settings"@[1] == 'e');
    }

    /// The word holds no colon, so it is never mistaken for an enum reference.
    pub proof fn name_is_plain(self)
        ensures
            is_plain(self.name()),
    {
        reveal_with_fuel(has_no_colon, 32);
        reveal_strlit("pattern");
        reveal_strlit("pattern_wb");
        reveal_strlit("kit");
        reveal_strlit("kit_wb");
        reveal_strlit("sound");
        reveal_strlit("sound_wb");
        reveal_strlit("global");
        reveal_strlit("global_wb");
        reveal_strlit("settings");
        assert(has_no_colon("pattern"@, 7));
        assert(has_no_colon("pattern_wb"@, 10));
        assert(has_no_colon("kit"@, 3));
        assert(has_no_colon("kit_wb"@, 6));
        assert(has_no_colon("sound"@, 5));
        assert(has_no_colon("sound_wb"@, 8));
        assert(has_no_colon("global"@, 6));
        assert(has_no_colon("global_wb"@, 9));
        assert(has_no_colon("settings"@, 8));
        lemma_plain_text(self.name());
    }

    /// The least and the greatest index that selects an object of this type, for the
    /// types whose objects are selected by an index.
    pub open spec fn spec_index_range(self) -> Option<(usize, usize)> {
        match self {
            Self::Pattern | Self::Kit => Some((0, 127)),
            Self::PatternWorkBuffer | Self::KitWorkBuffer | Self::GlobalWorkBuffer
            | Self::Settings => None,
            Self::Sound | Self::SoundWorkBuffer => Some((0, 11)),
            Self::Global => Some((0, 3)),
        }
    }

    /// The least and the greatest index that selects an object of this type, for the
    /// types whose objects are selected by an index.
    #[verifier::when_used_as_spec(spec_index_range)]
    pub fn index_range(self) -> (r: Option<(usize, usize)>)
        ensures
            r == self.spec_index_range(),
    {
        match self {
            Self::Pattern | Self::Kit => Some((0, 127)),
            Self::PatternWorkBuffer | Self::KitWorkBuffer | Self::GlobalWorkBuffer
            | Self::Settings => None,
            Self::Sound | Self::SoundWorkBuffer => Some((0, 11)),
            Self::Global => Some((0, 3)),
        }
    }
}

} // verus!
