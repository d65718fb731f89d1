//! The closed categorical attributes of a registration. Each one parses from
//! an exact, case-sensitive literal; an unrecognised literal falls back to
//! the category's default variant, never to an error. Each variant also has
//! one canonical text encoding, which is what the store persists.

use vstd::prelude::*;

verus! {

/// Academic title of the registrant; `Other` is the default variant.
#[derive(Debug, PartialEq, Eq, Structural, Clone, Copy)]
pub enum Title {
    Other,
    Msc,
    Dr,
    Prof,
}

/// Whether and how the registrant presents; `NotPresenting` is the default
/// variant.
#[derive(Debug, PartialEq, Eq, Structural, Clone, Copy)]
pub enum Presentation {
    Poster,
    Talk,
    NotPresenting,
}

/// Meal choice of the registrant; `NoMeal` is the default variant.
#[derive(Debug, PartialEq, Eq, Structural, Clone, Copy)]
pub enum Meal {
    MeatEater,
    Vegetarian,
    NoMeal,
}

/// The title a submitted literal denotes; anything unrecognised is `Other`.
pub open spec fn spec_title_of(s: Seq<char>) -> Title {
    if s == "msc"@ {
        Title::Msc
    } else if s == "dr"@ {
        Title::Dr
    } else if s == "prof"@ {
        Title::Prof
    } else {
        Title::Other
    }
}

/// The canonical text encoding of a title.
pub open spec fn spec_title_text(t: Title) -> Seq<char> {
    match t {
        Title::Msc => "msc"@,
        Title::Dr => "dr"@,
        Title::Prof => "prof"@,
        Title::Other => "other"@,
    }
}

/// The presentation kind a submitted literal denotes; anything unrecognised
/// is `NotPresenting`.
pub open spec fn spec_presentation_of(s: Seq<char>) -> Presentation {
    if s == "poster"@ {
        Presentation::Poster
    } else if s == "talk"@ {
        Presentation::Talk
    } else {
        Presentation::NotPresenting
    }
}

/// The canonical text encoding of a presentation kind.
pub open spec fn spec_presentation_text(p: Presentation) -> Seq<char> {
    match p {
        Presentation::Poster => "poster"@,
        Presentation::Talk => "talk"@,
        Presentation::NotPresenting => "not_presenting"@,
    }
}

/// The meal choice a submitted literal denotes; anything unrecognised is
/// `NoMeal`.
pub open spec fn spec_meal_of(s: Seq<char>) -> Meal {
    if s == "vegetarian"@ {
        Meal::Vegetarian
    } else if s == "meat_eater"@ {
        Meal::MeatEater
    } else {
        Meal::NoMeal
    }
}

/// The canonical text encoding of a meal choice.
pub open spec fn spec_meal_text(m: Meal) -> Seq<char> {
    match m {
        Meal::Vegetarian => "vegetarian"@,
        Meal::MeatEater => "meat_eater"@,
        Meal::NoMeal => "no_meal"@,
    }
}

impl From<String> for Title {
    fn from(title: String) -> (r: Title) {
        if title == "msc".to_owned() {
            Title::Msc
        } else if title == "dr".to_owned() {
            Title::Dr
        } else if title == "prof".to_owned() {
            Title::Prof
        } else {
            Title::Other
        }
    }
}

impl vstd::std_specs::convert::FromSpecImpl<String> for Title {
    open spec fn obeys_from_spec() -> bool {
        true
    }

    open spec fn from_spec(v: String) -> Title {
        spec_title_of(v@)
    }
}

impl From<String> for Presentation {
    fn from(kind: String) -> (r: Presentation) {
        if kind == "poster".to_owned() {
            Presentation::Poster
        } else if kind == "talk".to_owned() {
            Presentation::Talk
        } else {
            Presentation::NotPresenting
        }
    }
}

impl vstd::std_specs::convert::FromSpecImpl<String> for Presentation {
    open spec fn obeys_from_spec() -> bool {
        true
    }

    open spec fn from_spec(v: String) -> Presentation {
        spec_presentation_of(v@)
    }
}

impl From<String> for Meal {
    fn from(choice: String) -> (r: Meal) {
        if choice == "vegetarian".to_owned() {
            Meal::Vegetarian
        } else if choice == "meat_eater".to_owned() {
            Meal::MeatEater
        } else {
            Meal::NoMeal
        }
    }
}

impl vstd::std_specs::convert::FromSpecImpl<String> for Meal {
    open spec fn obeys_from_spec() -> bool {
        true
    }

    open spec fn from_spec(v: String) -> Meal {
        spec_meal_of(v@)
    }
}

impl Title {
    /// The canonical text encoding, as the store persists it.
    pub fn to_text(&self) -> (r: String)
        ensures
            r@ == spec_title_text(*self),
    {
        match self {
            Title::Msc => "msc".to_owned(),
            Title::Dr => "dr".to_owned(),
            Title::Prof => "prof".to_owned(),
            Title::Other => "other".to_owned(),
        }
    }
}

impl Presentation {
    /// The canonical text encoding, as the store persists it.
    pub fn to_text(&self) -> (r: String)
        ensures
            r@ == spec_presentation_text(*self),
    {
        match self {
            Presentation::Poster => "poster".to_owned(),
            Presentation::Talk => "talk".to_owned(),
            Presentation::NotPresenting => "not_presenting".to_owned(),
        }
    }
}

impl Meal {
    /// The canonical text encoding, as the store persists it.
    pub fn to_text(&self) -> (r: String)
        ensures
            r@ == spec_meal_text(*self),
    {
        match self {
            Meal::Vegetarian => "vegetarian".to_owned(),
            Meal::MeatEater => "meat_eater".to_owned(),
            Meal::NoMeal => "no_meal".to_owned(),
        }
    }
}

/// An unrecognised title literal maps to the default variant `Other`,
/// never to an error.
pub proof fn lemma_unknown_title_defaults(s: Seq<char>)
    requires
        s != "msc"@,
        s != "dr"@,
        s != "prof"@,
    ensures
        spec_title_of(s) == Title::Other,
{
}

/// An unrecognised presentation literal maps to the default variant
/// `NotPresenting`, never to an error.
pub proof fn lemma_unknown_presentation_defaults(s: Seq<char>)
    requires
        s != "poster"@,
        s != "talk"@,
    ensures
        spec_presentation_of(s) == Presentation::NotPresenting,
{
}

/// An unrecognised meal literal maps to the default variant `NoMeal`,
/// never to an error.
pub proof fn lemma_unknown_meal_defaults(s: Seq<char>)
    requires
        s != "vegetarian"@,
        s != "meat_eater"@,
    ensures
        spec_meal_of(s) == Meal::NoMeal,
{
}

} // verus!
