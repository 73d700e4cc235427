//! The colour themes that the player offers.

use vstd::prelude::*;
use vstd::string::*;

verus! {

/// A colour theme of the user interface.
#[derive(Copy, Clone, Debug, PartialEq, Eq, Structural)]
pub enum Theme {
    Abyss,
    Aqua,
    Black,
    Caramellatte,
    Coffee,
    Cyberpunk,
    Dark,
    Dracula,
    Light,
    Pastel,
    Retro,
    Synthwave,
}

impl Theme {
    /// The name under which the theme is shown.
    pub open spec fn name_text(self) -> Seq<char> {
        match self {
            Theme::Abyss => "Abyss"@,
            Theme::Aqua => "Aqua"@,
            Theme::Black => "Black"@,
            Theme::Caramellatte => "Caramellatte"@,
            Theme::Coffee => "Coffee"@,
            Theme::Cyberpunk => "Cyberpunk"@,
            Theme::Dark => "Dark"@,
            Theme::Dracula => "Dracula"@,
            Theme::Light => "Light"@,
            Theme::Pastel => "Pastel"@,
            Theme::Retro => "Retro"@,
            Theme::Synthwave => "Synthwave"@,
        }
    }

    /// The lower-case identifier under which the theme is known to the
    /// presentation layer.
    pub open spec fn identifier_text(self) -> Seq<char> {
        match self {
            Theme::Abyss => "abyss"@,
            Theme::Aqua => "aqua"@,
            Theme::Black => "black"@,
            Theme::Caramellatte => "caramellatte"@,
            Theme::Coffee => "coffee"@,
            Theme::Cyberpunk => "cyberpunk"@,
            Theme::Dark => "dark"@,
            Theme::Dracula => "dracula"@,
            Theme::Light => "light"@,
            Theme::Pastel => "pastel"@,
            Theme::Retro => "retro"@,
            Theme::Synthwave => "synthwave"@,
        }
    }

    /// Returns the theme's display name.
    pub fn name(&self) -> (text: String)
        ensures
            text@ == self.name_text(),
    {
        match self {
            Theme::Abyss => String::from_str("Abyss"),
            Theme::Aqua => String::from_str("Aqua"),
            Theme::Black => String::from_str("Black"),
            Theme::Caramellatte => String::from_str("Caramellatte"),
            Theme::Coffee => String::from_str("Coffee"),
            Theme::Cyberpunk => String::from_str("Cyberpunk"),
            Theme::Dark => String::from_str("Dark"),
            Theme::Dracula => String::from_str("Dracula"),
            Theme::Light => String::from_str("Light"),
            Theme::Pastel => String::from_str("Pastel"),
            Theme::Retro => String::from_str("Retro"),
            Theme::Synthwave => String::from_str("Synthwave"),
        }
    }

    /// Returns the theme's lower-case identifier.
    pub fn identifier(&self) -> (text: String)
        ensures
            text@ == self.identifier_text(),
    {
        match self {
            Theme::Abyss => String::from_str("abyss"),
            Theme::Aqua => String::from_str("aqua"),
            Theme::Black => String::from_str("black"),
            Theme::Caramellatte => String::from_str("caramellatte"),
            Theme::Coffee => String::from_str("coffee"),
            Theme::Cyberpunk => String::from_str("cyberpunk"),
            Theme::Dark => String::from_str("dark"),
            Theme::Dracula => String::from_str("dracula"),
            Theme::Light => String::from_str("light"),
            Theme::Pastel => String::from_str("pastel"),
            Theme::Retro => String::from_str("retro"),
            Theme::Synthwave => String::from_str("synthwave"),
        }
    }
}

impl Default for Theme {
    fn default() -> (theme: Self)
        ensures
            theme == Theme::Black,
    {
        Theme::Black
    }
}

} // verus!
