use crate::text::is_word;
use vstd::prelude::*;
use vstd::string::*;

verus! {

/// A colour theme of the timer.
#[derive(Clone, Copy, Debug, PartialEq, Eq, Structural)]
pub enum Theme {
    Blue,
    Green,
    Purple,
    Orange,
    Red,
    Dark,
    Light,
    Dynamic,
    Transparent,
}

/// What every theme's menu identifier begins with.
pub open spec fn theme_prefix() -> Seq<char> {
    "theme_"@
}

/// The themes, in the order in which the tray menu lists them.
pub open spec fn all_themes() -> Seq<Theme> {
    seq![
        Theme::Blue,
        Theme::Green,
        Theme::Purple,
        Theme::Orange,
        Theme::Red,
        Theme::Dark,
        Theme::Light,
        Theme::Dynamic,
        Theme::Transparent,
    ]
}

/// The theme that is called `name`, if there is one.
pub open spec fn theme_named(name: Seq<char>) -> Option<Theme> {
    if name == "blue"@ {
        Some(Theme::Blue)
    } else if name == "green"@ {
        Some(Theme::Green)
    } else if name == "purple"@ {
        Some(Theme::Purple)
    } else if name == "orange"@ {
        Some(Theme::Orange)
    } else if name == "red"@ {
        Some(Theme::Red)
    } else if name == "dark"@ {
        Some(Theme::Dark)
    } else if name == "light"@ {
        Some(Theme::Light)
    } else if name == "dynamic"@ {
        Some(Theme::Dynamic)
    } else if name == "transparent"@ {
        Some(Theme::Transparent)
    } else {
        None
    }
}

impl Theme {
    /// The name by which the frontend knows the theme.
    pub open spec fn name_text(self) -> Seq<char> {
        match self {
            Theme::Blue => "blue"@,
            Theme::Green => "green"@,
            Theme::Purple => "purple"@,
            Theme::Orange => "orange"@,
            Theme::Red => "red"@,
            Theme::Dark => "dark"@,
            Theme::Light => "light"@,
            Theme::Dynamic => "dynamic"@,
            Theme::Transparent => "transparent"@,
        }
    }

    /// The label of the theme's entry in the tray menu.
    pub open spec fn title_text(self) -> Seq<char> {
        match self {
            Theme::Blue => "Ocean Blue"@,
            Theme::Green => "Forest Green"@,
            Theme::Purple => "Sunset Purple"@,
            Theme::Orange => "Fire Orange"@,
            Theme::Red => "Cherry Red"@,
            Theme::Dark => "Dark Matter"@,
            Theme::Light => "Sky Light"@,
            Theme::Dynamic => "Dynamic (10 Colors)"@,
            Theme::Transparent => "Crystal Clear"@,
        }
    }

    /// The identifier of the theme's entry in the tray menu.
    pub open spec fn identifier_text(self) -> Seq<char> {
        theme_prefix() + self.name_text()
    }

    /// The name by which the frontend knows the theme.
    pub fn name(self) -> (text: &'static str)
        ensures
            text@ == self.name_text(),
    {
        match self {
            Theme::Blue => "blue",
            Theme::Green => "green",
            Theme::Purple => "purple",
            Theme::Orange => "orange",
            Theme::Red => "red",
            Theme::Dark => "dark",
            Theme::Light => "light",
            Theme::Dynamic => "dynamic",
            Theme::Transparent => "transparent",
        }
    }

    /// The label of the theme's entry in the tray menu.
    pub fn title(self) -> (text: &'static str)
        ensures
            text@ == self.title_text(),
    {
        match self {
            Theme::Blue => "Ocean Blue",
            Theme::Green => "Forest Green",
            Theme::Purple => "Sunset Purple",
            Theme::Orange => "Fire Orange",
            Theme::Red => "Cherry Red",
            Theme::Dark => "Dark Matter",
            Theme::Light => "Sky Light",
            Theme::Dynamic => "Dynamic (10 Colors)",
            Theme::Transparent => "Crystal Clear",
        }
    }

    /// The identifier of the theme's entry in the tray menu.
    pub fn identifier(self) -> (text: String)
        ensures
            text@ == self.identifier_text(),
    {
        String::from_str("theme_").concat(self.name())
    }

    /// The theme that is called `name`, if there is one.
    pub fn from_name(name: &[char]) -> (theme: Option<Theme>)
        ensures
            theme == theme_named(name@),
    {
        if is_word(name, "blue") {
            Some(Theme::Blue)
        } else if is_word(name, "green") {
            Some(Theme::Green)
        } else if is_word(name, "purple") {
            Some(Theme::Purple)
        } else if is_word(name, "orange") {
            Some(Theme::Orange)
        } else if is_word(name, "red") {
            Some(Theme::Red)
        } else if is_word(name, "dark") {
            Some(Theme::Dark)
        } else if is_word(name, "light") {
            Some(Theme::Light)
        } else if is_word(name, "dynamic") {
            Some(Theme::Dynamic)
        } else if is_word(name, "transparent") {
            Some(Theme::Transparent)
        } else {
            None
        }
    }

    /// The themes, in the order in which the tray menu lists them.
    pub fn all() -> (themes: Vec<Theme>)
        ensures
            themes@ == all_themes(),
    {
        vec![
            Theme::Blue,
            Theme::Green,
            Theme::Purple,
            Theme::Orange,
            Theme::Red,
            Theme::Dark,
            Theme::Light,
            Theme::Dynamic,
            Theme::Transparent,
        ]
    }
}

/// No two themes share a name: a theme's name names that theme.
pub proof fn lemma_theme_named_by_its_name(theme: Theme)
    ensures
        theme_named(theme.name_text()) == Some(theme),
{
    reveal_strlit("blue");
    reveal_strlit("green");
    reveal_strlit("purple");
    reveal_strlit("orange");
    reveal_strlit("red");
    reveal_strlit("dark");
    reveal_strlit("light");
    reveal_strlit("dynamic");
    reveal_strlit("transparent");
    assert("blue"@.len() == 4 && "blue"@[0] == 'b');
    assert("green"@.len() == 5 && "green"@[0] == 'g');
    assert("purple"@.len() == 6 && "purple"@[0] == 'p');
    assert("orange"@.len() == 6 && "orange"@[0] == 'o');
    assert("red"@.len() == 3);
    assert("dark"@.len() == 4 && "dark"@[0] == 'd');
    assert("light"@.len() == 5 && "light"@[0] == 'l');
    assert("dynamic"@.len() == 7);
    assert("transparent"@.len() == 11);
}

/// A name that names a theme is that theme's name.
pub proof fn lemma_name_of_theme_named(name: Seq<char>)
    ensures
        theme_named(name) matches Some(theme) ==> theme.name_text() == name,
{
}

} // verus!
