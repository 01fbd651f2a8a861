//! The two classifications of a project listing: [`Category`], the domain a
//! project belongs to, and [`SortType`], the order of a listing.
//!
//! Each is a closed set of variants with a numeric id and a name. Reading an
//! id or a name never fails: what is not recognised becomes the fallback
//! variant (`Undefined`, `MostStars`).

use vstd::prelude::*;
use crate::text::{decimal, decimal_text, same_text};

verus! {

/// Specifies the category of a project.
///
/// Every project can only have one `Category`.
#[derive(Clone, Copy, PartialEq, Eq, Structural)]
pub enum Category {
    AdminTools,
    Chat,
    DeveloperTools,
    Economy,
    Gameplay,
    Games,
    Protection,
    RolePlaying,
    WorldManagement,
    Miscellaneous,
    Undefined,
}

impl Category {
    /// The id of a category: `0` to `9` for the named ones, `10` for
    /// `Undefined`.
    pub open spec fn id(self) -> u8 {
        match self {
            Category::AdminTools => 0,
            Category::Chat => 1,
            Category::DeveloperTools => 2,
            Category::Economy => 3,
            Category::Gameplay => 4,
            Category::Games => 5,
            Category::Protection => 6,
            Category::RolePlaying => 7,
            Category::WorldManagement => 8,
            Category::Miscellaneous => 9,
            Category::Undefined => 10,
        }
    }

    /// The name of a category, as it is displayed and as it is read back.
    pub open spec fn name(self) -> Seq<char> {
        match self {
            Category::AdminTools => "AdminTools"@,
            Category::Chat => "Chat"@,
            Category::DeveloperTools => "DeveloperTools"@,
            Category::Economy => "Economy"@,
            Category::Gameplay => "Gameplay"@,
            Category::Games => "Games"@,
            Category::Protection => "Protection"@,
            Category::RolePlaying => "RolePlaying"@,
            Category::WorldManagement => "WorldManagement"@,
            Category::Miscellaneous => "Miscellaneous"@,
            Category::Undefined => "Undefined"@,
        }
    }

    /// Whether this is one of the ten categories that stand for a domain,
    /// that is, any but `Undefined`.
    pub open spec fn is_named(self) -> bool {
        self != Category::Undefined
    }

    /// The category that an id stands for: the named category with that id,
    /// and `Undefined` for every other id.
    pub open spec fn of_id(id: u8) -> Category {
        match id {
            0 => Category::AdminTools,
            1 => Category::Chat,
            2 => Category::DeveloperTools,
            3 => Category::Economy,
            4 => Category::Gameplay,
            5 => Category::Games,
            6 => Category::Protection,
            7 => Category::RolePlaying,
            8 => Category::WorldManagement,
            9 => Category::Miscellaneous,
            _ => Category::Undefined,
        }
    }

    /// The category that a name stands for: the named category with exactly
    /// that name, and `Undefined` for every other text.
    pub open spec fn of_name(name: Seq<char>) -> Category {
        if name == "AdminTools"@ {
            Category::AdminTools
        } else if name == "Chat"@ {
            Category::Chat
        } else if name == "DeveloperTools"@ {
            Category::DeveloperTools
        } else if name == "Economy"@ {
            Category::Economy
        } else if name == "Gameplay"@ {
            Category::Gameplay
        } else if name == "Games"@ {
            Category::Games
        } else if name == "Protection"@ {
            Category::Protection
        } else if name == "RolePlaying"@ {
            Category::RolePlaying
        } else if name == "WorldManagement"@ {
            Category::WorldManagement
        } else if name == "Miscellaneous"@ {
            Category::Miscellaneous
        } else {
            Category::Undefined
        }
    }

    /// The text that the debug format gives: the type's name, then the id
    /// and the name of the variant in braces.
    pub open spec fn debug_text(self) -> Seq<char> {
        "Category { id: "@ + decimal(self.id() as nat) + ", name: "@ + self.name() + " }"@
    }

    /// Gets a `Category` from a string.
    ///
    /// The match is exact and case-sensitive; any text that is not the name
    /// of a named category gives `Undefined`.
    pub fn from_string(name: &str) -> (category: Self)
        ensures
            category == Self::of_name(name@),
    {
        if same_text(name, "AdminTools") {
            Category::AdminTools
        } else if same_text(name, "Chat") {
            Category::Chat
        } else if same_text(name, "DeveloperTools") {
            Category::DeveloperTools
        } else if same_text(name, "Economy") {
            Category::Economy
        } else if same_text(name, "Gameplay") {
            Category::Gameplay
        } else if same_text(name, "Games") {
            Category::Games
        } else if same_text(name, "Protection") {
            Category::Protection
        } else if same_text(name, "RolePlaying") {
            Category::RolePlaying
        } else if same_text(name, "WorldManagement") {
            Category::WorldManagement
        } else if same_text(name, "Miscellaneous") {
            Category::Miscellaneous
        } else {
            Category::Undefined
        }
    }

    /// Gets a `Category` from an id.
    ///
    /// Ids `0` to `9` give the named categories; every other id gives
    /// `Undefined`.
    pub fn from_id(id: &u8) -> (category: Self)
        ensures
            category == Self::of_id(*id),
    {
        match *id {
            0u8 => Category::AdminTools,
            1u8 => Category::Chat,
            2u8 => Category::DeveloperTools,
            3u8 => Category::Economy,
            4u8 => Category::Gameplay,
            5u8 => Category::Games,
            6u8 => Category::Protection,
            7u8 => Category::RolePlaying,
            8u8 => Category::WorldManagement,
            9u8 => Category::Miscellaneous,
            _ => Category::Undefined,
        }
    }

    /// Converts a `Category` to its corresponding id.
    pub fn to_id(&self) -> (id: u8)
        ensures
            id == self.id(),
            id <= 10,
    {
        match *self {
            Category::AdminTools => 0u8,
            Category::Chat => 1u8,
            Category::DeveloperTools => 2u8,
            Category::Economy => 3u8,
            Category::Gameplay => 4u8,
            Category::Games => 5u8,
            Category::Protection => 6u8,
            Category::RolePlaying => 7u8,
            Category::WorldManagement => 8u8,
            Category::Miscellaneous => 9u8,
            Category::Undefined => 10u8,
        }
    }

    /// The name of the category as an owned string: the text that the
    /// display format gives.
    pub fn as_string(&self) -> (name: String)
        ensures
            name@ == self.name(),
    {
        match *self {
            Category::AdminTools => "AdminTools",
            Category::Chat => "Chat",
            Category::DeveloperTools => "DeveloperTools",
            Category::Economy => "Economy",
            Category::Gameplay => "Gameplay",
            Category::Games => "Games",
            Category::Protection => "Protection",
            Category::RolePlaying => "RolePlaying",
            Category::WorldManagement => "WorldManagement",
            Category::Miscellaneous => "Miscellaneous",
            Category::Undefined => "Undefined",
        }.to_string()
    }

    /// The text that the debug format gives, as an owned string.
    pub fn debug_string(&self) -> (text: String)
        ensures
            text@ == self.debug_text(),
    {
        let mut text = String::from_str("Category { id: ");
        text.append(decimal_text(self.to_id()).as_str());
        text.append(", name: ");
        text.append(self.as_string().as_str());
        text.append(" }");
        text
    }
}


/// Specifies the sort query type.
#[derive(Clone, Copy, PartialEq, Eq, Structural)]
pub enum SortType {
    MostStars,
    MostDownloads,
    MostViews,
    Newest,
    RecentlyUpdated,
}

impl SortType {
    /// The id of a sort type: `0` to `4`, in the order of the variants.
    pub open spec fn id(self) -> u8 {
        match self {
            SortType::MostStars => 0,
            SortType::MostDownloads => 1,
            SortType::MostViews => 2,
            SortType::Newest => 3,
            SortType::RecentlyUpdated => 4,
        }
    }

    /// The name of a sort type, as it is displayed and as it is read back.
    pub open spec fn name(self) -> Seq<char> {
        match self {
            SortType::MostStars => "MostStars"@,
            SortType::MostDownloads => "MostDownloads"@,
            SortType::MostViews => "MostViews"@,
            SortType::Newest => "Newest"@,
            SortType::RecentlyUpdated => "RecentlyUpdated"@,
        }
    }

    /// Whether this is the sort type that stands in for whatever is not
    /// recognised: `MostStars`.
    pub open spec fn is_default(self) -> bool {
        self == SortType::MostStars
    }

    /// The sort type that an id stands for: the one with that id, and
    /// `MostStars` for every id above `4`.
    pub open spec fn of_id(id: u8) -> SortType {
        match id {
            1 => SortType::MostDownloads,
            2 => SortType::MostViews,
            3 => SortType::Newest,
            4 => SortType::RecentlyUpdated,
            _ => SortType::MostStars,
        }
    }

    /// The sort type that a name stands for: the one other than `MostStars`
    /// with exactly that name, and `MostStars` for every other text.
    pub open spec fn of_name(name: Seq<char>) -> SortType {
        if name == "MostDownloads"@ {
            SortType::MostDownloads
        } else if name == "MostViews"@ {
            SortType::MostViews
        } else if name == "Newest"@ {
            SortType::Newest
        } else if name == "RecentlyUpdated"@ {
            SortType::RecentlyUpdated
        } else {
            SortType::MostStars
        }
    }

    /// The text that the debug format gives: the type's name, then the id
    /// and the name of the variant in braces.
    pub open spec fn debug_text(self) -> Seq<char> {
        "SortType { id: "@ + decimal(self.id() as nat) + ", name: "@ + self.name() + " }"@
    }

    /// Gets a `SortType` from a string.
    ///
    /// The match is exact and case-sensitive; any text that is not the name
    /// of a sort type gives `MostStars`.
    pub fn from_string(name: &str) -> (sort: Self)
        ensures
            sort == Self::of_name(name@),
    {
        if same_text(name, "MostDownloads") {
            SortType::MostDownloads
        } else if same_text(name, "MostViews") {
            SortType::MostViews
        } else if same_text(name, "Newest") {
            SortType::Newest
        } else if same_text(name, "RecentlyUpdated") {
            SortType::RecentlyUpdated
        } else {
            SortType::MostStars
        }
    }

    /// Gets a `SortType` from an id.
    ///
    /// Ids `1` to `4` give the sort types after `MostStars`; every other
    /// id, `0` among them, gives `MostStars`.
    pub fn from_id(id: &u8) -> (sort: Self)
        ensures
            sort == Self::of_id(*id),
    {
        match *id {
            1u8 => SortType::MostDownloads,
            2u8 => SortType::MostViews,
            3u8 => SortType::Newest,
            4u8 => SortType::RecentlyUpdated,
            _ => SortType::MostStars,
        }
    }

    /// Converts a `SortType` to its corresponding id.
    pub fn to_id(&self) -> (id: u8)
        ensures
            id == self.id(),
            id <= 4,
    {
        match *self {
            SortType::MostStars => 0u8,
            SortType::MostDownloads => 1u8,
            SortType::MostViews => 2u8,
            SortType::Newest => 3u8,
            SortType::RecentlyUpdated => 4u8,
        }
    }

    /// The name of the sort type as an owned string: the text that the
    /// display format gives.
    pub fn as_string(&self) -> (name: String)
        ensures
            name@ == self.name(),
    {
        match *self {
            SortType::MostStars => "MostStars",
            SortType::MostDownloads => "MostDownloads",
            SortType::MostViews => "MostViews",
            SortType::Newest => "Newest",
            SortType::RecentlyUpdated => "RecentlyUpdated",
        }.to_string()
    }

    /// The text that the debug format gives, as an owned string.
    pub fn debug_string(&self) -> (text: String)
        ensures
            text@ == self.debug_text(),
    {
        let mut text = String::from_str("SortType { id: ");
        text.append(decimal_text(self.to_id()).as_str());
        text.append(", name: ");
        text.append(self.as_string().as_str());
        text.append(" }");
        text
    }
}

} // verus!
