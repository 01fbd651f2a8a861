//! What holds of the conversions between variants, ids and names: each
//! variant is found again from its id and from its name, and what is read
//! from an id or a text is either the variant that carries it or the
//! fallback.

use vstd::prelude::*;
use crate::meta::{Category, SortType};

verus! {

/// No two categories share a name, and no name is empty.
pub proof fn lemma_category_names_differ(a: Category, b: Category)
    ensures
        a.name() == b.name() ==> a == b,
        a.name().len() > 0,
{
    reveal_strlit("AdminTools");
    reveal_strlit("Chat");
    reveal_strlit("DeveloperTools");
    reveal_strlit("Economy");
    reveal_strlit("Gameplay");
    reveal_strlit("Games");
    reveal_strlit("Protection");
    reveal_strlit("RolePlaying");
    reveal_strlit("WorldManagement");
    reveal_strlit("Miscellaneous");
    reveal_strlit("Undefined");
    if a.name() == b.name() {
        assert(a.name().len() == b.name().len());
        assert(a.name()[0] == b.name()[0]);
    }
}

/// No two categories share an id, and every id is at most `10`.
pub proof fn lemma_category_ids_differ(a: Category, b: Category)
    ensures
        a.id() == b.id() ==> a == b,
        a.id() <= 10,
{
}

/// Reading a category's own name gives the category back. This holds of
/// `Undefined` too: its name is not the name of a named category.
pub proof fn lemma_category_name_round_trip(c: Category)
    ensures
        Category::of_name(c.name()) == c,
{
    lemma_category_names_differ(c, Category::AdminTools);
    lemma_category_names_differ(c, Category::Chat);
    lemma_category_names_differ(c, Category::DeveloperTools);
    lemma_category_names_differ(c, Category::Economy);
    lemma_category_names_differ(c, Category::Gameplay);
    lemma_category_names_differ(c, Category::Games);
    lemma_category_names_differ(c, Category::Protection);
    lemma_category_names_differ(c, Category::RolePlaying);
    lemma_category_names_differ(c, Category::WorldManagement);
    lemma_category_names_differ(c, Category::Miscellaneous);
}

/// Reading a category's own id gives the category back. This holds of
/// `Undefined` too: `10` is the id of no named category.
pub proof fn lemma_category_id_round_trip(c: Category)
    ensures
        Category::of_id(c.id()) == c,
{
}

/// What an id is read as: a named category exactly for the ids `0` to `9`,
/// and then the one with that id.
pub proof fn lemma_category_of_id(id: u8)
    ensures
        id <= 9 <==> Category::of_id(id).is_named(),
        id <= 10 ==> Category::of_id(id).id() == id,
        id >= 10 ==> Category::of_id(id) == Category::Undefined,
{
}

/// What a text is read as: a named category exactly where the text is the
/// name of one, and then the one with that name.
pub proof fn lemma_category_of_name(name: Seq<char>)
    ensures
        Category::of_name(name).is_named() <==> exists|c: Category|
            c.is_named() && c.name() == name,
        Category::of_name(name).is_named() ==> Category::of_name(name).name() == name,
{
    let read = Category::of_name(name);
    if read.is_named() {
        assert(read.is_named() && read.name() == name);
    }
    if exists|c: Category| c.is_named() && c.name() == name {
        let c = choose|c: Category| c.is_named() && c.name() == name;
        lemma_category_name_round_trip(c);
    }
}

/// No two sort types share a name, and no name is empty.
pub proof fn lemma_sort_type_names_differ(a: SortType, b: SortType)
    ensures
        a.name() == b.name() ==> a == b,
        a.name().len() > 0,
{
    reveal_strlit("MostStars");
    reveal_strlit("MostDownloads");
    reveal_strlit("MostViews");
    reveal_strlit("Newest");
    reveal_strlit("RecentlyUpdated");
    if a.name() == b.name() {
        assert(a.name().len() == b.name().len());
        assert(a.name()[4] == b.name()[4]);
    }
}

/// No two sort types share an id, and every id is at most `4`.
pub proof fn lemma_sort_type_ids_differ(a: SortType, b: SortType)
    ensures
        a.id() == b.id() ==> a == b,
        a.id() <= 4,
{
}

/// Reading a sort type's own name gives the sort type back. This holds of
/// `MostStars` too: its name is read as any unknown text is.
pub proof fn lemma_sort_type_name_round_trip(s: SortType)
    ensures
        SortType::of_name(s.name()) == s,
{
    lemma_sort_type_names_differ(s, SortType::MostDownloads);
    lemma_sort_type_names_differ(s, SortType::MostViews);
    lemma_sort_type_names_differ(s, SortType::Newest);
    lemma_sort_type_names_differ(s, SortType::RecentlyUpdated);
}

/// Reading a sort type's own id gives the sort type back.
pub proof fn lemma_sort_type_id_round_trip(s: SortType)
    ensures
        SortType::of_id(s.id()) == s,
{
}

/// What an id is read as: the sort type with that id for the ids `0` to
/// `4`, and `MostStars`, whose id is `0`, for every other id. Nothing tells
/// an id that was not recognised from the id `0`.
pub proof fn lemma_sort_type_of_id(id: u8)
    ensures
        id <= 4 ==> SortType::of_id(id).id() == id,
        id > 4 ==> SortType::of_id(id) == SortType::MostStars,
        SortType::of_id(id).is_default() <==> id == 0 || id > 4,
{
}

/// What a text is read as: a sort type other than `MostStars` exactly
/// where the text is the name of one, and then the one with that name.
pub proof fn lemma_sort_type_of_name(name: Seq<char>)
    ensures
        !SortType::of_name(name).is_default() <==> exists|s: SortType|
            !s.is_default() && s.name() == name,
        !SortType::of_name(name).is_default() ==> SortType::of_name(name).name() == name,
{
    let read = SortType::of_name(name);
    if !read.is_default() {
        assert(!read.is_default() && read.name() == name);
    }
    if exists|s: SortType| !s.is_default() && s.name() == name {
        let s = choose|s: SortType| !s.is_default() && s.name() == name;
        lemma_sort_type_name_round_trip(s);
    }
}

} // verus!
