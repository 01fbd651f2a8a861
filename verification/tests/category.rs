use project::meta::Category;

fn named() -> Vec<(Category, u8, &'static str)> {
    vec![
        (Category::AdminTools, 0, "AdminTools"),
        (Category::Chat, 1, "Chat"),
        (Category::DeveloperTools, 2, "DeveloperTools"),
        (Category::Economy, 3, "Economy"),
        (Category::Gameplay, 4, "Gameplay"),
        (Category::Games, 5, "Games"),
        (Category::Protection, 6, "Protection"),
        (Category::RolePlaying, 7, "RolePlaying"),
        (Category::WorldManagement, 8, "WorldManagement"),
        (Category::Miscellaneous, 9, "Miscellaneous"),
    ]
}

#[test]
fn category_ids_are_zero_to_nine_in_order() {
    for (category, id, _) in named() {
        assert_eq!(category.to_id(), id);
    }
}

#[test]
fn category_names_are_the_variant_names() {
    for (category, _, name) in named() {
        assert_eq!(category.as_string(), name);
    }
    assert_eq!(Category::Undefined.as_string(), "Undefined");
}

#[test]
fn category_is_found_again_from_its_name() {
    for (category, _, name) in named() {
        assert!(Category::from_string(name) == category);
        assert!(Category::from_string(&category.as_string()) == category);
    }
}

#[test]
fn category_is_found_again_from_its_id() {
    for (category, id, _) in named() {
        assert!(Category::from_id(&id) == category);
        assert!(Category::from_id(&category.to_id()) == category);
    }
}

#[test]
fn category_unknown_names_are_undefined() {
    assert!(Category::from_string("") == Category::Undefined);
    assert!(Category::from_string("bogus") == Category::Undefined);
}

#[test]
fn category_unknown_ids_are_undefined() {
    assert!(Category::from_id(&10) == Category::Undefined);
    assert!(Category::from_id(&255) == Category::Undefined);
    for id in 10u8..=255 {
        assert!(Category::from_id(&id) == Category::Undefined);
    }
}

#[test]
fn category_undefined_has_id_ten() {
    assert_eq!(Category::Undefined.to_id(), 10);
}

#[test]
fn category_undefined_is_found_again_from_its_own_id_and_name() {
    assert!(Category::from_id(&Category::Undefined.to_id()) == Category::Undefined);
    assert!(Category::from_string("Undefined") == Category::Undefined);
}

#[test]
fn category_names_match_exactly() {
    assert!(Category::from_string("economy") == Category::Undefined);
    assert!(Category::from_string("ECONOMY") == Category::Undefined);
    assert!(Category::from_string(" Economy") == Category::Undefined);
    assert!(Category::from_string("Economy ") == Category::Undefined);
    assert!(Category::from_string("Econom") == Category::Undefined);
    assert!(Category::from_string("Game") == Category::Undefined);
    assert!(Category::from_string("Gamesplay") == Category::Undefined);
    assert!(Category::from_string("Admin Tools") == Category::Undefined);
    assert!(Category::from_string("3") == Category::Undefined);
    assert!(Category::from_string("Économie") == Category::Undefined);
}

#[test]
fn category_names_of_equal_length_are_told_apart() {
    assert!(Category::from_string("AdminTools") == Category::AdminTools);
    assert!(Category::from_string("Protection") == Category::Protection);
    assert!(Category::from_string("Gameplay") == Category::Gameplay);
    assert!(Category::from_string("Games") == Category::Games);
}

#[test]
fn category_economy_display_text() {
    assert_eq!(Category::Economy.as_string(), "Economy");
}

#[test]
fn category_economy_debug_text() {
    assert_eq!(Category::Economy.debug_string(), "Category { id: 3, name: Economy }");
}

#[test]
fn category_debug_text_of_each_variant() {
    for (category, id, name) in named() {
        assert_eq!(
            category.debug_string(),
            format!("Category {{ id: {}, name: {} }}", id, name)
        );
    }
    assert_eq!(
        Category::Undefined.debug_string(),
        "Category { id: 10, name: Undefined }"
    );
}

#[test]
fn category_is_a_plain_value() {
    let a = Category::Chat;
    let b = a;
    let c = a.clone();
    assert!(a == b);
    assert!(b == c);
    assert!(a != Category::Games);
}
